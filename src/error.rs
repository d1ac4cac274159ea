use vstd::prelude::*;
use vstd::string::StringExecFns;

verus! {

/// Why a run stopped before the end of the program.
#[derive(Debug, Clone, Copy, PartialEq, Eq, Structural)]
pub enum Error {
    /// A cell was accessed while the data pointer stood outside the tape:
    /// the pointer's position, then the tape's length.
    CellIndexOutOfRange(isize, usize),
    /// A `[` has no `]` that closes it.
    UnmatchedOpenBracket,
    /// A `]` was met with no open loop to return to.
    UnmatchedCloseBracket,
    /// No input byte was there when one had to be read.
    InputFailure,
}

/// The character of a decimal digit.
pub open spec fn digit_char(d: nat) -> char {
    ((48 + d) as u8) as char
}

/// Decimal digits of `n`, most significant first, with no leading zero.
pub open spec fn decimal_digits(n: nat) -> Seq<char>
    decreases n,
{
    if n < 10 {
        seq![digit_char(n)]
    } else {
        decimal_digits(n / 10).push(digit_char(n % 10))
    }
}

/// Decimal form of `n`, with a `-` before a negative number.
pub open spec fn decimal(n: int) -> Seq<char> {
    if n < 0 {
        seq!['-'] + decimal_digits((-n) as nat)
    } else {
        decimal_digits(n as nat)
    }
}

/// Relies on isize's `Display` (through `ToString`): its decimal form.
#[verifier::external_body]
fn signed_decimal(n: isize) -> (r: String)
    ensures
        r@ == decimal(n as int),
{
    n.to_string()
}

/// Relies on usize's `Display` (through `ToString`): its decimal form.
#[verifier::external_body]
fn unsigned_decimal(n: usize) -> (r: String)
    ensures
        r@ == decimal(n as int),
{
    n.to_string()
}

/// The text that tells a user what went wrong.
pub open spec fn description_of(e: Error) -> Seq<char> {
    match e {
        Error::CellIndexOutOfRange(index, size) => "data pointer at index `"@ + decimal(index as int)
            + "` moved outside of cells with size "@ + decimal(size as int),
        Error::UnmatchedOpenBracket => "no `[` in character range"@,
        Error::UnmatchedCloseBracket => "no `]` in character range"@,
        Error::InputFailure => "failed to read input"@,
    }
}

impl Error {
    /// What went wrong, in words.
    pub fn description(&self) -> (r: String)
        ensures
            r@ == description_of(*self),
    {
        match self {
            Error::CellIndexOutOfRange(index, size) => {
                let mut text = String::from_str("data pointer at index `");
                let index_text = signed_decimal(*index);
                text.append(index_text.as_str());
                text.append("` moved outside of cells with size ");
                let size_text = unsigned_decimal(*size);
                text.append(size_text.as_str());
                text
            },
            Error::UnmatchedOpenBracket => String::from_str("no `[` in character range"),
            Error::UnmatchedCloseBracket => String::from_str("no `]` in character range"),
            Error::InputFailure => String::from_str("failed to read input"),
        }
    }
}

} // verus!
