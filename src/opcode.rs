use vstd::prelude::*;

verus! {

/// Moves the data pointer one cell to the right.
pub const RIGHT: u8 = 0x3e;

/// Moves the data pointer one cell to the left.
pub const LEFT: u8 = 0x3c;

/// Adds one to the current cell, wrapping at 256.
pub const INCREMENT: u8 = 0x2b;

/// Subtracts one from the current cell, wrapping at 0.
pub const DECREMENT: u8 = 0x2d;

/// Starts a loop, skipped when the current cell is zero.
pub const OPEN: u8 = 0x5b;

/// Ends a loop, repeated while the current cell is not zero.
pub const CLOSE: u8 = 0x5d;

/// Reads one byte of input into the current cell.
pub const INPUT: u8 = 0x2c;

/// Appends the current cell to the output.
pub const OUTPUT: u8 = 0x2e;

/// The byte is one of the eight commands; every other byte is a comment.
pub open spec fn is_opcode(b: u8) -> bool {
    b == RIGHT || b == LEFT || b == INCREMENT || b == DECREMENT || b == OPEN || b == CLOSE
        || b == INPUT || b == OUTPUT
}

} // verus!
