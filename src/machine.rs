use vstd::prelude::*;
use vstd::string::StringSliceAdditionalSpecFns;

use crate::bracket::{bracket_match, has_matching_close, matching_close};
use crate::error::Error;
use crate::opcode::{CLOSE, DECREMENT, INCREMENT, INPUT, LEFT, OPEN, OUTPUT, RIGHT};

verus! {

/// Number of cells on the tape.
pub const TAPE_SIZE: usize = 30000;

/// The state of a run, as mathematical values.
pub struct Config {
    /// The opcode stream, one byte per instruction.
    pub program: Seq<u8>,
    /// The tape.
    pub cells: Seq<u8>,
    /// The data pointer; it may stand outside the tape until a cell is accessed.
    pub pointer: int,
    /// The instruction pointer: index of the next instruction.
    pub counter: int,
    /// Positions of the `[` of the loops that are open.
    pub stack: Seq<usize>,
    /// Bytes written so far.
    pub output: Seq<u8>,
}

pub open spec fn in_tape(p: int) -> bool {
    0 <= p < TAPE_SIZE as int
}

pub open spec fn out_of_range(p: int) -> Error {
    Error::CellIndexOutOfRange(p as isize, TAPE_SIZE)
}

/// Adds one to a cell, 255 wrapping to 0.
pub open spec fn increment(v: u8) -> u8 {
    if v == 255 {
        0
    } else {
        (v + 1) as u8
    }
}

/// Subtracts one from a cell, 0 wrapping to 255.
pub open spec fn decrement(v: u8) -> u8 {
    if v == 0 {
        255
    } else {
        (v - 1) as u8
    }
}

/// A fresh run of `program`: every cell zero, both pointers at the start.
pub open spec fn initial(program: Seq<u8>) -> Config {
    Config {
        program,
        cells: Seq::new(TAPE_SIZE as nat, |i: int| 0u8),
        pointer: 0,
        counter: 0,
        stack: Seq::empty(),
        output: Seq::empty(),
    }
}

/// What every state of a run satisfies.
pub open spec fn valid(c: Config) -> bool {
    &&& c.cells.len() == TAPE_SIZE
    &&& c.program.len() <= usize::MAX
    &&& isize::MIN <= c.pointer <= isize::MAX
    &&& 0 <= c.counter <= c.program.len()
    &&& forall|i: int| 0 <= i < c.stack.len() ==> c.stack[i] < c.program.len()
}

/// The instruction pointer has walked off the end of the program.
pub open spec fn halted(c: Config) -> bool {
    c.counter >= c.program.len()
}

/// The next instruction reads a byte of input.
pub open spec fn awaits_input(c: Config) -> bool {
    !halted(c) && c.program[c.counter] == INPUT
}

/// One instruction, given the input byte that a `,` would read.
pub open spec fn step(c: Config, input: Option<u8>) -> Result<Config, Error>
    recommends
        !halted(c),
{
    let op = c.program[c.counter];
    let next = Config { counter: c.counter + 1, ..c };
    let p = c.pointer;
    if op == RIGHT {
        if p == isize::MAX {
            Err(out_of_range(p))
        } else {
            Ok(Config { pointer: p + 1, ..next })
        }
    } else if op == LEFT {
        if p == isize::MIN {
            Err(out_of_range(p))
        } else {
            Ok(Config { pointer: p - 1, ..next })
        }
    } else if op == INPUT {
        match input {
            None => Err(Error::InputFailure),
            Some(b) => if !in_tape(p) {
                Err(out_of_range(p))
            } else {
                Ok(Config { cells: c.cells.update(p, b), ..next })
            },
        }
    } else if op == INCREMENT || op == DECREMENT || op == OUTPUT || op == OPEN || op == CLOSE {
        if !in_tape(p) {
            Err(out_of_range(p))
        } else {
            let v = c.cells[p];
            if op == INCREMENT {
                Ok(Config { cells: c.cells.update(p, increment(v)), ..next })
            } else if op == DECREMENT {
                Ok(Config { cells: c.cells.update(p, decrement(v)), ..next })
            } else if op == OUTPUT {
                Ok(Config { output: c.output.push(v), ..next })
            } else if op == OPEN {
                if v != 0 {
                    Ok(Config { stack: c.stack.push(c.counter as usize), ..next })
                } else if has_matching_close(c.program, c.counter) {
                    Ok(Config { counter: matching_close(c.program, c.counter) + 1, ..c })
                } else {
                    Err(Error::UnmatchedOpenBracket)
                }
            } else {
                if v == 0 {
                    Ok(
                        Config {
                            stack: if c.stack.len() > 0 {
                                c.stack.drop_last()
                            } else {
                                c.stack
                            },
                            ..next
                        },
                    )
                } else if c.stack.len() == 0 {
                    Err(Error::UnmatchedCloseBracket)
                } else {
                    Ok(Config { counter: c.stack.last() + 1, ..c })
                }
            }
        }
    } else {
        Ok(next)
    }
}

/// The result of a run that has walked off the end of its program: a loop
/// still open there has no `]`.
pub open spec fn finish(c: Config) -> Result<Seq<u8>, Error> {
    if c.stack.len() == 0 {
        Ok(c.output)
    } else {
        Err(Error::UnmatchedOpenBracket)
    }
}

/// At most `fuel` instructions from `c`, each `,` taking the next byte of
/// `inputs`; `None` while the run has not ended.
pub open spec fn run(c: Config, inputs: Seq<u8>, fuel: nat) -> Option<Result<Seq<u8>, Error>>
    decreases fuel,
{
    if halted(c) {
        Some(finish(c))
    } else if fuel == 0 {
        None
    } else {
        let reads = c.program[c.counter] == INPUT && inputs.len() > 0;
        let input = if reads {
            Some(inputs[0])
        } else {
            None
        };
        let rest = if reads {
            inputs.drop_first()
        } else {
            inputs
        };
        match step(c, input) {
            Err(e) => Some(Err(e)),
            Ok(c2) => run(c2, rest, (fuel - 1) as nat),
        }
    }
}

/// Runs `program` on a fresh tape for at most `fuel` instructions, each `,`
/// reading the next byte of `input`. `None` when the fuel ran out first.
pub fn interpret(program: &str, input: &[u8], fuel: usize) -> (r: Option<Result<Vec<u8>, Error>>)
    ensures
        match run(initial(program.spec_bytes()), input@, fuel as nat) {
            None => r is None,
            Some(Ok(o)) => r is Some && r->Some_0 is Ok && r->Some_0->Ok_0@ == o,
            Some(Err(e)) => r == Some(Err::<Vec<u8>, Error>(e)),
        },
{
    let ghost goal = run(initial(program.spec_bytes()), input@, fuel as nat);
    let mut m = Machine::new(program);
    let mut pos: usize = 0;
    let mut left: usize = fuel;
    assert(input@.subrange(0, input@.len() as int) =~= input@);
    loop
        invariant
            valid(m@),
            pos <= input@.len(),
            goal == run(initial(program.spec_bytes()), input@, fuel as nat),
            goal == run(m@, input@.subrange(pos as int, input@.len() as int), left as nat),
        decreases left,
    {
        let ghost before = m@;
        let ghost rest = input@.subrange(pos as int, input@.len() as int);
        if m.is_halted() {
            return Some(m.finish());
        }
        if left == 0 {
            return None;
        }
        let byte = if m.awaits_input() && pos < input.len() {
            let b = input[pos];
            pos = pos + 1;
            proof {
                assert(rest.drop_first() =~= input@.subrange(pos as int, input@.len() as int));
            }
            Some(b)
        } else {
            None
        };
        match m.step(byte) {
            Ok(()) => {},
            Err(e) => {
                return Some(Err(e));
            },
        }
        left = left - 1;
    }
}

/// An interpreter for one program, advanced one instruction at a time.
pub struct Machine {
    program: Vec<u8>,
    cells: Vec<u8>,
    data_pointer: isize,
    instruction_pointer: usize,
    stack: Vec<usize>,
    output: Vec<u8>,
}

impl View for Machine {
    type V = Config;

    closed spec fn view(&self) -> Config {
        Config {
            program: self.program@,
            cells: self.cells@,
            pointer: self.data_pointer as int,
            counter: self.instruction_pointer as int,
            stack: self.stack@,
            output: self.output@,
        }
    }
}

impl Machine {
    /// A machine at the start of `program`, on a fresh tape.
    pub fn new(program: &str) -> (m: Machine)
        ensures
            m@ == initial(program.spec_bytes()),
            valid(m@),
    {
        let bytes = program.as_bytes();
        let mut code: Vec<u8> = Vec::new();
        let mut i: usize = 0;
        while i < bytes.len()
            invariant
                i <= bytes@.len(),
                code@ == bytes@.subrange(0, i as int),
            decreases bytes@.len() - i,
        {
            code.push(bytes[i]);
            i = i + 1;
        }
        assert(code@ == bytes@);
        let mut cells: Vec<u8> = Vec::new();
        let mut k: usize = 0;
        while k < TAPE_SIZE
            invariant
                k <= TAPE_SIZE,
                cells@ == Seq::new(k as nat, |i: int| 0u8),
            decreases TAPE_SIZE - k,
        {
            cells.push(0);
            k = k + 1;
            assert(cells@ =~= Seq::new(k as nat, |i: int| 0u8));
        }
        let m = Machine {
            program: code,
            cells,
            data_pointer: 0,
            instruction_pointer: 0,
            stack: Vec::new(),
            output: Vec::new(),
        };
        assert(m@.stack =~= Seq::<usize>::empty());
        assert(m@.output =~= Seq::<u8>::empty());
        m
    }

    pub fn is_halted(&self) -> (r: bool)
        ensures
            r == halted(self@),
    {
        self.instruction_pointer >= self.program.len()
    }

    /// The next instruction is a `,`: the caller supplies a byte to `step`.
    pub fn awaits_input(&self) -> (r: bool)
        ensures
            r == awaits_input(self@),
    {
        self.instruction_pointer < self.program.len()
            && self.program[self.instruction_pointer] == INPUT
    }

    /// Executes the next instruction; `input` is the byte that a `,` reads.
    /// On an error the machine is left as it was.
    pub fn step(&mut self, input: Option<u8>) -> (r: Result<(), Error>)
        requires
            valid(old(self)@),
            !halted(old(self)@),
        ensures
            valid(final(self)@),
            match step(old(self)@, input) {
                Ok(c) => r is Ok && final(self)@ == c,
                Err(e) => r == Err::<(), Error>(e) && final(self)@ == old(self)@,
            },
    {
        let ip = self.instruction_pointer;
        let op = self.program[ip];
        let dp = self.data_pointer;
        let inside = 0 <= dp && dp < TAPE_SIZE as isize;
        if op == RIGHT {
            if dp == isize::MAX {
                return Err(Error::CellIndexOutOfRange(dp, TAPE_SIZE));
            }
            self.data_pointer = dp + 1;
        } else if op == LEFT {
            if dp == isize::MIN {
                return Err(Error::CellIndexOutOfRange(dp, TAPE_SIZE));
            }
            self.data_pointer = dp - 1;
        } else if op == INPUT {
            match input {
                None => {
                    return Err(Error::InputFailure);
                },
                Some(b) => {
                    if !inside {
                        return Err(Error::CellIndexOutOfRange(dp, TAPE_SIZE));
                    }
                    self.cells.set(dp as usize, b);
                },
            }
        } else if op == INCREMENT || op == DECREMENT || op == OUTPUT || op == OPEN || op == CLOSE {
            if !inside {
                return Err(Error::CellIndexOutOfRange(dp, TAPE_SIZE));
            }
            let cell = dp as usize;
            let v = self.cells[cell];
            if op == INCREMENT {
                self.cells.set(cell, v.wrapping_add(1));
            } else if op == DECREMENT {
                self.cells.set(cell, v.wrapping_sub(1));
            } else if op == OUTPUT {
                self.output.push(v);
            } else if op == OPEN {
                if v != 0 {
                    self.stack.push(ip);
                } else {
                    match bracket_match(ip, self.program.as_slice()) {
                        Ok(j) => {
                            self.instruction_pointer = j + 1;
                            return Ok(());
                        },
                        Err(e) => {
                            return Err(e);
                        },
                    }
                }
            } else {
                if v == 0 {
                    if self.stack.len() > 0 {
                        self.stack.pop();
                    }
                } else {
                    let n = self.stack.len();
                    if n == 0 {
                        return Err(Error::UnmatchedCloseBracket);
                    }
                    self.instruction_pointer = self.stack[n - 1] + 1;
                    return Ok(());
                }
            }
        }
        self.instruction_pointer = ip + 1;
        Ok(())
    }

    /// Ends a run that has walked off the end of its program, handing back
    /// what it wrote.
    pub fn finish(self) -> (r: Result<Vec<u8>, Error>)
        requires
            halted(self@),
        ensures
            match finish(self@) {
                Ok(o) => r is Ok && r->Ok_0@ == o,
                Err(e) => r == Err::<Vec<u8>, Error>(e),
            },
    {
        if self.stack.len() == 0 {
            Ok(self.output)
        } else {
            Err(Error::UnmatchedOpenBracket)
        }
    }
}

} // verus!
