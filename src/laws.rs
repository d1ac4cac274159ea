use vstd::prelude::*;

use crate::error::Error;
use crate::machine::{
    Config, TAPE_SIZE, decrement, halted, in_tape, increment, initial, run, step, valid,
};
use crate::opcode::{CLOSE, DECREMENT, INCREMENT, OPEN, OUTPUT, is_opcode};

verus! {

proof fn lemma_comments_to_end(c: Config, inputs: Seq<u8>, fuel: nat)
    requires
        valid(c),
        c.stack.len() == 0,
        c.output.len() == 0,
        fuel >= c.program.len() - c.counter,
        forall|i: int| c.counter <= i < c.program.len() ==> !is_opcode(#[trigger] c.program[i]),
    ensures
        run(c, inputs, fuel) == Some(Ok::<Seq<u8>, Error>(Seq::empty())),
    decreases fuel,
{
    if !halted(c) {
        assert(!is_opcode(c.program[c.counter]));
        let next = Config { counter: c.counter + 1, ..c };
        assert(step(c, None) == Ok::<Config, Error>(next));
        lemma_comments_to_end(next, inputs, (fuel - 1) as nat);
    } else {
        assert(c.output =~= Seq::<u8>::empty());
    }
}

/// A program with none of the eight commands in it runs to its end with no
/// output and no error, whatever its input.
pub proof fn lemma_comment_only_program(program: Seq<u8>, inputs: Seq<u8>, fuel: nat)
    requires
        program.len() <= usize::MAX,
        fuel >= program.len(),
        forall|i: int| 0 <= i < program.len() ==> !is_opcode(#[trigger] program[i]),
    ensures
        run(initial(program), inputs, fuel) == Some(Ok::<Seq<u8>, Error>(Seq::empty())),
{
    lemma_comments_to_end(initial(program), inputs, fuel);
}

/// Incrementing a cell and then decrementing it, with no move in between,
/// leaves the tape as it was, whatever the cell held.
pub proof fn lemma_increment_then_decrement(c: Config, a: Option<u8>, b: Option<u8>)
    requires
        valid(c),
        in_tape(c.pointer),
        c.counter + 1 < c.program.len(),
        c.program[c.counter] == INCREMENT,
        c.program[c.counter + 1] == DECREMENT,
    ensures
        step(c, a) is Ok,
        step(step(c, a)->Ok_0, b) is Ok,
        step(step(c, a)->Ok_0, b)->Ok_0 == (Config { counter: c.counter + 2, ..c }),
{
    let v = c.cells[c.pointer];
    assert(decrement(increment(v)) == v);
    let c1 = step(c, a)->Ok_0;
    assert(c1.cells[c.pointer] == increment(v));
    assert(c1.cells.update(c.pointer, decrement(increment(v))) =~= c.cells);
}

/// The bytes that a loop body may hold without changing the cell that the
/// loop tests: output and comments.
pub open spec fn keeps_cell(b: u8) -> bool {
    b == OUTPUT || !is_opcode(b)
}

proof fn lemma_inside_loop(c: Config, open: int, close: int, inputs: Seq<u8>, fuel: nat)
    requires
        valid(c),
        open < c.counter <= close < c.program.len(),
        c.program[close] == CLOSE,
        forall|k: int| open < k < close ==> keeps_cell(#[trigger] c.program[k]),
        c.stack.len() > 0,
        c.stack.last() == open,
        in_tape(c.pointer),
        c.cells[c.pointer] != 0,
    ensures
        run(c, inputs, fuel) is None,
    decreases fuel,
{
    if fuel > 0 {
        let op = c.program[c.counter];
        if c.counter == close {
            let back = Config { counter: open + 1, ..c };
            assert(step(c, None) == Ok::<Config, Error>(back));
            lemma_inside_loop(back, open, close, inputs, (fuel - 1) as nat);
        } else {
            assert(keeps_cell(op));
            let c2 = step(c, None)->Ok_0;
            assert(c2.counter == c.counter + 1 && c2.cells == c.cells && c2.stack == c.stack
                && c2.pointer == c.pointer && c2.program == c.program);
            lemma_inside_loop(c2, open, close, inputs, (fuel - 1) as nat);
        }
    }
}

/// A loop whose body holds only output and comment bytes, entered with a
/// non-zero cell, never ends: no amount of fuel brings the run to an end.
pub proof fn lemma_unchanging_loop_never_ends(c: Config, close: int, inputs: Seq<u8>, fuel: nat)
    requires
        valid(c),
        c.counter < close < c.program.len(),
        c.program[c.counter] == OPEN,
        c.program[close] == CLOSE,
        forall|k: int| c.counter < k < close ==> keeps_cell(#[trigger] c.program[k]),
        in_tape(c.pointer),
        c.cells[c.pointer] != 0,
    ensures
        run(c, inputs, fuel) is None,
{
    if fuel > 0 {
        let c2 = step(c, None)->Ok_0;
        assert(c2.stack.last() == c.counter);
        lemma_inside_loop(c2, c.counter, close, inputs, (fuel - 1) as nat);
    }
}

/// With the data pointer at exactly the tape's length, `+`, `-` and `.` fail
/// with `CellIndexOutOfRange`; one cell to the left they succeed.
pub proof fn lemma_tape_edge(c: Config, input: Option<u8>)
    requires
        valid(c),
        !halted(c),
        c.program[c.counter] == INCREMENT || c.program[c.counter] == DECREMENT
            || c.program[c.counter] == OUTPUT,
    ensures
        c.pointer == TAPE_SIZE ==> step(c, input) == Err::<Config, Error>(
            Error::CellIndexOutOfRange(TAPE_SIZE as isize, TAPE_SIZE),
        ),
        c.pointer == TAPE_SIZE - 1 ==> step(c, input) is Ok,
{
}

} // verus!
