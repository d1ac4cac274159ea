use vstd::prelude::*;

use crate::error::Error;
use crate::machine::{Config, decrement, halted, increment, initial, run, step};
use crate::opcode::INPUT;

verus! {

/// `>,>+++++++++,>+++++++++++[<++++++<++++++<+>>>-]<<.>.<<-.>.>.<<.`: reads
/// two bytes, adds 66 to each, and writes them twice, each pair followed by a
/// line feed.
pub open spec fn echo_program() -> Seq<u8> {
    seq![
        62u8, 44u8, 62u8, 43u8, 43u8, 43u8, 43u8, 43u8, 43u8, 43u8, 43u8, 43u8,
        44u8, 62u8, 43u8, 43u8, 43u8, 43u8, 43u8, 43u8, 43u8, 43u8, 43u8, 43u8,
        43u8, 91u8, 60u8, 43u8, 43u8, 43u8, 43u8, 43u8, 43u8, 60u8, 43u8, 43u8,
        43u8, 43u8, 43u8, 43u8, 60u8, 43u8, 62u8, 62u8, 62u8, 45u8, 93u8, 60u8,
        60u8, 46u8, 62u8, 46u8, 60u8, 60u8, 45u8, 46u8, 62u8, 46u8, 62u8, 46u8,
        60u8, 60u8, 46u8,
    ]
}

/// `v + n`, wrapping at 256.
pub open spec fn add_wrapping(v: u8, n: int) -> u8 {
    ((v + n) % 256) as u8
}

/// What `echo_program` writes once its loop is done, from the first three cells.
pub open spec fn echo_output(x: u8, y: u8, z: u8) -> Seq<u8> {
    seq![y, z, decrement(x), y, z, decrement(x)]
}

proof fn lemma_echo_program_bytes()
    ensures
        echo_program().len() == 63,
        echo_program()[0] == 62,
        echo_program()[1] == 44,
        echo_program()[2] == 62,
        echo_program()[3] == 43,
        echo_program()[4] == 43,
        echo_program()[5] == 43,
        echo_program()[6] == 43,
        echo_program()[7] == 43,
        echo_program()[8] == 43,
        echo_program()[9] == 43,
        echo_program()[10] == 43,
        echo_program()[11] == 43,
        echo_program()[12] == 44,
        echo_program()[13] == 62,
        echo_program()[14] == 43,
        echo_program()[15] == 43,
        echo_program()[16] == 43,
        echo_program()[17] == 43,
        echo_program()[18] == 43,
        echo_program()[19] == 43,
        echo_program()[20] == 43,
        echo_program()[21] == 43,
        echo_program()[22] == 43,
        echo_program()[23] == 43,
        echo_program()[24] == 43,
        echo_program()[25] == 91,
        echo_program()[26] == 60,
        echo_program()[27] == 43,
        echo_program()[28] == 43,
        echo_program()[29] == 43,
        echo_program()[30] == 43,
        echo_program()[31] == 43,
        echo_program()[32] == 43,
        echo_program()[33] == 60,
        echo_program()[34] == 43,
        echo_program()[35] == 43,
        echo_program()[36] == 43,
        echo_program()[37] == 43,
        echo_program()[38] == 43,
        echo_program()[39] == 43,
        echo_program()[40] == 60,
        echo_program()[41] == 43,
        echo_program()[42] == 62,
        echo_program()[43] == 62,
        echo_program()[44] == 62,
        echo_program()[45] == 45,
        echo_program()[46] == 93,
        echo_program()[47] == 60,
        echo_program()[48] == 60,
        echo_program()[49] == 46,
        echo_program()[50] == 62,
        echo_program()[51] == 46,
        echo_program()[52] == 60,
        echo_program()[53] == 60,
        echo_program()[54] == 45,
        echo_program()[55] == 46,
        echo_program()[56] == 62,
        echo_program()[57] == 46,
        echo_program()[58] == 62,
        echo_program()[59] == 46,
        echo_program()[60] == 60,
        echo_program()[61] == 60,
        echo_program()[62] == 46,
{
}

proof fn lemma_add_wrapping(v: u8, m: nat, n: nat)
    ensures
        add_wrapping(add_wrapping(v, m as int), n as int) == add_wrapping(v, (m + n) as int),
{
    vstd::arithmetic::div_mod::lemma_add_mod_noop_right(n as int, v + m, 256);
}

proof fn lemma_increment_adds_one(v: u8)
    ensures
        increment(v) == add_wrapping(v, 1),
{
}

proof fn lemma_run_unfold(c: Config, inputs: Seq<u8>, fuel: nat)
    requires
        !halted(c),
        fuel > 0,
        c.program[c.counter] != INPUT,
        step(c, None) is Ok,
    ensures
        run(c, inputs, fuel) == run(step(c, None)->Ok_0, inputs, (fuel - 1) as nat),
{
}

proof fn lemma_run_read(c: Config, inputs: Seq<u8>, fuel: nat)
    requires
        !halted(c),
        fuel > 0,
        c.program[c.counter] == INPUT,
        inputs.len() > 0,
        step(c, Some(inputs[0])) is Ok,
    ensures
        run(c, inputs, fuel) == run(
            step(c, Some(inputs[0]))->Ok_0,
            inputs.drop_first(),
            (fuel - 1) as nat,
        ),
{
}

proof fn lemma_echo_tail(c: Config, inputs: Seq<u8>, fuel: nat)
    requires
        c.program == echo_program(),
        c.cells.len() == 30000,
        c.counter == 47,
        c.pointer == 3,
        c.stack.len() == 0,
        fuel >= 16,
    ensures
        run(c, inputs, fuel) == Some(
            Ok::<Seq<u8>, Error>(c.output + echo_output(c.cells[0], c.cells[1], c.cells[2])),
        ),
{
    lemma_echo_program_bytes();
    let s48 = step(c, None)->Ok_0;
    lemma_run_unfold(c, inputs, (fuel - 0) as nat);
    assert(
        s48.counter == 48
            && s48.pointer == 2
            && s48.program == c.program
            && s48.stack == c.stack
            && s48.cells.len() == c.cells.len()
            && s48.output == c.output
            && s48.cells[0] == c.cells[0]
            && s48.cells[1] == c.cells[1]
            && s48.cells[2] == c.cells[2]
            && s48.cells[3] == c.cells[3]
    );
    let s49 = step(s48, None)->Ok_0;
    lemma_run_unfold(s48, inputs, (fuel - 1) as nat);
    assert(
        s49.counter == 49
            && s49.pointer == 1
            && s49.program == s48.program
            && s49.stack == s48.stack
            && s49.cells.len() == s48.cells.len()
            && s49.output == s48.output
            && s49.cells[0] == s48.cells[0]
            && s49.cells[1] == s48.cells[1]
            && s49.cells[2] == s48.cells[2]
            && s49.cells[3] == s48.cells[3]
    );
    let s50 = step(s49, None)->Ok_0;
    lemma_run_unfold(s49, inputs, (fuel - 2) as nat);
    assert(
        s50.counter == 50
            && s50.pointer == 1
            && s50.program == s49.program
            && s50.stack == s49.stack
            && s50.cells.len() == s49.cells.len()
            && s50.output == s49.output.push(s49.cells[1])
            && s50.cells[0] == s49.cells[0]
            && s50.cells[1] == s49.cells[1]
            && s50.cells[2] == s49.cells[2]
            && s50.cells[3] == s49.cells[3]
    );
    let s51 = step(s50, None)->Ok_0;
    lemma_run_unfold(s50, inputs, (fuel - 3) as nat);
    assert(
        s51.counter == 51
            && s51.pointer == 2
            && s51.program == s50.program
            && s51.stack == s50.stack
            && s51.cells.len() == s50.cells.len()
            && s51.output == s50.output
            && s51.cells[0] == s50.cells[0]
            && s51.cells[1] == s50.cells[1]
            && s51.cells[2] == s50.cells[2]
            && s51.cells[3] == s50.cells[3]
    );
    let s52 = step(s51, None)->Ok_0;
    lemma_run_unfold(s51, inputs, (fuel - 4) as nat);
    assert(
        s52.counter == 52
            && s52.pointer == 2
            && s52.program == s51.program
            && s52.stack == s51.stack
            && s52.cells.len() == s51.cells.len()
            && s52.output == s51.output.push(s51.cells[2])
            && s52.cells[0] == s51.cells[0]
            && s52.cells[1] == s51.cells[1]
            && s52.cells[2] == s51.cells[2]
            && s52.cells[3] == s51.cells[3]
    );
    let s53 = step(s52, None)->Ok_0;
    lemma_run_unfold(s52, inputs, (fuel - 5) as nat);
    assert(
        s53.counter == 53
            && s53.pointer == 1
            && s53.program == s52.program
            && s53.stack == s52.stack
            && s53.cells.len() == s52.cells.len()
            && s53.output == s52.output
            && s53.cells[0] == s52.cells[0]
            && s53.cells[1] == s52.cells[1]
            && s53.cells[2] == s52.cells[2]
            && s53.cells[3] == s52.cells[3]
    );
    let s54 = step(s53, None)->Ok_0;
    lemma_run_unfold(s53, inputs, (fuel - 6) as nat);
    assert(
        s54.counter == 54
            && s54.pointer == 0
            && s54.program == s53.program
            && s54.stack == s53.stack
            && s54.cells.len() == s53.cells.len()
            && s54.output == s53.output
            && s54.cells[0] == s53.cells[0]
            && s54.cells[1] == s53.cells[1]
            && s54.cells[2] == s53.cells[2]
            && s54.cells[3] == s53.cells[3]
    );
    let s55 = step(s54, None)->Ok_0;
    lemma_run_unfold(s54, inputs, (fuel - 7) as nat);
    assert(
        s55.counter == 55
            && s55.pointer == 0
            && s55.program == s54.program
            && s55.stack == s54.stack
            && s55.cells.len() == s54.cells.len()
            && s55.output == s54.output
            && s55.cells[1] == s54.cells[1]
            && s55.cells[2] == s54.cells[2]
            && s55.cells[3] == s54.cells[3]
            && s55.cells[0] == decrement(s54.cells[0])
    );
    let s56 = step(s55, None)->Ok_0;
    lemma_run_unfold(s55, inputs, (fuel - 8) as nat);
    assert(
        s56.counter == 56
            && s56.pointer == 0
            && s56.program == s55.program
            && s56.stack == s55.stack
            && s56.cells.len() == s55.cells.len()
            && s56.output == s55.output.push(s55.cells[0])
            && s56.cells[0] == s55.cells[0]
            && s56.cells[1] == s55.cells[1]
            && s56.cells[2] == s55.cells[2]
            && s56.cells[3] == s55.cells[3]
    );
    let s57 = step(s56, None)->Ok_0;
    lemma_run_unfold(s56, inputs, (fuel - 9) as nat);
    assert(
        s57.counter == 57
            && s57.pointer == 1
            && s57.program == s56.program
            && s57.stack == s56.stack
            && s57.cells.len() == s56.cells.len()
            && s57.output == s56.output
            && s57.cells[0] == s56.cells[0]
            && s57.cells[1] == s56.cells[1]
            && s57.cells[2] == s56.cells[2]
            && s57.cells[3] == s56.cells[3]
    );
    let s58 = step(s57, None)->Ok_0;
    lemma_run_unfold(s57, inputs, (fuel - 10) as nat);
    assert(
        s58.counter == 58
            && s58.pointer == 1
            && s58.program == s57.program
            && s58.stack == s57.stack
            && s58.cells.len() == s57.cells.len()
            && s58.output == s57.output.push(s57.cells[1])
            && s58.cells[0] == s57.cells[0]
            && s58.cells[1] == s57.cells[1]
            && s58.cells[2] == s57.cells[2]
            && s58.cells[3] == s57.cells[3]
    );
    let s59 = step(s58, None)->Ok_0;
    lemma_run_unfold(s58, inputs, (fuel - 11) as nat);
    assert(
        s59.counter == 59
            && s59.pointer == 2
            && s59.program == s58.program
            && s59.stack == s58.stack
            && s59.cells.len() == s58.cells.len()
            && s59.output == s58.output
            && s59.cells[0] == s58.cells[0]
            && s59.cells[1] == s58.cells[1]
            && s59.cells[2] == s58.cells[2]
            && s59.cells[3] == s58.cells[3]
    );
    let s60 = step(s59, None)->Ok_0;
    lemma_run_unfold(s59, inputs, (fuel - 12) as nat);
    assert(
        s60.counter == 60
            && s60.pointer == 2
            && s60.program == s59.program
            && s60.stack == s59.stack
            && s60.cells.len() == s59.cells.len()
            && s60.output == s59.output.push(s59.cells[2])
            && s60.cells[0] == s59.cells[0]
            && s60.cells[1] == s59.cells[1]
            && s60.cells[2] == s59.cells[2]
            && s60.cells[3] == s59.cells[3]
    );
    let s61 = step(s60, None)->Ok_0;
    lemma_run_unfold(s60, inputs, (fuel - 13) as nat);
    assert(
        s61.counter == 61
            && s61.pointer == 1
            && s61.program == s60.program
            && s61.stack == s60.stack
            && s61.cells.len() == s60.cells.len()
            && s61.output == s60.output
            && s61.cells[0] == s60.cells[0]
            && s61.cells[1] == s60.cells[1]
            && s61.cells[2] == s60.cells[2]
            && s61.cells[3] == s60.cells[3]
    );
    let s62 = step(s61, None)->Ok_0;
    lemma_run_unfold(s61, inputs, (fuel - 14) as nat);
    assert(
        s62.counter == 62
            && s62.pointer == 0
            && s62.program == s61.program
            && s62.stack == s61.stack
            && s62.cells.len() == s61.cells.len()
            && s62.output == s61.output
            && s62.cells[0] == s61.cells[0]
            && s62.cells[1] == s61.cells[1]
            && s62.cells[2] == s61.cells[2]
            && s62.cells[3] == s61.cells[3]
    );
    let s63 = step(s62, None)->Ok_0;
    lemma_run_unfold(s62, inputs, (fuel - 15) as nat);
    assert(
        s63.counter == 63
            && s63.pointer == 0
            && s63.program == s62.program
            && s63.stack == s62.stack
            && s63.cells.len() == s62.cells.len()
            && s63.output == s62.output.push(s62.cells[0])
            && s63.cells[0] == s62.cells[0]
            && s63.cells[1] == s62.cells[1]
            && s63.cells[2] == s62.cells[2]
            && s63.cells[3] == s62.cells[3]
    );
    assert(s63.output =~= c.output + echo_output(c.cells[0], c.cells[1], c.cells[2]));
}

#[verifier::rlimit(100)]
proof fn lemma_echo_loop(c: Config, inputs: Seq<u8>, fuel: nat, w: nat)
    requires
        c.program == echo_program(),
        c.cells.len() == 30000,
        c.counter == 26,
        c.pointer == 3,
        c.stack == seq![25usize],
        1 <= w <= 255,
        c.cells[3] == w,
        fuel >= 21 * w + 16,
    ensures
        run(c, inputs, fuel) == Some(
            Ok::<Seq<u8>, Error>(
                c.output + echo_output(
                    add_wrapping(c.cells[0], w as int),
                    add_wrapping(c.cells[1], (6 * w) as int),
                    add_wrapping(c.cells[2], (6 * w) as int),
                ),
            ),
        ),
    decreases w,
{
    lemma_echo_program_bytes();
    let s27 = step(c, None)->Ok_0;
    lemma_run_unfold(c, inputs, (fuel - 0) as nat);
    assert(
        s27.counter == 27
            && s27.pointer == 2
            && s27.program == c.program
            && s27.stack == c.stack
            && s27.cells.len() == c.cells.len()
            && s27.output == c.output
            && s27.cells[0] == c.cells[0]
            && s27.cells[1] == c.cells[1]
            && s27.cells[2] == c.cells[2]
            && s27.cells[3] == c.cells[3]
    );
    let s28 = step(s27, None)->Ok_0;
    lemma_run_unfold(s27, inputs, (fuel - 1) as nat);
    assert(
        s28.counter == 28
            && s28.pointer == 2
            && s28.program == s27.program
            && s28.stack == s27.stack
            && s28.cells.len() == s27.cells.len()
            && s28.output == s27.output
            && s28.cells[0] == s27.cells[0]
            && s28.cells[1] == s27.cells[1]
            && s28.cells[3] == s27.cells[3]
            && s28.cells[2] == increment(s27.cells[2])
    );
    let s29 = step(s28, None)->Ok_0;
    lemma_run_unfold(s28, inputs, (fuel - 2) as nat);
    assert(
        s29.counter == 29
            && s29.pointer == 2
            && s29.program == s28.program
            && s29.stack == s28.stack
            && s29.cells.len() == s28.cells.len()
            && s29.output == s28.output
            && s29.cells[0] == s28.cells[0]
            && s29.cells[1] == s28.cells[1]
            && s29.cells[3] == s28.cells[3]
            && s29.cells[2] == increment(s28.cells[2])
    );
    let s30 = step(s29, None)->Ok_0;
    lemma_run_unfold(s29, inputs, (fuel - 3) as nat);
    assert(
        s30.counter == 30
            && s30.pointer == 2
            && s30.program == s29.program
            && s30.stack == s29.stack
            && s30.cells.len() == s29.cells.len()
            && s30.output == s29.output
            && s30.cells[0] == s29.cells[0]
            && s30.cells[1] == s29.cells[1]
            && s30.cells[3] == s29.cells[3]
            && s30.cells[2] == increment(s29.cells[2])
    );
    let s31 = step(s30, None)->Ok_0;
    lemma_run_unfold(s30, inputs, (fuel - 4) as nat);
    assert(
        s31.counter == 31
            && s31.pointer == 2
            && s31.program == s30.program
            && s31.stack == s30.stack
            && s31.cells.len() == s30.cells.len()
            && s31.output == s30.output
            && s31.cells[0] == s30.cells[0]
            && s31.cells[1] == s30.cells[1]
            && s31.cells[3] == s30.cells[3]
            && s31.cells[2] == increment(s30.cells[2])
    );
    let s32 = step(s31, None)->Ok_0;
    lemma_run_unfold(s31, inputs, (fuel - 5) as nat);
    assert(
        s32.counter == 32
            && s32.pointer == 2
            && s32.program == s31.program
            && s32.stack == s31.stack
            && s32.cells.len() == s31.cells.len()
            && s32.output == s31.output
            && s32.cells[0] == s31.cells[0]
            && s32.cells[1] == s31.cells[1]
            && s32.cells[3] == s31.cells[3]
            && s32.cells[2] == increment(s31.cells[2])
    );
    let s33 = step(s32, None)->Ok_0;
    lemma_run_unfold(s32, inputs, (fuel - 6) as nat);
    assert(
        s33.counter == 33
            && s33.pointer == 2
            && s33.program == s32.program
            && s33.stack == s32.stack
            && s33.cells.len() == s32.cells.len()
            && s33.output == s32.output
            && s33.cells[0] == s32.cells[0]
            && s33.cells[1] == s32.cells[1]
            && s33.cells[3] == s32.cells[3]
            && s33.cells[2] == increment(s32.cells[2])
    );
    let s34 = step(s33, None)->Ok_0;
    lemma_run_unfold(s33, inputs, (fuel - 7) as nat);
    assert(
        s34.counter == 34
            && s34.pointer == 1
            && s34.program == s33.program
            && s34.stack == s33.stack
            && s34.cells.len() == s33.cells.len()
            && s34.output == s33.output
            && s34.cells[0] == s33.cells[0]
            && s34.cells[1] == s33.cells[1]
            && s34.cells[2] == s33.cells[2]
            && s34.cells[3] == s33.cells[3]
    );
    let s35 = step(s34, None)->Ok_0;
    lemma_run_unfold(s34, inputs, (fuel - 8) as nat);
    assert(
        s35.counter == 35
            && s35.pointer == 1
            && s35.program == s34.program
            && s35.stack == s34.stack
            && s35.cells.len() == s34.cells.len()
            && s35.output == s34.output
            && s35.cells[0] == s34.cells[0]
            && s35.cells[2] == s34.cells[2]
            && s35.cells[3] == s34.cells[3]
            && s35.cells[1] == increment(s34.cells[1])
    );
    let s36 = step(s35, None)->Ok_0;
    lemma_run_unfold(s35, inputs, (fuel - 9) as nat);
    assert(
        s36.counter == 36
            && s36.pointer == 1
            && s36.program == s35.program
            && s36.stack == s35.stack
            && s36.cells.len() == s35.cells.len()
            && s36.output == s35.output
            && s36.cells[0] == s35.cells[0]
            && s36.cells[2] == s35.cells[2]
            && s36.cells[3] == s35.cells[3]
            && s36.cells[1] == increment(s35.cells[1])
    );
    let s37 = step(s36, None)->Ok_0;
    lemma_run_unfold(s36, inputs, (fuel - 10) as nat);
    assert(
        s37.counter == 37
            && s37.pointer == 1
            && s37.program == s36.program
            && s37.stack == s36.stack
            && s37.cells.len() == s36.cells.len()
            && s37.output == s36.output
            && s37.cells[0] == s36.cells[0]
            && s37.cells[2] == s36.cells[2]
            && s37.cells[3] == s36.cells[3]
            && s37.cells[1] == increment(s36.cells[1])
    );
    let s38 = step(s37, None)->Ok_0;
    lemma_run_unfold(s37, inputs, (fuel - 11) as nat);
    assert(
        s38.counter == 38
            && s38.pointer == 1
            && s38.program == s37.program
            && s38.stack == s37.stack
            && s38.cells.len() == s37.cells.len()
            && s38.output == s37.output
            && s38.cells[0] == s37.cells[0]
            && s38.cells[2] == s37.cells[2]
            && s38.cells[3] == s37.cells[3]
            && s38.cells[1] == increment(s37.cells[1])
    );
    let s39 = step(s38, None)->Ok_0;
    lemma_run_unfold(s38, inputs, (fuel - 12) as nat);
    assert(
        s39.counter == 39
            && s39.pointer == 1
            && s39.program == s38.program
            && s39.stack == s38.stack
            && s39.cells.len() == s38.cells.len()
            && s39.output == s38.output
            && s39.cells[0] == s38.cells[0]
            && s39.cells[2] == s38.cells[2]
            && s39.cells[3] == s38.cells[3]
            && s39.cells[1] == increment(s38.cells[1])
    );
    let s40 = step(s39, None)->Ok_0;
    lemma_run_unfold(s39, inputs, (fuel - 13) as nat);
    assert(
        s40.counter == 40
            && s40.pointer == 1
            && s40.program == s39.program
            && s40.stack == s39.stack
            && s40.cells.len() == s39.cells.len()
            && s40.output == s39.output
            && s40.cells[0] == s39.cells[0]
            && s40.cells[2] == s39.cells[2]
            && s40.cells[3] == s39.cells[3]
            && s40.cells[1] == increment(s39.cells[1])
    );
    let s41 = step(s40, None)->Ok_0;
    lemma_run_unfold(s40, inputs, (fuel - 14) as nat);
    assert(
        s41.counter == 41
            && s41.pointer == 0
            && s41.program == s40.program
            && s41.stack == s40.stack
            && s41.cells.len() == s40.cells.len()
            && s41.output == s40.output
            && s41.cells[0] == s40.cells[0]
            && s41.cells[1] == s40.cells[1]
            && s41.cells[2] == s40.cells[2]
            && s41.cells[3] == s40.cells[3]
    );
    let s42 = step(s41, None)->Ok_0;
    lemma_run_unfold(s41, inputs, (fuel - 15) as nat);
    assert(
        s42.counter == 42
            && s42.pointer == 0
            && s42.program == s41.program
            && s42.stack == s41.stack
            && s42.cells.len() == s41.cells.len()
            && s42.output == s41.output
            && s42.cells[1] == s41.cells[1]
            && s42.cells[2] == s41.cells[2]
            && s42.cells[3] == s41.cells[3]
            && s42.cells[0] == increment(s41.cells[0])
    );
    let s43 = step(s42, None)->Ok_0;
    lemma_run_unfold(s42, inputs, (fuel - 16) as nat);
    assert(
        s43.counter == 43
            && s43.pointer == 1
            && s43.program == s42.program
            && s43.stack == s42.stack
            && s43.cells.len() == s42.cells.len()
            && s43.output == s42.output
            && s43.cells[0] == s42.cells[0]
            && s43.cells[1] == s42.cells[1]
            && s43.cells[2] == s42.cells[2]
            && s43.cells[3] == s42.cells[3]
    );
    let s44 = step(s43, None)->Ok_0;
    lemma_run_unfold(s43, inputs, (fuel - 17) as nat);
    assert(
        s44.counter == 44
            && s44.pointer == 2
            && s44.program == s43.program
            && s44.stack == s43.stack
            && s44.cells.len() == s43.cells.len()
            && s44.output == s43.output
            && s44.cells[0] == s43.cells[0]
            && s44.cells[1] == s43.cells[1]
            && s44.cells[2] == s43.cells[2]
            && s44.cells[3] == s43.cells[3]
    );
    let s45 = step(s44, None)->Ok_0;
    lemma_run_unfold(s44, inputs, (fuel - 18) as nat);
    assert(
        s45.counter == 45
            && s45.pointer == 3
            && s45.program == s44.program
            && s45.stack == s44.stack
            && s45.cells.len() == s44.cells.len()
            && s45.output == s44.output
            && s45.cells[0] == s44.cells[0]
            && s45.cells[1] == s44.cells[1]
            && s45.cells[2] == s44.cells[2]
            && s45.cells[3] == s44.cells[3]
    );
    let s46 = step(s45, None)->Ok_0;
    lemma_run_unfold(s45, inputs, (fuel - 19) as nat);
    assert(
        s46.counter == 46
            && s46.pointer == 3
            && s46.program == s45.program
            && s46.stack == s45.stack
            && s46.cells.len() == s45.cells.len()
            && s46.output == s45.output
            && s46.cells[0] == s45.cells[0]
            && s46.cells[1] == s45.cells[1]
            && s46.cells[2] == s45.cells[2]
            && s46.cells[3] == decrement(s45.cells[3])
    );
    let s47 = step(s46, None)->Ok_0;
    lemma_run_unfold(s46, inputs, (fuel - 20) as nat);
    let x = c.cells[0];
    let y = c.cells[1];
    let z = c.cells[2];
    lemma_increment_adds_one(x);
    lemma_increment_adds_one(y);
    lemma_add_wrapping(y, 1, 1);
    lemma_add_wrapping(y, 2, 1);
    lemma_add_wrapping(y, 3, 1);
    lemma_add_wrapping(y, 4, 1);
    lemma_add_wrapping(y, 5, 1);
    lemma_increment_adds_one(add_wrapping(y, 1));
    lemma_increment_adds_one(add_wrapping(y, 2));
    lemma_increment_adds_one(add_wrapping(y, 3));
    lemma_increment_adds_one(add_wrapping(y, 4));
    lemma_increment_adds_one(add_wrapping(y, 5));
    lemma_increment_adds_one(z);
    lemma_add_wrapping(z, 1, 1);
    lemma_add_wrapping(z, 2, 1);
    lemma_add_wrapping(z, 3, 1);
    lemma_add_wrapping(z, 4, 1);
    lemma_add_wrapping(z, 5, 1);
    lemma_increment_adds_one(add_wrapping(z, 1));
    lemma_increment_adds_one(add_wrapping(z, 2));
    lemma_increment_adds_one(add_wrapping(z, 3));
    lemma_increment_adds_one(add_wrapping(z, 4));
    lemma_increment_adds_one(add_wrapping(z, 5));
    assert(s46.cells[0] == add_wrapping(x, 1));
    assert(s46.cells[1] == add_wrapping(y, 6));
    assert(s46.cells[2] == add_wrapping(z, 6));
    assert(s46.cells[3] == w - 1);
    if w == 1 {
        assert(s47.counter == 47 && s47.pointer == 3 && s47.stack.len() == 0);
        assert(s47.cells.len() == 30000 && s47.program == c.program && s47.output == c.output);
        assert(
            s47.cells[0] == s46.cells[0]
                && s47.cells[1] == s46.cells[1]
                && s47.cells[2] == s46.cells[2]
        );
        lemma_echo_tail(s47, inputs, (fuel - 21) as nat);
    } else {
        assert(s47.counter == 26 && s47.pointer == 3 && s47.stack == c.stack);
        assert(s47.cells.len() == 30000 && s47.program == c.program && s47.output == c.output);
        assert(s47.cells =~= s46.cells);
        lemma_echo_loop(s47, inputs, (fuel - 21) as nat, (w - 1) as nat);
        lemma_add_wrapping(x, 1, (w - 1) as nat);
        lemma_add_wrapping(y, 6, (6 * (w - 1)) as nat);
        lemma_add_wrapping(z, 6, (6 * (w - 1)) as nat);
    }
}

/// The program that reads two bytes writes each plus 66 (wrapping), then a
/// line feed, and all of that twice; with fewer than two bytes of input it
/// fails with `InputFailure`.
pub proof fn lemma_echo_program(inputs: Seq<u8>, fuel: nat)
    requires
        fuel >= 300,
    ensures
        inputs.len() >= 2 ==> run(initial(echo_program()), inputs, fuel) == Some(
            Ok::<Seq<u8>, Error>(
                seq![
                    add_wrapping(inputs[0], 66),
                    add_wrapping(inputs[1], 66),
                    10u8,
                    add_wrapping(inputs[0], 66),
                    add_wrapping(inputs[1], 66),
                    10u8,
                ],
            ),
        ),
        inputs.len() < 2 ==> run(initial(echo_program()), inputs, fuel) == Some(
            Err::<Seq<u8>, Error>(Error::InputFailure),
        ),
{
    lemma_echo_program_bytes();
    let s0 = initial(echo_program());
    let s1 = step(s0, None)->Ok_0;
    lemma_run_unfold(s0, inputs, fuel);
    assert(s1.counter == 1 && s1.pointer == 1 && s1.cells.len() == 30000);
    if inputs.len() > 0 {
        let s2 = step(s1, Some(inputs[0]))->Ok_0;
        lemma_run_read(s1, inputs, (fuel - 1) as nat);
        let rest = inputs.drop_first();
        let f2 = (fuel - 2) as nat;
        assert(s2.counter == 2 && s2.pointer == 1 && s2.program == echo_program());
        assert(s2.cells.len() == 30000 && s2.stack.len() == 0 && s2.output.len() == 0);
        assert(
            s2.cells[0] == 0
                && s2.cells[1] == inputs[0]
                && s2.cells[2] == 0
                && s2.cells[3] == 0
        );
        let s3 = step(s2, None)->Ok_0;
        lemma_run_unfold(s2, rest, (f2 - 0) as nat);
        assert(
            s3.counter == 3
                && s3.pointer == 2
                && s3.program == s2.program
                && s3.stack == s2.stack
                && s3.cells.len() == s2.cells.len()
                && s3.output == s2.output
                && s3.cells[0] == s2.cells[0]
                && s3.cells[1] == s2.cells[1]
                && s3.cells[2] == s2.cells[2]
                && s3.cells[3] == s2.cells[3]
        );
        let s4 = step(s3, None)->Ok_0;
        lemma_run_unfold(s3, rest, (f2 - 1) as nat);
        assert(
            s4.counter == 4
                && s4.pointer == 2
                && s4.program == s3.program
                && s4.stack == s3.stack
                && s4.cells.len() == s3.cells.len()
                && s4.output == s3.output
                && s4.cells[0] == s3.cells[0]
                && s4.cells[1] == s3.cells[1]
                && s4.cells[3] == s3.cells[3]
                && s4.cells[2] == increment(s3.cells[2])
        );
        let s5 = step(s4, None)->Ok_0;
        lemma_run_unfold(s4, rest, (f2 - 2) as nat);
        assert(
            s5.counter == 5
                && s5.pointer == 2
                && s5.program == s4.program
                && s5.stack == s4.stack
                && s5.cells.len() == s4.cells.len()
                && s5.output == s4.output
                && s5.cells[0] == s4.cells[0]
                && s5.cells[1] == s4.cells[1]
                && s5.cells[3] == s4.cells[3]
                && s5.cells[2] == increment(s4.cells[2])
        );
        let s6 = step(s5, None)->Ok_0;
        lemma_run_unfold(s5, rest, (f2 - 3) as nat);
        assert(
            s6.counter == 6
                && s6.pointer == 2
                && s6.program == s5.program
                && s6.stack == s5.stack
                && s6.cells.len() == s5.cells.len()
                && s6.output == s5.output
                && s6.cells[0] == s5.cells[0]
                && s6.cells[1] == s5.cells[1]
                && s6.cells[3] == s5.cells[3]
                && s6.cells[2] == increment(s5.cells[2])
        );
        let s7 = step(s6, None)->Ok_0;
        lemma_run_unfold(s6, rest, (f2 - 4) as nat);
        assert(
            s7.counter == 7
                && s7.pointer == 2
                && s7.program == s6.program
                && s7.stack == s6.stack
                && s7.cells.len() == s6.cells.len()
                && s7.output == s6.output
                && s7.cells[0] == s6.cells[0]
                && s7.cells[1] == s6.cells[1]
                && s7.cells[3] == s6.cells[3]
                && s7.cells[2] == increment(s6.cells[2])
        );
        let s8 = step(s7, None)->Ok_0;
        lemma_run_unfold(s7, rest, (f2 - 5) as nat);
        assert(
            s8.counter == 8
                && s8.pointer == 2
                && s8.program == s7.program
                && s8.stack == s7.stack
                && s8.cells.len() == s7.cells.len()
                && s8.output == s7.output
                && s8.cells[0] == s7.cells[0]
                && s8.cells[1] == s7.cells[1]
                && s8.cells[3] == s7.cells[3]
                && s8.cells[2] == increment(s7.cells[2])
        );
        let s9 = step(s8, None)->Ok_0;
        lemma_run_unfold(s8, rest, (f2 - 6) as nat);
        assert(
            s9.counter == 9
                && s9.pointer == 2
                && s9.program == s8.program
                && s9.stack == s8.stack
                && s9.cells.len() == s8.cells.len()
                && s9.output == s8.output
                && s9.cells[0] == s8.cells[0]
                && s9.cells[1] == s8.cells[1]
                && s9.cells[3] == s8.cells[3]
                && s9.cells[2] == increment(s8.cells[2])
        );
        let s10 = step(s9, None)->Ok_0;
        lemma_run_unfold(s9, rest, (f2 - 7) as nat);
        assert(
            s10.counter == 10
                && s10.pointer == 2
                && s10.program == s9.program
                && s10.stack == s9.stack
                && s10.cells.len() == s9.cells.len()
                && s10.output == s9.output
                && s10.cells[0] == s9.cells[0]
                && s10.cells[1] == s9.cells[1]
                && s10.cells[3] == s9.cells[3]
                && s10.cells[2] == increment(s9.cells[2])
        );
        let s11 = step(s10, None)->Ok_0;
        lemma_run_unfold(s10, rest, (f2 - 8) as nat);
        assert(
            s11.counter == 11
                && s11.pointer == 2
                && s11.program == s10.program
                && s11.stack == s10.stack
                && s11.cells.len() == s10.cells.len()
                && s11.output == s10.output
                && s11.cells[0] == s10.cells[0]
                && s11.cells[1] == s10.cells[1]
                && s11.cells[3] == s10.cells[3]
                && s11.cells[2] == increment(s10.cells[2])
        );
        let s12 = step(s11, None)->Ok_0;
        lemma_run_unfold(s11, rest, (f2 - 9) as nat);
        assert(
            s12.counter == 12
                && s12.pointer == 2
                && s12.program == s11.program
                && s12.stack == s11.stack
                && s12.cells.len() == s11.cells.len()
                && s12.output == s11.output
                && s12.cells[0] == s11.cells[0]
                && s12.cells[1] == s11.cells[1]
                && s12.cells[3] == s11.cells[3]
                && s12.cells[2] == increment(s11.cells[2])
        );
        if rest.len() > 0 {
            let s13 = step(s12, Some(rest[0]))->Ok_0;
            lemma_run_read(s12, rest, (fuel - 12) as nat);
            let rest2 = rest.drop_first();
            let f13 = (fuel - 13) as nat;
            assert(s13.counter == 13 && s13.pointer == 2 && s13.program == echo_program());
            assert(s13.cells.len() == 30000 && s13.stack.len() == 0 && s13.output.len() == 0);
            assert(s13.cells[0] == 0 && s13.cells[1] == inputs[0] && s13.cells[2] == inputs[1]
                && s13.cells[3] == 0);
            let s14 = step(s13, None)->Ok_0;
            lemma_run_unfold(s13, rest2, (f13 - 0) as nat);
            assert(
                s14.counter == 14
                    && s14.pointer == 3
                    && s14.program == s13.program
                    && s14.stack == s13.stack
                    && s14.cells.len() == s13.cells.len()
                    && s14.output == s13.output
                    && s14.cells[0] == s13.cells[0]
                    && s14.cells[1] == s13.cells[1]
                    && s14.cells[2] == s13.cells[2]
                    && s14.cells[3] == s13.cells[3]
            );
            let s15 = step(s14, None)->Ok_0;
            lemma_run_unfold(s14, rest2, (f13 - 1) as nat);
            assert(
                s15.counter == 15
                    && s15.pointer == 3
                    && s15.program == s14.program
                    && s15.stack == s14.stack
                    && s15.cells.len() == s14.cells.len()
                    && s15.output == s14.output
                    && s15.cells[0] == s14.cells[0]
                    && s15.cells[1] == s14.cells[1]
                    && s15.cells[2] == s14.cells[2]
                    && s15.cells[3] == increment(s14.cells[3])
            );
            let s16 = step(s15, None)->Ok_0;
            lemma_run_unfold(s15, rest2, (f13 - 2) as nat);
            assert(
                s16.counter == 16
                    && s16.pointer == 3
                    && s16.program == s15.program
                    && s16.stack == s15.stack
                    && s16.cells.len() == s15.cells.len()
                    && s16.output == s15.output
                    && s16.cells[0] == s15.cells[0]
                    && s16.cells[1] == s15.cells[1]
                    && s16.cells[2] == s15.cells[2]
                    && s16.cells[3] == increment(s15.cells[3])
            );
            let s17 = step(s16, None)->Ok_0;
            lemma_run_unfold(s16, rest2, (f13 - 3) as nat);
            assert(
                s17.counter == 17
                    && s17.pointer == 3
                    && s17.program == s16.program
                    && s17.stack == s16.stack
                    && s17.cells.len() == s16.cells.len()
                    && s17.output == s16.output
                    && s17.cells[0] == s16.cells[0]
                    && s17.cells[1] == s16.cells[1]
                    && s17.cells[2] == s16.cells[2]
                    && s17.cells[3] == increment(s16.cells[3])
            );
            let s18 = step(s17, None)->Ok_0;
            lemma_run_unfold(s17, rest2, (f13 - 4) as nat);
            assert(
                s18.counter == 18
                    && s18.pointer == 3
                    && s18.program == s17.program
                    && s18.stack == s17.stack
                    && s18.cells.len() == s17.cells.len()
                    && s18.output == s17.output
                    && s18.cells[0] == s17.cells[0]
                    && s18.cells[1] == s17.cells[1]
                    && s18.cells[2] == s17.cells[2]
                    && s18.cells[3] == increment(s17.cells[3])
            );
            let s19 = step(s18, None)->Ok_0;
            lemma_run_unfold(s18, rest2, (f13 - 5) as nat);
            assert(
                s19.counter == 19
                    && s19.pointer == 3
                    && s19.program == s18.program
                    && s19.stack == s18.stack
                    && s19.cells.len() == s18.cells.len()
                    && s19.output == s18.output
                    && s19.cells[0] == s18.cells[0]
                    && s19.cells[1] == s18.cells[1]
                    && s19.cells[2] == s18.cells[2]
                    && s19.cells[3] == increment(s18.cells[3])
            );
            let s20 = step(s19, None)->Ok_0;
            lemma_run_unfold(s19, rest2, (f13 - 6) as nat);
            assert(
                s20.counter == 20
                    && s20.pointer == 3
                    && s20.program == s19.program
                    && s20.stack == s19.stack
                    && s20.cells.len() == s19.cells.len()
                    && s20.output == s19.output
                    && s20.cells[0] == s19.cells[0]
                    && s20.cells[1] == s19.cells[1]
                    && s20.cells[2] == s19.cells[2]
                    && s20.cells[3] == increment(s19.cells[3])
            );
            let s21 = step(s20, None)->Ok_0;
            lemma_run_unfold(s20, rest2, (f13 - 7) as nat);
            assert(
                s21.counter == 21
                    && s21.pointer == 3
                    && s21.program == s20.program
                    && s21.stack == s20.stack
                    && s21.cells.len() == s20.cells.len()
                    && s21.output == s20.output
                    && s21.cells[0] == s20.cells[0]
                    && s21.cells[1] == s20.cells[1]
                    && s21.cells[2] == s20.cells[2]
                    && s21.cells[3] == increment(s20.cells[3])
            );
            let s22 = step(s21, None)->Ok_0;
            lemma_run_unfold(s21, rest2, (f13 - 8) as nat);
            assert(
                s22.counter == 22
                    && s22.pointer == 3
                    && s22.program == s21.program
                    && s22.stack == s21.stack
                    && s22.cells.len() == s21.cells.len()
                    && s22.output == s21.output
                    && s22.cells[0] == s21.cells[0]
                    && s22.cells[1] == s21.cells[1]
                    && s22.cells[2] == s21.cells[2]
                    && s22.cells[3] == increment(s21.cells[3])
            );
            let s23 = step(s22, None)->Ok_0;
            lemma_run_unfold(s22, rest2, (f13 - 9) as nat);
            assert(
                s23.counter == 23
                    && s23.pointer == 3
                    && s23.program == s22.program
                    && s23.stack == s22.stack
                    && s23.cells.len() == s22.cells.len()
                    && s23.output == s22.output
                    && s23.cells[0] == s22.cells[0]
                    && s23.cells[1] == s22.cells[1]
                    && s23.cells[2] == s22.cells[2]
                    && s23.cells[3] == increment(s22.cells[3])
            );
            let s24 = step(s23, None)->Ok_0;
            lemma_run_unfold(s23, rest2, (f13 - 10) as nat);
            assert(
                s24.counter == 24
                    && s24.pointer == 3
                    && s24.program == s23.program
                    && s24.stack == s23.stack
                    && s24.cells.len() == s23.cells.len()
                    && s24.output == s23.output
                    && s24.cells[0] == s23.cells[0]
                    && s24.cells[1] == s23.cells[1]
                    && s24.cells[2] == s23.cells[2]
                    && s24.cells[3] == increment(s23.cells[3])
            );
            let s25 = step(s24, None)->Ok_0;
            lemma_run_unfold(s24, rest2, (f13 - 11) as nat);
            assert(
                s25.counter == 25
                    && s25.pointer == 3
                    && s25.program == s24.program
                    && s25.stack == s24.stack
                    && s25.cells.len() == s24.cells.len()
                    && s25.output == s24.output
                    && s25.cells[0] == s24.cells[0]
                    && s25.cells[1] == s24.cells[1]
                    && s25.cells[2] == s24.cells[2]
                    && s25.cells[3] == increment(s24.cells[3])
            );
            assert(s25.cells[3] == 11);
            let s26 = step(s25, None)->Ok_0;
            lemma_run_unfold(s25, rest2, (fuel - 25) as nat);
            assert(s26.counter == 26 && s26.pointer == 3 && s26.stack =~= seq![25usize]);
            assert(
                s26.cells.len() == 30000
                    && s26.program == echo_program()
                    && s26.output.len() == 0
            );
            lemma_echo_loop(s26, rest2, (fuel - 26) as nat, 11);
            assert(s26.output + echo_output(
                add_wrapping(s26.cells[0], 11),
                add_wrapping(s26.cells[1], 66),
                add_wrapping(s26.cells[2], 66),
            ) =~= seq![
                add_wrapping(inputs[0], 66),
                add_wrapping(inputs[1], 66),
                10u8,
                add_wrapping(inputs[0], 66),
                add_wrapping(inputs[1], 66),
                10u8,
            ]);
        }
    }
}

} // verus!
