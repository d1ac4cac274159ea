use vstd::prelude::*;

use crate::error::Error;
use crate::opcode::{CLOSE, OPEN};

verus! {

/// How much a byte changes the nesting depth of loops.
pub open spec fn depth_change(b: u8) -> int {
    if b == OPEN {
        1
    } else if b == CLOSE {
        -1
    } else {
        0
    }
}

/// Nesting depth once the bytes after `start` up to and including `k` are
/// read, counting the bracket at `start` as one open loop.
pub open spec fn depth_at(cmds: Seq<u8>, start: int, k: int) -> int
    decreases k - start,
{
    if k <= start {
        1
    } else {
        depth_at(cmds, start, k - 1) + depth_change(cmds[k])
    }
}

/// `j` holds the `]` that closes the loop opened at `start`: the first index
/// after `start` at which the nesting depth comes back to zero.
pub open spec fn is_matching_close(cmds: Seq<u8>, start: int, j: int) -> bool {
    &&& start < j < cmds.len()
    &&& depth_at(cmds, start, j) == 0
    &&& forall|k: int| start < k < j ==> depth_at(cmds, start, k) > 0
}

pub open spec fn has_matching_close(cmds: Seq<u8>, start: int) -> bool {
    exists|j: int| is_matching_close(cmds, start, j)
}

/// The index of the `]` that closes the loop opened at `start`.
pub open spec fn matching_close(cmds: Seq<u8>, start: int) -> int
    recommends
        has_matching_close(cmds, start),
{
    choose|j: int| is_matching_close(cmds, start, j)
}

/// A loop has at most one closing bracket.
pub proof fn lemma_matching_close_unique(cmds: Seq<u8>, start: int, i: int, j: int)
    requires
        is_matching_close(cmds, start, i),
        is_matching_close(cmds, start, j),
    ensures
        i == j,
{
    if i < j {
        assert(depth_at(cmds, start, i) > 0);
    } else if j < i {
        assert(depth_at(cmds, start, j) > 0);
    }
}

/// Finds the `]` that closes the loop opened at `instruction_pointer`, by
/// scanning forward and counting nested brackets.
pub fn bracket_match(instruction_pointer: usize, commands: &[u8]) -> (r: Result<usize, Error>)
    requires
        instruction_pointer < commands@.len(),
    ensures
        has_matching_close(commands@, instruction_pointer as int) ==> r == Ok::<usize, Error>(
            matching_close(commands@, instruction_pointer as int) as usize,
        ),
        !has_matching_close(commands@, instruction_pointer as int) ==> r == Err::<usize, Error>(
            Error::UnmatchedOpenBracket,
        ),
{
    let ghost cmds = commands@;
    let ghost start = instruction_pointer as int;
    let n = commands.len();
    let mut depth: usize = 1;
    let mut i: usize = instruction_pointer;
    while depth > 0
        invariant
            cmds == commands@,
            n == cmds.len(),
            start == instruction_pointer as int,
            start < cmds.len(),
            start <= i < cmds.len(),
            depth as int == depth_at(cmds, start, i as int),
            depth <= i - start + 1,
            forall|k: int| start < k < i ==> depth_at(cmds, start, k) > 0,
        decreases cmds.len() - i,
    {
        if i >= n - 1 {
            proof {
                assert forall|j: int| !is_matching_close(cmds, start, j) by {
                    if start < j < cmds.len() {
                        if j < i {
                            assert(depth_at(cmds, start, j) > 0);
                        } else {
                            assert(j == i);
                        }
                    }
                }
                assert(!has_matching_close(cmds, start));
            }
            return Err(Error::UnmatchedOpenBracket);
        }
        i = i + 1;
        let c = commands[i];
        if c == OPEN {
            depth = depth + 1;
        } else if c == CLOSE {
            depth = depth - 1;
        }
    }
    proof {
        assert(is_matching_close(cmds, start, i as int));
        lemma_matching_close_unique(cmds, start, i as int, matching_close(cmds, start));
    }
    Ok(i)
}

} // verus!
