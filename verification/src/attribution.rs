//! Call-stack log attribution: walk the ordered log lines of one
//! transaction, push a frame on each invocation line, pop on each completion
//! line, and attribute every other line to the program on top of the stack.
//! Unbalanced streams never fail: a pop of an empty stack is counted as a
//! consistency warning and processing continues.
use vstd::prelude::*;

use crate::bytes::{
    ends_with, find_sub, first_sub, has_sub, is_prefix_of, is_suffix_of, lemma_first_sub,
    matches_at, starts_with, sub_vec,
};
use crate::markers::{
    failed_marker, failed_marker_vec, invoke_marker, invoke_marker_vec, program_prefix,
    program_prefix_vec, success_suffix, success_suffix_vec,
};

verus! {

/// A line announcing a program invocation: it starts with "Program ", holds
/// the invoke marker, and what follows the marker ends with ']'.
pub open spec fn line_is_invoke(line: Seq<u8>) -> bool {
    &&& is_prefix_of(program_prefix(), line)
    &&& {
        let rest = line.skip(program_prefix().len() as int);
        &&& has_sub(rest, invoke_marker())
        &&& {
            let tail = rest.skip(first_sub(rest, invoke_marker()) + invoke_marker().len());
            tail.len() >= 1 && tail[tail.len() - 1] == 0x5du8
        }
    }
}

/// The program identifier an invocation line names: what stands between the
/// "Program " prefix and the first invoke marker.
pub open spec fn invoked_program_of(line: Seq<u8>) -> Seq<u8> {
    let rest = line.skip(program_prefix().len() as int);
    rest.subrange(0, first_sub(rest, invoke_marker()))
}

/// A line announcing that the innermost program completed, by success or by
/// failure.
pub open spec fn line_is_completion(line: Seq<u8>) -> bool {
    &&& is_prefix_of(program_prefix(), line)
    &&& {
        let rest = line.skip(program_prefix().len() as int);
        is_suffix_of(success_suffix(), rest) || has_sub(rest, failed_marker())
    }
}

/// How one log line is read. Invocation takes precedence over completion,
/// as a line is only tried as a completion once it is no invocation.
pub enum LineClass {
    Invoke(Seq<u8>),
    Completion,
    Other,
}

/// Classify one log line.
pub open spec fn classify(line: Seq<u8>) -> LineClass {
    if line_is_invoke(line) {
        LineClass::Invoke(invoked_program_of(line))
    } else if line_is_completion(line) {
        LineClass::Completion
    } else {
        LineClass::Other
    }
}

/// State of the tracker after some prefix of the lines: the reconstructed
/// call stack, the lines attributed to the target program so far (in
/// original order), and the count of empty-stack pops.
pub struct TrackModel {
    pub stack: Seq<Seq<u8>>,
    pub attributed: Seq<Seq<u8>>,
    pub warnings: nat,
}

impl TrackModel {
    pub open spec fn empty() -> TrackModel {
        TrackModel { stack: Seq::empty(), attributed: Seq::empty(), warnings: 0 }
    }
}

/// One step of the tracker on one line.
pub open spec fn track_step(target: Seq<u8>, st: TrackModel, line: Seq<u8>) -> TrackModel {
    match classify(line) {
        LineClass::Invoke(p) => TrackModel { stack: st.stack.push(p), ..st },
        LineClass::Completion => {
            if st.stack.len() == 0 {
                TrackModel { warnings: st.warnings + 1, ..st }
            } else {
                TrackModel { stack: st.stack.drop_last(), ..st }
            }
        },
        LineClass::Other => {
            if st.stack.len() > 0 && st.stack.last() == target {
                TrackModel { attributed: st.attributed.push(line), ..st }
            } else {
                st
            }
        },
    }
}

/// The tracker's state after the first `n` lines.
pub open spec fn track_prefix(target: Seq<u8>, logs: Seq<Seq<u8>>, n: int) -> TrackModel
    decreases n,
{
    if n <= 0 {
        TrackModel::empty()
    } else {
        track_step(target, track_prefix(target, logs, n - 1), logs[n - 1])
    }
}

/// The tracker's state after all lines.
pub open spec fn track(target: Seq<u8>, logs: Seq<Seq<u8>>) -> TrackModel {
    track_prefix(target, logs, logs.len() as int)
}

/// The call stack the tracker holds when line `i` is about to be read.
pub open spec fn stack_before(target: Seq<u8>, logs: Seq<Seq<u8>>, i: int) -> Seq<Seq<u8>> {
    track_prefix(target, logs, i).stack
}

/// Line `i` is attributed to `target`: it is an ordinary line and `target`
/// is the innermost active program when it is read.
pub open spec fn attributed_to_target(target: Seq<u8>, logs: Seq<Seq<u8>>, i: int) -> bool {
    &&& classify(logs[i]) is Other
    &&& stack_before(target, logs, i).len() > 0
    &&& stack_before(target, logs, i).last() == target
}

/// The subsequence of the first `n` lines attributed to `target`, stated
/// per line rather than through the tracker's fold.
pub open spec fn attributed_prefix(target: Seq<u8>, logs: Seq<Seq<u8>>, n: int) -> Seq<Seq<u8>>
    decreases n,
{
    if n <= 0 {
        Seq::empty()
    } else {
        let before = attributed_prefix(target, logs, n - 1);
        if attributed_to_target(target, logs, n - 1) {
            before.push(logs[n - 1])
        } else {
            before
        }
    }
}

/// The tracker yields exactly the lines whose innermost active program is
/// the target, in original order. This holds of every log sequence,
/// balanced or not.
pub proof fn lemma_attribution_exact(target: Seq<u8>, logs: Seq<Seq<u8>>)
    ensures
        track(target, logs).attributed == attributed_prefix(target, logs, logs.len() as int),
{
    lemma_attribution_exact_prefix(target, logs, logs.len() as int);
}

proof fn lemma_attribution_exact_prefix(target: Seq<u8>, logs: Seq<Seq<u8>>, n: int)
    ensures
        track_prefix(target, logs, n).attributed == attributed_prefix(target, logs, n),
    decreases n,
{
    if n > 0 {
        lemma_attribution_exact_prefix(target, logs, n - 1);
    }
}

/// Once the reconstructed stack is empty, an ordinary line is attributed to
/// nobody: reading it leaves the attributed subsequence unchanged.
pub proof fn lemma_no_attribution_on_empty_stack(target: Seq<u8>, logs: Seq<Seq<u8>>, i: int)
    requires
        0 <= i < logs.len(),
        stack_before(target, logs, i).len() == 0,
    ensures
        track_prefix(target, logs, i + 1).attributed == track_prefix(target, logs, i).attributed,
{
}

/// Parse an invocation line: the program it names, or `None` for any other
/// line. Mirrors `line_is_invoke` and `invoked_program_of` exactly.
pub fn parse_invoked_program(line: &Vec<u8>) -> (r: Option<Vec<u8>>)
    ensures
        r is Some <==> line_is_invoke(line@),
        r matches Some(p) ==> p@ == invoked_program_of(line@),
{
    let prefix = program_prefix_vec();
    if !starts_with(line, &prefix) {
        return None;
    }
    let rest = sub_vec(line, prefix.len(), line.len());
    assert(rest@ =~= line@.skip(program_prefix().len() as int));
    let marker = invoke_marker_vec();
    match find_sub(&rest, &marker) {
        None => {
            None
        },
        Some(i) => {
            proof {
                lemma_first_sub(rest@, invoke_marker());
                let f = first_sub(rest@, invoke_marker());
                assert(f == i as int);
            }
            // The part after the marker must end with ']'.
            let tail_start = i + marker.len();
            assert(tail_start <= rest.len()) by {
                assert(matches_at(rest@, invoke_marker(), i as int));
            }
            if tail_start < rest.len() && rest[rest.len() - 1] == 0x5d {
                assert(line_is_invoke(line@)) by {
                    let tail = rest@.skip(i + invoke_marker().len());
                    assert(tail.len() >= 1);
                    assert(tail[tail.len() - 1] == rest@[rest@.len() - 1]);
                }
                let program = sub_vec(&rest, 0, i);
                Some(program)
            } else {
                assert(!line_is_invoke(line@)) by {
                    let tail = rest@.skip(i + invoke_marker().len());
                    if tail.len() >= 1 {
                        assert(tail[tail.len() - 1] == rest@[rest@.len() - 1]);
                    }
                }
                None
            }
        },
    }
}

/// Is this line a completion marker (success or failure) for the innermost
/// program?
pub fn is_program_completion(line: &Vec<u8>) -> (r: bool)
    ensures
        r <==> line_is_completion(line@),
{
    let prefix = program_prefix_vec();
    if !starts_with(line, &prefix) {
        return false;
    }
    let rest = sub_vec(line, prefix.len(), line.len());
    assert(rest@ =~= line@.skip(program_prefix().len() as int));
    let success = success_suffix_vec();
    if ends_with(&rest, &success) {
        return true;
    }
    let failed = failed_marker_vec();
    match find_sub(&rest, &failed) {
        Some(i) => {
            assert(has_sub(rest@, failed_marker()));
            true
        },
        None => false,
    }
}

} // verus!
