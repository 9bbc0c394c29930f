//! The node's shutdown coordinator: what the node's top level does, given
//! the shutdown flag and which of its slots have ended.
//!
//! A slot ends only because the flag was set. So slots that have all ended
//! without the flag are a collapse, which the node reports as an error
//! rather than as an orderly shutdown.

use vstd::prelude::*;

verus! {

/// What the node's top level does next.
#[derive(Debug, Clone, Copy, PartialEq, Eq, Structural)]
pub enum Supervision {
    /// Look again in a moment.
    KeepWaiting,
    /// Shutdown was asked for: wait for the slots that still run.
    AwaitSlots,
    /// Shutdown was asked for and every slot has ended: leave in good order.
    ExitClean,
    /// Every slot has ended though no shutdown was asked for: leave with an
    /// error.
    ExitCollapsed,
}

/// Whether every slot has ended.
pub open spec fn all_ended(ended: Seq<bool>) -> bool {
    forall|i: int| 0 <= i < ended.len() ==> ended[i]
}

/// What the node's top level does, given the flag and the slots.
pub open spec fn supervision(stop_requested: bool, ended: Seq<bool>) -> Supervision {
    if stop_requested {
        if all_ended(ended) {
            Supervision::ExitClean
        } else {
            Supervision::AwaitSlots
        }
    } else if all_ended(ended) {
        Supervision::ExitCollapsed
    } else {
        Supervision::KeepWaiting
    }
}

/// Whether every slot has ended.
pub fn all_finished(ended: &Vec<bool>) -> (r: bool)
    ensures
        r == all_ended(ended@),
{
    let mut i: usize = 0;
    while i < ended.len()
        invariant
            i <= ended@.len(),
            forall|k: int| 0 <= k < i ==> ended@[k],
        decreases ended@.len() - i,
    {
        if !ended[i] {
            return false;
        }
        i = i + 1;
    }
    true
}

/// Decides what the node's top level does next.
pub fn supervise(stop_requested: bool, ended: &Vec<bool>) -> (r: Supervision)
    ensures
        r == supervision(stop_requested, ended@),
{
    let done = all_finished(ended);
    if stop_requested {
        if done {
            Supervision::ExitClean
        } else {
            Supervision::AwaitSlots
        }
    } else if done {
        Supervision::ExitCollapsed
    } else {
        Supervision::KeepWaiting
    }
}

/// The exit code of the node's process: zero after an orderly shutdown, one
/// after a collapse, none while the node goes on.
pub fn exit_code(s: Supervision) -> (code: Option<u8>)
    ensures
        code == match s {
            Supervision::ExitClean => Some(0u8),
            Supervision::ExitCollapsed => Some(1u8),
            _ => None,
        },
{
    match s {
        Supervision::ExitClean => Some(0),
        Supervision::ExitCollapsed => Some(1),
        _ => None,
    }
}

} // verus!
