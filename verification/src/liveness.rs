//! The node's liveness reporter: what the node says of itself with each
//! heartbeat, and what it makes of the hub's answer.

use crate::registry::NodeRuntimeStatus;
use crate::text::opt_text;
use vstd::prelude::*;

verus! {

/// What one slot shows to the rest of the node.
#[derive(Debug, PartialEq, Eq)]
pub struct SlotReport {
    /// Whether a unit is active in the slot.
    pub active: bool,
    /// The slot's entry in the error map.
    pub error: Option<String>,
}

/// The mathematical content of a [`SlotReport`].
pub struct SlotReportView {
    pub active: bool,
    pub error: Option<Seq<char>>,
}

impl View for SlotReport {
    type V = SlotReportView;

    open spec fn view(&self) -> SlotReportView {
        SlotReportView { active: self.active, error: opt_text(self.error) }
    }
}

/// The content of a list of reports.
pub open spec fn reports_view(v: Seq<SlotReport>) -> Seq<SlotReportView> {
    Seq::new(v.len(), |i: int| v[i]@)
}

/// The number of slots with an active unit.
pub open spec fn active_count(reports: Seq<SlotReportView>) -> nat
    decreases reports.len(),
{
    if reports.len() == 0 {
        0
    } else {
        active_count(reports.drop_last()) + if reports.last().active {
            1nat
        } else {
            0nat
        }
    }
}

/// Whether some slot has an error recorded.
pub open spec fn any_error(reports: Seq<SlotReportView>) -> bool {
    exists|i: int| 0 <= i < reports.len() && (#[trigger] reports[i]).error is Some
}

/// The status that a node reports: an error in any slot comes first, then
/// whether any unit is active.
pub open spec fn status_of(has_error: bool, active: nat) -> NodeRuntimeStatus {
    if has_error {
        NodeRuntimeStatus::Error
    } else if active > 0 {
        NodeRuntimeStatus::Running
    } else {
        NodeRuntimeStatus::Idle
    }
}

/// The status that a node reports.
pub fn derive_status(has_error: bool, active_containers: u32) -> (status: NodeRuntimeStatus)
    ensures
        status == status_of(has_error, active_containers as nat),
{
    if has_error {
        NodeRuntimeStatus::Error
    } else if active_containers > 0 {
        NodeRuntimeStatus::Running
    } else {
        NodeRuntimeStatus::Idle
    }
}

/// The number of active slots is at most the number of slots.
pub proof fn law_active_bounded(reports: Seq<SlotReportView>)
    ensures
        active_count(reports) <= reports.len(),
    decreases reports.len(),
{
    if reports.len() > 0 {
        law_active_bounded(reports.drop_last());
    }
}

/// What the slots of a node show: one report for each slot.
#[derive(Debug, PartialEq, Eq)]
pub struct StatusBoard {
    reports: Vec<SlotReport>,
}

impl View for StatusBoard {
    type V = Seq<SlotReportView>;

    closed spec fn view(&self) -> Seq<SlotReportView> {
        reports_view(self.reports@)
    }
}

impl StatusBoard {
    #[verifier::type_invariant]
    spec fn inv(&self) -> bool {
        self.reports@.len() <= u32::MAX
    }

    /// The board of a node with `slots` slots: nothing active, no error.
    pub fn new(slots: u32) -> (b: Self)
        ensures
            b@.len() == slots,
            forall|i: int| 0 <= i < slots ==> !(#[trigger] b@[i]).active && b@[i].error is None,
    {
        let mut reports: Vec<SlotReport> = Vec::new();
        let mut i: u32 = 0;
        while i < slots
            invariant
                i <= slots,
                reports@.len() == i,
                forall|k: int|
                    0 <= k < i ==> !(#[trigger] reports@[k]).active && reports@[k].error is None,
            decreases slots - i,
        {
            reports.push(SlotReport { active: false, error: None });
            i = i + 1;
        }
        StatusBoard { reports }
    }

    /// Puts up the report of slot `slot`. A slot that the board does not
    /// have is refused, and nothing changes.
    pub fn publish(&mut self, slot: u32, report: SlotReport) -> (known: bool)
        ensures
            known == (slot < old(self)@.len()),
            final(self)@ == if known {
                old(self)@.update(slot as int, report@)
            } else {
                old(self)@
            },
    {
        proof {
            use_type_invariant(&*self);
        }
        let at = slot as usize;
        if at < self.reports.len() {
            let mut reports: Vec<SlotReport> = Vec::new();
            core::mem::swap(&mut self.reports, &mut reports);
            reports.set(at, report);
            self.reports = reports;
            assert(final(self)@ =~= old(self)@.update(slot as int, report@));
            true
        } else {
            false
        }
    }

    /// What the node reports: its status and the number of active units.
    pub fn summary(&self) -> (r: (NodeRuntimeStatus, u32))
        ensures
            r.1 == active_count(self@),
            r.0 == status_of(any_error(self@), active_count(self@)),
    {
        proof {
            use_type_invariant(self);
        }
        let ghost all = self@;
        let mut active: u32 = 0;
        let mut has_error = false;
        let mut i: usize = 0;
        while i < self.reports.len()
            invariant
                i <= self.reports@.len(),
                self.reports@.len() <= u32::MAX,
                all == reports_view(self.reports@),
                active == active_count(all.take(i as int)),
                active <= i,
                has_error == any_error(all.take(i as int)),
            decreases self.reports@.len() - i,
        {
            let ghost before = all.take(i as int);
            let ghost upto = all.take(i + 1);
            assert(upto.drop_last() =~= before);
            assert(upto.last() == all[i as int]);
            if self.reports[i].active {
                active = active + 1;
            }
            proof {
                if any_error(before) {
                    let k = choose|k: int| 0 <= k < before.len() && (#[trigger] before[k]).error is Some;
                    assert(upto[k].error is Some);
                }
                if any_error(upto) {
                    let k = choose|k: int| 0 <= k < upto.len() && (#[trigger] upto[k]).error is Some;
                    if k < i {
                        assert(before[k].error is Some);
                    }
                }
            }
            if self.reports[i].error.is_some() {
                has_error = true;
                assert(upto[i as int].error is Some);
            }
            i = i + 1;
        }
        assert(all.take(i as int) =~= all);
        (derive_status(has_error, active), active)
    }
}

/// How a heartbeat ended.
#[derive(Debug, Clone, Copy, PartialEq, Eq, Structural)]
pub enum HeartbeatOutcome {
    /// The hub took the heartbeat, and said whether the node is to stop.
    Acknowledged { stop_requested: bool },
    /// The hub answered, but did not take the heartbeat.
    Rejected,
    /// The hub could not be reached.
    Unreachable,
}

/// Whether a heartbeat's outcome sets the node's shutdown flag: only the
/// hub's word does. A heartbeat that fails is tried again at the next tick.
pub fn stop_signalled(outcome: HeartbeatOutcome) -> (stop: bool)
    ensures
        stop == (outcome == HeartbeatOutcome::Acknowledged { stop_requested: true }),
{
    match outcome {
        HeartbeatOutcome::Acknowledged { stop_requested } => stop_requested,
        HeartbeatOutcome::Rejected => false,
        HeartbeatOutcome::Unreachable => false,
    }
}

/// The shutdown flag after a request to shut down, from a signal or from
/// the hub: set, whatever it was. Nothing unsets it.
pub fn raise(flag: bool, requested: bool) -> (r: bool)
    ensures
        r == (flag || requested),
        flag ==> r,
{
    flag || requested
}

} // verus!
