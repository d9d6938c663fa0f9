//! A probe run to its end on a host, and what decides its report.

use vstd::prelude::*;
use crate::probe::{ActionView, Entry, EventView, ProbeView, StageView};
use crate::report::ReportView;

verus! {

/// A host, as far as a probe can tell: what lies at each path, and what a launch gives.
pub struct Host {
    /// What lies at the file of a name in the directory of a number.
    pub entries: spec_fn(Seq<char>, nat) -> Entry,
    /// The bytes that the file there prints when it is launched; `None` where the launch
    /// fails.
    pub outputs: spec_fn(Seq<char>, nat) -> Option<Seq<u8>>,
}

impl Host {
    /// What the host tells a probe that took `action`. A probe that has ended asks nothing,
    /// and whatever it is told changes nothing.
    pub open spec fn answer(self, action: ActionView) -> EventView {
        match action {
            ActionView::Inspect { name, dir } => EventView::Inspected((self.entries)(name, dir)),
            ActionView::Query { name, dir } => match (self.outputs)(name, dir) {
                Some(output) => EventView::Printed(output),
                None => EventView::LaunchFailed,
            },
            ActionView::Finish(_) => EventView::LaunchFailed,
        }
    }
}

/// The candidates that a probe has not done with.
pub open spec fn candidates_left(probe: ProbeView) -> nat {
    match probe.stage {
        StageView::Scanning { candidate, dir } => (probe.names.len() - candidate) as nat,
        StageView::Querying { candidate, dir } => (probe.names.len() - candidate) as nat,
        StageView::Finished(_) => 0,
    }
}

/// The directories that a probe has not done with for its present candidate.
pub open spec fn dirs_left(probe: ProbeView) -> nat {
    match probe.stage {
        StageView::Scanning { candidate, dir } => (probe.dirs - dir) as nat,
        StageView::Querying { candidate, dir } => (probe.dirs - dir) as nat,
        StageView::Finished(_) => 0,
    }
}

/// The events that a probe may still need at its present position.
pub open spec fn events_left(probe: ProbeView) -> nat {
    match probe.stage {
        StageView::Scanning { candidate, dir } => 2,
        StageView::Querying { candidate, dir } => 1,
        StageView::Finished(_) => 0,
    }
}

/// The report that `probe` ends with when `host` answers each of its actions.
pub open spec fn report_on(probe: ProbeView, host: Host) -> ReportView
    decreases candidates_left(probe), dirs_left(probe), events_left(probe),
{
    match probe.stage {
        StageView::Finished(report) => report,
        _ => if probe.wf() {
            report_on(probe.step(host.answer(probe.action())), host)
        } else {
            ReportView::not_found()
        },
    }
}

/// The places whose files `probe` launches before it ends when `host` answers each of its
/// actions, in the order of the launches; a place is a candidate's number and a
/// directory's.
pub open spec fn launched(probe: ProbeView, host: Host) -> Seq<(nat, nat)>
    decreases candidates_left(probe), dirs_left(probe), events_left(probe),
{
    match probe.stage {
        StageView::Finished(_) => Seq::empty(),
        _ => {
            let here = match probe.stage {
                StageView::Querying { candidate, dir } => seq![(candidate, dir)],
                _ => Seq::empty(),
            };
            if probe.wf() {
                here + launched(probe.step(host.answer(probe.action())), host)
            } else {
                here
            }
        },
    }
}

} // verus!
