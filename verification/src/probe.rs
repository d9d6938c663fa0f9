//! The probe as a machine: it asks for one thing at a time, a look at a path or the launch
//! of a file, and is told what came of it, until it has a report.

use vstd::prelude::*;
use vstd::string::StringExecFns;
use crate::available::Available;
use crate::names::{candidate_names, name, texts, Platform};
use crate::report::{Finding, FindingView, Report, ReportView};
use crate::version::{judge, verdict};

verus! {

/// What the file system holds at a path.
#[derive(Debug, Copy, Clone, PartialEq, Eq)]
pub enum Entry {
    /// Nothing that could be examined: the path does not exist, or looking at it failed.
    Unavailable,
    /// Something that is no regular file.
    NotAFile,
    /// A regular file, with its permission bits where the platform has such bits.
    File { mode: Option<u32> },
}

/// Whether one of the three execute bits, the owner's, the group's or the others', is set.
pub open spec fn has_execute_bit(mode: u32) -> bool {
    mode & 0o100 != 0 || mode & 0o010 != 0 || mode & 0o001 != 0
}

/// Whether a regular file with these permission bits counts as executable: with bits, one
/// of the execute bits must be set; without, every regular file counts.
pub open spec fn launchable(mode: Option<u32>) -> bool {
    match mode {
        Some(bits) => has_execute_bit(bits),
        None => true,
    }
}

/// Whether a regular file with these permission bits counts as executable.
pub fn is_launchable(mode: Option<u32>) -> (yes: bool)
    ensures
        yes == launchable(mode),
{
    match mode {
        Some(bits) => {
            assert((bits & 0o111 != 0) == (bits & 0o100 != 0 || bits & 0o010 != 0 || bits & 0o001
                != 0)) by (bit_vector);
            bits & 0o111 != 0
        },
        None => true,
    }
}

/// What the host tells a probe in answer to an action.
#[derive(Debug, PartialEq, Eq)]
pub enum Event {
    /// The path was looked at, and this is what is there.
    Inspected(Entry),
    /// The file was launched, and these are the bytes that it wrote to its standard output.
    Printed(Vec<u8>),
    /// The file could not be launched.
    LaunchFailed,
}

/// An `Event` with its bytes as a sequence.
pub enum EventView {
    Inspected(Entry),
    Printed(Seq<u8>),
    LaunchFailed,
}

impl View for Event {
    type V = EventView;

    open spec fn view(&self) -> EventView {
        match self {
            Event::Inspected(entry) => EventView::Inspected(*entry),
            Event::Printed(output) => EventView::Printed(output@),
            Event::LaunchFailed => EventView::LaunchFailed,
        }
    }
}

/// What a probe asks of the host.
#[derive(Debug, PartialEq, Eq)]
pub enum Action {
    /// Look at the file called `name` in the directory with number `dir` of the search
    /// path, and answer with `Event::Inspected`.
    Inspect { name: String, dir: usize },
    /// Launch that file with the one argument `--version`, and answer with
    /// `Event::Printed` or `Event::LaunchFailed`.
    Query { name: String, dir: usize },
    /// Nothing more: the probe has ended with this report.
    Finish(Report),
}

/// An `Action` with its texts as sequences of characters.
pub enum ActionView {
    Inspect { name: Seq<char>, dir: nat },
    Query { name: Seq<char>, dir: nat },
    Finish(ReportView),
}

impl View for Action {
    type V = ActionView;

    open spec fn view(&self) -> ActionView {
        match self {
            Action::Inspect { name, dir } => ActionView::Inspect { name: name@, dir: *dir as nat },
            Action::Query { name, dir } => ActionView::Query { name: name@, dir: *dir as nat },
            Action::Finish(report) => ActionView::Finish(report@),
        }
    }
}

/// How far a probe has come.
pub enum StageView {
    /// Looking at candidate number `candidate` in directory number `dir`.
    Scanning { candidate: nat, dir: nat },
    /// Asking the file found there for its version.
    Querying { candidate: nat, dir: nat },
    /// Ended.
    Finished(ReportView),
}

/// The state of a probe.
pub struct ProbeView {
    /// The module that is looked for.
    pub module: Seq<char>,
    /// The version that is expected of it.
    pub version: Seq<char>,
    /// The candidate names, in the order in which they are tried.
    pub names: Seq<Seq<char>>,
    /// The number of directories on the search path.
    pub dirs: nat,
    pub stage: StageView,
}

impl ProbeView {
    /// The state in which a probe for `module` at `version` starts, on a search path of
    /// `search_path` directories, `None` standing for a search path that is not set.
    pub open spec fn start(
        module: Seq<char>,
        version: Seq<char>,
        platform: Platform,
        search_path: Option<usize>,
    ) -> ProbeView {
        let dirs = match search_path {
            Some(n) => n as nat,
            None => 0,
        };
        ProbeView {
            module,
            version,
            names: candidate_names(module, platform),
            dirs,
            stage: if dirs > 0 {
                StageView::Scanning { candidate: 0, dir: 0 }
            } else {
                StageView::Finished(ReportView::not_found())
            },
        }
    }

    /// The position that a probe looks at lies on the search path and among the candidates.
    pub open spec fn wf(self) -> bool {
        match self.stage {
            StageView::Scanning { candidate, dir } => candidate < self.names.len() && dir
                < self.dirs,
            StageView::Querying { candidate, dir } => candidate < self.names.len() && dir
                < self.dirs,
            StageView::Finished(_) => true,
        }
    }

    /// Whether the probe has ended.
    pub open spec fn finished(self) -> bool {
        self.stage is Finished
    }

    /// The classification that the probe stands at: none while it scans, `Degraded` from
    /// the moment an executable file is found, and that of the report once it has ended.
    pub open spec fn standing(self) -> Option<Available> {
        match self.stage {
            StageView::Scanning { candidate, dir } => None,
            StageView::Querying { candidate, dir } => Some(Available::Degraded),
            StageView::Finished(report) => Some(report.available()),
        }
    }

    /// What the probe asks for in this state.
    pub open spec fn action(self) -> ActionView {
        match self.stage {
            StageView::Scanning { candidate, dir } => ActionView::Inspect {
                name: self.names[candidate as int],
                dir,
            },
            StageView::Querying { candidate, dir } => ActionView::Query {
                name: self.names[candidate as int],
                dir,
            },
            StageView::Finished(report) => ActionView::Finish(report),
        }
    }

    /// The probe in the given stage.
    pub open spec fn at(self, stage: StageView) -> ProbeView {
        ProbeView { stage, ..self }
    }

    /// The probe ended with `finding` about the candidate with number `candidate`.
    pub open spec fn ended(self, candidate: nat, finding: FindingView) -> ProbeView {
        self.at(
            StageView::Finished(ReportView { name: self.names[candidate as int], finding }),
        )
    }

    /// The stage after a look at (`candidate`, `dir`) that found no regular file: the next
    /// directory for the same candidate; after the last directory, the next candidate from
    /// the first directory on; after the last candidate, the end.
    pub open spec fn after_miss(self, candidate: nat, dir: nat) -> StageView {
        if dir + 1 < self.dirs {
            StageView::Scanning { candidate, dir: dir + 1 }
        } else if candidate + 1 < self.names.len() {
            StageView::Scanning { candidate: candidate + 1, dir: 0 }
        } else {
            StageView::Finished(ReportView::not_found())
        }
    }

    /// The state after `event`. An event that does not answer the action of this state
    /// changes nothing, and neither does any event once the probe has ended.
    pub open spec fn step(self, event: EventView) -> ProbeView {
        match (self.stage, event) {
            (
                StageView::Scanning { candidate, dir },
                EventView::Inspected(Entry::File { mode }),
            ) => if launchable(mode) {
                self.at(StageView::Querying { candidate, dir })
            } else {
                self.ended(candidate, FindingView::NotExecutable)
            },
            (StageView::Scanning { candidate, dir }, EventView::Inspected(_)) => self.at(
                self.after_miss(candidate, dir),
            ),
            (StageView::Querying { candidate, dir }, EventView::Printed(output)) => self.ended(
                candidate,
                verdict(self.module, self.version, output),
            ),
            (StageView::Querying { candidate, dir }, EventView::LaunchFailed) => self.ended(
                candidate,
                FindingView::LaunchFailed,
            ),
            _ => self,
        }
    }
}

enum Stage {
    Scanning { candidate: usize, dir: usize },
    Querying { candidate: usize, dir: usize },
    Finished(Report),
}

impl View for Stage {
    type V = StageView;

    closed spec fn view(&self) -> StageView {
        match self {
            Stage::Scanning { candidate, dir } => StageView::Scanning {
                candidate: *candidate as nat,
                dir: *dir as nat,
            },
            Stage::Querying { candidate, dir } => StageView::Querying {
                candidate: *candidate as nat,
                dir: *dir as nat,
            },
            Stage::Finished(report) => StageView::Finished(report@),
        }
    }
}

/// A probe for one module: what it looks for, and how far it has come.
pub struct Probe {
    module: String,
    version: String,
    names: Vec<String>,
    dirs: usize,
    stage: Stage,
}

impl View for Probe {
    type V = ProbeView;

    closed spec fn view(&self) -> ProbeView {
        ProbeView {
            module: self.module@,
            version: self.version@,
            names: texts(self.names@),
            dirs: self.dirs as nat,
            stage: self.stage@,
        }
    }
}

impl Probe {
    #[verifier::type_invariant]
    spec fn inv(self) -> bool {
        self@.wf()
    }

    /// A probe for `module` at `version`, on a search path of `search_path` directories;
    /// `None` stands for a search path that is not set.
    pub fn new(module: &str, version: &str, platform: Platform, search_path: Option<usize>) -> (probe:
        Probe)
        ensures
            probe@ == ProbeView::start(module@, version@, platform, search_path),
            probe@.wf(),
    {
        let names = name(module, platform);
        let dirs: usize = match search_path {
            Some(n) => n,
            None => 0,
        };
        let stage = if dirs > 0 {
            Stage::Scanning { candidate: 0, dir: 0 }
        } else {
            Stage::Finished(Report { name: String::new(), finding: Finding::NotFound })
        };
        Probe {
            module: String::from_str(module),
            version: String::from_str(version),
            names,
            dirs,
            stage,
        }
    }

    /// What the probe asks for in its present state.
    pub fn action(&self) -> (action: Action)
        ensures
            action@ == self@.action(),
    {
        proof {
            use_type_invariant(self);
        }
        match &self.stage {
            Stage::Scanning { candidate, dir } => Action::Inspect {
                name: self.names[*candidate].clone(),
                dir: *dir,
            },
            Stage::Querying { candidate, dir } => Action::Query {
                name: self.names[*candidate].clone(),
                dir: *dir,
            },
            Stage::Finished(report) => Action::Finish(report.clone()),
        }
    }

    /// Takes in what the host answered and says what to do next.
    pub fn step(&mut self, event: Event) -> (action: Action)
        ensures
            final(self)@ == old(self)@.step(event@),
            action@ == final(self)@.action(),
            final(self)@.wf(),
    {
        proof {
            use_type_invariant(&*self);
            assert(texts(self.names@).len() == self.names@.len());
        }
        match self.stage {
            Stage::Scanning { candidate, dir } => {
                match event {
                    Event::Inspected(Entry::File { mode }) => {
                        if is_launchable(mode) {
                            self.stage = Stage::Querying { candidate, dir };
                        } else {
                            self.stage = Stage::Finished(
                                Report {
                                    name: self.names[candidate].clone(),
                                    finding: Finding::NotExecutable,
                                },
                            );
                        }
                    },
                    Event::Inspected(_) => {
                        let candidates = self.names.len();
                        if dir + 1 < self.dirs {
                            self.stage = Stage::Scanning { candidate, dir: dir + 1 };
                        } else if candidate + 1 < candidates {
                            self.stage = Stage::Scanning { candidate: candidate + 1, dir: 0 };
                        } else {
                            self.stage = Stage::Finished(
                                Report { name: String::new(), finding: Finding::NotFound },
                            );
                        }
                    },
                    _ => {},
                }
            },
            Stage::Querying { candidate, dir } => {
                match event {
                    Event::Printed(output) => {
                        let finding = judge(
                            self.module.as_str(),
                            self.version.as_str(),
                            output.as_slice(),
                        );
                        self.stage = Stage::Finished(
                            Report { name: self.names[candidate].clone(), finding },
                        );
                    },
                    Event::LaunchFailed => {
                        self.stage = Stage::Finished(
                            Report {
                                name: self.names[candidate].clone(),
                                finding: Finding::LaunchFailed,
                            },
                        );
                    },
                    _ => {},
                }
            },
            Stage::Finished(_) => {},
        }
        self.action()
    }
}

} // verus!
