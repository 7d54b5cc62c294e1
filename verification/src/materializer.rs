//! The materializer: a state machine that decides, reply by reply, how the
//! database of one language comes to be in the data directory.
//!
//! The machine performs no I/O. It hands out a [`Request`]; the host carries
//! it out and answers with a [`Reply`]; the machine then either hands out the
//! next request or ends the run. Decompression is the one piece of work that
//! the machine does itself, in memory.

use crate::candidate::{
    candidate_views, database_file_name, default_candidates, spec_database_file_name,
    spec_default_candidates, Candidate, CandidateView,
};
use crate::gzip::{inflate, inflated_from, Inflated, InflatedView};
use crate::outcome::{
    absent, lines, lines_push, outcome_view, present, DictionaryInfo, DictionaryInfoView, Failure,
    FailureKind, FailureView, DICTIONARY_VERSION,
};
use crate::trace::{
    absent_line, checking_line, found_line, probe_line, spec_absent_line, spec_checking_line,
    spec_found_line, spec_probe_line, spec_success_line, success_line,
};
use vstd::prelude::*;

verus! {

/// Work that the machine asks of its host.
#[derive(Debug, PartialEq, Eq)]
pub enum Request {
    /// Resolve `file_name` in the writable data directory and say whether a
    /// file is there.
    Locate { file_name: String },
    /// Look for `candidate` and, if it is there, read all of it.
    Probe { candidate: Candidate },
    /// Create the file `path` and write `data` to it.
    Store { path: String, data: Vec<u8> },
}

/// A request as contracts see it.
pub enum RequestView {
    Locate { file_name: Seq<char> },
    Probe { candidate: CandidateView },
    Store { path: Seq<char>, data: Seq<u8> },
}

impl View for Request {
    type V = RequestView;

    open spec fn view(&self) -> RequestView {
        match self {
            Request::Locate { file_name } => RequestView::Locate { file_name: file_name@ },
            Request::Probe { candidate } => RequestView::Probe { candidate: candidate@ },
            Request::Store { path, data } => RequestView::Store { path: path@, data: data@ },
        }
    }
}

/// The host's answer to a request.
#[derive(Debug, PartialEq, Eq)]
pub enum Reply {
    /// To `Locate`: the file's path, and whether a file is there.
    Located { path: String, present: bool },
    /// To `Locate`: the data directory cannot be determined.
    NoDataDir { cause: String },
    /// To `Probe`: nothing is there.
    Missing,
    /// To `Probe`: something is there, but reading it failed.
    Unreadable { cause: String },
    /// To `Probe`: the candidate's full contents.
    Found { bytes: Vec<u8> },
    /// To `Store`: the file is written.
    Stored,
    /// To `Store`: the file could not be created.
    CreateFailed { cause: String },
    /// To `Store`: the file was created, but writing to it failed.
    WriteFailed { cause: String },
}

/// A reply as contracts see it.
pub enum ReplyView {
    Located { path: Seq<char>, present: bool },
    NoDataDir { cause: Seq<char> },
    Missing,
    Unreadable { cause: Seq<char> },
    Found { bytes: Seq<u8> },
    Stored,
    CreateFailed { cause: Seq<char> },
    WriteFailed { cause: Seq<char> },
}

impl View for Reply {
    type V = ReplyView;

    open spec fn view(&self) -> ReplyView {
        match self {
            Reply::Located { path, present } => ReplyView::Located { path: path@, present: *present },
            Reply::NoDataDir { cause } => ReplyView::NoDataDir { cause: cause@ },
            Reply::Missing => ReplyView::Missing,
            Reply::Unreadable { cause } => ReplyView::Unreadable { cause: cause@ },
            Reply::Found { bytes } => ReplyView::Found { bytes: bytes@ },
            Reply::Stored => ReplyView::Stored,
            Reply::CreateFailed { cause } => ReplyView::CreateFailed { cause: cause@ },
            Reply::WriteFailed { cause } => ReplyView::WriteFailed { cause: cause@ },
        }
    }
}

#[derive(Clone, Copy, Debug)]
enum Phase {
    Locating,
    Probing { index: usize },
    Storing { size: usize },
}

/// Which reply the machine is waiting for.
pub enum PhaseView {
    /// The answer to `Locate`.
    Locating,
    /// The answer to the probe of candidate `index`.
    Probing { index: nat },
    /// The answer to the store of a payload of `size` bytes.
    Storing { size: nat },
}

/// A run in progress.
#[derive(Debug)]
pub struct Materializer {
    lang: String,
    candidates: Vec<Candidate>,
    phase: Phase,
    path: String,
    logs: Vec<String>,
}

/// A run in progress as contracts see it.
pub struct MachineView {
    /// The language whose dictionary is wanted.
    pub lang: Seq<char>,
    /// The places to search, in order.
    pub candidates: Seq<CandidateView>,
    pub phase: PhaseView,
    /// Path of the database file, once located.
    pub path: Seq<char>,
    /// The trace so far.
    pub logs: Seq<Seq<char>>,
}

impl View for Materializer {
    type V = MachineView;

    closed spec fn view(&self) -> MachineView {
        MachineView {
            lang: self.lang@,
            candidates: candidate_views(self.candidates@),
            phase: match self.phase {
                Phase::Locating => PhaseView::Locating,
                Phase::Probing { index } => PhaseView::Probing { index: index as nat },
                Phase::Storing { size } => PhaseView::Storing { size: size as nat },
            },
            path: self.path@,
            logs: lines(self.logs@),
        }
    }
}

/// What the machine does next.
#[derive(Debug)]
pub enum Step {
    /// The host is to perform `request` and hand the reply to `machine`.
    Continue { machine: Materializer, request: Request },
    /// The run is over.
    Done { outcome: Result<DictionaryInfo, Failure> },
}

/// A step as contracts see it.
pub enum StepView {
    Continue { machine: MachineView, request: RequestView },
    Done { outcome: Result<DictionaryInfoView, FailureView> },
}

impl View for Step {
    type V = StepView;

    open spec fn view(&self) -> StepView {
        match self {
            Step::Continue { machine, request } => StepView::Continue {
                machine: machine@,
                request: request@,
            },
            Step::Done { outcome } => StepView::Done { outcome: outcome_view(*outcome) },
        }
    }
}

/// The first step of a run for `lang`: nothing is logged yet, and the host is
/// asked where the database file is.
pub open spec fn first_step(lang: Seq<char>, candidates: Seq<CandidateView>) -> StepView {
    StepView::Continue {
        machine: MachineView {
            lang,
            candidates,
            phase: PhaseView::Locating,
            path: Seq::empty(),
            logs: Seq::empty(),
        },
        request: RequestView::Locate { file_name: spec_database_file_name(lang) },
    }
}

/// The end of a run in a failure of `kind`.
pub open spec fn failed(kind: FailureKind, cause: Seq<char>, logs: Seq<Seq<char>>) -> StepView {
    StepView::Done { outcome: Err(FailureView { kind, cause, logs }) }
}

/// The search arrives at candidate `index`: it is probed, or, if the list is
/// exhausted, the run ends with the dictionary absent.
pub open spec fn search_from(machine: MachineView, index: nat) -> StepView {
    if index < machine.candidates.len() {
        let candidate = machine.candidates[index as int];
        StepView::Continue {
            machine: MachineView {
                phase: PhaseView::Probing { index },
                logs: machine.logs.push(spec_probe_line(candidate)),
                ..machine
            },
            request: RequestView::Probe { candidate },
        }
    } else {
        StepView::Done { outcome: Ok(absent(machine.logs.push(spec_absent_line()))) }
    }
}

/// The step that follows any reply but `Found`.
///
/// A database file that is in place ends the run at once, with the lookup as
/// the only line of the trace. Otherwise the candidates are probed in order
/// until one is there. A reply that does not answer the pending request ends
/// the run in an `OutOfTurn` failure.
pub open spec fn after_reply(machine: MachineView, reply: ReplyView) -> StepView {
    match (machine.phase, reply) {
        (PhaseView::Locating, ReplyView::NoDataDir { cause }) => failed(
            FailureKind::DataDir,
            cause,
            machine.logs,
        ),
        (PhaseView::Locating, ReplyView::Located { path, present: is_there }) => {
            let logs = machine.logs.push(spec_checking_line(machine.lang, path));
            if is_there {
                StepView::Done { outcome: Ok(present(path, logs)) }
            } else {
                search_from(MachineView { path, logs, ..machine }, 0)
            }
        },
        (PhaseView::Probing { index }, ReplyView::Missing) => search_from(machine, index + 1),
        (PhaseView::Probing { .. }, ReplyView::Unreadable { cause }) => failed(
            FailureKind::Read,
            cause,
            machine.logs.push(spec_found_line()),
        ),
        (PhaseView::Storing { size }, ReplyView::Stored) => StepView::Done {
            outcome: Ok(present(machine.path, machine.logs.push(spec_success_line(size)))),
        },
        (PhaseView::Storing { .. }, ReplyView::CreateFailed { cause }) => failed(
            FailureKind::Create,
            cause,
            machine.logs,
        ),
        (PhaseView::Storing { .. }, ReplyView::WriteFailed { cause }) => failed(
            FailureKind::Decompress,
            cause,
            machine.logs,
        ),
        _ => failed(FailureKind::OutOfTurn, Seq::empty(), machine.logs),
    }
}

/// The step that follows a `Found` reply whose bytes the decoder turned into
/// `unpacked`: the payload is handed out to be stored, or the decoder's
/// complaint ends the run.
pub open spec fn after_unpack(
    machine: MachineView,
    unpacked: Result<InflatedView, Seq<char>>,
) -> StepView {
    match machine.phase {
        PhaseView::Probing { .. } => {
            let logs = machine.logs.push(spec_found_line());
            match unpacked {
                Ok(inflated) => StepView::Continue {
                    machine: MachineView {
                        phase: PhaseView::Storing { size: inflated.data.len() },
                        logs,
                        ..machine
                    },
                    request: RequestView::Store { path: machine.path, data: inflated.data },
                },
                Err(cause) => failed(FailureKind::Decompress, cause, logs),
            }
        },
        _ => failed(FailureKind::OutOfTurn, Seq::empty(), machine.logs),
    }
}

/// The step that follows `reply`, where `unpacked` is what the decoder made of
/// the bytes of a `Found` reply.
pub open spec fn next(
    machine: MachineView,
    reply: ReplyView,
    unpacked: Result<InflatedView, Seq<char>>,
) -> StepView {
    if reply is Found {
        after_unpack(machine, unpacked)
    } else {
        after_reply(machine, reply)
    }
}

/// The decoder's result as contracts see it.
pub open spec fn unpack_view(unpacked: Result<Inflated, String>) -> Result<
    InflatedView,
    Seq<char>,
> {
    match unpacked {
        Ok(inflated) => Ok(inflated@),
        Err(cause) => Err(cause@),
    }
}

impl Materializer {
    /// Begins a run for language `lang` that searches `candidates` in order.
    pub fn start(lang: &str, candidates: Vec<Candidate>) -> (step: Step)
        ensures
            step@ == first_step(lang@, candidate_views(candidates@)),
    {
        let request = Request::Locate { file_name: database_file_name(lang) };
        let machine = Materializer {
            lang: lang.to_owned(),
            candidates,
            phase: Phase::Locating,
            path: String::new(),
            logs: Vec::new(),
        };
        assert(lines(machine.logs@) =~= Seq::empty());
        Step::Continue { machine, request }
    }

    /// Begins a run for language `lang` over the default candidates.
    pub fn begin(lang: &str) -> (step: Step)
        ensures
            step@ == first_step(lang@, spec_default_candidates(lang@)),
    {
        Materializer::start(lang, default_candidates(lang))
    }

    fn fail(self, kind: FailureKind, cause: String) -> (step: Step)
        ensures
            step@ == failed(kind, cause@, self@.logs),
    {
        Step::Done { outcome: Err(Failure { kind, cause, logs: self.logs }) }
    }

    fn out_of_turn(self) -> (step: Step)
        ensures
            step@ == failed(FailureKind::OutOfTurn, Seq::empty(), self@.logs),
    {
        self.fail(FailureKind::OutOfTurn, String::new())
    }

    fn log(&mut self, line: String)
        ensures
            final(self)@ == (MachineView { logs: old(self)@.logs.push(line@), ..old(self)@ }),
    {
        proof {
            lines_push(self.logs@, line);
        }
        self.logs.push(line);
    }

    fn search(self, index: usize) -> (step: Step)
        ensures
            step@ == search_from(self@, index as nat),
    {
        let mut machine = self;
        if index < machine.candidates.len() {
            let candidate = machine.candidates[index].duplicate();
            machine.log(probe_line(&candidate));
            machine.phase = Phase::Probing { index };
            Step::Continue { machine, request: Request::Probe { candidate } }
        } else {
            machine.log(absent_line());
            Step::Done {
                outcome: Ok(
                    DictionaryInfo {
                        version: String::new(),
                        path: String::new(),
                        exists: false,
                        logs: machine.logs,
                    },
                ),
            }
        }
    }

    fn finish(self) -> (step: Step)
        ensures
            step@ == (StepView::Done { outcome: Ok(present(self@.path, self@.logs)) }),
    {
        Step::Done {
            outcome: Ok(
                DictionaryInfo {
                    version: DICTIONARY_VERSION.to_owned(),
                    path: self.path,
                    exists: true,
                    logs: self.logs,
                },
            ),
        }
    }

    /// Continues the run after the decoder has turned the bytes of a `Found`
    /// reply into `unpacked`.
    pub fn unpacked(self, unpacked: Result<Inflated, String>) -> (step: Step)
        ensures
            step@ == after_unpack(self@, unpack_view(unpacked)),
    {
        let mut machine = self;
        match machine.phase {
            Phase::Probing { .. } => {
                machine.log(found_line());
                match unpacked {
                    Ok(inflated) => {
                        machine.phase = Phase::Storing { size: inflated.data.len() };
                        let path = machine.path.clone();
                        Step::Continue {
                            machine,
                            request: Request::Store { path, data: inflated.data },
                        }
                    },
                    Err(cause) => machine.fail(FailureKind::Decompress, cause),
                }
            },
            _ => machine.out_of_turn(),
        }
    }

    fn answered(self, reply: Reply) -> (step: Step)
        ensures
            step@ == after_reply(self@, reply@),
    {
        let mut machine = self;
        match (machine.phase, reply) {
            (Phase::Locating, Reply::NoDataDir { cause }) => machine.fail(
                FailureKind::DataDir,
                cause,
            ),
            (Phase::Locating, Reply::Located { path, present }) => {
                machine.log(checking_line(machine.lang.as_str(), path.as_str()));
                machine.path = path;
                if present {
                    machine.finish()
                } else {
                    machine.search(0)
                }
            },
            (Phase::Probing { index }, Reply::Missing) => {
                if index < machine.candidates.len() {
                    machine.search(index + 1)
                } else {
                    // Past the end there is nothing left to probe.
                    machine.search(index)
                }
            },
            (Phase::Probing { .. }, Reply::Unreadable { cause }) => {
                machine.log(found_line());
                machine.fail(FailureKind::Read, cause)
            },
            (Phase::Storing { size }, Reply::Stored) => {
                machine.log(success_line(size));
                machine.finish()
            },
            (Phase::Storing { .. }, Reply::CreateFailed { cause }) => machine.fail(
                FailureKind::Create,
                cause,
            ),
            (Phase::Storing { .. }, Reply::WriteFailed { cause }) => machine.fail(
                FailureKind::Decompress,
                cause,
            ),
            _ => machine.out_of_turn(),
        }
    }

    /// Continues the run with the host's `reply`.
    ///
    /// The bytes of a `Found` reply are decompressed here. Bytes that `inflate`
    /// accepts go on as their payload; bytes that it rejects go on as a
    /// failure, whose cause is in the decoder's words. For every other reply
    /// the step is `after_reply`.
    pub fn advance(self, reply: Reply) -> (step: Step)
        ensures
            !(reply is Found) ==> step@ == after_reply(self@, reply@),
            reply matches Reply::Found { bytes } ==> (match inflated_from(bytes@) {
                Some(inflated) => step@ == after_unpack(self@, Ok(inflated)),
                None => exists|cause: Seq<char>|
                    step@ == #[trigger] after_unpack(self@, Err(cause)),
            }),
    {
        match reply {
            Reply::Found { bytes } => {
                let unpacked = match self.phase {
                    Phase::Probing { .. } => inflate(bytes.as_slice()),
                    // Out of turn the bytes are of no interest.
                    _ => Err(String::new()),
                };
                let ghost handed = unpack_view(unpacked);
                let ghost before = self@;
                let step = self.unpacked(unpacked);
                proof {
                    match inflated_from(bytes@) {
                        Some(inflated) => {
                            assert(step@ == after_unpack(before, Ok(inflated)));
                        },
                        None => {
                            let cause = handed->Err_0;
                            assert(step@ == after_unpack(before, Err(cause)));
                        },
                    }
                }
                step
            },
            other => self.answered(other),
        }
    }
}

} // verus!
