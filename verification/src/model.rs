//! Whole runs of the materializer against a model of its host, and the laws
//! that hold of them.
//!
//! Everything here is specification and proof: a `World` stands for what the
//! host would find and do, `materialize` feeds the machine with the world's
//! replies until the run is over, and the proof functions state what every
//! such run is bound to.

use crate::candidate::{spec_database_file_name, CandidateView};
use crate::gzip::{inflated_from, recorded_size, size_agrees, InflatedView};
use crate::materializer::{
    after_reply, after_unpack, first_step, next, search_from, MachineView, PhaseView, ReplyView,
    RequestView, StepView,
};
use crate::outcome::{absent, present, DictionaryInfoView, FailureKind, FailureView};
use crate::trace::{
    spec_absent_line, spec_checking_line, spec_found_line, spec_probe_line, spec_success_line,
};
use vstd::prelude::*;

verus! {

/// What a probe of a candidate finds.
pub enum Probe {
    Missing,
    Unreadable { cause: Seq<char> },
    Found { bytes: Seq<u8> },
}

/// How storing a file goes wrong.
pub enum WriteFault {
    /// The file is not created.
    Create { cause: Seq<char> },
    /// The file is created and holds `written` when the write gives up.
    Write { cause: Seq<char>, written: Seq<u8> },
}

/// The surroundings of a run.
pub struct World {
    /// The path that the data directory gives each file name, or why there is
    /// no data directory.
    pub data_dir: Result<spec_fn(Seq<char>) -> Seq<char>, Seq<char>>,
    /// The files in writable storage, by path.
    pub files: Map<Seq<char>, Seq<u8>>,
    /// What a probe of each candidate finds.
    pub sources: spec_fn(CandidateView) -> Probe,
    /// The decoder's words for each byte string that it rejects.
    pub complaints: spec_fn(Seq<u8>) -> Seq<char>,
    /// Whether, and how, storing given data at a given path goes wrong.
    pub write_fault: spec_fn(Seq<char>, Seq<u8>) -> Option<WriteFault>,
}

impl World {
    /// The host's reply to `request` in this world.
    pub open spec fn reply(self, request: RequestView) -> ReplyView {
        match request {
            RequestView::Locate { file_name } => match self.data_dir {
                Ok(place) => ReplyView::Located {
                    path: place(file_name),
                    present: self.files.dom().contains(place(file_name)),
                },
                Err(cause) => ReplyView::NoDataDir { cause },
            },
            RequestView::Probe { candidate } => match (self.sources)(candidate) {
                Probe::Missing => ReplyView::Missing,
                Probe::Unreadable { cause } => ReplyView::Unreadable { cause },
                Probe::Found { bytes } => ReplyView::Found { bytes },
            },
            RequestView::Store { path, data } => match (self.write_fault)(path, data) {
                None => ReplyView::Stored,
                Some(WriteFault::Create { cause }) => ReplyView::CreateFailed { cause },
                Some(WriteFault::Write { cause, .. }) => ReplyView::WriteFailed { cause },
            },
        }
    }

    /// The world once the host has performed `request`. Only a store changes
    /// it; a write that gives up leaves what it had written.
    pub open spec fn after(self, request: RequestView) -> World {
        match request {
            RequestView::Store { path, data } => match (self.write_fault)(path, data) {
                None => World { files: self.files.insert(path, data), ..self },
                Some(WriteFault::Create { .. }) => self,
                Some(WriteFault::Write { written, .. }) => World {
                    files: self.files.insert(path, written),
                    ..self
                },
            },
            _ => self,
        }
    }

    /// What `inflate` makes of `bytes` in this world: the member in them, or
    /// the decoder's complaint.
    pub open spec fn decoded(self, bytes: Seq<u8>) -> Result<InflatedView, Seq<char>> {
        match inflated_from(bytes) {
            Some(inflated) => Ok(inflated),
            None => Err((self.complaints)(bytes)),
        }
    }

    /// What the machine makes of the bytes that `reply` brings.
    pub open spec fn unpacked(self, reply: ReplyView) -> Result<InflatedView, Seq<char>> {
        match reply {
            ReplyView::Found { bytes } => self.decoded(bytes),
            _ => Err(Seq::empty()),
        }
    }

    /// The database file of `lang` is in place at `path`.
    pub open spec fn has_database(self, lang: Seq<char>, path: Seq<char>) -> bool {
        self.reply(RequestView::Locate { file_name: spec_database_file_name(lang) }) == (
        ReplyView::Located { path, present: true })
    }

    /// The data directory is known and holds no database file of `lang`; the
    /// file would be at `path`.
    pub open spec fn lacks_database(self, lang: Seq<char>, path: Seq<char>) -> bool {
        self.reply(RequestView::Locate { file_name: spec_database_file_name(lang) }) == (
        ReplyView::Located { path, present: false })
    }
}

/// A finished run: how it ended, the world it left, and every request that
/// the host was given, in order.
pub struct Run {
    pub outcome: Result<DictionaryInfoView, FailureView>,
    pub world: World,
    pub requests: Seq<RequestView>,
}

/// A bound on the requests that `machine` can still hand out after the
/// pending one.
pub open spec fn steps_left(machine: MachineView) -> nat {
    match machine.phase {
        PhaseView::Locating => machine.candidates.len() + 2,
        PhaseView::Probing { index } => if index < machine.candidates.len() {
            (machine.candidates.len() - index + 1) as nat
        } else {
            1
        },
        PhaseView::Storing { .. } => 0,
    }
}

/// The run that results when the host performs `request` and then whatever
/// `machine` asks next, until the machine is done.
pub open spec fn drive(world: World, machine: MachineView, request: RequestView) -> Run
    decreases steps_left(machine),
{
    let reply = world.reply(request);
    let then = world.after(request);
    match next(machine, reply, world.unpacked(reply)) {
        StepView::Done { outcome } => Run { outcome, world: then, requests: seq![request] },
        StepView::Continue { machine: onward, request: asked } => {
            let rest = drive(then, onward, asked);
            Run { requests: seq![request] + rest.requests, ..rest }
        },
    }
}

/// The complete run for language `lang` over `candidates` in `world`.
pub open spec fn materialize(world: World, lang: Seq<char>, candidates: Seq<CandidateView>) -> Run {
    match first_step(lang, candidates) {
        StepView::Continue { machine, request } => drive(world, machine, request),
        StepView::Done { outcome } => Run { outcome, world, requests: Seq::empty() },
    }
}

/// A database file that is already in place is taken as it is. The run is a
/// single lookup: nothing is probed, decompressed or written, the world stays
/// as it was, and the trace has exactly one line.
pub proof fn present_database_is_kept(
    world: World,
    lang: Seq<char>,
    candidates: Seq<CandidateView>,
    path: Seq<char>,
)
    requires
        world.has_database(lang, path),
    ensures
        materialize(world, lang, candidates) == (Run {
            outcome: Ok(present(path, seq![spec_checking_line(lang, path)])),
            world,
            requests: seq![RequestView::Locate { file_name: spec_database_file_name(lang) }],
        }),
        materialize(world, lang, candidates).outcome matches Ok(info) && info.exists && info.path
            == path && info.logs.len() == 1,
{
    let logs = Seq::<Seq<char>>::empty().push(spec_checking_line(lang, path));
    assert(logs =~= seq![spec_checking_line(lang, path)]);
}

/// The probe requests for the candidates from index `from` up to, not
/// including, `to`.
pub open spec fn probes(candidates: Seq<CandidateView>, from: nat, to: nat) -> Seq<RequestView> {
    Seq::new((to - from) as nat, |i: int| RequestView::Probe { candidate: candidates[from + i] })
}

/// The trace lines of those probes.
pub open spec fn probe_lines(candidates: Seq<CandidateView>, from: nat, to: nat) -> Seq<
    Seq<char>,
> {
    Seq::new((to - from) as nat, |i: int| spec_probe_line(candidates[from + i]))
}

/// The machine while the probe of candidate `index` is pending, in a run that
/// found the database missing at `path` and every earlier candidate missing.
pub open spec fn probing(
    lang: Seq<char>,
    candidates: Seq<CandidateView>,
    path: Seq<char>,
    index: nat,
) -> MachineView {
    MachineView {
        lang,
        candidates,
        phase: PhaseView::Probing { index },
        path,
        logs: seq![spec_checking_line(lang, path)] + probe_lines(candidates, 0, index + 1),
    }
}

/// `run`, with `requests` performed before it.
pub open spec fn preceded(requests: Seq<RequestView>, run: Run) -> Run {
    Run { requests: requests + run.requests, ..run }
}

/// The end of a run whose candidate `hit` is there, from the probe of that
/// candidate on: it is read, decompressed and stored, unless one of the three
/// fails. (Were the candidate missing, the search would simply go on.)
pub open spec fn settle(
    world: World,
    lang: Seq<char>,
    candidates: Seq<CandidateView>,
    path: Seq<char>,
    hit: nat,
) -> Run {
    let candidate = candidates[hit as int];
    let probe = RequestView::Probe { candidate };
    let logs = probing(lang, candidates, path, hit).logs.push(spec_found_line());
    match (world.sources)(candidate) {
        Probe::Missing => drive(world, probing(lang, candidates, path, hit), probe),
        Probe::Unreadable { cause } => Run {
            outcome: Err(FailureView { kind: FailureKind::Read, cause, logs }),
            world,
            requests: seq![probe],
        },
        Probe::Found { bytes } => match world.decoded(bytes) {
            Err(cause) => Run {
                outcome: Err(FailureView { kind: FailureKind::Decompress, cause, logs }),
                world,
                requests: seq![probe],
            },
            Ok(inflated) => {
                let store = RequestView::Store { path, data: inflated.data };
                Run {
                    outcome: match (world.write_fault)(path, inflated.data) {
                        None => Ok(
                            present(path, logs.push(spec_success_line(inflated.data.len()))),
                        ),
                        Some(WriteFault::Create { cause }) => Err(
                            FailureView { kind: FailureKind::Create, cause, logs },
                        ),
                        Some(WriteFault::Write { cause, .. }) => Err(
                            FailureView { kind: FailureKind::Decompress, cause, logs },
                        ),
                    },
                    world: world.after(store),
                    requests: seq![probe, store],
                }
            },
        },
    }
}

/// Candidates `from..to` are all missing in `world`.
pub open spec fn all_missing(
    world: World,
    candidates: Seq<CandidateView>,
    from: nat,
    to: nat,
) -> bool {
    forall|i: int| from <= i < to ==> (world.sources)(#[trigger] candidates[i]) is Missing
}

proof fn probing_advances(
    lang: Seq<char>,
    candidates: Seq<CandidateView>,
    path: Seq<char>,
    index: nat,
)
    requires
        index + 1 < candidates.len(),
    ensures
        search_from(probing(lang, candidates, path, index), index + 1) == (StepView::Continue {
            machine: probing(lang, candidates, path, index + 1),
            request: RequestView::Probe { candidate: candidates[index as int + 1] },
        }),
{
    let before = probing(lang, candidates, path, index);
    let after = probing(lang, candidates, path, index + 1);
    assert(before.logs.push(spec_probe_line(candidates[index as int + 1])) =~= after.logs);
}

proof fn skip_missing(
    world: World,
    lang: Seq<char>,
    candidates: Seq<CandidateView>,
    path: Seq<char>,
    index: nat,
    hit: nat,
)
    requires
        index <= hit < candidates.len(),
        all_missing(world, candidates, index, hit),
    ensures
        drive(
            world,
            probing(lang, candidates, path, index),
            RequestView::Probe { candidate: candidates[index as int] },
        ) == preceded(
            probes(candidates, index, hit),
            drive(
                world,
                probing(lang, candidates, path, hit),
                RequestView::Probe { candidate: candidates[hit as int] },
            ),
        ),
    decreases hit - index,
{
    let machine = probing(lang, candidates, path, index);
    let request = RequestView::Probe { candidate: candidates[index as int] };
    let end = drive(
        world,
        probing(lang, candidates, path, hit),
        RequestView::Probe { candidate: candidates[hit as int] },
    );
    if index == hit {
        assert(probes(candidates, index, hit) + end.requests =~= end.requests);
    } else {
        assert((world.sources)(candidates[index as int]) is Missing);
        probing_advances(lang, candidates, path, index);
        skip_missing(world, lang, candidates, path, index + 1, hit);
        assert(seq![request] + (probes(candidates, index + 1, hit) + end.requests) =~= probes(
            candidates,
            index,
            hit,
        ) + end.requests);
    }
}

proof fn settle_is_run(
    world: World,
    lang: Seq<char>,
    candidates: Seq<CandidateView>,
    path: Seq<char>,
    hit: nat,
)
    ensures
        drive(
            world,
            probing(lang, candidates, path, hit),
            RequestView::Probe { candidate: candidates[hit as int] },
        ) == settle(world, lang, candidates, path, hit),
{
    let machine = probing(lang, candidates, path, hit);
    let probe = RequestView::Probe { candidate: candidates[hit as int] };
    let run = drive(world, machine, probe);
    let closed = settle(world, lang, candidates, path, hit);
    match (world.sources)(candidates[hit as int]) {
        Probe::Found { bytes } => match world.decoded(bytes) {
            Ok(inflated) => {
                let store = RequestView::Store { path, data: inflated.data };
                let storing = MachineView {
                    phase: PhaseView::Storing { size: inflated.data.len() },
                    logs: machine.logs.push(spec_found_line()),
                    ..machine
                };
                let tail = drive(world, storing, store);
                assert(tail.requests =~= seq![store]);
                assert(seq![probe] + seq![store] =~= seq![probe, store]);
                assert(run == preceded(seq![probe], tail));
                assert(run == closed);
            },
            Err(_) => {
                assert(run == closed);
            },
        },
        _ => {
            assert(run == closed);
        },
    }
}

/// The run that finds the database missing at `path` and candidate `hit` as
/// the first that is there: one lookup, one probe for each candidate up to
/// `hit`, then what `settle` says.
pub open spec fn run_with_hit(
    world: World,
    lang: Seq<char>,
    candidates: Seq<CandidateView>,
    path: Seq<char>,
    hit: nat,
) -> Run {
    preceded(
        seq![RequestView::Locate { file_name: spec_database_file_name(lang) }] + probes(
            candidates,
            0,
            hit,
        ),
        settle(world, lang, candidates, path, hit),
    )
}

/// The run that finds neither the database at `path` nor any candidate: one
/// lookup, one probe for each candidate, nothing stored, and the dictionary
/// reported absent.
pub open spec fn run_without_hit(
    world: World,
    lang: Seq<char>,
    candidates: Seq<CandidateView>,
    path: Seq<char>,
) -> Run {
    Run {
        outcome: Ok(
            absent(
                seq![spec_checking_line(lang, path)] + probe_lines(candidates, 0, candidates.len())
                    + seq![spec_absent_line()],
            ),
        ),
        world,
        requests: seq![RequestView::Locate { file_name: spec_database_file_name(lang) }] + probes(
            candidates,
            0,
            candidates.len(),
        ),
    }
}

proof fn search_begins(
    world: World,
    lang: Seq<char>,
    candidates: Seq<CandidateView>,
    path: Seq<char>,
)
    requires
        world.lacks_database(lang, path),
        candidates.len() > 0,
    ensures
        materialize(world, lang, candidates) == preceded(
            seq![RequestView::Locate { file_name: spec_database_file_name(lang) }],
            drive(
                world,
                probing(lang, candidates, path, 0),
                RequestView::Probe { candidate: candidates[0] },
            ),
        ),
{
    let logs = Seq::<Seq<char>>::empty().push(spec_checking_line(lang, path));
    assert(logs.push(spec_probe_line(candidates[0])) =~= probing(lang, candidates, path, 0).logs);
}

/// The search is in list order and stops at the first candidate that is
/// there. With the database missing at `path`, every candidate before `hit`
/// missing and `hit` there, the run is `run_with_hit`: the candidates up to
/// `hit` are probed in order, `hit` is the only one read, and no candidate
/// behind it is touched.
pub proof fn search_stops_at_first_hit(
    world: World,
    lang: Seq<char>,
    candidates: Seq<CandidateView>,
    path: Seq<char>,
    hit: nat,
)
    requires
        world.lacks_database(lang, path),
        hit < candidates.len(),
        all_missing(world, candidates, 0, hit),
        !((world.sources)(candidates[hit as int]) is Missing),
    ensures
        materialize(world, lang, candidates) == run_with_hit(world, lang, candidates, path, hit),
        materialize(world, lang, candidates).requests.len() <= hit + 3,
        materialize(world, lang, candidates).requests.take(hit as int + 2) == seq![
            RequestView::Locate { file_name: spec_database_file_name(lang) },
        ] + probes(candidates, 0, hit + 1),
        forall|i: int|
            hit + 2 <= i < materialize(world, lang, candidates).requests.len() ==> (
            #[trigger] materialize(world, lang, candidates).requests[i]) is Store,
{
    let locate = RequestView::Locate { file_name: spec_database_file_name(lang) };
    let end = settle(world, lang, candidates, path, hit);
    let run = materialize(world, lang, candidates);
    search_begins(world, lang, candidates, path);
    skip_missing(world, lang, candidates, path, 0, hit);
    settle_is_run(world, lang, candidates, path, hit);
    assert(seq![locate] + (probes(candidates, 0, hit) + end.requests) =~= (seq![locate] + probes(
        candidates,
        0,
        hit,
    )) + end.requests);
    assert(run.requests.take(hit as int + 2) =~= seq![locate] + probes(candidates, 0, hit + 1));
}

/// Where no candidate is there, the run ends well: the dictionary is
/// reported absent, with no path and no version, every candidate has been
/// probed once, and nothing has been stored or changed.
pub proof fn nothing_found_is_absent(
    world: World,
    lang: Seq<char>,
    candidates: Seq<CandidateView>,
    path: Seq<char>,
)
    requires
        world.lacks_database(lang, path),
        all_missing(world, candidates, 0, candidates.len()),
    ensures
        materialize(world, lang, candidates) == run_without_hit(world, lang, candidates, path),
        run_without_hit(world, lang, candidates, path).world == world,
        run_without_hit(world, lang, candidates, path).outcome matches Ok(info) && !info.exists
            && info.path.len() == 0 && info.version.len() == 0,
        forall|i: int|
            0 <= i < run_without_hit(world, lang, candidates, path).requests.len() ==> !(
            #[trigger] run_without_hit(world, lang, candidates, path).requests[i] is Store),
{
    let locate = RequestView::Locate { file_name: spec_database_file_name(lang) };
    let checked = Seq::<Seq<char>>::empty().push(spec_checking_line(lang, path));
    let closed = run_without_hit(world, lang, candidates, path);
    if candidates.len() == 0 {
        assert(checked.push(spec_absent_line()) =~= seq![spec_checking_line(lang, path)]
            + probe_lines(candidates, 0, 0) + seq![spec_absent_line()]);
        assert(seq![locate] =~= seq![locate] + probes(candidates, 0, 0));
    } else {
        let last = (candidates.len() - 1) as nat;
        let machine = probing(lang, candidates, path, last);
        let probe = RequestView::Probe { candidate: candidates[last as int] };
        search_begins(world, lang, candidates, path);
        skip_missing(world, lang, candidates, path, 0, last);
        assert((world.sources)(candidates[last as int]) is Missing);
        assert(machine.logs.push(spec_absent_line()) =~= seq![spec_checking_line(lang, path)]
            + probe_lines(candidates, 0, candidates.len()) + seq![spec_absent_line()]);
        assert(seq![locate] + (probes(candidates, 0, last) + seq![probe]) =~= seq![locate]
            + probes(candidates, 0, candidates.len()));
    }
}

/// Candidates behind the first that is there play no part in the run: it is
/// the run over the list cut off after `hit`.
pub proof fn later_candidates_are_idle(
    world: World,
    lang: Seq<char>,
    candidates: Seq<CandidateView>,
    path: Seq<char>,
    hit: nat,
)
    requires
        world.lacks_database(lang, path),
        hit < candidates.len(),
        all_missing(world, candidates, 0, hit),
        !((world.sources)(candidates[hit as int]) is Missing),
    ensures
        materialize(world, lang, candidates) == materialize(
            world,
            lang,
            candidates.take(hit as int + 1),
        ),
{
    let cut = candidates.take(hit as int + 1);
    search_stops_at_first_hit(world, lang, candidates, path, hit);
    assert(cut[hit as int] == candidates[hit as int]);
    assert forall|i: int| 0 <= i < hit implies (world.sources)(#[trigger] cut[i]) is Missing by {
        assert(cut[i] == candidates[i]);
    }
    search_stops_at_first_hit(world, lang, cut, path, hit);
    assert(probes(cut, 0, hit) =~= probes(candidates, 0, hit));
    assert(probe_lines(cut, 0, hit + 1) =~= probe_lines(candidates, 0, hit + 1));
}

/// What becomes of the first candidate that is there. Where it holds `bytes`
/// that `inflate` accepts and the store goes well, the run ends with the
/// database in place: the file holds exactly the payload of the gzip member in
/// `bytes`, the result names its path, and the last line of the trace reports
/// the payload's size. Where `bytes` is that member and nothing more, and the
/// payload is shorter than 2^32 bytes, the size reported is the size that the
/// last four bytes of `bytes` record. Bytes that `inflate` rejects end the run
/// in a decompress failure, with nothing stored.
pub proof fn first_hit_is_stored(
    world: World,
    lang: Seq<char>,
    candidates: Seq<CandidateView>,
    path: Seq<char>,
    hit: nat,
    bytes: Seq<u8>,
)
    requires
        world.lacks_database(lang, path),
        hit < candidates.len(),
        all_missing(world, candidates, 0, hit),
        (world.sources)(candidates[hit as int]) == (Probe::Found { bytes }),
    ensures
        match inflated_from(bytes) {
            Some(inflated) => (world.write_fault)(path, inflated.data) is None ==> {
                &&& materialize(world, lang, candidates).world.has_database(lang, path)
                &&& materialize(world, lang, candidates).world.files[path] == inflated.data
                &&& materialize(world, lang, candidates).outcome matches Ok(info) && info.exists
                    && info.path == path && info.logs.last() == spec_success_line(
                    inflated.data.len(),
                ) && (inflated.rest == 0 && inflated.data.len() < 0x1_0000_0000
                    ==> info.logs.last() == spec_success_line(recorded_size(bytes)))
            },
            None => {
                &&& materialize(world, lang, candidates).world == world
                &&& materialize(world, lang, candidates).outcome matches Err(failure)
                    && failure.kind == FailureKind::Decompress && failure.cause == (
                world.complaints)(bytes)
            },
        },
{
    search_stops_at_first_hit(world, lang, candidates, path, hit);
    assert(bytes.take(bytes.len() - 0) =~= bytes);
}

/// The index of the first candidate from `from` on that is there, or the
/// length of the list if none is.
pub open spec fn first_hit(world: World, candidates: Seq<CandidateView>, from: nat) -> nat
    decreases candidates.len() - from,
{
    if from >= candidates.len() {
        candidates.len()
    } else if (world.sources)(candidates[from as int]) is Missing {
        first_hit(world, candidates, from + 1)
    } else {
        from
    }
}

/// `first_hit` is what its name says: every candidate before it is missing,
/// and the candidate at it, if there is one, is there.
pub proof fn first_hit_is_first(world: World, candidates: Seq<CandidateView>, from: nat)
    requires
        from <= candidates.len(),
    ensures
        from <= first_hit(world, candidates, from) <= candidates.len(),
        all_missing(world, candidates, from, first_hit(world, candidates, from)),
        first_hit(world, candidates, from) < candidates.len() ==> !((world.sources)(
            candidates[first_hit(world, candidates, from) as int],
        ) is Missing),
    decreases candidates.len() - from,
{
    if from < candidates.len() && (world.sources)(candidates[from as int]) is Missing {
        first_hit_is_first(world, candidates, from + 1);
    }
}

/// The step at which the run in `world` fails, if it fails: the data
/// directory is unknown, or the first candidate that is there cannot be read,
/// decoded or stored.
pub open spec fn expected_failure(
    world: World,
    lang: Seq<char>,
    candidates: Seq<CandidateView>,
) -> Option<FailureKind> {
    match world.reply(RequestView::Locate { file_name: spec_database_file_name(lang) }) {
        ReplyView::NoDataDir { .. } => Some(FailureKind::DataDir),
        ReplyView::Located { path, present: false } => {
            let hit = first_hit(world, candidates, 0);
            if hit < candidates.len() {
                match (world.sources)(candidates[hit as int]) {
                    Probe::Missing => None,
                    Probe::Unreadable { .. } => Some(FailureKind::Read),
                    Probe::Found { bytes } => match inflated_from(bytes) {
                        None => Some(FailureKind::Decompress),
                        Some(inflated) => match (world.write_fault)(path, inflated.data) {
                            None => None,
                            Some(WriteFault::Create { .. }) => Some(FailureKind::Create),
                            Some(WriteFault::Write { .. }) => Some(FailureKind::Decompress),
                        },
                    },
                }
            } else {
                None
            }
        },
        _ => None,
    }
}

/// A run fails exactly when `expected_failure` names a step, and then with
/// that kind of failure. In particular no run of a host that answers what it
/// is asked ends out of turn.
pub proof fn runs_fail_for_a_cause(world: World, lang: Seq<char>, candidates: Seq<CandidateView>)
    ensures
        match materialize(world, lang, candidates).outcome {
            Ok(_) => expected_failure(world, lang, candidates) is None,
            Err(failure) => expected_failure(world, lang, candidates) == Some(failure.kind),
        },
{
    match world.reply(RequestView::Locate { file_name: spec_database_file_name(lang) }) {
        ReplyView::Located { path, present: true } => {
            present_database_is_kept(world, lang, candidates, path);
        },
        ReplyView::Located { path, present: false } => {
            let hit = first_hit(world, candidates, 0);
            first_hit_is_first(world, candidates, 0);
            if hit < candidates.len() {
                search_stops_at_first_hit(world, lang, candidates, path, hit);
            } else {
                nothing_found_is_absent(world, lang, candidates, path);
            }
        },
        _ => {},
    }
}

/// Only a store changes the world: a run in which nothing was stored leaves
/// every file as it was.
pub proof fn only_a_store_writes(world: World, lang: Seq<char>, candidates: Seq<CandidateView>)
    requires
        forall|i: int|
            0 <= i < materialize(world, lang, candidates).requests.len() ==> !(
            #[trigger] materialize(world, lang, candidates).requests[i] is Store),
    ensures
        materialize(world, lang, candidates).world == world,
{
    let run = materialize(world, lang, candidates);
    match world.reply(RequestView::Locate { file_name: spec_database_file_name(lang) }) {
        ReplyView::Located { path, present: true } => {
            present_database_is_kept(world, lang, candidates, path);
        },
        ReplyView::Located { path, present: false } => {
            let hit = first_hit(world, candidates, 0);
            first_hit_is_first(world, candidates, 0);
            if hit < candidates.len() {
                search_stops_at_first_hit(world, lang, candidates, path, hit);
                let end = settle(world, lang, candidates, path, hit);
                if end.requests.len() == 2 {
                    assert(run.requests[hit as int + 2] == end.requests[1]);
                    assert(run.requests[hit as int + 2] is Store);
                }
            } else {
                nothing_found_is_absent(world, lang, candidates, path);
            }
        },
        _ => {},
    }
}

/// Materializing is idempotent. After a run that ended with the database in
/// place, a second run in the world that the first one left is a single
/// lookup: it reports the same path, and it probes, stores and changes nothing,
/// so the file keeps the content that the first run left.
pub proof fn second_run_is_a_lookup(world: World, lang: Seq<char>, candidates: Seq<CandidateView>)
    requires
        materialize(world, lang, candidates).outcome matches Ok(info) && info.exists,
    ensures
        materialize(world, lang, candidates).outcome matches Ok(info) && materialize(
            materialize(world, lang, candidates).world,
            lang,
            candidates,
        ) == (Run {
            outcome: Ok(present(info.path, seq![spec_checking_line(lang, info.path)])),
            world: materialize(world, lang, candidates).world,
            requests: seq![RequestView::Locate { file_name: spec_database_file_name(lang) }],
        }),
{
    let first = materialize(world, lang, candidates);
    match world.reply(RequestView::Locate { file_name: spec_database_file_name(lang) }) {
        ReplyView::Located { path, present: true } => {
            present_database_is_kept(world, lang, candidates, path);
            present_database_is_kept(first.world, lang, candidates, path);
        },
        ReplyView::Located { path, present: false } => {
            let hit = first_hit(world, candidates, 0);
            first_hit_is_first(world, candidates, 0);
            if hit < candidates.len() {
                search_stops_at_first_hit(world, lang, candidates, path, hit);
                assert(first.world.has_database(lang, path));
                present_database_is_kept(first.world, lang, candidates, path);
            } else {
                nothing_found_is_absent(world, lang, candidates, path);
            }
        },
        _ => {},
    }
}

/// A run that ended with the dictionary absent can be repeated at will: it
/// left the world as it was, so the next run is the same run.
pub proof fn absent_run_changes_nothing(
    world: World,
    lang: Seq<char>,
    candidates: Seq<CandidateView>,
)
    requires
        materialize(world, lang, candidates).outcome matches Ok(info) && !info.exists,
    ensures
        materialize(world, lang, candidates).world == world,
{
    match world.reply(RequestView::Locate { file_name: spec_database_file_name(lang) }) {
        ReplyView::Located { path, present: true } => {
            present_database_is_kept(world, lang, candidates, path);
        },
        ReplyView::Located { path, present: false } => {
            let hit = first_hit(world, candidates, 0);
            first_hit_is_first(world, candidates, 0);
            if hit < candidates.len() {
                search_stops_at_first_hit(world, lang, candidates, path, hit);
            } else {
                nothing_found_is_absent(world, lang, candidates, path);
            }
        },
        _ => {},
    }
}

/// The byte count in the trace is the size that the archive records of
/// itself. Where a candidate's bytes are one gzip member and nothing more, and
/// the payload is shorter than 2^32 bytes, the payload handed out to be stored
/// has the length in the member's size field, and the line written once it is
/// stored reports that number.
pub proof fn reported_size_is_recorded_size(
    machine: MachineView,
    bytes: Seq<u8>,
    inflated: InflatedView,
)
    requires
        machine.phase is Probing,
        size_agrees(bytes, inflated.data.len(), 0),
        inflated.data.len() < 0x1_0000_0000,
    ensures
        inflated.data.len() == recorded_size(bytes),
        after_unpack(machine, Ok(inflated)) matches StepView::Continue {
            machine: storing,
            request: RequestView::Store { data, .. },
        } && data == inflated.data && (after_reply(storing, ReplyView::Stored)
            matches StepView::Done { outcome: Ok(info) } && info.exists && info.logs.last()
            == spec_success_line(recorded_size(bytes))),
{
    assert(bytes.take(bytes.len() - 0) =~= bytes);
}

} // verus!
