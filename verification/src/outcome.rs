//! What a run of the materializer ends in.

use vstd::prelude::*;
use vstd::string::*;

verus! {

/// Version tag reported for a dictionary that is present. It is a fixed tag,
/// not read from the asset.
pub const DICTIONARY_VERSION: &'static str = "20241115";

/// The texts of a list of strings, in order.
pub open spec fn lines(logs: Seq<String>) -> Seq<Seq<char>> {
    Seq::new(logs.len(), |i: int| logs[i]@)
}

/// Appending a string appends its text.
pub proof fn lines_push(logs: Seq<String>, line: String)
    ensures
        lines(logs.push(line)) == lines(logs).push(line@),
{
    assert(lines(logs.push(line)) =~= lines(logs).push(line@));
}

/// The state of a language's dictionary after a run.
#[derive(Debug, PartialEq, Eq)]
pub struct DictionaryInfo {
    /// The version tag; empty when the dictionary is absent.
    pub version: String,
    /// Path of the database file; empty when the dictionary is absent.
    pub path: String,
    /// Whether the database file is in place.
    pub exists: bool,
    /// The trace of the run, one line per step taken.
    pub logs: Vec<String>,
}

/// A `DictionaryInfo` as contracts see it.
pub struct DictionaryInfoView {
    pub version: Seq<char>,
    pub path: Seq<char>,
    pub exists: bool,
    pub logs: Seq<Seq<char>>,
}

impl View for DictionaryInfo {
    type V = DictionaryInfoView;

    open spec fn view(&self) -> DictionaryInfoView {
        DictionaryInfoView {
            version: self.version@,
            path: self.path@,
            exists: self.exists,
            logs: lines(self.logs@),
        }
    }
}

/// The result for a database file that is in place at `path`.
pub open spec fn present(path: Seq<char>, logs: Seq<Seq<char>>) -> DictionaryInfoView {
    DictionaryInfoView { version: DICTIONARY_VERSION@, path, exists: true, logs }
}

/// The result for a dictionary that could not be found anywhere: no version,
/// no path. It is a regular result, so that the caller can fetch the asset
/// and try again.
pub open spec fn absent(logs: Seq<Seq<char>>) -> DictionaryInfoView {
    DictionaryInfoView { version: Seq::empty(), path: Seq::empty(), exists: false, logs }
}

/// Which step of a run failed.
#[derive(Clone, Copy, Debug, PartialEq, Eq, Structural)]
pub enum FailureKind {
    /// The writable data directory could not be determined.
    DataDir,
    /// A compressed dictionary was found but could not be read.
    Read,
    /// The database file could not be created.
    Create,
    /// The compressed stream was faulty, or writing its payload failed.
    Decompress,
    /// The host's reply did not answer the pending request.
    OutOfTurn,
}

/// A failed run: the step, the underlying cause in the host's or the decoder's
/// words, and the trace up to the failure.
#[derive(Debug, PartialEq, Eq)]
pub struct Failure {
    pub kind: FailureKind,
    pub cause: String,
    pub logs: Vec<String>,
}

/// A `Failure` as contracts see it.
pub struct FailureView {
    pub kind: FailureKind,
    pub cause: Seq<char>,
    pub logs: Seq<Seq<char>>,
}

impl View for Failure {
    type V = FailureView;

    open spec fn view(&self) -> FailureView {
        FailureView { kind: self.kind, cause: self.cause@, logs: lines(self.logs@) }
    }
}

/// How the message of a failure of `kind` begins.
pub open spec fn failure_prefix(kind: FailureKind) -> Seq<char> {
    match kind {
        FailureKind::DataDir => "Failed to get app data dir: "@,
        FailureKind::Read => "Failed to read GZ file: "@,
        FailureKind::Create => "Failed to create DB file: "@,
        FailureKind::Decompress => "Failed to decompress DB: "@,
        FailureKind::OutOfTurn => "Reply does not answer the pending request"@,
    }
}

/// How a run ended, as contracts see it.
pub open spec fn outcome_view(outcome: Result<DictionaryInfo, Failure>) -> Result<
    DictionaryInfoView,
    FailureView,
> {
    match outcome {
        Ok(info) => Ok(info@),
        Err(failure) => Err(failure@),
    }
}

impl Failure {
    /// The failure as one descriptive message: what failed, then the cause.
    pub fn message(&self) -> (text: String)
        ensures
            text@ == failure_prefix(self.kind) + self.cause@,
    {
        let prefix = match self.kind {
            FailureKind::DataDir => "Failed to get app data dir: ",
            FailureKind::Read => "Failed to read GZ file: ",
            FailureKind::Create => "Failed to create DB file: ",
            FailureKind::Decompress => "Failed to decompress DB: ",
            FailureKind::OutOfTurn => "Reply does not answer the pending request",
        };
        let mut text = prefix.to_owned();
        text.append(self.cause.as_str());
        text
    }
}

} // verus!
