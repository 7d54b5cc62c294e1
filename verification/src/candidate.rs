//! Where a compressed dictionary may be found, and in which order to look.

use vstd::prelude::*;
use vstd::string::*;

verus! {

/// The place that a candidate's name is resolved against.
#[derive(Clone, Copy, Debug, PartialEq, Eq, Structural)]
pub enum Source {
    /// An asset packaged with the application.
    Bundled,
    /// A path relative to the directory of the running executable.
    ExecutableDir,
    /// A file in the application's writable data directory.
    DataDir,
}

/// One location to probe for the compressed dictionary.
#[derive(Debug, PartialEq, Eq)]
pub struct Candidate {
    pub source: Source,
    pub name: String,
}

/// A candidate as contracts see it.
pub struct CandidateView {
    pub source: Source,
    pub name: Seq<char>,
}

impl View for Candidate {
    type V = CandidateView;

    open spec fn view(&self) -> CandidateView {
        CandidateView { source: self.source, name: self.name@ }
    }
}

/// The views of a list of candidates, in order.
pub open spec fn candidate_views(candidates: Seq<Candidate>) -> Seq<CandidateView> {
    Seq::new(candidates.len(), |i: int| candidates[i]@)
}

/// Name of the decompressed database of language `lang`.
pub open spec fn spec_database_file_name(lang: Seq<char>) -> Seq<char> {
    "dictionary_"@ + lang + ".db"@
}

/// Name of the compressed dictionary of language `lang`.
pub open spec fn spec_archive_file_name(lang: Seq<char>) -> Seq<char> {
    "dictionary_"@ + lang + ".db.gz"@
}

/// How a source is written in a trace line.
pub open spec fn source_tag(source: Source) -> Seq<char> {
    match source {
        Source::Bundled => "bundle:"@,
        Source::ExecutableDir => "exe:"@,
        Source::DataDir => "data:"@,
    }
}

/// The candidates that are probed unless the caller configures others: the
/// bundled asset at the root and under `resources/`, the same two names beside
/// the executable, and last a file downloaded into the data directory.
pub open spec fn spec_default_candidates(lang: Seq<char>) -> Seq<CandidateView> {
    let archive = spec_archive_file_name(lang);
    seq![
        CandidateView { source: Source::Bundled, name: archive },
        CandidateView { source: Source::Bundled, name: "resources/"@ + archive },
        CandidateView { source: Source::ExecutableDir, name: archive },
        CandidateView { source: Source::ExecutableDir, name: "resources/"@ + archive },
        CandidateView { source: Source::DataDir, name: archive },
    ]
}

impl Candidate {
    /// The candidate `name` within `source`.
    pub fn new(source: Source, name: &str) -> (candidate: Candidate)
        ensures
            candidate@ == (CandidateView { source, name: name@ }),
    {
        Candidate { source, name: name.to_owned() }
    }

    /// A copy of this candidate.
    pub fn duplicate(&self) -> (copy: Candidate)
        ensures
            copy@ == self@,
    {
        Candidate { source: self.source, name: self.name.clone() }
    }

    /// The candidate as a trace line names it: the tag of its source, then its name.
    pub fn label(&self) -> (text: String)
        ensures
            text@ == source_tag(self.source) + self.name@,
    {
        let tag = match self.source {
            Source::Bundled => "bundle:",
            Source::ExecutableDir => "exe:",
            Source::DataDir => "data:",
        };
        let mut text = tag.to_owned();
        text.append(self.name.as_str());
        text
    }
}

/// Name of the decompressed database of language `lang`. Any string is taken
/// as a language; none is rejected.
pub fn database_file_name(lang: &str) -> (name: String)
    ensures
        name@ == spec_database_file_name(lang@),
{
    let mut name = "dictionary_".to_owned();
    name.append(lang);
    name.append(".db");
    name
}

/// Name of the compressed dictionary of language `lang`.
pub fn archive_file_name(lang: &str) -> (name: String)
    ensures
        name@ == spec_archive_file_name(lang@),
{
    let mut name = "dictionary_".to_owned();
    name.append(lang);
    name.append(".db.gz");
    name
}

/// The default search order for language `lang`.
pub fn default_candidates(lang: &str) -> (candidates: Vec<Candidate>)
    ensures
        candidate_views(candidates@) == spec_default_candidates(lang@),
{
    let archive = archive_file_name(lang);
    let mut nested = "resources/".to_owned();
    nested.append(archive.as_str());
    let mut candidates: Vec<Candidate> = Vec::new();
    candidates.push(Candidate::new(Source::Bundled, archive.as_str()));
    candidates.push(Candidate::new(Source::Bundled, nested.as_str()));
    candidates.push(Candidate::new(Source::ExecutableDir, archive.as_str()));
    candidates.push(Candidate::new(Source::ExecutableDir, nested.as_str()));
    candidates.push(Candidate::new(Source::DataDir, archive.as_str()));
    assert(candidate_views(candidates@) =~= spec_default_candidates(lang@));
    candidates
}

} // verus!
