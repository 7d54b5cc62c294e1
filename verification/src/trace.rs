//! The lines of a run's trace.

use crate::candidate::{source_tag, Candidate, CandidateView};
use crate::text::{decimal, decimal_string};
use vstd::prelude::*;
use vstd::string::*;

verus! {

/// Line for looking up the database of `lang` at `path`.
pub open spec fn spec_checking_line(lang: Seq<char>, path: Seq<char>) -> Seq<char> {
    "[RUST] Checking for dictionary ("@ + lang + ") at: "@ + path
}

/// Line for probing `candidate`.
pub open spec fn spec_probe_line(candidate: CandidateView) -> Seq<char> {
    "[RUST] Checking for GZ file at: "@ + source_tag(candidate.source) + candidate.name
}

/// Line for a candidate that is there.
pub open spec fn spec_found_line() -> Seq<char> {
    "[RUST] GZ file found, decompressing..."@
}

/// Line for a payload of `size` bytes that has been written.
pub open spec fn spec_success_line(size: nat) -> Seq<char> {
    "[RUST] Successfully decompressed "@ + decimal(size) + " bytes"@
}

/// Line for a search that found no candidate.
pub open spec fn spec_absent_line() -> Seq<char> {
    "[RUST] Dictionary not found locally."@
}

/// The line for looking up the database of `lang` at `path`.
pub fn checking_line(lang: &str, path: &str) -> (line: String)
    ensures
        line@ == spec_checking_line(lang@, path@),
{
    let mut line = "[RUST] Checking for dictionary (".to_owned();
    line.append(lang);
    line.append(") at: ");
    line.append(path);
    line
}

/// The line for probing `candidate`.
pub fn probe_line(candidate: &Candidate) -> (line: String)
    ensures
        line@ == spec_probe_line(candidate@),
{
    let mut line = "[RUST] Checking for GZ file at: ".to_owned();
    let label = candidate.label();
    line.append(label.as_str());
    assert(line@ =~= spec_probe_line(candidate@));
    line
}

/// The line for a candidate that is there.
pub fn found_line() -> (line: String)
    ensures
        line@ == spec_found_line(),
{
    "[RUST] GZ file found, decompressing...".to_owned()
}

/// The line for a payload of `size` bytes that has been written.
pub fn success_line(size: usize) -> (line: String)
    ensures
        line@ == spec_success_line(size as nat),
{
    let mut line = "[RUST] Successfully decompressed ".to_owned();
    line.append(decimal_string(size as u64).as_str());
    line.append(" bytes");
    line
}

/// The line for a search that found no candidate.
pub fn absent_line() -> (line: String)
    ensures
        line@ == spec_absent_line(),
{
    "[RUST] Dictionary not found locally.".to_owned()
}

} // verus!
