//! Reports the version of the build that a host has loaded.
//!
//! A host that loads the compiled module calls for the version once, to see
//! that the module answers at all and to learn which build it is talking to.
//! The binding layer hands [`get_version`] the version text that was fixed
//! when the module was compiled; the report is that text, unaltered, or
//! [`PLACEHOLDER`] where the build declared none.

use vstd::prelude::*;

verus! {

/// The text reported for a build that declares no version.
pub const PLACEHOLDER: &'static str = "0.0.0";

/// The report for a build whose declared version is `declared`: the declared
/// text itself, or the placeholder where that text is empty.
pub open spec fn reported(declared: Seq<char>) -> Seq<char> {
    if declared.len() > 0 {
        declared
    } else {
        PLACEHOLDER@
    }
}

/// Returns the version of the build as an owned string.
///
/// `declared` is the version text taken from the build's metadata. A text that
/// is not empty comes back character for character: nothing is added,
/// cut, trimmed or rewritten. An empty one gives [`PLACEHOLDER`]. The call
/// cannot fail and the report is never empty.
pub fn get_version(declared: &str) -> (version: String)
    ensures
        version@ == reported(declared@),
        declared@.len() > 0 ==> version@ == declared@,
        declared@.len() == 0 ==> version@ == PLACEHOLDER@,
        version@.len() > 0,
{
    proof {
        lemma_report_not_empty(declared@);
    }
    if declared.is_empty() {
        PLACEHOLDER.to_string()
    } else {
        declared.to_string()
    }
}

/// The placeholder is exactly the text `0.0.0`.
pub proof fn lemma_placeholder_text()
    ensures
        PLACEHOLDER@ == seq!['0', '.', '0', '.', '0'],
        PLACEHOLDER@.len() == 5,
{
    reveal_strlit("0.0.0");
    assert(PLACEHOLDER@ =~= seq!['0', '.', '0', '.', '0']);
}

/// No report is empty, whatever the build declared.
pub proof fn lemma_report_not_empty(declared: Seq<char>)
    ensures
        reported(declared).len() > 0,
{
    lemma_placeholder_text();
}

/// The report of a build that declares a version is that version, character
/// for character.
pub proof fn lemma_report_is_declared(declared: Seq<char>)
    requires
        declared.len() > 0,
    ensures
        reported(declared) == declared,
{
}

/// Two reports for one build never differ: whatever `get_version` returned
/// once for a declared version, it returns again, however often and by
/// whomever it is called.
pub proof fn lemma_reports_agree(declared: Seq<char>, first: String, second: String)
    requires
        first@ == reported(declared),
        second@ == reported(declared),
    ensures
        first@ == second@,
{
}

} // verus!
