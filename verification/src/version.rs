//! Comparing what a module printed with the version that is expected of it.

use vstd::prelude::*;
use vstd::string::StringExecFns;
use vstd::utf8::{decode_utf8, valid_utf8};
use crate::report::{Finding, FindingView};
use crate::text::trimmed;

verus! {

/// The one argument with which a module is launched to make it print its version.
pub const VERSION_ARGUMENT: &'static str = "--version";

/// The text that `module` prints when it has `version`: the two, with one space between.
pub open spec fn expected_text(module: Seq<char>, version: Seq<char>) -> Seq<char> {
    module + seq![' '] + version
}

/// What to make of `told`, the trimmed text that `module` printed when asked for its
/// version: confirmed where it is the expected text, a mismatch otherwise.
pub open spec fn compared(module: Seq<char>, version: Seq<char>, told: Seq<char>) -> FindingView {
    if told == expected_text(module, version) {
        FindingView::Confirmed
    } else {
        FindingView::Mismatch(told)
    }
}

/// What to make of `output`, the bytes that `module` printed when asked for its version:
/// unreadable where they are not UTF-8; otherwise what the text that they encode, trimmed,
/// compares to.
pub open spec fn verdict(module: Seq<char>, version: Seq<char>, output: Seq<u8>) -> FindingView {
    if valid_utf8(output) {
        compared(module, version, trimmed(decode_utf8(output)))
    } else {
        FindingView::Unreadable
    }
}

/// Compares `told`, the trimmed text that `module` printed when asked for its version, with
/// the text expected for `version`, character by character.
pub fn compare(module: &str, version: &str, told: &str) -> (finding: Finding)
    ensures
        finding@ == compared(module@, version@, told@),
{
    let told = String::from_str(told);
    let mut expected = String::from_str(module);
    expected.append(" ");
    expected.append(version);
    proof {
        reveal_strlit(" ");
        assert(" "@ =~= seq![' ']);
    }
    if told == expected {
        Finding::Confirmed
    } else {
        Finding::Mismatch(told)
    }
}

/// Judges the bytes that `module` printed when asked for its version against `version`.
pub fn judge(module: &str, version: &str, output: &[u8]) -> (finding: Finding)
    ensures
        finding@ == verdict(module@, version@, output@),
{
    match std::str::from_utf8(output) {
        Ok(text) => compare(module, version, text.trim()),
        Err(_) => Finding::Unreadable,
    }
}

} // verus!
