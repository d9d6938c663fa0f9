//! The file names under which a module's executable is looked for.

use vstd::prelude::*;
use vstd::string::StringExecFns;
use crate::text::lowercased;

verus! {

/// The host's family, as far as it decides how executables are named.
#[derive(Debug, Copy, Clone, PartialEq, Eq, Structural)]
pub enum Platform {
    /// The Windows family: executables end in `.exe`.
    Windows,
    /// Every other family: executables carry no extension.
    Other,
}

/// The branding token that opens the first candidate name.
pub open spec fn brand() -> Seq<char> {
    seq!['M', 'F', 'E', 'K']
}

/// The lower-case, hyphenated token that opens the second candidate name.
pub open spec fn hyphenated_brand() -> Seq<char> {
    seq!['m', 'f', 'e', 'k', '-']
}

/// What the platform appends to an executable's name.
pub open spec fn extension(platform: Platform) -> Seq<char> {
    match platform {
        Platform::Windows => seq!['.', 'e', 'x', 'e'],
        Platform::Other => Seq::empty(),
    }
}

/// The candidate file names of `module` on `platform`, in the order in which they are tried:
/// the brand with the module as it is written, then the hyphenated brand with the module in
/// lower case.
pub open spec fn candidate_names(module: Seq<char>, platform: Platform) -> Seq<Seq<char>> {
    seq![
        brand() + module + extension(platform),
        hyphenated_brand() + lowercased(module) + extension(platform),
    ]
}

/// The text of each string of `strings`, in order.
pub open spec fn texts(strings: Seq<String>) -> Seq<Seq<char>> {
    strings.map_values(|s: String| s@)
}

/// The candidate file names of `module` on `platform`: the branded name first, the
/// hyphenated, lower-case one second.
pub fn name(module: &str, platform: Platform) -> (names: Vec<String>)
    ensures
        texts(names@) == candidate_names(module@, platform),
{
    let mut branded = String::from_str("MFEK");
    branded.append(module);
    let mut hyphenated = String::from_str("mfek-");
    hyphenated.append(module.to_ascii_lowercase().as_str());
    match platform {
        Platform::Windows => {
            branded.append(".exe");
            hyphenated.append(".exe");
        },
        Platform::Other => {},
    }
    proof {
        reveal_strlit("MFEK");
        reveal_strlit("mfek-");
        reveal_strlit(".exe");
        assert(branded@ =~= brand() + module@ + extension(platform));
        assert(hyphenated@ =~= hyphenated_brand() + lowercased(module@) + extension(platform));
    }
    let mut names: Vec<String> = Vec::new();
    names.push(branded);
    names.push(hyphenated);
    assert(texts(names@) =~= candidate_names(module@, platform));
    names
}

} // verus!
