//! What is taken from std on text: decoding bytes, trimming whitespace, lower-casing.

use vstd::prelude::*;
use vstd::utf8::{decode_utf8, valid_utf8};

verus! {

/// Whether `c` has the Unicode property White_Space, which is what `str::trim` takes for
/// whitespace: the controls from tab to carriage return, the space, the next-line control,
/// the no-break space, the Ogham space mark, the spaces from en quad to hair space, the line
/// and paragraph separators, the narrow no-break space, the medium mathematical space and
/// the ideographic space.
pub open spec fn white_space(c: char) -> bool {
    let n = c as u32;
    ||| 0x09 <= n <= 0x0D
    ||| n == 0x20
    ||| n == 0x85
    ||| n == 0xA0
    ||| n == 0x1680
    ||| 0x2000 <= n <= 0x200A
    ||| n == 0x2028
    ||| n == 0x2029
    ||| n == 0x202F
    ||| n == 0x205F
    ||| n == 0x3000
}

/// `s` without the whitespace it starts with.
pub open spec fn trimmed_start(s: Seq<char>) -> Seq<char>
    decreases s.len(),
{
    if s.len() > 0 && white_space(s.first()) {
        trimmed_start(s.drop_first())
    } else {
        s
    }
}

/// `s` without the whitespace it ends with.
pub open spec fn trimmed_end(s: Seq<char>) -> Seq<char>
    decreases s.len(),
{
    if s.len() > 0 && white_space(s.last()) {
        trimmed_end(s.drop_last())
    } else {
        s
    }
}

/// `s` without the whitespace around it.
pub open spec fn trimmed(s: Seq<char>) -> Seq<char> {
    trimmed_end(trimmed_start(s))
}

#[verifier::external_type_specification]
#[verifier::external_body]
pub struct ExUtf8Error(std::str::Utf8Error);

/// `std::str::from_utf8` accepts exactly the byte sequences that are well-formed UTF-8, and
/// hands back the characters that they encode.
pub assume_specification[ std::str::from_utf8 ](v: &[u8]) -> (r: Result<&str, std::str::Utf8Error>)
    ensures
        r is Ok <==> valid_utf8(v@),
        r matches Ok(s) ==> s@ == decode_utf8(v@),
;

/// `str::trim` hands back `s` without the whitespace at its two ends, whitespace being the
/// characters with the property White_Space.
pub assume_specification[ str::trim ](s: &str) -> (r: &str)
    ensures
        r@ == trimmed(s@),
;

/// `c` in lower case, where it is one of the letters `A` to `Z`; any other character as it
/// is.
pub open spec fn lower(c: char) -> char {
    if 'A' <= c <= 'Z' {
        ((c as u32) + 32) as char
    } else {
        c
    }
}

/// `s` with each of the letters `A` to `Z` in lower case.
pub open spec fn lowercased(s: Seq<char>) -> Seq<char> {
    s.map_values(|c: char| lower(c))
}

/// `str::to_ascii_lowercase` hands back a copy of `s` in which each of the letters `A` to
/// `Z` is replaced by its lower-case letter, and every other character is kept.
pub assume_specification[ str::to_ascii_lowercase ](s: &str) -> (r: String)
    ensures
        r@ == lowercased(s@),
;

/// Taking away `i` leading characters, all whitespace, up to one that is not (or up to the
/// end) is what `trimmed_start` does.
pub proof fn lemma_trimmed_start(s: Seq<char>, i: int)
    requires
        0 <= i <= s.len(),
        forall|k: int| 0 <= k < i ==> white_space(#[trigger] s[k]),
        i < s.len() ==> !white_space(s[i]),
    ensures
        trimmed_start(s) == s.subrange(i, s.len() as int),
    decreases i,
{
    if i == 0 {
        assert(s.subrange(0, s.len() as int) =~= s);
    } else {
        let rest = s.drop_first();
        assert(white_space(s[0]));
        assert forall|k: int| 0 <= k < i - 1 implies white_space(#[trigger] rest[k]) by {
            assert(rest[k] == s[k + 1]);
        }
        lemma_trimmed_start(rest, i - 1);
        assert(rest.subrange(i - 1, rest.len() as int) =~= s.subrange(i, s.len() as int));
    }
}

/// Taking away the characters from `j` on, all whitespace, back to one that is not (or back
/// to the start) is what `trimmed_end` does.
pub proof fn lemma_trimmed_end(s: Seq<char>, j: int)
    requires
        0 <= j <= s.len(),
        forall|k: int| j <= k < s.len() ==> white_space(#[trigger] s[k]),
        0 < j ==> !white_space(s[j - 1]),
    ensures
        trimmed_end(s) == s.subrange(0, j),
    decreases s.len() - j,
{
    if j == s.len() {
        assert(s.subrange(0, j) =~= s);
    } else {
        let rest = s.drop_last();
        assert(white_space(s[s.len() - 1]));
        assert forall|k: int| j <= k < rest.len() implies white_space(#[trigger] rest[k]) by {
            assert(rest[k] == s[k]);
        }
        lemma_trimmed_end(rest, j);
        assert(rest.subrange(0, j) =~= s.subrange(0, j));
    }
}

/// A stretch `s[i..j]` with only whitespace around it, and none at its own two ends, is
/// `trimmed(s)`.
pub proof fn lemma_trimmed(s: Seq<char>, i: int, j: int)
    requires
        0 <= i <= j <= s.len(),
        forall|k: int| 0 <= k < i ==> white_space(#[trigger] s[k]),
        forall|k: int| j <= k < s.len() ==> white_space(#[trigger] s[k]),
        i < j ==> !white_space(s[i]) && !white_space(s[j - 1]),
    ensures
        trimmed(s) == s.subrange(i, j),
{
    if i < j {
        lemma_trimmed_start(s, i);
        let tail = s.subrange(i, s.len() as int);
        assert forall|k: int| j - i <= k < tail.len() implies white_space(#[trigger] tail[k]) by {
            assert(tail[k] == s[k + i]);
        }
        assert(tail[j - i - 1] == s[j - 1]);
        lemma_trimmed_end(tail, j - i);
        assert(tail.subrange(0, j - i) =~= s.subrange(i, j));
    } else {
        // Nothing but whitespace: the start already trims everything away.
        assert forall|k: int| 0 <= k < s.len() implies white_space(#[trigger] s[k]) by {
            if k >= i {
                assert(j <= k);
            }
        }
        lemma_trimmed_start(s, s.len() as int);
        assert(s.subrange(s.len() as int, s.len() as int) =~= Seq::<char>::empty());
        assert(s.subrange(i, j) =~= Seq::<char>::empty());
        assert(trimmed_end(Seq::<char>::empty()) == Seq::<char>::empty());
    }
}

} // verus!
