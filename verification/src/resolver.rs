//! Resolution of a user-supplied identifier to an algorithm of the catalog.
//!
//! An identifier is lower-cased and then has to equal a canonical name or an alias
//! exactly. An identifier that matches nothing selects Levenshtein.

use vstd::prelude::*;
use vstd::utf8::*;
use crate::catalog::{
    catalog,
    is_lower_ascii,
    is_named,
    lemma_catalog_complete,
    lemma_named_once,
    lemma_names_lower_ascii,
    AlgorithmId,
    CATALOG_LEN,
};

verus! {

/// The algorithm that `key` names, if any. No letter case is folded here.
pub open spec fn lookup_spec(key: Seq<char>) -> Option<AlgorithmId> {
    if exists|id: AlgorithmId| is_named(id, key) {
        Some(choose|id: AlgorithmId| is_named(id, key))
    } else {
        None
    }
}

/// Looking up the canonical name or the alias of an algorithm finds that algorithm.
pub proof fn lemma_lookup_finds(id: AlgorithmId)
    ensures
        lookup_spec(id.spec_canonical_name()) == Some(id),
        lookup_spec(id.spec_alias()) == Some(id),
{
    let name = id.spec_canonical_name();
    assert(is_named(id, name));
    lemma_named_once(id, choose|other: AlgorithmId| is_named(other, name), name);
    let alias = id.spec_alias();
    assert(is_named(id, alias));
    lemma_named_once(id, choose|other: AlgorithmId| is_named(other, alias), alias);
}

/// What `str::to_lowercase` returns for a text.
pub uninterp spec fn lowercase_of(text: Seq<char>) -> Seq<char>;

/// Lower-case form of one ASCII character: the letters `A` to `Z` become `a` to `z`.
pub open spec fn ascii_lower(c: char) -> char {
    if 'A' <= c && c <= 'Z' {
        ((c as u32) + 32) as char
    } else {
        c
    }
}

/// Lower-case form of a text of ASCII characters.
pub open spec fn ascii_lowercase(text: Seq<char>) -> Seq<char> {
    text.map_values(|c: char| ascii_lower(c))
}

/// Lower-case form of a text. On ASCII it moves the letters `A` to `Z` to `a` to
/// `z` and nothing else; on other texts it is the Unicode lower-casing of std.
pub open spec fn lowercase(text: Seq<char>) -> Seq<char> {
    if is_ascii_chars(text) {
        ascii_lowercase(text)
    } else {
        lowercase_of(text)
    }
}

/// Lower-casing leaves a lower-case ASCII text as it is.
pub proof fn lemma_lowercase_fixed(text: Seq<char>)
    requires
        is_lower_ascii(text),
    ensures
        lowercase(text) == text,
{
    assert(is_ascii_chars(text));
    assert(ascii_lowercase(text) =~= text);
}

/// The algorithm that an identifier selects: the one that its lower-case form
/// names, and Levenshtein where it names none.
pub open spec fn resolve_spec(identifier: Seq<char>) -> AlgorithmId {
    match lookup_spec(lowercase(identifier)) {
        Some(id) => id,
        None => AlgorithmId::Levenshtein,
    }
}

/// Letter case does not matter: an identifier of ASCII characters selects what its
/// lower-case form selects.
pub proof fn lemma_resolve_ignores_case(identifier: Seq<char>)
    requires
        is_ascii_chars(identifier),
    ensures
        resolve_spec(identifier) == resolve_spec(ascii_lowercase(identifier)),
{
    let lowered = ascii_lowercase(identifier);
    assert(is_lower_ascii(lowered));
    lemma_lowercase_fixed(lowered);
}

/// An algorithm's canonical name and its alias both select that algorithm.
pub proof fn lemma_resolve_finds(id: AlgorithmId)
    ensures
        resolve_spec(id.spec_canonical_name()) == id,
        resolve_spec(id.spec_alias()) == id,
{
    lemma_names_lower_ascii(id);
    lemma_lowercase_fixed(id.spec_canonical_name());
    lemma_lowercase_fixed(id.spec_alias());
    lemma_lookup_finds(id);
}

/// Whether two texts hold the same characters.
pub fn same_text(a: &str, b: &str) -> (same: bool)
    ensures
        same == (a@ == b@),
{
    let x = a.as_bytes();
    let y = b.as_bytes();
    proof {
        encode_utf8_decode_utf8(a@);
        encode_utf8_decode_utf8(b@);
    }
    if x.len() != y.len() {
        return false;
    }
    let n: usize = x.len();
    let mut i: usize = 0;
    while i < n
        invariant
            i <= n,
            n == x@.len(),
            n == y@.len(),
            x@ == encode_utf8(a@),
            y@ == encode_utf8(b@),
            decode_utf8(encode_utf8(a@)) == a@,
            decode_utf8(encode_utf8(b@)) == b@,
            forall|j: int| 0 <= j < i ==> x@[j] == y@[j],
        decreases n - i,
    {
        if x[i] != y[i] {
            return false;
        }
        i = i + 1;
    }
    assert(x@ =~= y@);
    true
}

/// The algorithm whose canonical name or alias is exactly `key`.
pub fn lookup(key: &str) -> (found: Option<AlgorithmId>)
    ensures
        found == lookup_spec(key@),
{
    let mut i: usize = 0;
    while i < CATALOG_LEN
        invariant
            i <= CATALOG_LEN,
            forall|j: int| 0 <= j < i ==> !is_named(#[trigger] catalog()[j], key@),
        decreases CATALOG_LEN - i,
    {
        let id = AlgorithmId::at(i);
        if same_text(key, id.canonical_name()) || same_text(key, id.alias()) {
            proof {
                assert(is_named(id, key@));
                lemma_named_once(id, choose|other: AlgorithmId| is_named(other, key@), key@);
            }
            return Some(id);
        }
        i = i + 1;
    }
    proof {
        lemma_catalog_complete();
        assert forall|id: AlgorithmId| !is_named(id, key@) by {
            assert(catalog()[id.spec_index()] == id);
        }
    }
    None
}

/// Calls `str::to_lowercase` of std. The result is a function of the text alone; on
/// a text of ASCII characters it is the text with `A` to `Z` moved to `a` to `z`,
/// which is all that Unicode lower-casing changes there.
#[verifier::external_body]
fn to_lowercase(text: &str) -> (lowered: String)
    ensures
        lowered@ == lowercase_of(text@),
        is_ascii_chars(text@) ==> lowered@ == ascii_lowercase(text@),
{
    text.to_lowercase()
}

/// The algorithm that `key` names exactly, and Levenshtein where it names none.
pub fn select(key: &str) -> (id: AlgorithmId)
    ensures
        id == match lookup_spec(key@) {
            Some(found) => found,
            None => AlgorithmId::Levenshtein,
        },
{
    match lookup(key) {
        Some(found) => found,
        None => AlgorithmId::Levenshtein,
    }
}

/// The algorithm that `identifier` selects, whatever its letter case.
pub fn resolve(identifier: &str) -> (id: AlgorithmId)
    ensures
        id == resolve_spec(identifier@),
{
    let lowered = to_lowercase(identifier);
    select(lowered.as_str())
}

} // verus!
