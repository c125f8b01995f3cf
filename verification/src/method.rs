//! Compression methods and the rule that maps a menu selector to one.

use vstd::prelude::*;

verus! {

/// How the bytes of the entry are stored in the container.
#[derive(Clone, Copy, Debug, PartialEq, Eq, Structural)]
pub enum CompressionMethod {
    Deflate,
    Store,
    Bzip2,
    Zstandard,
}

/// The method chosen for a selector, and whether the selector was not one
/// of the menu's keys. The caller then owes the user a warning.
#[derive(Clone, Copy, Debug, PartialEq, Eq, Structural)]
pub struct Selection {
    pub method: CompressionMethod,
    pub fallback: bool,
}

/// The method that a menu key stands for.
pub open spec fn method_of_key(key: char) -> Option<CompressionMethod> {
    if key == '1' {
        Some(CompressionMethod::Deflate)
    } else if key == '2' {
        Some(CompressionMethod::Store)
    } else if key == '3' {
        Some(CompressionMethod::Bzip2)
    } else if key == '4' {
        Some(CompressionMethod::Zstandard)
    } else {
        None
    }
}

/// A selector is listed when it is exactly one menu key.
pub open spec fn listed(selector: Seq<char>) -> bool {
    selector.len() == 1 && method_of_key(selector[0]) is Some
}

/// The selection rule: a listed selector picks its method; anything else,
/// the empty selector included, falls back to Deflate.
pub open spec fn selection_for(selector: Seq<char>) -> Selection {
    if listed(selector) {
        Selection { method: method_of_key(selector[0])->0, fallback: false }
    } else {
        Selection { method: CompressionMethod::Deflate, fallback: true }
    }
}

/// The method of a menu key, `None` for any other character.
pub fn key_method(key: char) -> (r: Option<CompressionMethod>)
    ensures
        r == method_of_key(key),
{
    if key == '1' {
        Some(CompressionMethod::Deflate)
    } else if key == '2' {
        Some(CompressionMethod::Store)
    } else if key == '3' {
        Some(CompressionMethod::Bzip2)
    } else if key == '4' {
        Some(CompressionMethod::Zstandard)
    } else {
        None
    }
}

/// Maps a selector to a method. Never fails: an unlisted selector gives
/// Deflate with `fallback` set.
pub fn select_method(selector: &str) -> (r: Selection)
    ensures
        r == selection_for(selector@),
        !listed(selector@) ==> r.method == CompressionMethod::Deflate && r.fallback,
        listed(selector@) ==> !r.fallback,
{
    if selector.unicode_len() != 1 {
        return Selection { method: CompressionMethod::Deflate, fallback: true };
    }
    match key_method(selector.get_char(0)) {
        Some(method) => Selection { method, fallback: false },
        None => Selection { method: CompressionMethod::Deflate, fallback: true },
    }
}

/// The four menu keys are the only listed selectors.
pub proof fn lemma_listed_selectors(selector: Seq<char>)
    ensures
        listed(selector) <==> (selector == seq!['1'] || selector == seq!['2'] || selector == seq!['3']
            || selector == seq!['4']),
        selector == seq!['1'] ==> selection_for(selector).method == CompressionMethod::Deflate,
        selector == seq!['2'] ==> selection_for(selector).method == CompressionMethod::Store,
        selector == seq!['3'] ==> selection_for(selector).method == CompressionMethod::Bzip2,
        selector == seq!['4'] ==> selection_for(selector).method == CompressionMethod::Zstandard,
{
    if listed(selector) {
        assert(selector =~= seq![selector[0]]);
    }
}

} // verus!
