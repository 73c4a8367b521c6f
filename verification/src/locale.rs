//! Locale normalization: a system locale such as `en-US` or `es_ES`
//! becomes a bare lowercase language code such as `en`.

use vstd::prelude::*;

use crate::text::find_char2;
use crate::text::first_index_of2;
use crate::text::lemma_first_index_of2;

verus! {

/// What lowercasing a character sequence yields.  The mapping is
/// Unicode case folding, far too wide to restate here; it depends on
/// the characters alone.
pub uninterp spec fn lower_of(s: Seq<char>) -> Seq<char>;

/// Relies on str::to_lowercase: the result depends on the input's
/// characters alone, and an empty string stays empty.
#[verifier::external_body]
fn lowercase(s: &str) -> (r: String)
    ensures
        r@ == lower_of(s@),
        s@.len() == 0 ==> r@.len() == 0,
{
    s.to_lowercase()
}

/// The language part of a locale: everything before the first `-` or
/// `_`, or the whole locale when neither occurs.
pub open spec fn language_prefix(l: Seq<char>) -> Seq<char> {
    match first_index_of2(l, '-', '_') {
        Some(k) => l.subrange(0, k),
        None => l,
    }
}

/// Normalize a locale to its lowercase language code: the part before
/// the first `-` or `_`, lowercased.
pub fn normalize_locale(locale: &str) -> (r: String)
    ensures
        r@ == lower_of(language_prefix(locale@)),
{
    let prefix = match find_char2(locale, '-', '_') {
        Some(k) => {
            proof {
                lemma_first_index_of2(locale@, '-', '_');
            }
            locale.substring_char(0, k)
        },
        None => locale,
    };
    lowercase(prefix)
}

} // verus!
