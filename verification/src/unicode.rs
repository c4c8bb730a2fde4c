//! Unicode case mapping and normalization, as std and `unicode-normalization` compute them.
use vstd::prelude::*;
use unicode_normalization::UnicodeNormalization;

verus! {

/// What `str::to_uppercase` returns for a string with these characters.
pub uninterp spec fn uppercase(s: Seq<char>) -> Seq<char>;

/// What `str::to_lowercase` returns for a string with these characters.
pub uninterp spec fn lowercase(s: Seq<char>) -> Seq<char>;

/// The NFC normal form computed by `unicode_normalization`'s `nfc()` iterator.
pub uninterp spec fn nfc_form(s: Seq<char>) -> Seq<char>;

/// std `str::to_uppercase`. Trusted to be a function of the characters of
/// `s` alone (Unicode's case tables), mapping them in order, so that a
/// leading `_` (a character with no uppercase mapping, which
/// `char::to_uppercase` yields unchanged) stays the first character. The
/// mapping itself is only named.
#[verifier::external_body]
pub(crate) fn to_upper(s: &str) -> (r: String)
    ensures
        r@ == uppercase(s@),
        s@.len() > 0 && s@[0] == '_' ==> r@.len() > 0 && r@[0] == '_',
{
    s.to_uppercase()
}

/// std `str::to_lowercase`. Trusted to be a function of the characters of
/// `s` alone; its value is only named.
#[verifier::external_body]
pub(crate) fn to_lower(s: &str) -> (r: String)
    ensures
        r@ == lowercase(s@),
{
    s.to_lowercase()
}

/// `UnicodeNormalization::nfc` from `unicode-normalization`, collected into a
/// `String`. Trusted to depend on the characters of `s` alone; the normal
/// form itself is only named.
#[verifier::external_body]
pub(crate) fn nfc(s: &str) -> (r: String)
    ensures
        r@ == nfc_form(s@),
{
    s.nfc().collect::<String>()
}

} // verus!
