//! Images handed to the user interface inline, as `data:` URLs.

use vstd::prelude::*;
use base64::Engine;
use crate::text::owned;

verus! {

/// The standard base64 text (with padding) of `bytes`.
pub uninterp spec fn base64_text(bytes: Seq<u8>) -> Seq<char>;

/// Relies on `base64::engine::general_purpose::STANDARD.encode`: the
/// standard alphabet with padding; the result depends on the bytes alone.
#[verifier::external_body]
fn encode_base64(bytes: &Vec<u8>) -> (r: String)
    ensures
        r@ == base64_text(bytes@),
{
    base64::engine::general_purpose::STANDARD.encode(bytes.as_slice())
}

/// Whether `s` ends with `suffix`.
pub open spec fn has_suffix(s: Seq<char>, suffix: Seq<char>) -> bool {
    suffix.len() <= s.len() && s.subrange(s.len() - suffix.len(), s.len() as int) == suffix
}

/// Tells whether `s` ends with `suffix`.
pub fn ends_with_text(s: &str, suffix: &str) -> (r: bool)
    ensures
        r == has_suffix(s@, suffix@),
{
    let n = s.unicode_len();
    let m = suffix.unicode_len();
    if m > n {
        return false;
    }
    let start = n - m;
    let mut i: usize = 0;
    while i < m
        invariant
            n == s@.len(),
            m == suffix@.len(),
            start == n - m,
            i <= m,
            forall|k: int| 0 <= k < i ==> s@[start + k] == suffix@[k],
        decreases m - i,
    {
        if s.get_char(start + i) != suffix.get_char(i) {
            assert(s@.subrange(start as int, n as int)[i as int] != suffix@[i as int]);
            return false;
        }
        i = i + 1;
    }
    assert(s@.subrange(start as int, n as int) =~= suffix@);
    true
}

/// The media type of an image file, by its name: WebP, JPEG or PNG, and
/// JPEG for any other name.
pub open spec fn mime_type_of(path: Seq<char>) -> Seq<char> {
    if has_suffix(path, ".webp"@) {
        "image/webp"@
    } else if has_suffix(path, ".jpg"@) || has_suffix(path, ".jpeg"@) {
        "image/jpeg"@
    } else if has_suffix(path, ".png"@) {
        "image/png"@
    } else {
        "image/jpeg"@
    }
}

/// Gives the media type of an image file, by its name.
pub fn mime_type_for(path: &str) -> (r: String)
    ensures
        r@ == mime_type_of(path@),
{
    if ends_with_text(path, ".webp") {
        owned("image/webp")
    } else if ends_with_text(path, ".jpg") || ends_with_text(path, ".jpeg") {
        owned("image/jpeg")
    } else if ends_with_text(path, ".png") {
        owned("image/png")
    } else {
        owned("image/jpeg")
    }
}

/// The `data:` URL of a file, from its name and the base64 text of its bytes.
pub open spec fn data_url(path: Seq<char>, encoded: Seq<char>) -> Seq<char> {
    "data:"@ + mime_type_of(path) + ";base64,"@ + encoded
}

/// Writes the `data:` URL of a file whose bytes are already in base64.
pub fn data_url_from_base64(path: &str, encoded: &str) -> (r: String)
    ensures
        r@ == data_url(path@, encoded@),
{
    let mut out = owned("data:");
    let mime = mime_type_for(path);
    out.append(mime.as_str());
    out.append(";base64,");
    out.append(encoded);
    out
}

/// Writes the `data:` URL of an image file from its name and bytes.
pub fn image_data_url(path: &str, bytes: &Vec<u8>) -> (r: String)
    ensures
        r@ == data_url(path@, base64_text(bytes@)),
{
    let encoded = encode_base64(bytes);
    data_url_from_base64(path, encoded.as_str())
}

} // verus!
