//! Names in the managed library: roll directories, renamed photo files, the
//! artifact paths beside them, and which source files count as images.

use vstd::prelude::*;
use crate::text::{join_path, owned, path_join, push_char, radix_digits, radix_text};

verus! {

/// The characters that cannot stand in a file name.
pub open spec fn is_unsafe_name_char(c: char) -> bool {
    c == ' ' || c == '/' || c == '\\' || c == ':' || c == '*' || c == '?' || c == '"' || c == '<'
        || c == '>' || c == '|'
}

/// A character made safe for a file name.
pub open spec fn safe_name_char(c: char) -> char {
    if is_unsafe_name_char(c) {
        '_'
    } else {
        c
    }
}

/// Replaces each character that cannot stand in a file name by `_`, keeping
/// all others and the length.
pub fn sanitize_filename(name: &str) -> (r: String)
    ensures
        r@ == name@.map_values(|c: char| safe_name_char(c)),
        r@.len() == name@.len(),
{
    let n = name.unicode_len();
    let mut out = String::new();
    let mut i: usize = 0;
    while i < n
        invariant
            n == name@.len(),
            i <= n,
            out@ == name@.take(i as int).map_values(|c: char| safe_name_char(c)),
        decreases n - i,
    {
        let c = name.get_char(i);
        let safe = if c == ' ' || c == '/' || c == '\\' || c == ':' || c == '*' || c == '?' || c
            == '"' || c == '<' || c == '>' || c == '|' {
            '_'
        } else {
            c
        };
        push_char(&mut out, safe);
        assert(name@.take(i as int + 1).map_values(|c: char| safe_name_char(c)) =~= name@.take(
            i as int,
        ).map_values(|c: char| safe_name_char(c)).push(safe));
        i = i + 1;
    }
    assert(name@.take(n as int) =~= name@);
    out
}

/// What `str::to_lowercase` makes of `s`.
pub uninterp spec fn lower_of(s: Seq<char>) -> Seq<char>;

/// Relies on `str::to_lowercase`: the result depends on the characters alone.
#[verifier::external_body]
pub(crate) fn lowercase(s: &str) -> (r: String)
    ensures
        r@ == lower_of(s@),
{
    s.to_lowercase()
}

/// The image extensions that an import takes, in lower case.
pub open spec fn supported_extensions() -> Seq<Seq<char>> {
    seq!["jpg"@, "jpeg"@, "png"@, "tif"@, "tiff"@, "webp"@, "bmp"@]
}

/// Whether a lower-case extension names a supported image format.
pub fn is_supported_lower_extension(ext: &str) -> (r: bool)
    ensures
        r == supported_extensions().contains(ext@),
{
    let e = owned(ext);
    let r = e == owned("jpg") || e == owned("jpeg") || e == owned("png") || e == owned("tif") || e
        == owned("tiff") || e == owned("webp") || e == owned("bmp");
    proof {
        let s = supported_extensions();
        if r {
            if e@ == "jpg"@ { assert(s[0] == e@); }
            if e@ == "jpeg"@ { assert(s[1] == e@); }
            if e@ == "png"@ { assert(s[2] == e@); }
            if e@ == "tif"@ { assert(s[3] == e@); }
            if e@ == "tiff"@ { assert(s[4] == e@); }
            if e@ == "webp"@ { assert(s[5] == e@); }
            if e@ == "bmp"@ { assert(s[6] == e@); }
        }
    }
    r
}

/// Whether an extension, in any case, names a supported image format.
pub fn is_image_extension(ext: &str) -> (r: bool)
    ensures
        r == supported_extensions().contains(lower_of(ext@)),
{
    let lower = lowercase(ext);
    is_supported_lower_extension(lower.as_str())
}

/// The hexadecimal code of a roll: eight digits at least, upper case.
pub open spec fn roll_hex(roll_id: i64) -> Seq<char> {
    radix_digits(roll_id as u64 as nat, 16, 8)
}

/// The prefix of every managed file of a roll.
pub open spec fn roll_code(roll_id: i64) -> Seq<char> {
    "ROLL_"@ + roll_hex(roll_id)
}

/// The managed stem of the photo at 1-based position `sequence`.
pub open spec fn managed_stem(roll_id: i64, sequence: nat) -> Seq<char> {
    roll_code(roll_id) + "_"@ + radix_digits(sequence, 10, 3)
}

/// The managed file name: `ROLL_<hex>_<seq>.<ext>`.
pub open spec fn managed_name(roll_id: i64, sequence: nat, ext: Seq<char>) -> Seq<char> {
    managed_stem(roll_id, sequence) + "."@ + ext
}

/// Writes the hexadecimal code of a roll.
pub fn roll_hex_text(roll_id: i64) -> (r: String)
    ensures
        r@ == roll_hex(roll_id),
{
    radix_text(roll_id as u64, 16, 8)
}

/// Writes the managed stem `ROLL_<hex>_<seq>` of a photo.
pub fn managed_stem_text(roll_id: i64, sequence: usize) -> (r: String)
    ensures
        r@ == managed_stem(roll_id, sequence as nat),
{
    let mut out = owned("ROLL_");
    let hex = roll_hex_text(roll_id);
    out.append(hex.as_str());
    out.append("_");
    let seq_text = radix_text(sequence as u64, 10, 3);
    out.append(seq_text.as_str());
    assert(out@ =~= managed_stem(roll_id, sequence as nat));
    out
}

/// The managed file name of the photo at 1-based position `sequence`, for an
/// extension already in lower case.
pub fn managed_filename(roll_id: i64, sequence: usize, lower_ext: &str) -> (r: String)
    ensures
        r@ == managed_name(roll_id, sequence as nat, lower_ext@),
{
    let mut out = managed_stem_text(roll_id, sequence);
    out.append(".");
    out.append(lower_ext);
    out
}

/// The managed file name of the photo at 1-based position `sequence`: the
/// roll code, the position in three digits at least, the extension in lower
/// case.
pub fn allocate_filename(roll_id: i64, sequence: usize, original_extension: &str) -> (r: String)
    ensures
        r@ == managed_name(roll_id, sequence as nat, lower_of(original_extension@)),
{
    let lower = lowercase(original_extension);
    managed_filename(roll_id, sequence, lower.as_str())
}

/// The directory of a roll: `<library_root>/<year>/<hex>`.
pub open spec fn roll_directory(library_root: Seq<char>, year: Seq<char>, roll_id: i64) -> Seq<
    char,
> {
    path_join(path_join(library_root, year), roll_hex(roll_id))
}

/// Writes the directory of a roll, `<library_root>/<year>/<hex>`.
pub fn allocate_roll_directory(library_root: &str, year: &str, roll_id: i64) -> (r: String)
    ensures
        r@ == roll_directory(library_root@, year@, roll_id),
{
    let year_dir = join_path(library_root, year);
    let hex = roll_hex_text(roll_id);
    join_path(year_dir.as_str(), hex.as_str())
}

/// Where the files of one imported photo live.
#[derive(Debug, Clone)]
pub struct ProcessedPaths {
    pub filename: String,
    pub original_path: String,
    pub thumbnail_path: String,
    pub preview_path: String,
}

/// The path of an artifact: `<roll_dir>/<sub>/<stem>.webp`.
pub open spec fn artifact_path(roll_dir: Seq<char>, sub: Seq<char>, stem: Seq<char>) -> Seq<char> {
    path_join(path_join(roll_dir, sub), stem + ".webp"@)
}

/// Writes the paths of an imported photo: the original under `originals/`,
/// the thumbnail and the preview under `thumbnails/` and `previews/`.
pub fn processed_paths(roll_dir: &str, new_filename: &str, stem: &str) -> (r: ProcessedPaths)
    ensures
        r.filename@ == new_filename@,
        r.original_path@ == path_join(path_join(roll_dir@, "originals"@), new_filename@),
        r.thumbnail_path@ == artifact_path(roll_dir@, "thumbnails"@, stem@),
        r.preview_path@ == artifact_path(roll_dir@, "previews"@, stem@),
{
    let originals = join_path(roll_dir, "originals");
    let thumbnails = join_path(roll_dir, "thumbnails");
    let previews = join_path(roll_dir, "previews");
    let mut artifact = owned(stem);
    artifact.append(".webp");
    ProcessedPaths {
        filename: owned(new_filename),
        original_path: join_path(originals.as_str(), new_filename),
        thumbnail_path: join_path(thumbnails.as_str(), artifact.as_str()),
        preview_path: join_path(previews.as_str(), artifact.as_str()),
    }
}

} // verus!
