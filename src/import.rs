//! The steps of importing a directory as a new roll: reading the options
//! into a roll record, choosing the image files in directory order, naming
//! each one, collecting the photos that were processed, and the outcome.

use vstd::prelude::*;
use crate::dates::{calendar_date_of, canonical_date, parse_shoot_date, DateError};
use crate::naming::{
    is_supported_lower_extension, lower_of, lowercase, managed_filename, managed_name,
    managed_stem, managed_stem_text, supported_extensions, ProcessedPaths,
};
use crate::text::{lemma_radix_digits_len, owned, radix_digits, radix_text};

verus! {

/// What the caller asks of one import.
#[derive(Debug, Clone)]
pub struct ImportOptions {
    pub source_path: String,
    pub film_stock: String,
    pub camera: String,
    pub lens: Option<String>,
    pub shoot_date: String,
    pub library_root: String,
    pub roll_name: Option<String>,
    pub notes: Option<String>,
    /// Copy the originals when set, move them otherwise.
    pub copy_mode: bool,
    pub auto_write_exif: Option<bool>,
}

/// What a finished import reports.
#[derive(Debug, Clone)]
pub struct ImportResult {
    pub roll_id: i64,
    pub photos_count: usize,
    pub message: String,
}

/// A photo record to be stored.
#[derive(Debug, Clone)]
pub struct NewPhoto {
    pub roll_id: i64,
    pub filename: String,
    pub file_path: String,
    pub thumbnail_path: Option<String>,
    pub preview_path: Option<String>,
}

/// Why an import failed.
#[derive(Debug, Clone, Copy, PartialEq, Eq, Structural)]
pub enum ImportError {
    /// The source directory does not exist.
    SourceMissing,
    /// The shoot date was refused.
    InvalidDate(DateError),
    /// The source directory holds no supported image.
    NoImages,
    /// There were images, but none of them could be processed.
    NothingImported,
}

/// The message shown for each import error.
pub open spec fn import_error_text(e: ImportError) -> Seq<char> {
    match e {
        ImportError::SourceMissing => "Source path does not exist"@,
        ImportError::InvalidDate(DateError::Malformed) => "Invalid shoot date: use YYYY-MM-DD"@,
        ImportError::InvalidDate(DateError::YearOutOfRange) => "Invalid shoot date: the year must have four digits"@,
        ImportError::NoImages => "No images found in source directory"@,
        ImportError::NothingImported => "None of the images could be imported"@,
    }
}

/// Both messages for a refused shoot date begin with "Invalid shoot date".
pub proof fn lemma_invalid_date_text(e: DateError)
    ensures
        import_error_text(ImportError::InvalidDate(e)).take(18) == "Invalid shoot date"@,
{
    reveal_strlit("Invalid shoot date");
    reveal_strlit("Invalid shoot date: use YYYY-MM-DD");
    reveal_strlit("Invalid shoot date: the year must have four digits");
    assert(import_error_text(ImportError::InvalidDate(e)).take(18) =~= "Invalid shoot date"@);
}

impl ImportError {
    /// A short message for the user.
    pub fn message(&self) -> (r: String)
        ensures
            r@ == import_error_text(*self),
    {
        match self {
            ImportError::SourceMissing => owned("Source path does not exist"),
            ImportError::InvalidDate(DateError::Malformed) => owned(
                "Invalid shoot date: use YYYY-MM-DD",
            ),
            ImportError::InvalidDate(DateError::YearOutOfRange) => owned(
                "Invalid shoot date: the year must have four digits",
            ),
            ImportError::NoImages => owned("No images found in source directory"),
            ImportError::NothingImported => owned("None of the images could be imported"),
        }
    }
}

/// The roll record an import creates, before its directory exists.
#[derive(Debug, Clone)]
pub struct RollDraft {
    pub name: String,
    pub film_stock: String,
    pub camera: String,
    pub lens: Option<String>,
    /// The shoot date in canonical form.
    pub shoot_date: String,
    pub notes: Option<String>,
    /// The year bucket of the roll's directory.
    pub year: String,
}

/// The name given to a roll when the caller gives none.
pub open spec fn default_roll_name(shoot_date: Seq<char>) -> Seq<char> {
    "Roll - "@ + shoot_date
}

/// `d` is the roll record for `options` with canonical shoot date `shoot_date`.
pub open spec fn is_draft_of(d: RollDraft, options: ImportOptions, shoot_date: Seq<char>) -> bool {
    &&& d.name@ == (match options.roll_name {
        Some(n) => n@,
        None => default_roll_name(options.shoot_date@),
    })
    &&& d.film_stock == options.film_stock
    &&& d.camera == options.camera
    &&& d.lens == options.lens
    &&& d.shoot_date@ == shoot_date
    &&& d.notes == options.notes
    &&& shoot_date.len() >= 4
    &&& d.year@ == shoot_date.subrange(0, 4)
}

/// Fills the roll record for a canonical shoot date: the caller's name or
/// `Roll - <date as typed>`, and the year as the date's first four characters.
pub fn draft_roll(options: &ImportOptions, shoot_date: &str) -> (r: RollDraft)
    requires
        shoot_date@.len() >= 4,
    ensures
        is_draft_of(r, *options, shoot_date@),
{
    let name = match &options.roll_name {
        Some(n) => n.clone(),
        None => {
            let mut n = owned("Roll - ");
            n.append(options.shoot_date.as_str());
            n
        },
    };
    RollDraft {
        name,
        film_stock: options.film_stock.clone(),
        camera: options.camera.clone(),
        lens: options.lens.clone(),
        shoot_date: owned(shoot_date),
        notes: options.notes.clone(),
        year: owned(shoot_date.substring_char(0, 4)),
    }
}

/// Reads the options of an import into its roll record; refuses a shoot
/// date that is not a date or whose year does not fit in four digits.
pub fn prepare_roll(options: &ImportOptions) -> (r: Result<RollDraft, ImportError>)
    ensures
        r matches Ok(d) ==> canonical_date(calendar_date_of(options.shoot_date@)) == Ok::<
            Seq<char>,
            DateError,
        >(d.shoot_date@) && is_draft_of(d, *options, d.shoot_date@),
        r matches Err(e) ==> e is InvalidDate && canonical_date(
            calendar_date_of(options.shoot_date@),
        ) == Err::<Seq<char>, DateError>(e->0),
{
    match parse_shoot_date(options.shoot_date.as_str()) {
        Ok(date) => {
            proof {
                let parsed = calendar_date_of(options.shoot_date@);
                let (y, m, d) = parsed->0;
                lemma_radix_digits_len(y as nat, 10, 4);
            }
            Ok(draft_roll(options, date.as_str()))
        },
        Err(e) => Err(ImportError::InvalidDate(e)),
    }
}

/// One entry of the source directory, as listed.
#[derive(Debug, Clone)]
pub struct SourceEntry {
    pub path: String,
    pub file_name: String,
    pub extension: Option<String>,
    pub is_file: bool,
}

/// A source file that will be imported, with its extension in lower case.
#[derive(Debug, Clone)]
pub struct ImageCandidate {
    pub source_path: String,
    pub file_name: String,
    pub extension: String,
}

/// The extension of an entry; a missing one counts as empty.
pub open spec fn entry_extension(e: SourceEntry) -> Seq<char> {
    match e.extension {
        Some(x) => x@,
        None => Seq::empty(),
    }
}

/// Whether an entry is a file with a supported image extension, in any case.
pub open spec fn is_image_entry(e: SourceEntry) -> bool {
    &&& e.is_file
    &&& e.extension is Some
    &&& supported_extensions().contains(lower_of(entry_extension(e)))
}

/// The image entries, in listing order.
pub open spec fn image_entries(s: Seq<SourceEntry>) -> Seq<SourceEntry>
    decreases s.len(),
{
    if s.len() == 0 {
        Seq::empty()
    } else {
        let prev = image_entries(s.drop_last());
        if is_image_entry(s.last()) {
            prev.push(s.last())
        } else {
            prev
        }
    }
}

/// Chooses the files to import: the entries that are files with a supported
/// image extension, in listing order, not re-sorted.
pub fn select_image_candidates(entries: &Vec<SourceEntry>) -> (r: Vec<ImageCandidate>)
    ensures
        r.len() == image_entries(entries@).len(),
        forall|k: int|
            0 <= k < r.len() ==> {
                let e = #[trigger] image_entries(entries@)[k];
                &&& r[k].source_path == e.path
                &&& r[k].file_name == e.file_name
                &&& r[k].extension@ == lower_of(entry_extension(e))
            },
{
    let mut out: Vec<ImageCandidate> = Vec::new();
    let mut i: usize = 0;
    while i < entries.len()
        invariant
            i <= entries.len(),
            out.len() == image_entries(entries@.take(i as int)).len(),
            forall|k: int|
                0 <= k < out.len() ==> {
                    let e = #[trigger] image_entries(entries@.take(i as int))[k];
                    &&& out[k].source_path == e.path
                    &&& out[k].file_name == e.file_name
                    &&& out[k].extension@ == lower_of(entry_extension(e))
                },
        decreases entries.len() - i,
    {
        let e = &entries[i];
        assert(entries@.take(i as int + 1).drop_last() =~= entries@.take(i as int));
        let ghost prev = image_entries(entries@.take(i as int));
        if e.is_file {
            match &e.extension {
                Some(ext) => {
                    let lower = lowercase(ext.as_str());
                    if is_supported_lower_extension(lower.as_str()) {
                        out.push(
                            ImageCandidate {
                                source_path: e.path.clone(),
                                file_name: e.file_name.clone(),
                                extension: lower,
                            },
                        );
                        assert(image_entries(entries@.take(i as int + 1)) == prev.push(*e));
                    }
                },
                None => {},
            }
        }
        i = i + 1;
    }
    assert(entries@.take(entries.len() as int) =~= entries@);
    out
}

/// Counts the files an import of this listing would take.
pub fn count_image_entries(entries: &Vec<SourceEntry>) -> (r: usize)
    ensures
        r == image_entries(entries@).len(),
{
    select_image_candidates(entries).len()
}

/// One file of an import, with its managed name and its place in the
/// progress stream.
#[derive(Debug, Clone)]
pub struct PlannedFile {
    pub source_path: String,
    /// The file's name in the source directory, as shown in progress.
    pub original_name: String,
    pub new_filename: String,
    pub stem: String,
    /// The 1-based position of the file.
    pub current: usize,
    pub total: usize,
}

/// Names the files of an import in order: the k-th file (from 1) becomes
/// `ROLL_<hex>_<k>.<ext>`, and its progress reads `k` of the total.
pub fn plan_import_files(roll_id: i64, candidates: &Vec<ImageCandidate>) -> (r: Vec<PlannedFile>)
    requires
        candidates.len() < usize::MAX,
    ensures
        r.len() == candidates.len(),
        forall|k: int|
            0 <= k < r.len() ==> {
                let c = #[trigger] candidates@[k];
                &&& r[k].source_path == c.source_path
                &&& r[k].original_name == c.file_name
                &&& r[k].new_filename@ == managed_name(roll_id, (k + 1) as nat, c.extension@)
                &&& r[k].stem@ == managed_stem(roll_id, (k + 1) as nat)
                &&& r[k].current == k + 1
                &&& r[k].total == candidates.len()
            },
{
    let total = candidates.len();
    let mut out: Vec<PlannedFile> = Vec::new();
    let mut i: usize = 0;
    while i < total
        invariant
            total == candidates.len() < usize::MAX,
            i <= total,
            out.len() == i,
            forall|k: int|
                0 <= k < out.len() ==> {
                    let c = #[trigger] candidates@[k];
                    &&& out[k].source_path == c.source_path
                    &&& out[k].original_name == c.file_name
                    &&& out[k].new_filename@ == managed_name(roll_id, (k + 1) as nat, c.extension@)
                    &&& out[k].stem@ == managed_stem(roll_id, (k + 1) as nat)
                    &&& out[k].current == k + 1
                    &&& out[k].total == total
                },
        decreases total - i,
    {
        let c = &candidates[i];
        let current = i + 1;
        out.push(
            PlannedFile {
                source_path: c.source_path.clone(),
                original_name: c.file_name.clone(),
                new_filename: managed_filename(roll_id, current, c.extension.as_str()),
                stem: managed_stem_text(roll_id, current),
                current,
                total,
            },
        );
        i = i + 1;
    }
    out
}

/// The processed photos, in order, leaving out the files that failed.
pub open spec fn processed_only(s: Seq<Option<ProcessedPaths>>) -> Seq<ProcessedPaths>
    decreases s.len(),
{
    if s.len() == 0 {
        Seq::empty()
    } else {
        let prev = processed_only(s.drop_last());
        match s.last() {
            Some(p) => prev.push(p),
            None => prev,
        }
    }
}

/// Whether `r` is the record of the processed photo `p` in roll `roll_id`.
pub open spec fn is_record_of(r: NewPhoto, roll_id: i64, p: ProcessedPaths) -> bool {
    &&& r.roll_id == roll_id
    &&& r.filename == p.filename
    &&& r.file_path == p.original_path
    &&& r.thumbnail_path == Some(p.thumbnail_path)
    &&& r.preview_path == Some(p.preview_path)
}

/// Builds the photo records of the files that were processed, in order;
/// a file that failed is left out and does not stop the others.
pub fn new_photo_records(roll_id: i64, processed: &Vec<Option<ProcessedPaths>>) -> (r: Vec<
    NewPhoto,
>)
    ensures
        r.len() == processed_only(processed@).len(),
        forall|k: int|
            0 <= k < r.len() ==> is_record_of(#[trigger] r@[k], roll_id, processed_only(processed@)[k]),
{
    let mut out: Vec<NewPhoto> = Vec::new();
    let mut i: usize = 0;
    while i < processed.len()
        invariant
            i <= processed.len(),
            out.len() == processed_only(processed@.take(i as int)).len(),
            forall|k: int|
                0 <= k < out.len() ==> is_record_of(
                    #[trigger] out@[k],
                    roll_id,
                    processed_only(processed@.take(i as int))[k],
                ),
        decreases processed.len() - i,
    {
        assert(processed@.take(i as int + 1).drop_last() =~= processed@.take(i as int));
        let ghost prev = processed_only(processed@.take(i as int));
        match &processed[i] {
            Some(p) => {
                out.push(
                    NewPhoto {
                        roll_id,
                        filename: p.filename.clone(),
                        file_path: p.original_path.clone(),
                        thumbnail_path: Some(p.thumbnail_path.clone()),
                        preview_path: Some(p.preview_path.clone()),
                    },
                );
                assert(processed_only(processed@.take(i as int + 1)) == prev.push(*p));
            },
            None => {
                assert(processed_only(processed@.take(i as int + 1)) == prev);
            },
        }
        i = i + 1;
    }
    assert(processed@.take(processed.len() as int) =~= processed@);
    out
}

/// The message of a successful import.
pub open spec fn import_message(count: nat) -> Seq<char> {
    "Imported "@ + radix_digits(count, 10, 1) + " photos into the roll folder"@
}

/// The outcome of an import: it fails when the source held no image, or
/// when none of its images could be processed; else it reports the roll and
/// how many photos it holds.
pub fn finish_import(roll_id: i64, candidates: usize, imported: usize) -> (r: Result<
    ImportResult,
    ImportError,
>)
    ensures
        candidates == 0 ==> r == Err::<ImportResult, ImportError>(ImportError::NoImages),
        candidates > 0 && imported == 0 ==> r == Err::<ImportResult, ImportError>(
            ImportError::NothingImported,
        ),
        candidates > 0 && imported > 0 ==> (r matches Ok(res) && res.roll_id == roll_id
            && res.photos_count == imported && res.message@ == import_message(imported as nat)),
{
    if candidates == 0 {
        return Err(ImportError::NoImages);
    }
    if imported == 0 {
        return Err(ImportError::NothingImported);
    }
    let mut message = owned("Imported ");
    let count = radix_text(imported as u64, 10, 1);
    message.append(count.as_str());
    message.append(" photos into the roll folder");
    Ok(ImportResult { roll_id, photos_count: imported, message })
}

} // verus!
