//! One import as a state machine. The session decides each step; the caller
//! performs it (a store write, a directory, a file) and reports the event
//! back. Steps come in the fixed order of an import, a file that fails is
//! left out without stopping the others, and an import fails only when no
//! image was found or none could be processed.

use vstd::prelude::*;
use crate::dates::{exif_stamp, DateError};
use crate::exiftool::{opt_string, roll_tags, RollTags};
use crate::import::{
    entry_extension, finish_import, image_entries, import_error_text, is_draft_of, lemma_invalid_date_text, is_record_of, new_photo_records,
    plan_import_files, prepare_roll, processed_only, select_image_candidates, ImportError,
    ImportOptions, ImportResult, NewPhoto, PlannedFile, RollDraft, SourceEntry,
};
use crate::metadata::{camera_make, camera_model, comment_text};
use crate::naming::{
    allocate_roll_directory, artifact_path, lower_of, managed_name, managed_stem, processed_paths,
    roll_directory, ProcessedPaths,
};
use crate::text::path_join;
use crate::text::owned;

verus! {

/// How far an import has come.
#[derive(Debug, Clone, Copy, PartialEq, Eq, Structural)]
pub enum ImportPhase {
    /// The options are checked; the roll record is being created.
    Validating,
    /// The roll record exists; its directory is being made.
    RollCreated,
    /// The directory exists; the source is being listed.
    DirectoryReady,
    /// The files are being processed one by one, then stored.
    Processing,
    /// The photo records are stored; the tags are being written.
    Persisted,
    /// The import is over and reported.
    Done,
    /// The import failed.
    Failed,
}

/// What the caller is asked to do next.
#[derive(Debug, Clone)]
pub enum ImportStep {
    /// Create the roll record with an empty path and report its id.
    CreateRoll(RollDraft),
    /// Make the roll's directory, which must not exist yet, and store its path.
    PrepareDirectory { roll_id: i64, path: String },
    /// List the source directory, one level deep, in the system's order.
    ListSource { path: String },
    /// Report progress for this file, then copy or move it and make its
    /// artifacts.
    ProcessFile { file: PlannedFile, roll_dir: String, copy_mode: bool },
    /// Store these photo records as one batch.
    PersistPhotos(Vec<NewPhoto>),
    /// Write the roll's tags into these files; failures are only logged.
    WriteMetadata { tags: RollTags, paths: Vec<String> },
    /// Report completion.
    Finish { result: ImportResult, roll_path: String },
    /// Report the failure; remove the record of the roll named in
    /// `discard_roll`, and the directory named in `remove_dir`, which this
    /// import made and left empty.
    Fail { message: String, discard_roll: Option<i64>, remove_dir: Option<String> },
}

/// What the caller reports after a step.
#[derive(Debug)]
pub enum ImportEvent {
    RollCreated(Result<i64, String>),
    DirectoryPrepared(Result<(), String>),
    SourceListed(Result<Vec<SourceEntry>, String>),
    /// The paths of the processed file, or none when it failed.
    FileProcessed(Option<ProcessedPaths>),
    PhotosPersisted(Result<(), String>),
    MetadataWritten,
}

/// The state of one import.
#[derive(Debug, Clone)]
pub struct ImportSession {
    pub phase: ImportPhase,
    pub options: ImportOptions,
    pub draft: RollDraft,
    pub roll_id: i64,
    pub roll_dir: String,
    pub plan: Vec<PlannedFile>,
    pub processed: Vec<Option<ProcessedPaths>>,
    pub photos: Vec<NewPhoto>,
}

/// Whether the shoot date of `options` is refused.
pub open spec fn date_refused(options: ImportOptions) -> bool {
    crate::dates::canonical_date(crate::dates::calendar_date_of(options.shoot_date@)) is Err
}

/// `p` is the plan for the listed image `e` at 0-based position `k` of
/// `total`: same source, its managed name and stem, its place in progress.
pub open spec fn is_planned_from(p: PlannedFile, e: SourceEntry, roll_id: i64, k: int, total: nat) -> bool {
    &&& p.source_path == e.path
    &&& p.original_name == e.file_name
    &&& p.new_filename@ == managed_name(roll_id, (k + 1) as nat, lower_of(entry_extension(e)))
    &&& p.stem@ == managed_stem(roll_id, (k + 1) as nat)
    &&& p.current == k + 1
    &&& p.total == total
}

/// `p` are the paths of the planned file `f` in roll directory `roll_dir`:
/// its managed name, the original under `originals/`, the artifacts under
/// `thumbnails/` and `previews/`.
pub open spec fn is_paths_of(p: ProcessedPaths, roll_dir: Seq<char>, f: PlannedFile) -> bool {
    &&& p.filename@ == f.new_filename@
    &&& p.original_path@ == path_join(path_join(roll_dir, "originals"@), f.new_filename@)
    &&& p.thumbnail_path@ == artifact_path(roll_dir, "thumbnails"@, f.stem@)
    &&& p.preview_path@ == artifact_path(roll_dir, "previews"@, f.stem@)
}

/// With every file processed, the processed photos are all of them, in order.
pub proof fn lemma_processed_only_all(s: Seq<Option<ProcessedPaths>>)
    requires
        forall|k: int| 0 <= k < s.len() ==> (#[trigger] s[k]) is Some,
    ensures
        processed_only(s).len() == s.len(),
        forall|k: int| 0 <= k < s.len() ==> Some(#[trigger] processed_only(s)[k]) == s[k],
    decreases s.len(),
{
    if s.len() > 0 {
        let init = s.drop_last();
        assert forall|k: int| 0 <= k < init.len() implies (#[trigger] init[k]) is Some by {
            assert(init[k] == s[k]);
        }
        lemma_processed_only_all(init);
        assert(s.last() is Some);
        assert forall|k: int| 0 <= k < s.len() implies Some(#[trigger] processed_only(s)[k]) == s[k] by {
            if k < init.len() {
                assert(init[k] == s[k]);
            }
        }
    }
}

/// Why the shoot date of `options` is refused.
pub open spec fn refusal(options: ImportOptions) -> DateError {
    match crate::dates::canonical_date(crate::dates::calendar_date_of(options.shoot_date@)) {
        Err(e) => e,
        Ok(_) => DateError::Malformed,
    }
}

/// `tags` are the tags of the roll `draft`, which has no place yet: maker
/// and model from its camera, its lens, the noon stamp of its shoot date,
/// and the comment from its film stock and notes.
pub open spec fn is_roll_tags_of(tags: RollTags, draft: RollDraft) -> bool {
    &&& tags.make@ == camera_make(draft.camera@)
    &&& tags.model@ == camera_model(draft.camera@)
    &&& (tags.lens is None <==> draft.lens is None)
    &&& opt_string(tags.lens) == opt_string(draft.lens)
    &&& tags.date_time_original@ == exif_stamp(draft.shoot_date@)
    &&& tags.user_comment@ == comment_text(
        draft.film_stock@,
        Seq::empty(),
        Seq::empty(),
        opt_string(draft.notes),
    )
}

/// The message of a step that failed outside: what failed, then the detail.
pub open spec fn failure_text(what: Seq<char>, detail: Seq<char>) -> Seq<char> {
    what + detail
}

/// Writes `what` followed by `detail`.
fn failure_message(what: &str, detail: &str) -> (r: String)
    ensures
        r@ == failure_text(what@, detail@),
{
    let mut m = owned(what);
    m.append(detail);
    m
}

/// A copy of a roll record.
fn copy_draft(d: &RollDraft) -> (r: RollDraft)
    ensures
        r == *d,
{
    RollDraft {
        name: d.name.clone(),
        film_stock: d.film_stock.clone(),
        camera: d.camera.clone(),
        lens: d.lens.clone(),
        shoot_date: d.shoot_date.clone(),
        notes: d.notes.clone(),
        year: d.year.clone(),
    }
}

/// A copy of a planned file.
fn copy_planned(p: &PlannedFile) -> (r: PlannedFile)
    ensures
        r == *p,
{
    PlannedFile {
        source_path: p.source_path.clone(),
        original_name: p.original_name.clone(),
        new_filename: p.new_filename.clone(),
        stem: p.stem.clone(),
        current: p.current,
        total: p.total,
    }
}

impl ImportSession {
    /// The session's own facts: the draft belongs to the options, the plan
    /// numbers its files from 1 to its length, no more files are processed
    /// than planned, and the roll directory is the roll's.
    pub open spec fn wf(&self) -> bool {
        &&& (self.phase != ImportPhase::Failed ==> is_draft_of(
            self.draft,
            self.options,
            self.draft.shoot_date@,
        ))
        &&& self.plan.len() < usize::MAX
        &&& self.processed.len() <= self.plan.len()
        &&& forall|k: int|
            0 <= k < self.plan.len() ==> (#[trigger] self.plan@[k]).current == k + 1
                && self.plan@[k].total == self.plan.len()
        &&& (self.phase == ImportPhase::Processing ==> self.plan.len() > 0)
        &&& (self.phase == ImportPhase::Validating || self.phase == ImportPhase::RollCreated
            || self.phase == ImportPhase::DirectoryReady ==> self.processed.len() == 0)
        &&& forall|k: int|
            0 <= k < self.processed.len() ==> ((#[trigger] self.processed@[k]) matches Some(p)
                ==> is_paths_of(p, self.roll_dir@, self.plan@[k]))
        &&& (self.phase == ImportPhase::Persisted ==> self.processed.len() == self.plan.len()
            && processed_only(self.processed@).len() > 0)
        &&& (self.phase == ImportPhase::RollCreated || self.phase == ImportPhase::DirectoryReady
            || self.phase == ImportPhase::Processing || self.phase == ImportPhase::Persisted)
            ==> self.roll_dir@ == roll_directory(
            self.options.library_root@,
            self.draft.year@,
            self.roll_id,
        )
    }

    /// The photos processed so far.
    pub open spec fn imported(&self) -> Seq<ProcessedPaths> {
        processed_only(self.processed@)
    }

    /// Whether `event` answers the step the session asked for last.
    pub open spec fn answers(&self, event: ImportEvent) -> bool {
        match event {
            ImportEvent::RollCreated(_) => self.phase == ImportPhase::Validating,
            ImportEvent::DirectoryPrepared(_) => self.phase == ImportPhase::RollCreated,
            ImportEvent::SourceListed(_) => self.phase == ImportPhase::DirectoryReady,
            ImportEvent::FileProcessed(_) => self.phase == ImportPhase::Processing
                && self.processed.len() < self.plan.len(),
            ImportEvent::PhotosPersisted(_) => self.phase == ImportPhase::Processing
                && self.processed.len() == self.plan.len(),
            ImportEvent::MetadataWritten => self.phase == ImportPhase::Persisted,
        }
    }

    /// Whether the outcome of the file being processed fits its plan: a
    /// failure always does, a success when it reports the planned paths.
    pub open spec fn fits_plan(&self, outcome: Option<ProcessedPaths>) -> bool {
        match outcome {
            None => true,
            Some(p) => is_paths_of(p, self.roll_dir@, self.plan@[self.processed.len() as int]),
        }
    }

    fn failed(options: ImportOptions, draft: RollDraft) -> (r: ImportSession)
        ensures
            r.phase == ImportPhase::Failed,
            r.options == options,
            r.wf(),
    {
        ImportSession {
            phase: ImportPhase::Failed,
            options,
            draft,
            roll_id: 0,
            roll_dir: String::new(),
            plan: Vec::new(),
            processed: Vec::new(),
            photos: Vec::new(),
        }
    }

    /// Starts an import once the caller knows whether the source exists:
    /// a missing source and a refused shoot date fail before any side
    /// effect; otherwise the roll record is asked for.
    pub fn start(options: ImportOptions, source_exists: bool) -> (r: (ImportSession, ImportStep))
        ensures
            r.0.wf(),
            r.0.options == options,
            !source_exists ==> r.0.phase == ImportPhase::Failed && (r.1 matches ImportStep::Fail {
                message,
                discard_roll,
                remove_dir,
            } && message@ == import_error_text(ImportError::SourceMissing) && discard_roll is None && remove_dir is None),
            source_exists && date_refused(options) ==> r.0.phase == ImportPhase::Failed && (r.1 matches ImportStep::Fail {
                message,
                discard_roll,
                remove_dir,
            } && discard_roll is None && remove_dir is None && message@ == import_error_text(
                ImportError::InvalidDate(refusal(options)),
            ) && message@.take(18) == "Invalid shoot date"@),
            source_exists && !date_refused(options) ==> r.0.phase == ImportPhase::Validating && (r.1 matches ImportStep::CreateRoll(d) && d == r.0.draft),
    {
        let placeholder = RollDraft {
            name: String::new(),
            film_stock: String::new(),
            camera: String::new(),
            lens: None,
            shoot_date: String::new(),
            notes: None,
            year: String::new(),
        };
        if !source_exists {
            let message = ImportError::SourceMissing.message();
            return (ImportSession::failed(options, placeholder), ImportStep::Fail { message, discard_roll: None, remove_dir: None });
        }
        match prepare_roll(&options) {
            Err(e) => {
                let message = e.message();
                proof {
                    lemma_invalid_date_text(e->0);
                }
                (ImportSession::failed(options, placeholder), ImportStep::Fail { message, discard_roll: None, remove_dir: None })
            },
            Ok(draft) => {
                let step_draft = copy_draft(&draft);
                let session = ImportSession {
                    phase: ImportPhase::Validating,
                    options,
                    draft,
                    roll_id: 0,
                    roll_dir: String::new(),
                    plan: Vec::new(),
                    processed: Vec::new(),
                    photos: Vec::new(),
                };
                (session, ImportStep::CreateRoll(step_draft))
            },
        }
    }

    /// Ends the session in failure.
    fn fail(&mut self, message: String, discard_roll: Option<i64>, remove_dir: Option<String>) -> (r: ImportStep)
        requires
            old(self).wf(),
        ensures
            final(self).wf(),
            final(self).phase == ImportPhase::Failed,
            final(self).options == old(self).options,
            final(self).processed == old(self).processed,
            final(self).plan == old(self).plan,
            final(self).roll_dir == old(self).roll_dir,
            final(self).roll_id == old(self).roll_id,
            r == (ImportStep::Fail { message, discard_roll, remove_dir }),
    {
        self.phase = ImportPhase::Failed;
        ImportStep::Fail { message, discard_roll, remove_dir }
    }

    /// The step after the roll record and the directory exist, or the files
    /// were listed: the next file to process, or the photo records to store.
    fn after_file(&mut self) -> (r: ImportStep)
        requires
            old(self).wf(),
            old(self).phase == ImportPhase::Processing,
        ensures
            final(self).wf(),
            final(self).options == old(self).options,
            final(self).processed == old(self).processed,
            final(self).plan == old(self).plan,
            final(self).roll_dir == old(self).roll_dir,
            old(self).processed.len() < old(self).plan.len() ==> final(self).phase
                == ImportPhase::Processing && (r matches ImportStep::ProcessFile {
                file,
                roll_dir,
                copy_mode,
            } && file == old(self).plan@[old(self).processed.len() as int] && roll_dir
                == old(self).roll_dir && copy_mode == old(self).options.copy_mode),
            old(self).processed.len() == old(self).plan.len() && old(self).imported().len() == 0
                ==> final(self).phase == ImportPhase::Failed && (r matches ImportStep::Fail {
                message,
                discard_roll,
                remove_dir,
            } && message@ == import_error_text(ImportError::NothingImported) && discard_roll is None && remove_dir is None),
            old(self).processed.len() == old(self).plan.len() && old(self).imported().len() > 0
                ==> final(self).phase == ImportPhase::Processing && (r matches ImportStep::PersistPhotos(
                photos,
            ) && photos.len() == old(self).imported().len() && forall|k: int|
                0 <= k < photos.len() ==> is_record_of(
                    #[trigger] photos@[k],
                    old(self).roll_id,
                    old(self).imported()[k],
                )),
    {
        let n = self.processed.len();
        if n < self.plan.len() {
            let file = copy_planned(&self.plan[n]);
            let roll_dir = self.roll_dir.clone();
            return ImportStep::ProcessFile { file, roll_dir, copy_mode: self.options.copy_mode };
        }
        let photos = new_photo_records(self.roll_id, &self.processed);
        if photos.len() == 0 {
            let message = ImportError::NothingImported.message();
            return self.fail(message, None, None);
        }
        ImportStep::PersistPhotos(photos)
    }

    /// The final report of a stored import.
    fn finish(&mut self) -> (r: ImportStep)
        requires
            old(self).wf(),
            old(self).phase == ImportPhase::Persisted,
        ensures
            final(self).wf(),
            final(self).phase == ImportPhase::Done,
            final(self).options == old(self).options,
            final(self).processed == old(self).processed,
            r matches ImportStep::Finish { result, roll_path } && result.roll_id == old(self).roll_id
                && result.photos_count == old(self).imported().len() && roll_path
                == old(self).roll_dir,
    {
        let photos = new_photo_records(self.roll_id, &self.processed);
        self.phase = ImportPhase::Done;
        match finish_import(self.roll_id, self.plan.len(), photos.len()) {
            Ok(result) => ImportStep::Finish { result, roll_path: self.roll_dir.clone() },
            Err(_) => {
                assert(false);
                ImportStep::Finish {
                    result: ImportResult { roll_id: self.roll_id, photos_count: 0, message: String::new() },
                    roll_path: self.roll_dir.clone(),
                }
            },
        }
    }

    /// Takes the caller's report of the last step and decides the next one.
    /// An event that does not answer the last step fails the import.
    pub fn advance(&mut self, event: ImportEvent) -> (r: ImportStep)
        requires
            old(self).wf(),
        ensures
            final(self).wf(),
            final(self).options == old(self).options,
            // The roll record exists: its directory is asked for, at
            // <library_root>/<year>/<hex>.
            event matches ImportEvent::RollCreated(Ok(id)) ==> (old(self).phase
                == ImportPhase::Validating ==> final(self).phase == ImportPhase::RollCreated
                && final(self).roll_id == id && (r matches ImportStep::PrepareDirectory {
                roll_id,
                path,
            } && roll_id == id && path@ == roll_directory(
                old(self).options.library_root@,
                old(self).draft.year@,
                id,
            ))),
            // The directory exists: the source is listed.
            event matches ImportEvent::DirectoryPrepared(Ok(_)) ==> (old(self).phase
                == ImportPhase::RollCreated ==> final(self).phase == ImportPhase::DirectoryReady
                && (r matches ImportStep::ListSource { path } && path
                == old(self).options.source_path)),
            // A failure before the directory is ready discards the roll record.
            event matches ImportEvent::DirectoryPrepared(Err(_)) ==> (old(self).phase
                == ImportPhase::RollCreated ==> final(self).phase == ImportPhase::Failed && (r matches ImportStep::Fail {
                discard_roll,
                remove_dir,
                ..
            } && discard_roll == Some(old(self).roll_id) && remove_dir is None)),
            // A source without images fails and discards the empty roll.
            event matches ImportEvent::SourceListed(Ok(entries)) ==> (old(self).phase
                == ImportPhase::DirectoryReady && image_entries(entries@).len() == 0
                ==> final(self).phase == ImportPhase::Failed && (r matches ImportStep::Fail {
                message,
                discard_roll,
                remove_dir,
            } && message@ == import_error_text(ImportError::NoImages) && discard_roll == Some(old(self).roll_id) && remove_dir == Some(old(self).roll_dir))),
            // Otherwise the files are processed in listing order, from the first.
            event matches ImportEvent::SourceListed(Ok(entries)) ==> (old(self).phase
                == ImportPhase::DirectoryReady && 0 < image_entries(entries@).len() < usize::MAX
                ==> final(self).phase == ImportPhase::Processing && final(self).plan.len()
                == image_entries(entries@).len() && final(self).processed.len() == 0 && (r matches ImportStep::ProcessFile {
                file,
                ..
            } && file == final(self).plan@[0])),
            // The k-th planned file is the k-th image of the listing, named
            // ROLL_<hex>_<k>.<ext> with its extension in lower case.
            event matches ImportEvent::SourceListed(Ok(entries)) ==> (old(self).phase
                == ImportPhase::DirectoryReady && 0 < image_entries(entries@).len() < usize::MAX
                ==> forall|k: int|
                0 <= k < final(self).plan.len() ==> is_planned_from(
                    #[trigger] final(self).plan@[k],
                    image_entries(entries@)[k],
                    old(self).roll_id,
                    k,
                    image_entries(entries@).len(),
                )),
            // Each processed file is recorded, success or not, and the next
            // one is asked for; after the last, the records are stored.
            event matches ImportEvent::FileProcessed(o) ==> (old(self).phase
                == ImportPhase::Processing && old(self).processed.len() < old(self).plan.len()
                && old(self).fits_plan(o) ==> final(self).processed@ == old(self).processed@.push(o) && final(self).plan
                == old(self).plan),
            // Stored: the tags are written when asked for, else the import is done.
            event matches ImportEvent::PhotosPersisted(Ok(_)) ==> (old(self).phase
                == ImportPhase::Processing && old(self).processed.len() == old(self).plan.len()
                && old(self).imported().len() > 0 ==> final(self).phase == if old(
                self,
            ).options.auto_write_exif == Some(true) {
                ImportPhase::Persisted
            } else {
                ImportPhase::Done
            }),
            event matches ImportEvent::PhotosPersisted(Ok(_)) ==> (old(self).phase
                == ImportPhase::Processing && old(self).processed.len() == old(self).plan.len()
                && old(self).imported().len() > 0 && old(self).options.auto_write_exif == Some(true)
                ==> (r matches ImportStep::WriteMetadata { tags, paths } && is_roll_tags_of(
                tags,
                old(self).draft,
            ) && paths.len() == old(self).imported().len() && forall|k: int|
                0 <= k < paths.len() ==> #[trigger] paths@[k] == old(self).imported()[k].original_path)),
            // A processed file is followed by the next planned file, or,
            // after the last, by storing the records of the files that
            // succeeded; when none did, the import fails.
            event matches ImportEvent::FileProcessed(o) ==> (old(self).phase
                == ImportPhase::Processing && old(self).fits_plan(o) && old(self).processed.len() + 1 < old(self).plan.len()
                ==> final(self).phase == ImportPhase::Processing && (r matches ImportStep::ProcessFile {
                file,
                roll_dir,
                copy_mode,
            } && file == old(self).plan@[old(self).processed.len() + 1] && roll_dir
                == old(self).roll_dir && copy_mode == old(self).options.copy_mode)),
            event matches ImportEvent::FileProcessed(o) ==> (old(self).phase
                == ImportPhase::Processing && old(self).fits_plan(o) && old(self).processed.len() + 1 == old(self).plan.len()
                && final(self).imported().len() == 0 ==> final(self).phase == ImportPhase::Failed && (r matches ImportStep::Fail {
                message,
                discard_roll,
                remove_dir,
            } && message@ == import_error_text(ImportError::NothingImported) && discard_roll is None && remove_dir is None)),
            event matches ImportEvent::FileProcessed(o) ==> (old(self).phase
                == ImportPhase::Processing && old(self).fits_plan(o) && old(self).processed.len() + 1 == old(self).plan.len()
                && final(self).imported().len() > 0 ==> final(self).phase == ImportPhase::Processing && (r matches ImportStep::PersistPhotos(
                photos,
            ) && photos.len() == final(self).imported().len() && forall|k: int|
                0 <= k < photos.len() ==> is_record_of(
                    #[trigger] photos@[k],
                    old(self).roll_id,
                    final(self).imported()[k],
                ))),
            // Tags written or not, the import then finishes with the same report.
            event matches ImportEvent::MetadataWritten ==> (old(self).phase == ImportPhase::Persisted
                ==> final(self).phase == ImportPhase::Done),
            // The report of a finished import counts the photos stored.
            final(self).phase == ImportPhase::Done ==> (r matches ImportStep::Finish {
                result,
                roll_path,
            } && result.roll_id == old(self).roll_id && result.photos_count
                == old(self).imported().len() && roll_path == old(self).roll_dir),
            // A processed file reported at other paths than planned fails
            // the import.
            event matches ImportEvent::FileProcessed(o) ==> (old(self).answers(event)
                && !old(self).fits_plan(o) ==> final(self).phase == ImportPhase::Failed && r is Fail),
            // An event that does not answer the last step fails the import.
            !old(self).answers(event) ==> final(self).phase == ImportPhase::Failed && r is Fail,
            // Failures reported for a step fail the import; a listing failure
            // also discards the roll and its empty directory.
            event matches ImportEvent::RollCreated(Err(_)) ==> (old(self).answers(event)
                ==> final(self).phase == ImportPhase::Failed && (r matches ImportStep::Fail {
                discard_roll,
                remove_dir,
                ..
            } && discard_roll is None && remove_dir is None)),
            event matches ImportEvent::SourceListed(Err(_)) ==> (old(self).answers(event)
                ==> final(self).phase == ImportPhase::Failed && (r matches ImportStep::Fail {
                discard_roll,
                remove_dir,
                ..
            } && discard_roll == Some(old(self).roll_id) && remove_dir == Some(old(self).roll_dir))),
            event matches ImportEvent::PhotosPersisted(Err(_)) ==> (old(self).answers(event)
                ==> final(self).phase == ImportPhase::Failed && r is Fail),
            final(self).phase == ImportPhase::Failed ==> r is Fail,
    {
        let phase = self.phase;
        match event {
            ImportEvent::RollCreated(outcome) => {
                if phase != ImportPhase::Validating {
                    return self.fail(owned("Import steps out of order"), None, None);
                }
                match outcome {
                    Err(e) => {
                        let message = failure_message("Failed to create roll in database: ", e.as_str());
                        self.fail(message, None, None)
                    },
                    Ok(id) => {
                        let dir = allocate_roll_directory(
                            self.options.library_root.as_str(),
                            self.draft.year.as_str(),
                            id,
                        );
                        self.roll_id = id;
                        self.roll_dir = dir.clone();
                        self.phase = ImportPhase::RollCreated;
                        ImportStep::PrepareDirectory { roll_id: id, path: dir }
                    },
                }
            },
            ImportEvent::DirectoryPrepared(outcome) => {
                if phase != ImportPhase::RollCreated {
                    return self.fail(owned("Import steps out of order"), None, None);
                }
                match outcome {
                    Err(e) => {
                        let message = failure_message("Failed to create roll directory: ", e.as_str());
                        self.fail(message, Some(self.roll_id), None)
                    },
                    Ok(()) => {
                        self.phase = ImportPhase::DirectoryReady;
                        ImportStep::ListSource { path: self.options.source_path.clone() }
                    },
                }
            },
            ImportEvent::SourceListed(outcome) => {
                if phase != ImportPhase::DirectoryReady {
                    return self.fail(owned("Import steps out of order"), None, None);
                }
                match outcome {
                    Err(e) => {
                        let message = failure_message("Failed to process images: ", e.as_str());
                        let dir = self.roll_dir.clone();
                        self.fail(message, Some(self.roll_id), Some(dir))
                    },
                    Ok(entries) => {
                        let candidates = select_image_candidates(&entries);
                        if candidates.len() == 0 {
                            let message = ImportError::NoImages.message();
                            let dir = self.roll_dir.clone();
                            return self.fail(message, Some(self.roll_id), Some(dir));
                        }
                        if candidates.len() == usize::MAX {
                            return self.fail(owned("Too many files in source directory"), None, None);
                        }
                        let plan = plan_import_files(self.roll_id, &candidates);
                        assert forall|k: int| 0 <= k < plan.len() implies (#[trigger] plan@[k]).current
                            == k + 1 && plan@[k].total == plan.len() by {
                            let c = candidates@[k];
                            assert(plan@[k].source_path == c.source_path);
                        }
                        assert forall|k: int| 0 <= k < plan.len() implies is_planned_from(
                            #[trigger] plan@[k],
                            image_entries(entries@)[k],
                            self.roll_id,
                            k,
                            image_entries(entries@).len(),
                        ) by {
                            let c = candidates@[k];
                            let e = image_entries(entries@)[k];
                            assert(plan@[k].source_path == c.source_path);
                        }
                        self.plan = plan;
                        self.processed = Vec::new();
                        self.phase = ImportPhase::Processing;
                        self.after_file()
                    },
                }
            },
            ImportEvent::FileProcessed(outcome) => {
                if phase != ImportPhase::Processing || self.processed.len() >= self.plan.len() {
                    return self.fail(owned("Import steps out of order"), None, None);
                }
                let n = self.processed.len();
                match &outcome {
                    Some(p) => {
                        let planned = &self.plan[n];
                        let expected = processed_paths(
                            self.roll_dir.as_str(),
                            planned.new_filename.as_str(),
                            planned.stem.as_str(),
                        );
                        if !(p.filename == expected.filename && p.original_path
                            == expected.original_path && p.thumbnail_path == expected.thumbnail_path
                            && p.preview_path == expected.preview_path) {
                            return self.fail(owned("Processed file does not match its plan"), None, None);
                        }
                    },
                    None => {},
                }
                let ghost before = self.processed@;
                self.processed.push(outcome);
                assert forall|k: int| 0 <= k < self.processed.len() implies ((#[trigger] self.processed@[k]) matches Some(p)
                    ==> is_paths_of(p, self.roll_dir@, self.plan@[k])) by {
                    if k < n {
                        assert(self.processed@[k] == before[k]);
                    }
                }
                self.after_file()
            },
            ImportEvent::PhotosPersisted(outcome) => {
                if phase != ImportPhase::Processing || self.processed.len() < self.plan.len() {
                    return self.fail(owned("Import steps out of order"), None, None);
                }
                match outcome {
                    Err(e) => {
                        let message = failure_message("Failed to create photos in database: ", e.as_str());
                        self.fail(message, None, None)
                    },
                    Ok(()) => {
                        let photos = new_photo_records(self.roll_id, &self.processed);
                        if photos.len() == 0 {
                            return self.fail(owned("Import steps out of order"), None, None);
                        }
                        self.phase = ImportPhase::Persisted;
                        let auto = match self.options.auto_write_exif {
                            Some(b) => b,
                            None => false,
                        };
                        if auto {
                            let lens = match &self.draft.lens {
                                Some(l) => Some(l.as_str()),
                                None => None,
                            };
                            let notes = match &self.draft.notes {
                                Some(n) => Some(n.as_str()),
                                None => None,
                            };
                            let tags = roll_tags(
                                self.draft.camera.as_str(),
                                lens,
                                self.draft.shoot_date.as_str(),
                                self.draft.film_stock.as_str(),
                                None,
                                None,
                                notes,
                            );
                            let mut paths: Vec<String> = Vec::new();
                            let mut i: usize = 0;
                            while i < photos.len()
                                invariant
                                    i <= photos.len(),
                                    paths.len() == i,
                                    forall|j: int| 0 <= j < i ==> #[trigger] paths@[j] == photos@[j].file_path,
                                decreases photos.len() - i,
                            {
                                paths.push(photos[i].file_path.clone());
                                i = i + 1;
                            }
                            ImportStep::WriteMetadata { tags, paths }
                        } else {
                            self.finish()
                        }
                    },
                }
            },
            ImportEvent::MetadataWritten => {
                if phase != ImportPhase::Persisted {
                    return self.fail(owned("Import steps out of order"), None, None);
                }
                self.finish()
            },
        }
    }
}

/// When every planned file of an import was processed, the photos to store
/// are one per listed image, in listing order, each at its planned name and
/// paths.
pub proof fn lemma_every_planned_file_is_recorded(s: ImportSession)
    requires
        s.wf(),
        s.processed.len() == s.plan.len(),
        forall|k: int| 0 <= k < s.processed.len() ==> (#[trigger] s.processed@[k]) is Some,
    ensures
        s.imported().len() == s.plan.len(),
        forall|k: int|
            0 <= k < s.plan.len() ==> is_paths_of(#[trigger] s.imported()[k], s.roll_dir@, s.plan@[k]),
{
    lemma_processed_only_all(s.processed@);
    assert forall|k: int| 0 <= k < s.plan.len() implies is_paths_of(
        #[trigger] s.imported()[k],
        s.roll_dir@,
        s.plan@[k],
    ) by {
        assert(Some(s.imported()[k]) == s.processed@[k]);
    }
}

} // verus!
