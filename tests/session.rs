use film_vault::import::{ImportOptions, SourceEntry};
use film_vault::naming::processed_paths;
use film_vault::session::{ImportEvent, ImportPhase, ImportSession, ImportStep};

fn jpeg(name: &str) -> SourceEntry {
    SourceEntry {
        path: format!("/src/{}", name),
        file_name: name.to_string(),
        extension: Some("jpg".to_string()),
        is_file: true,
    }
}

fn options(auto_write: bool) -> ImportOptions {
    ImportOptions {
        source_path: "/src".to_string(),
        film_stock: "Kodak Portra 400".to_string(),
        camera: "Nikon FM2".to_string(),
        lens: Some("50mm".to_string()),
        shoot_date: "2024-01-15".to_string(),
        library_root: "/lib".to_string(),
        roll_name: None,
        notes: None,
        copy_mode: true,
        auto_write_exif: Some(auto_write),
    }
}

/// Drives a session up to its first file step.
fn to_processing(opts: ImportOptions, entries: Vec<SourceEntry>) -> (ImportSession, ImportStep) {
    let (mut s, step) = ImportSession::start(opts, true);
    assert!(matches!(step, ImportStep::CreateRoll(_)));
    let step = s.advance(ImportEvent::RollCreated(Ok(26)));
    match &step {
        ImportStep::PrepareDirectory { roll_id, path } => {
            assert_eq!(*roll_id, 26);
            assert_eq!(path, "/lib/2024/0000001A");
        }
        other => panic!("unexpected step {:?}", other),
    }
    assert_eq!(s.phase, ImportPhase::RollCreated);
    let step = s.advance(ImportEvent::DirectoryPrepared(Ok(())));
    assert!(matches!(step, ImportStep::ListSource { ref path } if path == "/src"));
    let step = s.advance(ImportEvent::SourceListed(Ok(entries)));
    (s, step)
}

#[test]
fn importing_three_jpegs_end_to_end() {
    let entries = vec![jpeg("c.jpg"), jpeg("a.jpg"), jpeg("b.jpg")];
    let (mut s, mut step) = to_processing(options(true), entries);
    let mut progress = Vec::new();
    let mut names = Vec::new();
    loop {
        match step {
            ImportStep::ProcessFile { file, roll_dir, copy_mode } => {
                assert!(copy_mode);
                progress.push((file.current, file.total, file.original_name.clone()));
                names.push(file.new_filename.clone());
                let paths = processed_paths(&roll_dir, &file.new_filename, &file.stem);
                step = s.advance(ImportEvent::FileProcessed(Some(paths)));
            }
            other => {
                step = other;
                break;
            }
        }
    }
    assert_eq!(names, vec!["ROLL_0000001A_001.jpg", "ROLL_0000001A_002.jpg", "ROLL_0000001A_003.jpg"]);
    assert_eq!(
        progress,
        vec![(1, 3, "c.jpg".to_string()), (2, 3, "a.jpg".to_string()), (3, 3, "b.jpg".to_string())]
    );
    let photos = match step {
        ImportStep::PersistPhotos(photos) => photos,
        other => panic!("unexpected step {:?}", other),
    };
    assert_eq!(photos.len(), 3);
    assert_eq!(photos[0].file_path, "/lib/2024/0000001A/originals/ROLL_0000001A_001.jpg");
    assert_eq!(photos[2].preview_path.as_deref(), Some("/lib/2024/0000001A/previews/ROLL_0000001A_003.webp"));
    match s.advance(ImportEvent::PhotosPersisted(Ok(()))) {
        ImportStep::WriteMetadata { tags, paths } => {
            assert_eq!(tags.make, "Nikon");
            assert_eq!(tags.model, "FM2");
            assert_eq!(tags.user_comment, "Shot on Kodak Portra 400");
            assert_eq!(paths.len(), 3);
        }
        other => panic!("unexpected step {:?}", other),
    }
    assert_eq!(s.phase, ImportPhase::Persisted);
    match s.advance(ImportEvent::MetadataWritten) {
        ImportStep::Finish { result, roll_path } => {
            assert_eq!(result.roll_id, 26);
            assert_eq!(result.photos_count, 3);
            assert_eq!(roll_path, "/lib/2024/0000001A");
        }
        other => panic!("unexpected step {:?}", other),
    }
    assert_eq!(s.phase, ImportPhase::Done);
}

#[test]
fn a_failed_file_does_not_stop_the_import() {
    let (mut s, step) = to_processing(options(false), vec![jpeg("a.jpg"), jpeg("b.jpg")]);
    assert!(matches!(step, ImportStep::ProcessFile { .. }));
    let step = s.advance(ImportEvent::FileProcessed(None));
    let file = match step {
        ImportStep::ProcessFile { file, .. } => file,
        other => panic!("unexpected step {:?}", other),
    };
    assert_eq!(file.current, 2);
    let paths = processed_paths("/lib/2024/0000001A", &file.new_filename, &file.stem);
    match s.advance(ImportEvent::FileProcessed(Some(paths))) {
        ImportStep::PersistPhotos(photos) => assert_eq!(photos.len(), 1),
        other => panic!("unexpected step {:?}", other),
    }
    match s.advance(ImportEvent::PhotosPersisted(Ok(()))) {
        ImportStep::Finish { result, .. } => {
            assert_eq!(result.photos_count, 1);
            assert_eq!(result.message, "Imported 1 photos into the roll folder");
        }
        other => panic!("unexpected step {:?}", other),
    }
}

#[test]
fn an_import_where_every_file_fails() {
    let (mut s, _) = to_processing(options(false), vec![jpeg("a.jpg")]);
    match s.advance(ImportEvent::FileProcessed(None)) {
        ImportStep::Fail { message, discard_roll, remove_dir } => {
            assert_eq!(message, "None of the images could be imported");
            assert!(discard_roll.is_none());
            assert!(remove_dir.is_none());
        }
        other => panic!("unexpected step {:?}", other),
    }
    assert_eq!(s.phase, ImportPhase::Failed);
}

#[test]
fn a_source_without_images_discards_the_roll() {
    let notes = SourceEntry { path: "/src/n.txt".to_string(), file_name: "n.txt".to_string(), extension: Some("txt".to_string()), is_file: true };
    let (s, step) = to_processing(options(false), vec![notes]);
    match step {
        ImportStep::Fail { message, discard_roll, remove_dir } => {
            assert_eq!(message, "No images found in source directory");
            assert_eq!(discard_roll, Some(26));
            assert_eq!(remove_dir, Some("/lib/2024/0000001A".to_string()));
        }
        other => panic!("unexpected step {:?}", other),
    }
    assert_eq!(s.phase, ImportPhase::Failed);
}

#[test]
fn validation_fails_before_any_side_effect() {
    let (s, step) = ImportSession::start(options(false), false);
    assert!(matches!(step, ImportStep::Fail { ref message, discard_roll: None, remove_dir: None } if message == "Source path does not exist"));
    assert_eq!(s.phase, ImportPhase::Failed);
    let mut bad = options(false);
    bad.shoot_date = "2024-02-31".to_string();
    let (_, step) = ImportSession::start(bad, true);
    assert!(matches!(step, ImportStep::Fail { ref message, discard_roll: None, remove_dir: None } if message == "Invalid shoot date: use YYYY-MM-DD"));
}

#[test]
fn store_failures_are_reported() {
    let (mut s, _) = ImportSession::start(options(false), true);
    match s.advance(ImportEvent::RollCreated(Err("disk full".to_string()))) {
        ImportStep::Fail { message, .. } => assert_eq!(message, "Failed to create roll in database: disk full"),
        other => panic!("unexpected step {:?}", other),
    }
    let (mut s, _) = ImportSession::start(options(false), true);
    s.advance(ImportEvent::RollCreated(Ok(3)));
    match s.advance(ImportEvent::DirectoryPrepared(Err("exists".to_string()))) {
        ImportStep::Fail { message, discard_roll, remove_dir } => {
            assert_eq!(message, "Failed to create roll directory: exists");
            assert_eq!(discard_roll, Some(3));
            assert!(remove_dir.is_none());
        }
        other => panic!("unexpected step {:?}", other),
    }
}

#[test]
fn events_out_of_order_fail_the_import() {
    let (mut s, _) = ImportSession::start(options(false), true);
    assert!(matches!(s.advance(ImportEvent::MetadataWritten), ImportStep::Fail { .. }));
    assert_eq!(s.phase, ImportPhase::Failed);
}

#[test]
fn a_file_reported_at_other_paths_fails_the_import() {
    let (mut s, step) = to_processing(options(false), vec![jpeg("a.jpg")]);
    let file = match step {
        ImportStep::ProcessFile { file, .. } => file,
        other => panic!("unexpected step {:?}", other),
    };
    let wrong = processed_paths("/elsewhere", &file.new_filename, &file.stem);
    match s.advance(ImportEvent::FileProcessed(Some(wrong))) {
        ImportStep::Fail { message, .. } => assert_eq!(message, "Processed file does not match its plan"),
        other => panic!("unexpected step {:?}", other),
    }
    assert_eq!(s.phase, ImportPhase::Failed);
}

#[test]
fn failed_listing_and_store_write_fail_the_import() {
    let (mut s, _) = ImportSession::start(options(false), true);
    s.advance(ImportEvent::RollCreated(Ok(5)));
    s.advance(ImportEvent::DirectoryPrepared(Ok(())));
    match s.advance(ImportEvent::SourceListed(Err("denied".to_string()))) {
        ImportStep::Fail { message, discard_roll, remove_dir } => {
            assert_eq!(message, "Failed to process images: denied");
            assert_eq!(discard_roll, Some(5));
            assert_eq!(remove_dir, Some("/lib/2024/00000005".to_string()));
        }
        other => panic!("unexpected step {:?}", other),
    }
    let (mut s, step) = to_processing(options(false), vec![jpeg("a.jpg")]);
    let file = match step {
        ImportStep::ProcessFile { file, .. } => file,
        other => panic!("unexpected step {:?}", other),
    };
    let paths = processed_paths("/lib/2024/0000001A", &file.new_filename, &file.stem);
    assert!(matches!(s.advance(ImportEvent::FileProcessed(Some(paths))), ImportStep::PersistPhotos(_)));
    match s.advance(ImportEvent::PhotosPersisted(Err("locked".to_string()))) {
        ImportStep::Fail { message, .. } => assert_eq!(message, "Failed to create photos in database: locked"),
        other => panic!("unexpected step {:?}", other),
    }
    let (mut s, _) = ImportSession::start(options(false), true);
    assert!(matches!(s.advance(ImportEvent::DirectoryPrepared(Ok(()))), ImportStep::Fail { .. }));
}
