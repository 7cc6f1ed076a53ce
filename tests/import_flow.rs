use film_vault::exiftool::roll_tags;
use film_vault::import::{
    count_image_entries, draft_roll, finish_import, new_photo_records, plan_import_files,
    prepare_roll, select_image_candidates, ImportError, ImportOptions, SourceEntry,
};
use film_vault::dates::DateError;
use film_vault::naming::{allocate_roll_directory, processed_paths};

fn entry(name: &str, ext: Option<&str>, is_file: bool) -> SourceEntry {
    SourceEntry {
        path: format!("/src/{}", name),
        file_name: name.to_string(),
        extension: ext.map(|e| e.to_string()),
        is_file,
    }
}

fn options(date: &str) -> ImportOptions {
    ImportOptions {
        source_path: "/src".to_string(),
        film_stock: "Kodak Portra 400".to_string(),
        camera: "Canon AE-1".to_string(),
        lens: None,
        shoot_date: date.to_string(),
        library_root: "/lib".to_string(),
        roll_name: None,
        notes: Some("Sunny day".to_string()),
        copy_mode: true,
        auto_write_exif: Some(true),
    }
}

#[test]
fn import_of_three_jpegs_names_them_in_directory_order() {
    let entries = vec![
        entry("b.jpg", Some("jpg"), true),
        entry("notes.txt", Some("txt"), true),
        entry("a.JPG", Some("JPG"), true),
        entry("sub", None, false),
        entry("c.jpeg", Some("jpeg"), true),
    ];
    let opts = options("2024-01-15");
    let draft = prepare_roll(&opts).unwrap();
    assert_eq!(draft.year, "2024");
    assert_eq!(draft.name, "Roll - 2024-01-15");
    let roll_id = 7;
    let roll_dir = allocate_roll_directory(&opts.library_root, &draft.year, roll_id);
    assert_eq!(roll_dir, "/lib/2024/00000007");

    let candidates = select_image_candidates(&entries);
    assert_eq!(count_image_entries(&entries), 3);
    let plan = plan_import_files(roll_id, &candidates);
    let names: Vec<&str> = plan.iter().map(|p| p.new_filename.as_str()).collect();
    assert_eq!(names, vec!["ROLL_00000007_001.jpg", "ROLL_00000007_002.jpg", "ROLL_00000007_003.jpeg"]);
    let shown: Vec<&str> = plan.iter().map(|p| p.original_name.as_str()).collect();
    assert_eq!(shown, vec!["b.jpg", "a.JPG", "c.jpeg"]);
    for (k, p) in plan.iter().enumerate() {
        assert_eq!(p.current, k + 1);
        assert_eq!(p.total, 3);
    }
    let last = plan.last().unwrap();
    assert_eq!((last.current, last.total), (3, 3));

    let processed: Vec<_> = plan
        .iter()
        .map(|p| Some(processed_paths(&roll_dir, &p.new_filename, &p.stem)))
        .collect();
    let photos = new_photo_records(roll_id, &processed);
    assert_eq!(photos.len(), 3);
    assert_eq!(photos[0].file_path, "/lib/2024/00000007/originals/ROLL_00000007_001.jpg");
    assert_eq!(photos[2].thumbnail_path.as_deref(), Some("/lib/2024/00000007/thumbnails/ROLL_00000007_003.webp"));
    assert_eq!(photos[1].preview_path.as_deref(), Some("/lib/2024/00000007/previews/ROLL_00000007_002.webp"));

    let result = finish_import(roll_id, candidates.len(), photos.len()).unwrap();
    assert_eq!(result.roll_id, 7);
    assert_eq!(result.photos_count, 3);
    assert_eq!(result.message, "Imported 3 photos into the roll folder");

    let tags = roll_tags(&draft.camera, draft.lens.as_deref(), &draft.shoot_date, &draft.film_stock, None, None, draft.notes.as_deref());
    assert_eq!(tags.user_comment, "Shot on Kodak Portra 400 | Sunny day");
}

#[test]
fn failed_files_are_left_out_of_the_records() {
    let roll_dir = "/lib/2024/00000007";
    let processed = vec![
        None,
        Some(processed_paths(roll_dir, "ROLL_00000007_002.png", "ROLL_00000007_002")),
        None,
    ];
    let photos = new_photo_records(7, &processed);
    assert_eq!(photos.len(), 1);
    assert_eq!(photos[0].filename, "ROLL_00000007_002.png");
    assert_eq!(finish_import(7, 3, 1).unwrap().photos_count, 1);
}

#[test]
fn import_fails_without_images_or_when_all_fail() {
    assert_eq!(finish_import(7, 0, 0).unwrap_err(), ImportError::NoImages);
    assert_eq!(finish_import(7, 3, 0).unwrap_err(), ImportError::NothingImported);
    assert_eq!(ImportError::NoImages.message(), "No images found in source directory");
    assert_eq!(ImportError::SourceMissing.message(), "Source path does not exist");
    let empty = vec![entry("readme.md", Some("md"), true), entry("x.jpg", Some("jpg"), false)];
    assert_eq!(count_image_entries(&empty), 0);
}

#[test]
fn import_refuses_malformed_shoot_date() {
    assert_eq!(prepare_roll(&options("15/01/2024")).unwrap_err(), ImportError::InvalidDate(DateError::Malformed));
}

#[test]
fn roll_name_given_by_caller_is_kept() {
    let mut opts = options("2024-1-5");
    opts.roll_name = Some("Kyoto".to_string());
    let d = prepare_roll(&opts).unwrap();
    assert_eq!(d.name, "Kyoto");
    assert_eq!(d.shoot_date, "2024-01-05");
    let d2 = draft_roll(&options("2024-1-5"), "2024-01-05");
    assert_eq!(d2.name, "Roll - 2024-1-5");
}
