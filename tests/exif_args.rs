use film_vault::exiftool::{
    clear_exif_args, photo_exif_args, read_exif_args, roll_exif_args, roll_tags, tool_run_error,
    PhotoTags, ToolRun,
};

#[test]
fn roll_args_leave_out_empty_fields() {
    let tags = roll_tags("Leica", None, "2023-12-31", "", None, None, None);
    let args = roll_exif_args("/p/a.jpg", &tags);
    assert_eq!(
        args,
        vec![
            "-overwrite_original",
            "-MakerNotes:All=",
            "-Make=Leica",
            "-DateTimeOriginal=2023:12:31 12:00:00",
            "-CreateDate=2023:12:31 12:00:00",
            "/p/a.jpg",
        ]
    );
}

#[test]
fn roll_args_with_every_field() {
    let tags = roll_tags("Canon AE-1", Some("FD 50mm"), "2024-01-15", "Kodak Portra 400", Some("Tokyo"), Some("Japan"), Some("Sunny day"));
    let args = roll_exif_args("/p/b.jpg", &tags);
    assert_eq!(
        args,
        vec![
            "-overwrite_original",
            "-MakerNotes:All=",
            "-Make=Canon",
            "-Model=AE-1",
            "-LensModel=FD 50mm",
            "-DateTimeOriginal=2024:01:15 12:00:00",
            "-CreateDate=2024:01:15 12:00:00",
            "-UserComment=Shot on Kodak Portra 400 | Tokyo, Japan | Sunny day",
            "/p/b.jpg",
        ]
    );
}

#[test]
fn photo_args_write_only_present_tags() {
    let tags = PhotoTags {
        iso: Some(400),
        aperture: Some("2.8".to_string()),
        shutter_speed: None,
        focal_length: Some(String::new()),
        gps_latitude: Some("35.6".to_string()),
        gps_longitude: None,
        gps_altitude: None,
        rating: Some(-1),
        user_comment: Some("Shot on X".to_string()),
        description: None,
    };
    assert_eq!(
        photo_exif_args("/p/c.jpg", &tags),
        vec![
            "-overwrite_original",
            "-ISO=400",
            "-FNumber=2.8",
            "-GPSLatitude=35.6",
            "-Rating=-1",
            "-UserComment=Shot on X",
            "/p/c.jpg",
        ]
    );
}

#[test]
fn clear_and_read_args() {
    assert_eq!(clear_exif_args("/p/d.jpg"), vec!["-overwrite_original", "-all=", "/p/d.jpg"]);
    assert_eq!(read_exif_args("/p/d.jpg"), vec!["-j", "-coordFormat", "%f", "/p/d.jpg"]);
}

#[test]
fn tool_run_errors() {
    assert_eq!(tool_run_error("/p/e.jpg", &ToolRun::MissingFile), Some("File not found: /p/e.jpg".to_string()));
    assert_eq!(
        tool_run_error("/p/e.jpg", &ToolRun::LaunchFailed("no such program".to_string())),
        Some("Failed to execute exiftool: no such program".to_string())
    );
    assert_eq!(
        tool_run_error("/p/e.jpg", &ToolRun::Exited { success: false, stderr: "boom".to_string() }),
        Some("ExifTool error: boom".to_string())
    );
    assert_eq!(tool_run_error("/p/e.jpg", &ToolRun::Exited { success: true, stderr: String::new() }), None);
}
