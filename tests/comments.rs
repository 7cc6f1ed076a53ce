use film_vault::exiftool::{photo_comment, roll_tags};
use film_vault::metadata::{
    build_user_comment, film_stock_from_comment, format_aperture, parse_camera_string,
    split_words,
};

#[test]
fn test_build_user_comment() {
    assert_eq!(
        build_user_comment("Kodak Portra 400", None, None, None),
        "Shot on Kodak Portra 400"
    );
    assert_eq!(
        build_user_comment("Kodak Portra 400", Some("Tokyo"), Some("Japan"), None),
        "Shot on Kodak Portra 400 | Tokyo, Japan"
    );
    assert_eq!(
        build_user_comment("Kodak Portra 400", Some("Tokyo"), Some("Japan"), Some("Sunny day")),
        "Shot on Kodak Portra 400 | Tokyo, Japan | Sunny day"
    );
    assert_eq!(
        build_user_comment("", Some("Tokyo"), Some("Japan"), Some("Sunny day")),
        "Tokyo, Japan | Sunny day"
    );
}

#[test]
fn build_user_comment_drops_half_places_and_empty_input() {
    assert_eq!(build_user_comment("", None, None, None), "");
    assert_eq!(build_user_comment("", Some(""), Some(""), Some("")), "");
    assert_eq!(build_user_comment("Ilford HP5", Some("Tokyo"), None, Some("x")), "Shot on Ilford HP5 | x");
    assert_eq!(build_user_comment("Ilford HP5", Some(""), Some("Japan"), None), "Shot on Ilford HP5");
    assert_eq!(build_user_comment("", None, None, Some("Sunny day")), "Sunny day");
}

#[test]
fn test_parse_camera_string() {
    assert_eq!(
        parse_camera_string("Canon AE-1"),
        ("Canon".to_string(), "AE-1".to_string())
    );
    assert_eq!(
        parse_camera_string("Nikon FM2"),
        ("Nikon".to_string(), "FM2".to_string())
    );
    assert_eq!(
        parse_camera_string("Leica"),
        ("Leica".to_string(), String::new())
    );
}

#[test]
fn parse_camera_string_edges() {
    assert_eq!(parse_camera_string(""), (String::new(), String::new()));
    assert_eq!(parse_camera_string("   "), (String::new(), String::new()));
    assert_eq!(
        parse_camera_string("  Pentax   K1000  Special\tEdition "),
        ("Pentax".to_string(), "K1000 Special Edition".to_string())
    );
    assert_eq!(parse_camera_string(" Leica "), ("Leica".to_string(), String::new()));
}

#[test]
fn split_words_on_unicode_space() {
    assert_eq!(split_words("a\u{3000}b c"), vec!["a".to_string(), "b".to_string(), "c".to_string()]);
}

#[test]
fn photo_place_is_taken_as_a_pair() {
    assert_eq!(
        photo_comment("Portra", Some("Osaka"), Some("Japan"), Some("Paris"), Some("France"), None),
        "Shot on Portra | Osaka, Japan"
    );
    assert_eq!(
        photo_comment("Portra", Some("Osaka"), None, Some("Paris"), Some("France"), Some("n")),
        "Shot on Portra | Paris, France | n"
    );
    assert_eq!(
        photo_comment("Portra", None, Some("Japan"), None, None, None),
        "Shot on Portra"
    );
}

#[test]
fn roll_tags_from_roll_fields() {
    let t = roll_tags("Canon AE-1 Program", Some("FD 50mm"), "2024-01-15", "Kodak Gold", Some("Tokyo"), Some("Japan"), None);
    assert_eq!(t.make, "Canon");
    assert_eq!(t.model, "AE-1 Program");
    assert_eq!(t.lens, Some("FD 50mm".to_string()));
    assert_eq!(t.date_time_original, "2024:01:15 12:00:00");
    assert_eq!(t.user_comment, "Shot on Kodak Gold | Tokyo, Japan");
}

#[test]
fn film_stock_is_read_back_from_comment() {
    assert_eq!(film_stock_from_comment("Shot on Kodak Portra 400"), Some("Kodak Portra 400".to_string()));
    assert_eq!(
        film_stock_from_comment("Shot on Kodak Portra 400 | Tokyo, Japan"),
        Some("Kodak Portra 400".to_string())
    );
    assert_eq!(
        film_stock_from_comment("Shot on Kodak Portra 400 | Tokyo, Japan | Sunny day"),
        Some("Kodak Portra 400".to_string())
    );
    assert_eq!(film_stock_from_comment("x Shot on A Shot on B"), Some("A Shot on B".to_string()));
    assert_eq!(film_stock_from_comment("Shot on "), Some(String::new()));
    assert_eq!(film_stock_from_comment("Tokyo, Japan"), None);
    assert_eq!(film_stock_from_comment(""), None);
}

#[test]
fn aperture_is_shown_with_f_prefix() {
    assert_eq!(format_aperture("2.8"), "f/2.8");
    assert_eq!(format_aperture("f/4"), "f/4");
    assert_eq!(format_aperture(""), "f/");
}
