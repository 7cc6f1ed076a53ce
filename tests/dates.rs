use film_vault::dates::{format_exif_date, format_shoot_date_for_exif, parse_shoot_date, DateError};

#[test]
fn test_format_shoot_date_for_exif() {
    assert_eq!(format_shoot_date_for_exif("2024-01-15"), "2024:01:15 12:00:00");
    assert_eq!(format_shoot_date_for_exif("2023-12-31"), "2023:12:31 12:00:00");
}

#[test]
fn test_format_exif_date() {
    assert_eq!(format_exif_date("2024-01-15"), "2024:01:15 12:00:00");
    assert_eq!(format_exif_date("2023-12-31"), "2023:12:31 12:00:00");
}

#[test]
fn test_parse_shoot_date() {
    assert!(parse_shoot_date("2024-01-15").is_ok());
    assert!(parse_shoot_date("invalid").is_err());
}

#[test]
fn parse_shoot_date_gives_canonical_text() {
    assert_eq!(parse_shoot_date("2024-01-15"), Ok("2024-01-15".to_string()));
    assert_eq!(parse_shoot_date("2024-1-5"), Ok("2024-01-05".to_string()));
    assert_eq!(parse_shoot_date("0099-03-04"), Ok("0099-03-04".to_string()));
}

#[test]
fn parse_shoot_date_refuses_impossible_dates() {
    assert_eq!(parse_shoot_date("2023-02-30"), Err(DateError::Malformed));
    assert_eq!(parse_shoot_date("2024-13-01"), Err(DateError::Malformed));
    assert_eq!(parse_shoot_date(""), Err(DateError::Malformed));
}

#[test]
fn parse_shoot_date_refuses_years_beyond_four_digits() {
    assert_eq!(parse_shoot_date("+12024-01-15"), Err(DateError::YearOutOfRange));
}

#[test]
fn exif_stamp_keeps_other_characters() {
    assert_eq!(format_shoot_date_for_exif(""), " 12:00:00");
    assert_eq!(format_shoot_date_for_exif("a-b--c"), "a:b::c 12:00:00");
}
