use film_vault::catalog::{
    remove_roll_dir_after_cleanup, rolls_losing_cover, set_cover, sql_placeholders,
    validate_rating, CoverFlag,
};
use film_vault::data_url::{data_url_from_base64, image_data_url, mime_type_for};
use film_vault::readiness::{PollDecision, ReadinessGate, COMMAND_WAIT_POLLS};

fn flag(photo_id: i64, roll_id: i64, is_cover: bool) -> CoverFlag {
    CoverFlag { photo_id, roll_id, is_cover }
}

#[test]
fn set_cover_leaves_exactly_one_cover_in_the_roll() {
    let mut photos = vec![flag(1, 10, true), flag(2, 10, false), flag(3, 10, false), flag(4, 20, true)];
    assert!(set_cover(&mut photos, 10, 3));
    let covers: Vec<i64> = photos.iter().filter(|p| p.roll_id == 10 && p.is_cover).map(|p| p.photo_id).collect();
    assert_eq!(covers, vec![3]);
    assert!(photos[3].is_cover);
}

#[test]
fn set_cover_on_a_photo_of_another_roll() {
    let mut photos = vec![flag(1, 10, true), flag(4, 20, false)];
    assert!(!set_cover(&mut photos, 10, 4));
    assert!(photos[0].is_cover);
    assert!(!photos[1].is_cover);
    let mut unknown = vec![flag(1, 10, true), flag(2, 10, false)];
    assert!(!set_cover(&mut unknown, 10, 99));
    assert_eq!(unknown, vec![flag(1, 10, true), flag(2, 10, false)]);
}

#[test]
fn deleted_covers_name_each_roll_once() {
    let deleted = vec![flag(1, 10, true), flag(2, 10, false), flag(5, 30, true), flag(6, 30, true), flag(7, 40, false)];
    assert_eq!(rolls_losing_cover(&deleted), vec![10, 30]);
    assert!(rolls_losing_cover(&Vec::new()).is_empty());
}

#[test]
fn ratings_from_zero_to_five() {
    assert_eq!(validate_rating(0), Ok(0));
    assert_eq!(validate_rating(5), Ok(5));
    assert_eq!(validate_rating(6), Err("Rating must be between 0 and 5".to_string()));
    assert!(validate_rating(-1).is_err());
}

#[test]
fn placeholders_are_numbered() {
    assert_eq!(sql_placeholders(3), "?1, ?2, ?3");
    assert_eq!(sql_placeholders(1), "?1");
    assert_eq!(sql_placeholders(0), "");
}

#[test]
fn roll_directory_removal_after_cleanup() {
    assert!(remove_roll_dir_after_cleanup(true, 2, 5));
    assert!(!remove_roll_dir_after_cleanup(true, 0, 0));
    assert!(remove_roll_dir_after_cleanup(false, 0, 0));
    assert!(!remove_roll_dir_after_cleanup(false, 3, 1));
}

#[test]
fn data_url_names_the_media_type() {
    assert_eq!(mime_type_for("/a/b.webp"), "image/webp");
    assert_eq!(mime_type_for("/a/b.jpeg"), "image/jpeg");
    assert_eq!(mime_type_for("/a/b.png"), "image/png");
    assert_eq!(mime_type_for("/a/b.tif"), "image/jpeg");
    assert_eq!(data_url_from_base64("x.png", "QUJD"), "data:image/png;base64,QUJD");
    assert_eq!(image_data_url("x.webp", &b"ABCD".to_vec()), "data:image/webp;base64,QUJDRA==");
}

#[test]
fn readiness_gate_gives_up_after_its_bound() {
    let mut gate = ReadinessGate::new(3);
    assert_eq!(gate.poll(false), PollDecision::Wait);
    assert_eq!(gate.poll(false), PollDecision::Wait);
    assert_eq!(gate.poll(false), PollDecision::GiveUp);
    assert_eq!(gate.attempts_made(), 3);
    let mut ready = ReadinessGate::new(COMMAND_WAIT_POLLS);
    assert_eq!(ready.poll(false), PollDecision::Wait);
    assert_eq!(ready.poll(true), PollDecision::Proceed);
    assert_eq!(ready.attempts_made(), 1);
}
