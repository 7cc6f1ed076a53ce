//! Rules of the stored catalogue of rolls and photos: the single cover of a
//! roll, the range of ratings, and the requests that change the catalogue.

use vstd::prelude::*;
use crate::text::{join, join_texts, owned, radix_digits, radix_text, views};

verus! {

/// The cover flag of one stored photo.
#[derive(Debug, Clone, Copy, PartialEq, Eq, Structural)]
pub struct CoverFlag {
    pub photo_id: i64,
    pub roll_id: i64,
    pub is_cover: bool,
}

/// `after` is `before` with the cover of roll `roll_id` moved to photo
/// `photo_id`: every photo of that roll loses the flag but that one, and the
/// other rolls keep theirs.
pub open spec fn cover_set(
    before: Seq<CoverFlag>,
    after: Seq<CoverFlag>,
    roll_id: i64,
    photo_id: i64,
) -> bool {
    &&& after.len() == before.len()
    &&& forall|k: int|
        0 <= k < before.len() ==> {
            &&& (#[trigger] after[k]).photo_id == before[k].photo_id
            &&& after[k].roll_id == before[k].roll_id
            &&& after[k].is_cover == if before[k].roll_id == roll_id {
                before[k].photo_id == photo_id
            } else {
                before[k].is_cover
            }
        }
}

/// Whether photo `photo_id` belongs to roll `roll_id`.
pub open spec fn holds_photo(photos: Seq<CoverFlag>, roll_id: i64, photo_id: i64) -> bool {
    exists|k: int| 0 <= k < photos.len() && #[trigger] photos[k].roll_id == roll_id && photos[k].photo_id == photo_id
}

/// Tells whether photo `photo_id` belongs to roll `roll_id`.
pub fn roll_holds_photo(photos: &Vec<CoverFlag>, roll_id: i64, photo_id: i64) -> (r: bool)
    ensures
        r == holds_photo(photos@, roll_id, photo_id),
{
    let mut i: usize = 0;
    while i < photos.len()
        invariant
            i <= photos.len(),
            forall|k: int|
                0 <= k < i ==> !(#[trigger] photos@[k].roll_id == roll_id && photos@[k].photo_id
                    == photo_id),
        decreases photos.len() - i,
    {
        if photos[i].roll_id == roll_id && photos[i].photo_id == photo_id {
            assert(photos@[i as int].roll_id == roll_id);
            return true;
        }
        i = i + 1;
    }
    false
}

/// Makes photo `photo_id` the cover of roll `roll_id`, clearing the flag of
/// every other photo of that roll, in one step; tells whether the photo is
/// in the roll. When it is not, nothing changes and the roll keeps its cover.
pub fn set_cover(photos: &mut Vec<CoverFlag>, roll_id: i64, photo_id: i64) -> (r: bool)
    ensures
        r == holds_photo(old(photos)@, roll_id, photo_id),
        r ==> cover_set(old(photos)@, final(photos)@, roll_id, photo_id),
        !r ==> final(photos)@ == old(photos)@,
{
    if !roll_holds_photo(photos, roll_id, photo_id) {
        return false;
    }
    let ghost before = photos@;
    let mut i: usize = 0;
    while i < photos.len()
        invariant
            i <= photos.len() == before.len(),
            forall|k: int|
                0 <= k < before.len() ==> {
                    &&& (#[trigger] photos@[k]).photo_id == before[k].photo_id
                    &&& photos@[k].roll_id == before[k].roll_id
                    &&& photos@[k].is_cover == if k < i && before[k].roll_id == roll_id {
                        before[k].photo_id == photo_id
                    } else {
                        before[k].is_cover
                    }
                },
        decreases before.len() - i,
    {
        let p = photos[i];
        if p.roll_id == roll_id {
            let hit = p.photo_id == photo_id;
            photos.set(i, CoverFlag { photo_id: p.photo_id, roll_id: p.roll_id, is_cover: hit });
        }
        i = i + 1;
    }
    true
}

/// After a cover is set on a photo of its roll, that roll has exactly one
/// cover, and it is that photo.
pub proof fn lemma_cover_is_single(
    before: Seq<CoverFlag>,
    after: Seq<CoverFlag>,
    roll_id: i64,
    photo_id: i64,
)
    requires
        cover_set(before, after, roll_id, photo_id),
        holds_photo(before, roll_id, photo_id),
        forall|i: int, j: int|
            0 <= i < j < before.len() ==> before[i].photo_id != before[j].photo_id,
    ensures
        exists|k: int|
            0 <= k < after.len() && #[trigger] after[k].roll_id == roll_id && after[k].is_cover
                && after[k].photo_id == photo_id,
        forall|i: int, j: int|
            0 <= i < after.len() && 0 <= j < after.len() && after[i].roll_id == roll_id
                && after[i].is_cover && after[j].roll_id == roll_id && after[j].is_cover ==> i == j,
{
    let k = choose|k: int|
        0 <= k < before.len() && #[trigger] before[k].roll_id == roll_id && before[k].photo_id == photo_id;
    assert(after[k].roll_id == roll_id && after[k].is_cover && after[k].photo_id == photo_id);
    assert forall|i: int, j: int|
        0 <= i < after.len() && 0 <= j < after.len() && after[i].roll_id == roll_id
            && after[i].is_cover && after[j].roll_id == roll_id && after[j].is_cover implies i == j by {
        assert(after[i].photo_id == photo_id);
        assert(after[j].photo_id == photo_id);
        if i < j {
            assert(before[i].photo_id != before[j].photo_id);
        } else if j < i {
            assert(before[j].photo_id != before[i].photo_id);
        }
    }
}

/// Whether `ids` holds `x`.
fn contains_id(ids: &Vec<i64>, x: i64) -> (r: bool)
    ensures
        r == ids@.contains(x),
{
    let mut i: usize = 0;
    while i < ids.len()
        invariant
            i <= ids.len(),
            forall|k: int| 0 <= k < i ==> ids@[k] != x,
        decreases ids.len() - i,
    {
        if ids[i] == x {
            assert(ids@[i as int] == x);
            return true;
        }
        i = i + 1;
    }
    false
}

/// Whether one of the first `n` deleted photos was the cover of roll `x`.
pub open spec fn lost_cover(deleted: Seq<CoverFlag>, n: int, x: i64) -> bool {
    exists|k: int| 0 <= k < n && #[trigger] deleted[k].roll_id == x && deleted[k].is_cover
}

/// The rolls that lose their cover when these photos are deleted: the roll
/// of each deleted cover, each roll once.
pub fn rolls_losing_cover(deleted: &Vec<CoverFlag>) -> (r: Vec<i64>)
    ensures
        forall|x: i64| #[trigger] r@.contains(x) <==> lost_cover(deleted@, deleted.len() as int, x),
        forall|i: int, j: int| 0 <= i < j < r.len() ==> r@[i] != r@[j],
{
    let mut out: Vec<i64> = Vec::new();
    let mut i: usize = 0;
    while i < deleted.len()
        invariant
            i <= deleted.len(),
            forall|x: i64| #[trigger] out@.contains(x) <==> lost_cover(deleted@, i as int, x),
            forall|a: int, b: int| 0 <= a < b < out.len() ==> out@[a] != out@[b],
        decreases deleted.len() - i,
    {
        let p = deleted[i];
        let ghost before = out@;
        assert forall|x: i64| #[trigger]
            lost_cover(deleted@, i + 1, x) <==> (lost_cover(deleted@, i as int, x) || (p.roll_id
                == x && p.is_cover)) by {
            if lost_cover(deleted@, i + 1, x) {
                let k = choose|k: int|
                    0 <= k < i + 1 && #[trigger] deleted@[k].roll_id == x && deleted@[k].is_cover;
                if k == i {
                    assert(p.roll_id == x && p.is_cover);
                }
            }
            if p.roll_id == x && p.is_cover {
                assert(deleted@[i as int].roll_id == x);
            }
        }
        if p.is_cover && !contains_id(&out, p.roll_id) {
            out.push(p.roll_id);
            assert forall|x: i64| #[trigger] out@.contains(x) <==> (before.contains(x) || x == p.roll_id) by {
                if x == p.roll_id {
                    assert(out@[before.len() as int] == x);
                }
                if out@.contains(x) {
                    let m = choose|m: int| 0 <= m < out@.len() && out@[m] == x;
                    if m < before.len() {
                        assert(before[m] == x);
                    }
                }
                if before.contains(x) {
                    let m = choose|m: int| 0 <= m < before.len() && before[m] == x;
                    assert(out@[m] == x);
                }
            }
        }
        i = i + 1;
    }
    out
}

/// Checks a rating: from 0 to 5 stars.
pub fn validate_rating(rating: i32) -> (r: Result<i32, String>)
    ensures
        r is Ok <==> 0 <= rating <= 5,
        r matches Ok(v) ==> v == rating,
        r matches Err(m) ==> m@ == "Rating must be between 0 and 5"@,
{
    if rating < 0 || rating > 5 {
        Err(owned("Rating must be between 0 and 5"))
    } else {
        Ok(rating)
    }
}

/// The numbered placeholders `?1, ?2, ..., ?n` of a query over `n` values.
pub open spec fn placeholders(n: nat) -> Seq<char> {
    join(Seq::new(n, |i: int| "?"@ + radix_digits((i + 1) as nat, 10, 1)), ", "@)
}

/// Writes the numbered placeholders `?1, ?2, ..., ?n`.
pub fn sql_placeholders(n: usize) -> (r: String)
    requires
        n < usize::MAX,
    ensures
        r@ == placeholders(n as nat),
{
    let mut parts: Vec<String> = Vec::new();
    let mut i: usize = 0;
    while i < n
        invariant
            i <= n < usize::MAX,
            views(parts@) == Seq::new(i as nat, |k: int| "?"@ + radix_digits((k + 1) as nat, 10, 1)),
        decreases n - i,
    {
        let mut p = owned("?");
        let digits = radix_text((i + 1) as u64, 10, 1);
        p.append(digits.as_str());
        let ghost before = views(parts@);
        parts.push(p);
        assert(views(parts@) =~= before.push(p@));
        i = i + 1;
    }
    assert(views(parts@) =~= Seq::new(n as nat, |k: int| "?"@ + radix_digits((k + 1) as nat, 10, 1)));
    join_texts(&parts, ", ")
}

/// Whether the directory of a deleted roll is removed after its artifacts:
/// when originals were deleted, if any were; else if no file is left in it.
pub fn remove_roll_dir_after_cleanup(
    delete_originals: bool,
    files_deleted: usize,
    files_left: usize,
) -> (r: bool)
    ensures
        r == if delete_originals {
            files_deleted > 0
        } else {
            files_left == 0
        },
{
    if delete_originals {
        files_deleted > 0
    } else {
        files_left == 0
    }
}

/// Asks to stamp a roll's tags into all its photos.
#[derive(Debug, Clone)]
pub struct WriteRollExifRequest {
    pub roll_id: i64,
    pub auto_write: bool,
}

/// Asks to write one photo's comment, with the photo's own notes.
#[derive(Debug, Clone)]
pub struct WritePhotoExifRequest {
    pub photo_id: i64,
    pub user_comment: Option<String>,
}

/// Asks to change a roll's descriptive fields.
#[derive(Debug, Clone)]
pub struct UpdateRollRequest {
    pub id: i64,
    pub name: String,
    pub film_stock: String,
    pub camera: String,
    pub lens: Option<String>,
    pub shoot_date: String,
    pub lab_info: Option<String>,
    pub notes: Option<String>,
}

/// Asks to delete a roll, and perhaps its files.
#[derive(Debug, Clone)]
pub struct DeleteRollRequest {
    pub id: i64,
    pub delete_files: bool,
    pub delete_originals: bool,
}

/// Asks to delete several photos, and perhaps their artifacts.
#[derive(Debug, Clone)]
pub struct DeletePhotosRequest {
    pub photo_ids: Vec<i64>,
    pub delete_files: bool,
}

/// The settings of the application.
#[derive(Debug, Clone)]
pub struct AppConfig {
    pub library_root: String,
}

} // verus!
