//! The descriptive comment written into each photo, and the camera string
//! split into maker and model.

use vstd::prelude::*;
use crate::text::{join, join_texts, owned, push_char, views};

verus! {

/// The text of an optional fragment; an absent one counts as empty.
pub open spec fn opt_text(o: Option<&str>) -> Seq<char> {
    match o {
        Some(s) => s@,
        None => Seq::empty(),
    }
}

/// The fragments of a comment, in their fixed order: the film stock, the
/// place (only when both city and country are given), the free text.
pub open spec fn comment_fragments(
    film_stock: Seq<char>,
    city: Seq<char>,
    country: Seq<char>,
    notes: Seq<char>,
) -> Seq<Seq<char>> {
    let film = if film_stock.len() > 0 {
        seq!["Shot on "@ + film_stock]
    } else {
        Seq::empty()
    };
    let place = if city.len() > 0 && country.len() > 0 {
        seq![city + ", "@ + country]
    } else {
        Seq::empty()
    };
    let free = if notes.len() > 0 {
        seq![notes]
    } else {
        Seq::empty()
    };
    film + place + free
}

/// The comment: the non-empty fragments joined with `" | "`.
pub open spec fn comment_text(
    film_stock: Seq<char>,
    city: Seq<char>,
    country: Seq<char>,
    notes: Seq<char>,
) -> Seq<char> {
    join(comment_fragments(film_stock, city, country, notes), " | "@)
}

/// Builds the comment `"Shot on {film} | {city}, {country} | {notes}"`,
/// leaving out each empty fragment together with its separator.
pub fn build_user_comment(
    film_stock: &str,
    city: Option<&str>,
    country: Option<&str>,
    notes: Option<&str>,
) -> (r: String)
    ensures
        r@ == comment_text(film_stock@, opt_text(city), opt_text(country), opt_text(notes)),
{
    let mut parts: Vec<String> = Vec::new();
    let ghost film_part: Seq<Seq<char>> = Seq::empty();
    let ghost place_part: Seq<Seq<char>> = Seq::empty();
    let ghost free_part: Seq<Seq<char>> = Seq::empty();
    if film_stock.unicode_len() > 0 {
        let mut part = String::from_str("Shot on ");
        part.append(film_stock);
        parts.push(part);
        proof {
            film_part = seq!["Shot on "@ + film_stock@];
        }
    }
    assert(views(parts@) =~= film_part);
    let city_text = match city {
        Some(c) => c,
        None => "",
    };
    let country_text = match country {
        Some(c) => c,
        None => "",
    };
    proof {
        reveal_strlit("");
    }
    if city_text.unicode_len() > 0 && country_text.unicode_len() > 0 {
        let mut part = String::from_str(city_text);
        part.append(", ");
        part.append(country_text);
        parts.push(part);
        proof {
            place_part = seq![city_text@ + ", "@ + country_text@];
        }
    }
    assert(views(parts@) =~= film_part + place_part);
    let notes_text = match notes {
        Some(n) => n,
        None => "",
    };
    if notes_text.unicode_len() > 0 {
        parts.push(String::from_str(notes_text));
        proof {
            free_part = seq![notes_text@];
        }
    }
    assert(views(parts@) =~= film_part + place_part + free_part);
    assert(opt_text(city) == city_text@);
    assert(opt_text(country) == country_text@);
    assert(opt_text(notes) == notes_text@);
    assert(film_part + place_part + free_part =~= comment_fragments(
        film_stock@,
        city_text@,
        country_text@,
        notes_text@,
    ));
    join_texts(&parts, " | ")
}

/// Unicode white space, as `char::is_whitespace` describes it.
pub open spec fn is_white(c: char) -> bool {
    let u = c as u32;
    ||| 9 <= u <= 13
    ||| u == 32
    ||| u == 0x85
    ||| u == 0xA0
    ||| u == 0x1680
    ||| 0x2000 <= u <= 0x200A
    ||| u == 0x2028
    ||| u == 0x2029
    ||| u == 0x202F
    ||| u == 0x205F
    ||| u == 0x3000
}

/// Reads `s` from the left: the words closed so far, and the word being read.
pub open spec fn scan_words(s: Seq<char>) -> (Seq<Seq<char>>, Seq<char>)
    decreases s.len(),
{
    if s.len() == 0 {
        (Seq::empty(), Seq::empty())
    } else {
        let (done, cur) = scan_words(s.drop_last());
        let c = s.last();
        if is_white(c) {
            if cur.len() > 0 {
                (done.push(cur), Seq::empty())
            } else {
                (done, cur)
            }
        } else {
            (done, cur.push(c))
        }
    }
}

/// The words of `s`: its maximal runs of characters that are not white space.
pub open spec fn words(s: Seq<char>) -> Seq<Seq<char>> {
    let (done, cur) = scan_words(s);
    if cur.len() > 0 {
        done.push(cur)
    } else {
        done
    }
}

/// The maker: the first word of the camera string, or empty.
pub open spec fn camera_make(camera: Seq<char>) -> Seq<char> {
    if words(camera).len() > 0 {
        words(camera)[0]
    } else {
        Seq::empty()
    }
}

/// The model: the remaining words joined by single spaces.
pub open spec fn camera_model(camera: Seq<char>) -> Seq<char> {
    if words(camera).len() > 1 {
        join(words(camera).skip(1), " "@)
    } else {
        Seq::empty()
    }
}

/// Tells whether `c` is white space.
pub fn is_white_char(c: char) -> (r: bool)
    ensures
        r == is_white(c),
{
    let u = c as u32;
    (9 <= u && u <= 13) || u == 32 || u == 0x85 || u == 0xA0 || u == 0x1680 || (0x2000 <= u && u
        <= 0x200A) || u == 0x2028 || u == 0x2029 || u == 0x202F || u == 0x205F || u == 0x3000
}

/// Splits `s` into its words.
pub fn split_words(s: &str) -> (r: Vec<String>)
    ensures
        views(r@) == words(s@),
{
    let n = s.unicode_len();
    let mut done: Vec<String> = Vec::new();
    let mut cur = String::new();
    let mut i: usize = 0;
    while i < n
        invariant
            n == s@.len(),
            i <= n,
            (views(done@), cur@) == scan_words(s@.take(i as int)),
        decreases n - i,
    {
        let c = s.get_char(i);
        assert(s@.take(i as int + 1).drop_last() =~= s@.take(i as int));
        if is_white_char(c) {
            if cur.unicode_len() > 0 {
                let ghost old_done = views(done@);
                done.push(cur);
                assert(views(done@) =~= old_done.push(cur@));
                cur = String::new();
            }
        } else {
            push_char(&mut cur, c);
        }
        i = i + 1;
    }
    assert(s@.take(n as int) =~= s@);
    if cur.unicode_len() > 0 {
        let ghost old_done = views(done@);
        done.push(cur);
        assert(views(done@) =~= old_done.push(cur@));
    }
    done
}

/// Splits a camera string into maker and model: the first word is the
/// maker, the remaining words joined by single spaces are the model.
pub fn parse_camera_string(camera: &str) -> (r: (String, String))
    ensures
        r.0@ == camera_make(camera@),
        r.1@ == camera_model(camera@),
{
    let parts = split_words(camera);
    if parts.len() == 0 {
        return (String::new(), String::new());
    }
    let mut rest: Vec<String> = Vec::new();
    let mut i: usize = 1;
    while i < parts.len()
        invariant
            1 <= i <= parts.len(),
            views(rest@) =~= views(parts@).subrange(1, i as int),
        decreases parts.len() - i,
    {
        let ghost before = views(rest@);
        rest.push(parts[i].clone());
        assert(views(rest@) =~= before.push(parts@[i as int]@));
        i = i + 1;
    }
    assert(views(parts@).skip(1) =~= views(parts@).subrange(1, parts.len() as int));
    let model = join_texts(&rest, " ");
    if parts.len() == 1 {
        proof {
            reveal_strlit("");
        }
        assert(views(rest@).len() == 0);
    }
    (parts[0].clone(), model)
}

/// Whether `pat` occurs in `s` at position `i`.
pub open spec fn occurs_at(s: Seq<char>, pat: Seq<char>, i: int) -> bool {
    0 <= i && i + pat.len() <= s.len() && s.subrange(i, i + pat.len()) == pat
}

/// The first position from `from` on where `pat` occurs in `s`.
pub open spec fn first_from(s: Seq<char>, pat: Seq<char>, from: int) -> Option<int>
    decreases s.len() + 1 - from,
{
    if from < 0 || from + pat.len() > s.len() {
        None
    } else if occurs_at(s, pat, from) {
        Some(from)
    } else {
        first_from(s, pat, from + 1)
    }
}

/// Tells whether `pat` occurs in `s` at position `i`.
fn matches_at(s: &str, n: usize, pat: &str, m: usize, i: usize) -> (r: bool)
    requires
        n == s@.len(),
        m == pat@.len(),
        i + m <= n,
    ensures
        r == occurs_at(s@, pat@, i as int),
{
    let mut k: usize = 0;
    while k < m
        invariant
            n == s@.len(),
            m == pat@.len(),
            i + m <= n,
            k <= m,
            forall|j: int| 0 <= j < k ==> s@[i + j] == pat@[j],
        decreases m - k,
    {
        if s.get_char(i + k) != pat.get_char(k) {
            assert(s@.subrange(i as int, i + m)[k as int] != pat@[k as int]);
            return false;
        }
        k = k + 1;
    }
    assert(s@.subrange(i as int, i + m) =~= pat@);
    true
}

/// Finds the first position from `from` on where `pat` occurs in `s`.
fn find_from(s: &str, n: usize, pat: &str, m: usize, from: usize) -> (r: Option<usize>)
    requires
        n == s@.len(),
        m == pat@.len(),
        m > 0,
    ensures
        r matches Some(i) ==> first_from(s@, pat@, from as int) == Some(i as int),
        r is None ==> first_from(s@, pat@, from as int) is None,
{
    if m > n || from > n - m {
        return None;
    }
    let mut i: usize = from;
    while i <= n - m
        invariant
            n == s@.len(),
            m == pat@.len(),
            0 < m <= n,
            from <= i,
            i <= n - m + 1,
            first_from(s@, pat@, from as int) == first_from(s@, pat@, i as int),
        decreases n - i,
    {
        if matches_at(s, n, pat, m, i) {
            return Some(i);
        }
        i = i + 1;
    }
    None
}

/// The film stock recorded in a comment: the text after the first
/// `"Shot on "`, up to the `" | "` that ends its fragment, or the end; none
/// without such a fragment.
pub open spec fn film_stock_in(comment: Seq<char>) -> Option<Seq<char>> {
    let pat = "Shot on "@;
    match first_from(comment, pat, 0) {
        None => None,
        Some(i) => {
            let start = i + pat.len();
            match first_from(comment, " | "@, start) {
                None => Some(comment.subrange(start, comment.len() as int)),
                Some(j) => Some(comment.subrange(start, j)),
            }
        },
    }
}

/// Reads the film stock back from a comment written by this library.
pub fn film_stock_from_comment(comment: &str) -> (r: Option<String>)
    ensures
        r matches Some(t) ==> film_stock_in(comment@) == Some(t@),
        r is None ==> film_stock_in(comment@) is None,
{
    let pat = "Shot on ";
    let n = comment.unicode_len();
    let m = pat.unicode_len();
    proof {
        reveal_strlit("Shot on ");
        reveal_strlit(" | ");
        lemma_first_from_bounds(comment@, pat@, 0);
    }
    match find_from(comment, n, pat, m, 0) {
        None => None,
        Some(i) => {
            let start = i + m;
            let sep = " | ";
            let end = match find_from(comment, n, sep, sep.unicode_len(), start) {
                None => n,
                Some(j) => j,
            };
            proof {
                lemma_first_from_bounds(comment@, sep@, start as int);
            }
            Some(owned(comment.substring_char(start, end)))
        },
    }
}

/// A position found from `from` on lies at or after `from`, with room for
/// the pattern.
pub proof fn lemma_first_from_bounds(s: Seq<char>, pat: Seq<char>, from: int)
    ensures
        first_from(s, pat, from) matches Some(i) ==> from <= i && i + pat.len() <= s.len(),
    decreases s.len() + 1 - from,
{
    if from < 0 || from + pat.len() > s.len() {
    } else if occurs_at(s, pat, from) {
    } else {
        lemma_first_from_bounds(s, pat, from + 1);
    }
}

/// An aperture as shown: kept when it already starts with `f`, else
/// prefixed with `f/`.
pub open spec fn aperture_text(s: Seq<char>) -> Seq<char> {
    if s.len() > 0 && s[0] == 'f' {
        s
    } else {
        "f/"@ + s
    }
}

/// Writes an aperture as shown, `f/<number>`.
pub fn format_aperture(value: &str) -> (r: String)
    ensures
        r@ == aperture_text(value@),
{
    if value.unicode_len() > 0 && value.get_char(0) == 'f' {
        owned(value)
    } else {
        let mut out = owned("f/");
        out.append(value);
        out
    }
}

} // verus!
