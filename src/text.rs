//! Text helpers shared by the naming and metadata modules.

use vstd::prelude::*;

verus! {

/// The views of a sequence of owned strings.
pub open spec fn views(v: Seq<String>) -> Seq<Seq<char>> {
    v.map_values(|s: String| s@)
}

/// `parts` joined with `sep` between neighbours.
pub open spec fn join(parts: Seq<Seq<char>>, sep: Seq<char>) -> Seq<char>
    decreases parts.len(),
{
    if parts.len() == 0 {
        Seq::empty()
    } else if parts.len() == 1 {
        parts[0]
    } else {
        join(parts.drop_last(), sep) + sep + parts.last()
    }
}

/// Relies on `String::push`: the character is added at the end.
#[verifier::external_body]
pub(crate) fn push_char(s: &mut String, c: char)
    ensures
        final(s)@ == old(s)@.push(c),
{
    s.push(c)
}

/// Joins `parts` with `sep` between neighbours.
pub fn join_texts(parts: &Vec<String>, sep: &str) -> (r: String)
    ensures
        r@ == join(views(parts@), sep@),
{
    let mut out = String::new();
    let mut i: usize = 0;
    while i < parts.len()
        invariant
            i <= parts.len(),
            out@ == join(views(parts@).take(i as int), sep@),
        decreases parts.len() - i,
    {
        let ghost before = views(parts@).take(i as int);
        let ghost after = views(parts@).take(i as int + 1);
        assert(after.drop_last() =~= before);
        if i > 0 {
            out.append(sep);
        } else {
            assert(before.len() == 0);
        }
        out.append(parts[i].as_str());
        i = i + 1;
    }
    assert(views(parts@).take(parts.len() as int) =~= views(parts@));
    out
}

/// The digit characters, up to base sixteen, upper case.
pub open spec fn digit_chars() -> Seq<char> {
    seq!['0', '1', '2', '3', '4', '5', '6', '7', '8', '9', 'A', 'B', 'C', 'D', 'E', 'F']
}

/// `n` written in `base`, zero-padded on the left to at least `width` digits.
pub open spec fn radix_digits(n: nat, base: nat, width: nat) -> Seq<char>
    decreases n, width,
{
    if base < 2 || base > 16 {
        Seq::empty()
    } else if n < base && width <= 1 {
        seq![digit_chars()[n as int]]
    } else {
        proof {
            assert(n >= base ==> n / base < n) by (nonlinear_arith)
                requires base >= 2;
            assert(n < base ==> n / base == 0) by (nonlinear_arith)
                requires base >= 2;
        }
        radix_digits(n / base, base, if width > 0 { (width - 1) as nat } else { 0 }).push(
            digit_chars()[(n % base) as int],
        )
    }
}

/// Padded digits are at least as many as the width asked for.
pub proof fn lemma_radix_digits_len(n: nat, base: nat, width: nat)
    requires
        2 <= base <= 16,
    ensures
        radix_digits(n, base, width).len() >= width,
        radix_digits(n, base, width).len() >= 1,
    decreases n, width,
{
    if n < base && width <= 1 {
    } else {
        assert(n >= base ==> n / base < n) by (nonlinear_arith)
            requires base >= 2;
        assert(n < base ==> n / base == 0) by (nonlinear_arith)
            requires base >= 2;
        lemma_radix_digits_len(n / base, base, if width > 0 { (width - 1) as nat } else { 0 });
    }
}

/// The digit character for `d`.
pub fn digit_char(d: u64) -> (c: char)
    requires
        d < 16,
    ensures
        c == digit_chars()[d as int],
{
    match d {
        0 => '0',
        1 => '1',
        2 => '2',
        3 => '3',
        4 => '4',
        5 => '5',
        6 => '6',
        7 => '7',
        8 => '8',
        9 => '9',
        10 => 'A',
        11 => 'B',
        12 => 'C',
        13 => 'D',
        14 => 'E',
        _ => 'F',
    }
}

/// Writes `n` in `base`, zero-padded on the left to at least `width` digits.
pub fn radix_text(n: u64, base: u64, width: usize) -> (r: String)
    requires
        2 <= base <= 16,
    ensures
        r@ == radix_digits(n as nat, base as nat, width as nat),
    decreases n, width,
{
    if n < base && width <= 1 {
        let mut s = String::new();
        push_char(&mut s, digit_char(n));
        s
    } else {
        proof {
            assert(n >= base ==> n / base < n) by (nonlinear_arith)
                requires base >= 2;
            assert(n < base ==> n / base == 0) by (nonlinear_arith)
                requires base >= 2;
        }
        let next_width: usize = if width > 0 { width - 1 } else { 0 };
        let mut s = radix_text(n / base, base, next_width);
        push_char(&mut s, digit_char(n % base));
        s
    }
}

/// `a` and `b` joined as path components with `/` between them.
pub open spec fn path_join(a: Seq<char>, b: Seq<char>) -> Seq<char> {
    if a.len() == 0 {
        b
    } else if a.last() == '/' {
        a + b
    } else {
        a + seq!['/'] + b
    }
}

/// Joins two path components with `/` between them.
pub fn join_path(a: &str, b: &str) -> (r: String)
    ensures
        r@ == path_join(a@, b@),
{
    let n = a.unicode_len();
    let mut out = String::from_str(a);
    if n > 0 && a.get_char(n - 1) != '/' {
        push_char(&mut out, '/');
    }
    out.append(b);
    out
}

/// The same text as an owned string.
pub fn owned(s: &str) -> (r: String)
    ensures
        r@ == s@,
{
    String::from_str(s)
}

} // verus!
