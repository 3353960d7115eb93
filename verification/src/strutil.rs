//! Small verified string helpers: decimal rendering of integers, string
//! equality, ASCII-case-insensitive search, and slash handling for URLs.
use vstd::prelude::*;
use vstd::string::StrSliceExecFns;
use vstd::string::StringExecFns;

verus! {

/// One decimal digit as text.
pub open spec fn spec_digit(d: int) -> Seq<char> {
    if d == 0 {
        "0"@
    } else if d == 1 {
        "1"@
    } else if d == 2 {
        "2"@
    } else if d == 3 {
        "3"@
    } else if d == 4 {
        "4"@
    } else if d == 5 {
        "5"@
    } else if d == 6 {
        "6"@
    } else if d == 7 {
        "7"@
    } else if d == 8 {
        "8"@
    } else {
        "9"@
    }
}

/// Decimal text of a natural number, most significant digit first.
pub open spec fn spec_nat_text(n: nat) -> Seq<char>
    decreases n,
{
    if n < 10 {
        spec_digit(n as int)
    } else {
        spec_nat_text(n / 10) + spec_digit((n % 10) as int)
    }
}

/// Decimal text of an integer: a minus sign before the magnitude when negative.
pub open spec fn spec_int_text(i: int) -> Seq<char> {
    if i < 0 {
        "-"@ + spec_nat_text((-i) as nat)
    } else {
        spec_nat_text(i as nat)
    }
}

fn digit_str(d: u64) -> (r: &'static str)
    requires
        d < 10,
    ensures
        r@ == spec_digit(d as int),
{
    match d {
        0 => "0",
        1 => "1",
        2 => "2",
        3 => "3",
        4 => "4",
        5 => "5",
        6 => "6",
        7 => "7",
        8 => "8",
        _ => "9",
    }
}

/// Renders a `u64` in decimal.
pub fn u64_text(n: u64) -> (r: String)
    ensures
        r@ == spec_nat_text(n as nat),
    decreases n,
{
    if n < 10 {
        let mut s = String::new();
        s.append(digit_str(n));
        s
    } else {
        let mut s = u64_text(n / 10);
        s.append(digit_str(n % 10));
        s
    }
}

/// Renders an `i64` in decimal.
pub fn i64_text(i: i64) -> (r: String)
    ensures
        r@ == spec_int_text(i as int),
{
    if i >= 0 {
        u64_text(i as u64)
    } else {
        let mag: u64 = (-(i as i128)) as u64;
        let mut s = String::from_str("-");
        let digits = u64_text(mag);
        s.append(digits.as_str());
        s
    }
}

/// Character-for-character string equality.
pub fn str_eq(a: &str, b: &str) -> (r: bool)
    ensures
        r == (a@ == b@),
{
    let an = a.unicode_len();
    let bn = b.unicode_len();
    if an != bn {
        return false;
    }
    let mut i: usize = 0;
    while i < an
        invariant
            i <= an,
            an == a@.len(),
            an == b@.len(),
            forall|j: int| 0 <= j < i ==> a@[j] == b@[j],
        decreases an - i,
    {
        if a.get_char(i) != b.get_char(i) {
            return false;
        }
        i += 1;
    }
    proof {
        assert(a@ =~= b@);
    }
    true
}

/// ASCII lowercase of one character; anything but `A`..`Z` is unchanged.
pub open spec fn spec_lower_char(c: char) -> char {
    if c == 'A' {
        'a'
    } else if c == 'B' {
        'b'
    } else if c == 'C' {
        'c'
    } else if c == 'D' {
        'd'
    } else if c == 'E' {
        'e'
    } else if c == 'F' {
        'f'
    } else if c == 'G' {
        'g'
    } else if c == 'H' {
        'h'
    } else if c == 'I' {
        'i'
    } else if c == 'J' {
        'j'
    } else if c == 'K' {
        'k'
    } else if c == 'L' {
        'l'
    } else if c == 'M' {
        'm'
    } else if c == 'N' {
        'n'
    } else if c == 'O' {
        'o'
    } else if c == 'P' {
        'p'
    } else if c == 'Q' {
        'q'
    } else if c == 'R' {
        'r'
    } else if c == 'S' {
        's'
    } else if c == 'T' {
        't'
    } else if c == 'U' {
        'u'
    } else if c == 'V' {
        'v'
    } else if c == 'W' {
        'w'
    } else if c == 'X' {
        'x'
    } else if c == 'Y' {
        'y'
    } else if c == 'Z' {
        'z'
    } else {
        c
    }
}

/// ASCII lowercase of a whole character sequence.
pub open spec fn spec_lower(s: Seq<char>) -> Seq<char> {
    s.map_values(|c: char| spec_lower_char(c))
}

fn lower_char(c: char) -> (r: char)
    ensures
        r == spec_lower_char(c),
{
    match c {
        'A' => 'a',
        'B' => 'b',
        'C' => 'c',
        'D' => 'd',
        'E' => 'e',
        'F' => 'f',
        'G' => 'g',
        'H' => 'h',
        'I' => 'i',
        'J' => 'j',
        'K' => 'k',
        'L' => 'l',
        'M' => 'm',
        'N' => 'n',
        'O' => 'o',
        'P' => 'p',
        'Q' => 'q',
        'R' => 'r',
        'S' => 's',
        'T' => 't',
        'U' => 'u',
        'V' => 'v',
        'W' => 'w',
        'X' => 'x',
        'Y' => 'y',
        'Z' => 'z',
        _ => c,
    }
}

/// `needle` occurs as a contiguous run inside `hay`.
pub open spec fn spec_contains(hay: Seq<char>, needle: Seq<char>) -> bool {
    exists|j: int|
        0 <= j && j + needle.len() <= hay.len() && #[trigger] hay.subrange(
            j,
            j + needle.len() as int,
        ) == needle
}

/// Whether `needle` occurs inside `hay` when both are ASCII-lowercased.
pub fn contains_ci(hay: &str, needle: &str) -> (r: bool)
    ensures
        r == spec_contains(spec_lower(hay@), spec_lower(needle@)),
{
    let hn = hay.unicode_len();
    let nn = needle.unicode_len();
    if nn > hn {
        return false;
    }
    let mut j: usize = 0;
    while j <= hn - nn
        invariant
            nn <= hn,
            hn == hay@.len(),
            nn == needle@.len(),
            j <= hn - nn + 1,
            forall|j0: int|
                0 <= j0 < j ==> #[trigger] spec_lower(hay@).subrange(j0, j0 + nn as int)
                    != spec_lower(needle@),
        decreases hn + 1 - nn - j,
    {
        let mut k: usize = 0;
        let mut matches_here = true;
        while matches_here && k < nn
            invariant
                j + nn <= hn,
                hn == hay@.len(),
                nn == needle@.len(),
                k <= nn,
                matches_here ==> forall|k0: int|
                    0 <= k0 < k ==> spec_lower_char(hay@[j + k0]) == spec_lower_char(needle@[k0]),
                !matches_here ==> k < nn && spec_lower_char(hay@[j + k as int]) != spec_lower_char(
                    needle@[k as int],
                ),
            decreases (if matches_here { 1int } else { 0int }), nn - k,
        {
            if lower_char(hay.get_char(j + k)) != lower_char(needle.get_char(k)) {
                matches_here = false;
            } else {
                k += 1;
            }
        }
        proof {
            let lh = spec_lower(hay@);
            let ln = spec_lower(needle@);
            let sub = lh.subrange(j as int, j + nn as int);
            assert forall|k0: int| 0 <= k0 < nn implies #[trigger] sub[k0] == spec_lower_char(
                hay@[j + k0],
            ) by {
                assert(lh[j + k0] == spec_lower_char(hay@[j + k0]));
            }
        }
        if matches_here {
            proof {
                assert(spec_lower(hay@).subrange(j as int, j + nn as int) =~= spec_lower(needle@));
            }
            return true;
        }
        proof {
            let lh = spec_lower(hay@);
            let ln = spec_lower(needle@);
            assert(lh.subrange(j as int, j + nn as int)[k as int] == spec_lower_char(
                hay@[j + k as int],
            ));
            assert(ln[k as int] == spec_lower_char(needle@[k as int]));
            assert(lh.subrange(j as int, j + nn as int) != ln);
        }
        j += 1;
    }
    proof {
        assert forall|j0: int|
            0 <= j0 && j0 + needle@.len() <= hay@.len() implies #[trigger] spec_lower(
            hay@,
        ).subrange(j0, j0 + needle@.len() as int) != spec_lower(needle@) by {
            assert(j0 < j);
        }
    }
    false
}

/// One left-to-right pass that replaces each `//` pair by a single `/`,
/// resuming after the replacement.
pub open spec fn spec_collapse(s: Seq<char>) -> Seq<char>
    decreases s.len(),
{
    if s.len() >= 2 && s[0] == '/' && s[1] == '/' {
        "/"@ + spec_collapse(s.skip(2))
    } else if s.len() >= 1 {
        s.take(1) + spec_collapse(s.skip(1))
    } else {
        Seq::<char>::empty()
    }
}

/// Copy of `s` with each doubled slash replaced by a single one.
pub fn collapse_double_slashes(s: &str) -> (r: String)
    ensures
        r@ == spec_collapse(s@),
{
    let n = s.unicode_len();
    let mut out = String::new();
    let mut i: usize = 0;
    proof {
        assert(s@.skip(0) =~= s@);
        assert(out@ + spec_collapse(s@) =~= spec_collapse(s@));
    }
    while i < n
        invariant
            i <= n,
            n == s@.len(),
            out@ + spec_collapse(s@.skip(i as int)) == spec_collapse(s@),
        decreases n - i,
    {
        proof {
            assert(s@.skip(i as int)[0] == s@[i as int]);
            if i + 1 < n {
                assert(s@.skip(i as int)[1] == s@[i as int + 1]);
            }
        }
        if i + 1 < n && s.get_char(i) == '/' && s.get_char(i + 1) == '/' {
            out.append("/");
            proof {
                assert(s@.skip(i as int).skip(2) =~= s@.skip(i as int + 2));
                assert(out@ + spec_collapse(s@.skip(i as int + 2)) =~= spec_collapse(s@));
            }
            i += 2;
        } else {
            let piece = s.substring_char(i, i + 1);
            out.append(piece);
            proof {
                assert(s@.skip(i as int).take(1) =~= s@.subrange(i as int, i as int + 1));
                assert(s@.skip(i as int).skip(1) =~= s@.skip(i as int + 1));
                assert(out@ + spec_collapse(s@.skip(i as int + 1)) =~= spec_collapse(s@));
            }
            i += 1;
        }
    }
    proof {
        assert(s@.skip(n as int) =~= Seq::<char>::empty());
        assert(out@ =~= out@ + Seq::<char>::empty());
    }
    out
}

/// Replacing doubled slashes keeps the first character and leaves the
/// result non-empty.
pub proof fn lemma_collapse_head(s: Seq<char>)
    requires
        s.len() > 0,
    ensures
        spec_collapse(s).len() > 0,
        spec_collapse(s)[0] == s[0],
    decreases s.len(),
{
    reveal_strlit("/");
}

/// A sequence without any doubled slash passes through unchanged.
pub proof fn lemma_no_doubles_unchanged(s: Seq<char>)
    requires
        forall|i: int| 0 <= i < s.len() - 1 ==> !(#[trigger] s[i] == '/' && s[i + 1] == '/'),
    ensures
        spec_collapse(s) == s,
    decreases s.len(),
{
    if s.len() >= 1 {
        assert(!(s.len() >= 2 && s[0] == '/' && s[1] == '/'));
        assert forall|i: int| 0 <= i < s.skip(1).len() - 1 implies !(#[trigger] s.skip(1)[i]
            == '/' && s.skip(1)[i + 1] == '/') by {
            assert(s.skip(1)[i] == s[i + 1]);
            assert(s.skip(1)[i + 1] == s[i + 2]);
        }
        lemma_no_doubles_unchanged(s.skip(1));
        assert(spec_collapse(s) =~= s.take(1) + s.skip(1));
        assert(s.take(1) + s.skip(1) =~= s);
    } else {
        assert(spec_collapse(s) =~= s);
    }
}

/// Trailing `/` characters removed.
pub open spec fn spec_trim_trailing_slashes(s: Seq<char>) -> Seq<char>
    decreases s.len(),
{
    if s.len() > 0 && s.last() == '/' {
        spec_trim_trailing_slashes(s.drop_last())
    } else {
        s
    }
}

/// Copy of `s` with trailing `/` characters removed.
pub fn trim_trailing_slashes(s: &str) -> (r: String)
    ensures
        r@ == spec_trim_trailing_slashes(s@),
{
    let n = s.unicode_len();
    let mut end: usize = n;
    proof {
        assert(s@.take(n as int) =~= s@);
    }
    while end > 0 && s.get_char(end - 1) == '/'
        invariant
            end <= n,
            n == s@.len(),
            spec_trim_trailing_slashes(s@) == spec_trim_trailing_slashes(s@.take(end as int)),
        decreases end,
    {
        proof {
            assert(s@.take(end as int).last() == s@[end - 1]);
            assert(s@.take(end as int).drop_last() =~= s@.take(end - 1));
        }
        end -= 1;
    }
    let r = s.substring_char(0, end).to_owned();
    proof {
        assert(s@.take(end as int) =~= s@.subrange(0, end as int));
    }
    r
}

} // verus!
