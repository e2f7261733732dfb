//! Verified text utilities: comparison, scanning and the decimal parsers
//! that the command vocabulary is built on.
//!
//! Volume values are parsed into thousandths (a signed decimal such as
//! `0.25` becomes `250`); durations into milliseconds.  Values beyond
//! `10^15` in magnitude are rejected as malformed rather than rounded.

use vstd::prelude::*;
use vstd::string::StrSliceExecFns;

verus! {

/// The magnitude bound beyond which numeric tokens are rejected.
pub open spec fn parse_bound() -> int {
    1000000000000000
}

pub open spec fn is_digit_char(c: char) -> bool {
    48 <= c as u32 <= 57
}

pub open spec fn digit_val(c: char) -> nat
    recommends
        is_digit_char(c),
{
    (c as u32 - 48) as nat
}

pub open spec fn all_digits(s: Seq<char>) -> bool {
    forall|i: int| 0 <= i < s.len() ==> is_digit_char(#[trigger] s[i])
}

/// The value of a digit string, most significant digit first.
pub open spec fn digits_val(s: Seq<char>) -> nat
    decreases s.len(),
{
    if s.len() == 0 {
        0
    } else {
        digits_val(s.drop_last()) * 10 + digit_val(s.last())
    }
}

/// The thousandths contributed by a fraction written after the decimal
/// point: the first three fractional digits, scaled; further digits are cut
/// off.
pub open spec fn frac_milli(f: Seq<char>) -> nat {
    if f.len() == 0 {
        0
    } else if f.len() == 1 {
        digits_val(f) * 100
    } else if f.len() == 2 {
        digits_val(f) * 10
    } else {
        digits_val(f.subrange(0, 3))
    }
}

/// The first index of `c` in `s`, if any.
pub open spec fn first_index_of(s: Seq<char>, c: char) -> Option<int>
    decreases s.len(),
{
    if s.len() == 0 {
        None
    } else if s[0] == c {
        Some(0)
    } else {
        match first_index_of(s.subrange(1, s.len() as int), c) {
            Some(i) => Some(i + 1),
            None => None,
        }
    }
}

/// What `first_index_of` returns: the first position of `c`, or `None`
/// when `c` does not occur.
pub proof fn lemma_first_index_of(s: Seq<char>, c: char)
    ensures
        match first_index_of(s, c) {
            Some(k) => 0 <= k < s.len() && s[k] == c && (forall|j: int| 0 <= j < k ==> s[j] != c),
            None => forall|j: int| 0 <= j < s.len() ==> s[j] != c,
        },
    decreases s.len(),
{
    if s.len() == 0 {
    } else if s[0] == c {
    } else {
        let t = s.subrange(1, s.len() as int);
        lemma_first_index_of(t, c);
        assert(forall|j: int| 1 <= j < s.len() ==> s[j] == t[j - 1]);
        match first_index_of(t, c) {
            Some(k1) => {
                assert(t[k1] == c);
                assert(forall|j: int| 0 <= j < k1 + 1 ==> s[j] != c);
            },
            None => {},
        }
    }
}

/// The value, in thousandths, of an unsigned decimal such as `12`, `0.25`,
/// `.5` or `7.`; `None` when the text is not of that shape.
pub open spec fn unsigned_milli_val(s: Seq<char>) -> Option<int> {
    match first_index_of(s, '.') {
        None => if s.len() > 0 && all_digits(s) {
            Some(digits_val(s) * 1000 as int)
        } else {
            None
        },
        Some(d) => {
            let intpart = s.subrange(0, d);
            let frac = s.subrange(d + 1, s.len() as int);
            if (intpart.len() + frac.len() > 0) && all_digits(intpart) && all_digits(frac) {
                Some(digits_val(intpart) * 1000 + frac_milli(frac) as int)
            } else {
                None
            }
        },
    }
}

/// The value, in thousandths, of a signed decimal; `None` when malformed.
pub open spec fn milli_val(s: Seq<char>) -> Option<int> {
    if s.len() > 0 && (s[0] == '-' || s[0] == '+') {
        match unsigned_milli_val(s.subrange(1, s.len() as int)) {
            Some(v) => if s[0] == '-' {
                Some(-v)
            } else {
                Some(v)
            },
            None => None,
        }
    } else {
        unsigned_milli_val(s)
    }
}

/// Whether the two strings hold the same characters.
pub fn str_eq(a: &str, b: &str) -> (r: bool)
    ensures
        r == (a@ == b@),
{
    let n = a.unicode_len();
    let m = b.unicode_len();
    if n != m {
        return false;
    }
    let mut i: usize = 0;
    while i < n
        invariant
            i <= n,
            n == a@.len(),
            n == b@.len(),
            forall|j: int| 0 <= j < i ==> a@[j] == b@[j],
        decreases n - i,
    {
        if a.get_char(i) != b.get_char(i) {
            return false;
        }
        i = i + 1;
    }
    proof {
        assert(a@ =~= b@);
    }
    true
}

/// Whether `p` is an initial run of `s`.
pub open spec fn is_prefix(p: Seq<char>, s: Seq<char>) -> bool {
    p.len() <= s.len() && (forall|j: int| 0 <= j < p.len() ==> s[j] == p[j])
}

/// Whether `s` begins with the characters of `p`.
pub fn str_starts_with(s: &str, p: &str) -> (r: bool)
    ensures
        r == is_prefix(p@, s@),
{
    let n = s.unicode_len();
    let m = p.unicode_len();
    if m > n {
        return false;
    }
    let mut i: usize = 0;
    while i < m
        invariant
            i <= m,
            m <= n,
            n == s@.len(),
            m == p@.len(),
            forall|j: int| 0 <= j < i ==> s@[j] == p@[j],
        decreases m - i,
    {
        if s.get_char(i) != p.get_char(i) {
            return false;
        }
        i = i + 1;
    }
    true
}

/// The first position of `c` in `s`, scanning from the front.
pub fn find_char(s: &str, c: char) -> (r: Option<usize>)
    ensures
        match r {
            Some(i) => first_index_of(s@, c) == Some(i as int),
            None => first_index_of(s@, c) is None,
        },
        r matches Some(i) ==> i < s@.len() && s@[i as int] == c && (forall|j: int|
            0 <= j < i ==> s@[j] != c),
        r is None ==> forall|j: int| 0 <= j < s@.len() ==> s@[j] != c,
{
    let n = s.unicode_len();
    let mut i: usize = 0;
    while i < n
        invariant
            i <= n,
            n == s@.len(),
            forall|j: int| 0 <= j < i ==> s@[j] != c,
        decreases n - i,
    {
        if s.get_char(i) == c {
            proof {
                lemma_first_index_of(s@, c);
                assert(s@[i as int] == c);
            }
            return Some(i);
        }
        i = i + 1;
    }
    proof {
        lemma_first_index_of(s@, c);
    }
    None
}

/// The first position of `c` in `s` at or after `from`.
pub fn find_char_from(s: &str, c: char, from: usize) -> (r: Option<usize>)
    requires
        from <= s@.len(),
    ensures
        r matches Some(i) ==> from <= i < s@.len() && s@[i as int] == c && (forall|j: int|
            from <= j < i ==> s@[j] != c),
        r is None ==> forall|j: int| from <= j < s@.len() ==> s@[j] != c,
{
    let n = s.unicode_len();
    let mut i: usize = from;
    while i < n
        invariant
            from <= i <= n,
            n == s@.len(),
            forall|j: int| from <= j < i ==> s@[j] != c,
        decreases n - i,
    {
        if s.get_char(i) == c {
            return Some(i);
        }
        i = i + 1;
    }
    None
}

/// The value of the digit run `s[from..to]`, capped at `10^18`: the exact
/// value when it stays below the cap, the cap itself once it reaches or
/// passes it.
pub(crate) fn parse_digits_capped(s: &str, from: usize, to: usize) -> (r: u64)
    requires
        from <= to <= s@.len(),
        forall|j: int| from <= j < to ==> is_digit_char(#[trigger] s@[j]),
    ensures
        digits_val(s@.subrange(from as int, to as int)) < 1000000000000000000 ==> r == digits_val(
            s@.subrange(from as int, to as int),
        ),
        digits_val(s@.subrange(from as int, to as int)) >= 1000000000000000000 ==> r
            == 1000000000000000000,
{
    let cap: u64 = 1000000000000000000;
    let mut acc: u64 = 0;
    let mut i: usize = from;
    while i < to
        invariant
            from <= i <= to <= s@.len(),
            forall|j: int| from <= j < to ==> is_digit_char(#[trigger] s@[j]),
            acc <= cap,
            cap == 1000000000000000000,
            digits_val(s@.subrange(from as int, i as int)) < cap ==> acc == digits_val(
                s@.subrange(from as int, i as int),
            ),
            digits_val(s@.subrange(from as int, i as int)) >= cap ==> acc == cap,
        decreases to - i,
    {
        let c = s.get_char(i);
        let d: u64 = (c as u32 as u64) - 48;
        proof {
            assert(is_digit_char(s@[i as int]));
            assert(d == digit_val(s@[i as int]));
            assert(s@.subrange(from as int, i as int + 1).drop_last() =~= s@.subrange(
                from as int,
                i as int,
            ));
            assert(s@.subrange(from as int, i as int + 1).last() == s@[i as int]);
        }
        let wide: u128 = (acc as u128) * 10 + (d as u128);
        proof {
            let prev = digits_val(s@.subrange(from as int, i as int));
            let now = digits_val(s@.subrange(from as int, i as int + 1));
            assert(now == prev * 10 + digit_val(s@[i as int]));
            if prev >= cap {
                assert(now >= prev) by (nonlinear_arith)
                    requires
                        now == prev * 10 + digit_val(s@[i as int]),
                        prev >= 0,
                ;
            }
        }
        if wide >= cap as u128 {
            acc = cap;
        } else {
            acc = wide as u64;
        }
        i = i + 1;
    }
    acc
}

/// Parses a signed decimal into thousandths: `0.25` becomes `250`, `-2`
/// becomes `-2000`.  Malformed text, or a magnitude beyond `10^15`, yields
/// `None`.
pub fn parse_milli(s: &str) -> (r: Option<i64>)
    ensures
        match milli_val(s@) {
            Some(m) => if -parse_bound() <= m <= parse_bound() {
                r == Some(m as i64)
            } else {
                r is None
            },
            None => r is None,
        },
{
    let n = s.unicode_len();
    let mut start: usize = 0;
    let mut negative: bool = false;
    if n > 0 {
        let c0 = s.get_char(0);
        if c0 == '-' {
            negative = true;
            start = 1;
        } else if c0 == '+' {
            start = 1;
        }
    }
    let r = parse_unsigned_milli(s, start);
    proof {
        if start == 0 {
            assert(s@.subrange(0, s@.len() as int) =~= s@);
        }
    }
    match r {
        Some(v) => {
            if negative {
                Some(-(v as i64))
            } else {
                Some(v as i64)
            }
        },
        None => None,
    }
}

/// Parses the unsigned decimal in `s[from..]` into thousandths, rejecting
/// malformed text and values beyond `10^15`.
fn parse_unsigned_milli(s: &str, from: usize) -> (r: Option<u64>)
    requires
        from <= s@.len(),
    ensures
        match unsigned_milli_val(s@.subrange(from as int, s@.len() as int)) {
            Some(m) => if m <= parse_bound() {
                r == Some(m as u64)
            } else {
                r is None
            },
            None => r is None,
        },
{
    let n = s.unicode_len();
    let ghost body = s@.subrange(from as int, s@.len() as int);
    if from == n {
        proof {
            assert(body.len() == 0);
            assert(first_index_of(body, '.') is None);
        }
        return None;
    }

    // Find the decimal point, and check that everything else is a digit.
    let mut dot: Option<usize> = None;
    let mut i: usize = from;
    while i < n
        invariant
            from <= i <= n,
            n == s@.len(),
            body == s@.subrange(from as int, s@.len() as int),
            match dot {
                Some(d) => from <= d < i && s@[d as int] == '.' && (forall|j: int|
                    from <= j < d ==> s@[j] != '.') && (forall|j: int|
                    from <= j < i && j != d ==> is_digit_char(#[trigger] s@[j])),
                None => forall|j: int|
                    from <= j < i ==> s@[j] != '.' && is_digit_char(#[trigger] s@[j]),
            },
        decreases n - i,
    {
        let c = s.get_char(i);
        if c == '.' {
            match dot {
                Some(d0) => {
                    proof {
                        lemma_unsigned_milli_shape(s@, from as int, d0 as int, i as int);
                    }
                    return None;
                },
                None => {
                    dot = Some(i);
                },
            }
        } else {
            let u = c as u32;
            if u < 48 || u > 57 {
                proof {
                    lemma_unsigned_milli_not_digit(s@, from as int, i as int, dot);
                }
                return None;
            }
        }
        i = i + 1;
    }

    match dot {
        None => {
            proof {
                lemma_first_index_of(body, '.');
                assert(forall|j: int|
                    0 <= j < body.len() ==> body[j] == s@[from + j] && s@[from + j] != '.');
                match first_index_of(body, '.') {
                    Some(k) => {
                        assert(body[k] == '.');
                        assert(false);
                    },
                    None => {},
                }
                assert(first_index_of(body, '.') is None);
                assert(all_digits(body));
                assert(body.len() > 0);
            }
            let v = parse_digits_capped(s, from, n);
            proof {
                assert(body =~= s@.subrange(from as int, n as int));
            }
            if v > 1000000000000 {
                proof {
                    assert(digits_val(body) * 1000 > parse_bound()) by (nonlinear_arith)
                        requires
                            digits_val(body) > 1000000000000,
                            parse_bound() == 1000000000000000,
                    ;
                }
                None
            } else {
                Some(v * 1000)
            }
        },
        Some(d) => {
            proof {
                lemma_unsigned_milli_split(s@, from as int, d as int, n as int);
            }
            if n - from == 1 {
                // only the dot itself
                return None;
            }
            let intpart = parse_digits_capped(s, from, d);
            let fr = parse_frac_milli(s, d + 1, n);
            proof {
                assert(s@.subrange(from as int, d as int) =~= body.subrange(
                    0,
                    d as int - from as int,
                ));
            }
            if intpart > 1000000000000 {
                proof {
                    let iv = digits_val(s@.subrange(from as int, d as int));
                    assert(iv * 1000 + frac_milli(s@.subrange(d as int + 1, n as int))
                        > parse_bound()) by (nonlinear_arith)
                        requires
                            iv > 1000000000000,
                            frac_milli(s@.subrange(d as int + 1, n as int)) >= 0,
                            parse_bound() == 1000000000000000,
                    ;
                }
                None
            } else {
                let m = intpart * 1000 + fr;
                if m > 1000000000000000 {
                    None
                } else {
                    Some(m)
                }
            }
        },
    }
}

/// The thousandths written by the fraction digits `s[from..to]`.
fn parse_frac_milli(s: &str, from: usize, to: usize) -> (r: u64)
    requires
        from <= to <= s@.len(),
        forall|j: int| from <= j < to ==> is_digit_char(#[trigger] s@[j]),
    ensures
        r == frac_milli(s@.subrange(from as int, to as int)),
        r <= 999,
{
    let ghost f = s@.subrange(from as int, to as int);
    if from == to {
        proof {
            assert(f.len() == 0);
        }
        0
    } else if to - from == 1 {
        let v = parse_digits_capped(s, from, to);
        proof {
            assert(f.len() == 1);
            assert(f.last() == s@[from as int]);
            assert(is_digit_char(f.last()));
            assert(f.drop_last() =~= Seq::<char>::empty());
            assert(digits_val(Seq::<char>::empty()) == 0);
            assert(digits_val(f) == digit_val(f.last()));
            assert(digits_val(f) <= 9);
        }
        v * 100
    } else if to - from == 2 {
        let v = parse_digits_capped(s, from, to);
        proof {
            assert(f.len() == 2);
            assert(f.last() == s@[from as int + 1]);
            assert(f.drop_last().last() == s@[from as int]);
            assert(is_digit_char(f.last()));
            assert(is_digit_char(f.drop_last().last()));
            assert(f.drop_last().drop_last() =~= Seq::<char>::empty());
            assert(digits_val(Seq::<char>::empty()) == 0);
            assert(digits_val(f.drop_last()) == digit_val(f.drop_last().last()));
            assert(digits_val(f.drop_last()) <= 9);
            assert(digits_val(f) <= 99);
        }
        v * 10
    } else {
        let v = parse_digits_capped(s, from, from + 3);
        proof {
            let g = s@.subrange(from as int, from as int + 3);
            assert(g =~= f.subrange(0, 3));
            assert(g.last() == s@[from as int + 2]);
            assert(g.drop_last().last() == s@[from as int + 1]);
            assert(g.drop_last().drop_last().last() == s@[from as int]);
            assert(is_digit_char(g.last()));
            assert(is_digit_char(g.drop_last().last()));
            assert(is_digit_char(g.drop_last().drop_last().last()));
            assert(g.drop_last().drop_last().drop_last() =~= Seq::<char>::empty());
            assert(digits_val(Seq::<char>::empty()) == 0);
            assert(digits_val(g.drop_last().drop_last()) == digit_val(g.drop_last().drop_last().last()));
            assert(digits_val(g.drop_last().drop_last()) <= 9);
            assert(digits_val(g.drop_last()) <= 99);
            assert(digits_val(g) <= 999);
        }
        v
    }
}

proof fn lemma_unsigned_milli_shape(s: Seq<char>, from: int, d1: int, d2: int)
    requires
        0 <= from <= d1 < d2 < s.len(),
        s[d1] == '.',
        s[d2] == '.',
        forall|j: int| from <= j < d1 ==> s[j] != '.',
    ensures
        unsigned_milli_val(s.subrange(from, s.len() as int)) is None,
{
    let body = s.subrange(from, s.len() as int);
    lemma_first_index_of(body, '.');
    assert(body[d1 - from] == '.');
    match first_index_of(body, '.') {
        Some(k) => {
            assert(forall|j: int| 0 <= j < d1 - from ==> body[j] == s[from + j] && s[from + j] != '.');
            assert(k == d1 - from);
            let frac = body.subrange(k + 1, body.len() as int);
            assert(frac[d2 - from - (k + 1)] == s[d2]);
            assert(!is_digit_char('.'));
            assert(!all_digits(frac));
        },
        None => {
            assert(false);
        },
    }
}

proof fn lemma_unsigned_milli_not_digit(s: Seq<char>, from: int, i: int, dot: Option<usize>)
    requires
        0 <= from <= i < s.len(),
        !is_digit_char(s[i]),
        s[i] != '.',
        match dot {
            Some(d) => from <= d < i && s[d as int] == '.' && (forall|j: int|
                from <= j < d ==> s[j] != '.'),
            None => forall|j: int| from <= j < i ==> s[j] != '.',
        },
    ensures
        unsigned_milli_val(s.subrange(from, s.len() as int)) is None,
{
    let body = s.subrange(from, s.len() as int);
    lemma_first_index_of(body, '.');
    match first_index_of(body, '.') {
        Some(k) => {
            let intpart = body.subrange(0, k);
            let frac = body.subrange(k + 1, body.len() as int);
            match dot {
                Some(d) => {
                    assert(forall|j: int|
                        0 <= j < d - from ==> body[j] == s[from + j] && s[from + j] != '.');
                    assert(body[d - from] == '.');
                    assert(k == d - from);
                    assert(frac[i - from - (k + 1)] == s[i]);
                    assert(!all_digits(frac));
                },
                None => {
                    // the dot comes at or after i, so i lands in the integer part
                    assert(body[i - from] == s[i]);
                    if k < i - from {
                        assert(body[k] == s[from + k]);
                        assert(false);
                    }
                    assert(intpart[i - from] == s[i]);
                    assert(!all_digits(intpart));
                },
            }
        },
        None => {
            assert(body[i - from] == s[i]);
            assert(!all_digits(body));
        },
    }
}

proof fn lemma_unsigned_milli_split(s: Seq<char>, from: int, d: int, n: int)
    requires
        0 <= from <= d < n,
        n == s.len(),
        s[d] == '.',
        forall|j: int| from <= j < d ==> s[j] != '.',
        forall|j: int| from <= j < n && j != d ==> is_digit_char(#[trigger] s[j]),
    ensures
        ({
            let body = s.subrange(from, n);
            let intpart = s.subrange(from, d);
            let frac = s.subrange(d + 1, n);
            &&& first_index_of(body, '.') == Some(d - from)
            &&& all_digits(intpart)
            &&& all_digits(frac)
            &&& body.subrange(0, d - from) == intpart
            &&& body.subrange(d - from + 1, body.len() as int) == frac
            &&& unsigned_milli_val(body) == (if intpart.len() + frac.len() > 0 {
                Some(digits_val(intpart) * 1000 + frac_milli(frac) as int)
            } else {
                Option::<int>::None
            })
        }),
{
    let body = s.subrange(from, n);
    let intpart = s.subrange(from, d);
    let frac = s.subrange(d + 1, n);
    lemma_first_index_of(body, '.');
    assert(body[d - from] == '.');
    assert(forall|j: int| 0 <= j < d - from ==> body[j] == s[from + j] && s[from + j] != '.');
    match first_index_of(body, '.') {
        Some(k) => {
            assert(k == d - from);
        },
        None => {
            assert(false);
        },
    }
    assert(body.subrange(0, d - from) =~= intpart);
    assert(body.subrange(d - from + 1, body.len() as int) =~= frac);
    assert(forall|j: int| 0 <= j < intpart.len() ==> intpart[j] == s[from + j]);
    assert(forall|j: int| 0 <= j < frac.len() ==> frac[j] == s[d + 1 + j]);
}

} // verus!
