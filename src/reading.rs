//! Text of a telemetry file turned into a reading.
//!
//! A sensor file holds one decimal integer, possibly surrounded by ASCII
//! whitespace. Whatever cannot be read as such counts as the reading 0.
use vstd::prelude::*;

verus! {

/// ASCII whitespace: space, tab, line feed, form feed and carriage return.
pub open spec fn is_blank(c: char) -> bool {
    c == ' ' || c == '\t' || c == '\n' || c == '\x0C' || c == '\r'
}

pub open spec fn is_digit(c: char) -> bool {
    '0' <= c && c <= '9'
}

/// `s` without its leading ASCII whitespace.
pub open spec fn trim_start(s: Seq<char>) -> Seq<char>
    decreases s.len(),
{
    if s.len() > 0 && is_blank(s[0]) {
        trim_start(s.drop_first())
    } else {
        s
    }
}

/// `s` without its trailing ASCII whitespace.
pub open spec fn trim_end(s: Seq<char>) -> Seq<char>
    decreases s.len(),
{
    if s.len() > 0 && is_blank(s.last()) {
        trim_end(s.drop_last())
    } else {
        s
    }
}

/// `s` without the ASCII whitespace at either end.
pub open spec fn trim_blank(s: Seq<char>) -> Seq<char> {
    trim_end(trim_start(s))
}

pub open spec fn all_digits(d: Seq<char>) -> bool {
    forall|i: int| 0 <= i < d.len() ==> is_digit(#[trigger] d[i])
}

/// The number that the decimal digits `d` write.
pub open spec fn digits_value(d: Seq<char>) -> int
    decreases d.len(),
{
    if d.len() == 0 {
        0
    } else {
        digits_value(d.drop_last()) * 10 + (d.last() as int - '0' as int)
    }
}

/// The integer that `s` writes: an optional sign `+` or `-`, then one or
/// more decimal digits, nothing else.
pub open spec fn decimal_value(s: Seq<char>) -> Option<int> {
    if s.len() > 0 && (s[0] == '+' || s[0] == '-') {
        let d = s.drop_first();
        if d.len() > 0 && all_digits(d) {
            if s[0] == '-' {
                Some(-digits_value(d))
            } else {
                Some(digits_value(d))
            }
        } else {
            None
        }
    } else if s.len() > 0 && all_digits(s) {
        Some(digits_value(s))
    } else {
        None
    }
}

/// The `i32` that `s` writes, if it writes one in range.
pub open spec fn parsed_i32(s: Seq<char>) -> Option<i32> {
    match decimal_value(s) {
        Some(v) => if i32::MIN <= v <= i32::MAX {
            Some(v as i32)
        } else {
            None
        },
        None => None,
    }
}

/// The reading that a sensor file holding `s` gives: the integer between the
/// surrounding whitespace, or 0 where there is none.
pub open spec fn reading_value(s: Seq<char>) -> i32 {
    match parsed_i32(trim_blank(s)) {
        Some(v) => v,
        None => 0,
    }
}

/// The reading of a file whose read may have failed (`None`).
pub open spec fn reading_of(contents: Option<Seq<char>>) -> i32 {
    match contents {
        Some(s) => reading_value(s),
        None => 0,
    }
}

proof fn lemma_digits_value_nonneg(d: Seq<char>)
    requires
        all_digits(d),
    ensures
        digits_value(d) >= 0,
    decreases d.len(),
{
    if d.len() > 0 {
        assert(all_digits(d.drop_last())) by {
            assert forall|i: int| 0 <= i < d.drop_last().len() implies is_digit(
                #[trigger] d.drop_last()[i],
            ) by {
                assert(d.drop_last()[i] == d[i]);
            }
        }
        lemma_digits_value_nonneg(d.drop_last());
        assert(is_digit(d[d.len() - 1]));
    }
}

/// A prefix of a run of digits writes no larger a number than the whole run.
proof fn lemma_digits_prefix_le(d: Seq<char>, k: int)
    requires
        all_digits(d),
        0 <= k <= d.len(),
    ensures
        digits_value(d.subrange(0, k)) <= digits_value(d),
    decreases d.len(),
{
    if k < d.len() {
        let dl = d.drop_last();
        assert(all_digits(dl)) by {
            assert forall|i: int| 0 <= i < dl.len() implies is_digit(#[trigger] dl[i]) by {
                assert(dl[i] == d[i]);
            }
        }
        lemma_digits_prefix_le(dl, k);
        assert(dl.subrange(0, k) =~= d.subrange(0, k));
        lemma_digits_value_nonneg(dl);
        assert(is_digit(d[d.len() - 1]));
    } else {
        assert(d.subrange(0, k) =~= d);
    }
}

proof fn lemma_trim_start_step(s: Seq<char>, a: int)
    requires
        0 <= a < s.len(),
        is_blank(s[a]),
    ensures
        trim_start(s.subrange(a, s.len() as int)) == trim_start(s.subrange(a + 1, s.len() as int)),
{
    assert(s.subrange(a, s.len() as int).drop_first() =~= s.subrange(a + 1, s.len() as int));
}

proof fn lemma_trim_end_step(s: Seq<char>, a: int, b: int)
    requires
        0 <= a < b <= s.len(),
        is_blank(s[b - 1]),
    ensures
        trim_end(s.subrange(a, b)) == trim_end(s.subrange(a, b - 1)),
{
    assert(s.subrange(a, b).drop_last() =~= s.subrange(a, b - 1));
}

/// Bounds `[start, end)` of `v` without the ASCII whitespace at either end.
fn trimmed_bounds(v: &Vec<char>) -> (r: (usize, usize))
    ensures
        r.0 <= r.1 <= v.len(),
        v@.subrange(r.0 as int, r.1 as int) == trim_blank(v@),
{
    let n = v.len();
    let mut a: usize = 0;
    assert(v@.subrange(0, n as int) =~= v@);
    while a < n && (v[a] == ' ' || v[a] == '\t' || v[a] == '\n' || v[a] == '\x0C' || v[a]
        == '\r')
        invariant
            a <= n == v.len(),
            trim_start(v@.subrange(a as int, n as int)) == trim_start(v@),
        decreases n - a,
    {
        proof {
            lemma_trim_start_step(v@, a as int);
        }
        a = a + 1;
    }
    let mut b: usize = n;
    while b > a && (v[b - 1] == ' ' || v[b - 1] == '\t' || v[b - 1] == '\n' || v[b - 1]
        == '\x0C' || v[b - 1] == '\r')
        invariant
            a <= b <= n == v.len(),
            trim_start(v@.subrange(a as int, n as int)) == trim_start(v@),
            a == n || !is_blank(v@[a as int]),
            trim_end(v@.subrange(a as int, b as int)) == trim_blank(v@),
        decreases b - a,
    {
        proof {
            lemma_trim_end_step(v@, a as int, b as int);
        }
        b = b - 1;
    }
    (a, b)
}

/// The `i32` that `v[start..end]` writes, if any.
fn parse_i32_range(v: &Vec<char>, start: usize, end: usize) -> (r: Option<i32>)
    requires
        start <= end <= v.len(),
    ensures
        r == parsed_i32(v@.subrange(start as int, end as int)),
{
    let ghost s = v@.subrange(start as int, end as int);
    if start == end {
        return None;
    }
    let negative = v[start] == '-';
    let signed = negative || v[start] == '+';
    let first: usize = if signed {
        start + 1
    } else {
        start
    };
    let ghost d = v@.subrange(first as int, end as int);
    proof {
        if signed {
            assert(s.drop_first() =~= d);
        } else {
            assert(s =~= d);
        }
    }
    if first == end {
        return None;
    }
    // The magnitude never exceeds the largest one that an `i32` can hold.
    let limit: u64 = 2147483648;
    let mut mag: u64 = 0;
    let mut k: usize = first;
    while k < end
        invariant
            start <= first <= k <= end <= v.len(),
            d == v@.subrange(first as int, end as int),
            all_digits(v@.subrange(first as int, k as int)),
            mag == digits_value(v@.subrange(first as int, k as int)),
            mag <= limit,
            limit == 2147483648,
            s == v@.subrange(start as int, end as int),
            s.len() > 0,
            negative == (s[0] == '-'),
            signed == (s[0] == '-' || s[0] == '+'),
            signed ==> s.drop_first() == d,
            !signed ==> s == d,
            d.len() > 0,
        decreases end - k,
    {
        let c = v[k];
        let ghost p = v@.subrange(first as int, k as int);
        let ghost p1 = v@.subrange(first as int, k as int + 1);
        assert(p1.drop_last() =~= p);
        if !('0' <= c && c <= '9') {
            proof {
                assert(d[k - first] == c);
            }
            return None;
        }
        let digit: u64 = (c as u32 - '0' as u32) as u64;
        let next: u64 = mag * 10 + digit;
        proof {
            assert(all_digits(p1)) by {
                assert forall|i: int| 0 <= i < p1.len() implies is_digit(#[trigger] p1[i]) by {
                    if i < p.len() {
                        assert(p1[i] == p[i]);
                    }
                }
            }
        }
        if next > limit {
            proof {
                if all_digits(d) {
                    assert(d.subrange(0, k - first + 1) =~= p1);
                    lemma_digits_prefix_le(d, k - first + 1);
                }
            }
            return None;
        }
        mag = next;
        k = k + 1;
    }
    assert(v@.subrange(first as int, k as int) =~= d);
    if negative {
        Some((0 - mag as i64) as i32)
    } else if mag <= 2147483647 {
        Some(mag as i32)
    } else {
        None
    }
}

/// The reading that a sensor file holding `text` gives: the decimal integer
/// between surrounding ASCII whitespace, or 0 where the text is not one or
/// does not fit an `i32`.
pub fn parse_reading(text: &str) -> (r: i32)
    ensures
        r == reading_value(text@),
{
    let v = chars_of(text);
    let (a, b) = trimmed_bounds(&v);
    match parse_i32_range(&v, a, b) {
        Some(x) => x,
        None => 0,
    }
}

/// `text` without the ASCII whitespace at either end.
pub fn trim_text(text: &str) -> (r: String)
    ensures
        r@ == trim_blank(text@),
{
    let v = chars_of(text);
    let (a, b) = trimmed_bounds(&v);
    text.substring_char(a, b).to_owned()
}

/// The characters of `s`, one element each.
pub fn chars_of(s: &str) -> (r: Vec<char>)
    ensures
        r@ == s@,
{
    let mut r: Vec<char> = Vec::new();
    for c in it: s.chars()
        invariant
            r@ == it.seq().subrange(0, it.index() as int),
            it.seq() == s@,
    {
        r.push(c);
    }
    r
}

} // verus!
