//! Coordinate resolution: the first match of a geocoding answer, with each
//! coordinate read as a floating-point number and kept as JSON number text.

use vstd::prelude::*;
use crate::error::EnrichError;
use crate::text::push_char;

verus! {

pub open spec fn is_digit(c: char) -> bool {
    '0' <= c && c <= '9'
}

/// The first index at or after `i` that does not hold a digit, or the length.
pub open spec fn digits_end(s: Seq<char>, i: int) -> int
    decreases s.len() - i,
{
    if 0 <= i < s.len() && is_digit(s[i]) {
        digits_end(s, i + 1)
    } else {
        i
    }
}

/// The first index in `i..end` that does not hold `0`, or `end`.
pub open spec fn zeros_end(s: Seq<char>, i: int, end: int) -> int
    decreases end - i,
{
    if 0 <= i < end && i < s.len() && s[i] == '0' {
        zeros_end(s, i + 1, end)
    } else {
        i
    }
}

/// The length of an optional leading `+` or `-`.
pub open spec fn sign_len(s: Seq<char>) -> int {
    if s.len() > 0 && (s[0] == '+' || s[0] == '-') { 1 } else { 0 }
}

/// Where the digits before the point end.
pub open spec fn int_end(s: Seq<char>) -> int {
    digits_end(s, sign_len(s))
}

pub open spec fn has_point(s: Seq<char>) -> bool {
    int_end(s) < s.len() && s[int_end(s)] == '.'
}

/// Where the digits after the point end (at the point's absence, where the
/// integer digits end).
pub open spec fn frac_end(s: Seq<char>) -> int {
    if has_point(s) { digits_end(s, int_end(s) + 1) } else { int_end(s) }
}

/// Where the exponent's digits begin, past `e` or `E` and an optional sign.
pub open spec fn exp_digits_start(s: Seq<char>) -> int {
    let e = frac_end(s);
    if e + 1 < s.len() && (s[e + 1] == '+' || s[e + 1] == '-') { e + 2 } else { e + 1 }
}

/// A finite floating-point number as Rust reads one: an optional sign,
/// digits with an optional point and at least one digit on either side of
/// it, then optionally `e` or `E`, an optional sign and one or more digits.
pub open spec fn is_finite_float(s: Seq<char>) -> bool {
    let e = frac_end(s);
    &&& (int_end(s) > sign_len(s) || (has_point(s) && e > int_end(s) + 1))
    &&& (e == s.len() || ((s[e] == 'e' || s[e] == 'E') && exp_digits_start(s) < s.len()
        && digits_end(s, exp_digits_start(s)) == s.len()))
}

/// `t` spells the word whose lower and upper case letters are given, each
/// letter in either case.
pub open spec fn matches_word(t: Seq<char>, lower: Seq<char>, upper: Seq<char>) -> bool {
    t.len() == lower.len() && t.len() == upper.len() && forall|i: int|
        0 <= i < t.len() ==> t[i] == lower[i] || t[i] == upper[i]
}

/// An infinity or a NaN as Rust reads one: an optional sign, then `inf`,
/// `infinity` or `nan` in any case.
pub open spec fn is_non_finite_float(s: Seq<char>) -> bool {
    let t = s.skip(sign_len(s));
    matches_word(t, "inf"@, "INF"@) || matches_word(t, "infinity"@, "INFINITY"@) || matches_word(
        t,
        "nan"@,
        "NAN"@,
    )
}

/// The JSON number text of a finite float: a `-` kept and a `+` dropped,
/// leading zeros of the integer part dropped (a lone `0` where none is left),
/// the point kept only with digits after it, the exponent as written.
pub open spec fn json_number_text(s: Seq<char>) -> Seq<char> {
    let a = sign_len(s);
    let b = int_end(s);
    let z = zeros_end(s, a, b);
    let e = frac_end(s);
    (if a == 1 && s[0] == '-' { seq!['-'] } else { Seq::empty() }) + (if z == b {
        seq!['0']
    } else {
        s.subrange(z, b)
    }) + (if has_point(s) && e > b + 1 { s.subrange(b, e) } else { Seq::empty() }) + s.subrange(
        e,
        s.len() as int,
    )
}

/// How a coordinate is written out: a finite float as its JSON number text,
/// an infinity or a NaN as `null` (JSON has no such number); `None` for text
/// that is not a float.
pub open spec fn coordinate_text(s: Seq<char>) -> Option<Seq<char>> {
    if is_finite_float(s) {
        Some(json_number_text(s))
    } else if is_non_finite_float(s) {
        Some(seq!['n', 'u', 'l', 'l'])
    } else {
        None
    }
}

/// A resolved latitude and longitude, each as JSON text.
#[derive(Debug)]
pub struct GeoCoordinate {
    pub lat: String,
    pub lon: String,
}

impl GeoCoordinate {
    pub open spec fn wf(&self) -> bool {
        self.lat@.len() > 0 && self.lon@.len() > 0
    }
}

/// One match of a geocoding answer: its latitude and longitude as sent.
#[derive(Debug)]
pub struct PlaceMatch {
    pub lat: String,
    pub lon: String,
}

fn skip_digits(s: &str, from: usize) -> (end: usize)
    requires
        from <= s@.len(),
    ensures
        end == digits_end(s@, from as int),
        from <= end <= s@.len(),
{
    let n = s.unicode_len();
    let mut i: usize = from;
    while i < n
        invariant
            n == s@.len(),
            from <= i <= n,
            digits_end(s@, from as int) == digits_end(s@, i as int),
        decreases n - i,
    {
        let c = s.get_char(i);
        if !('0' <= c && c <= '9') {
            return i;
        }
        i = i + 1;
    }
    i
}

fn skip_zeros(s: &str, from: usize, end: usize) -> (r: usize)
    requires
        from <= end <= s@.len(),
    ensures
        r == zeros_end(s@, from as int, end as int),
        from <= r <= end,
{
    let mut i: usize = from;
    while i < end
        invariant
            from <= i <= end,
            end <= s@.len(),
            zeros_end(s@, from as int, end as int) == zeros_end(s@, i as int, end as int),
        decreases end - i,
    {
        if s.get_char(i) != '0' {
            return i;
        }
        i = i + 1;
    }
    i
}

/// Whether the text of `s` from `from` on spells the word, in either case.
fn word_at(s: &str, from: usize, lower: &str, upper: &str) -> (r: bool)
    requires
        from <= s@.len(),
    ensures
        r == matches_word(s@.skip(from as int), lower@, upper@),
{
    let ghost t = s@.skip(from as int);
    let n = s.unicode_len();
    let len = lower.unicode_len();
    if n - from != len || upper.unicode_len() != len {
        return false;
    }
    let mut i: usize = 0;
    while i < len
        invariant
            n == s@.len(),
            len == lower@.len(),
            len == upper@.len(),
            from + len == n,
            t == s@.skip(from as int),
            t.len() == len,
            i <= len,
            forall|j: int| 0 <= j < i ==> t[j] == lower@[j] || t[j] == upper@[j],
        decreases len - i,
    {
        let c = s.get_char(from + i);
        assert(t[i as int] == s@[from + i]);
        if c != lower.get_char(i) && c != upper.get_char(i) {
            return false;
        }
        i = i + 1;
    }
    true
}

/// Reads a coordinate: its JSON text, or `None` where it is not a float.
pub fn coordinate_text_of(s: &str) -> (r: Option<String>)
    ensures
        match (r, coordinate_text(s@)) {
            (Some(t), Some(u)) => t@ == u,
            (None, None) => true,
            _ => false,
        },
        r matches Some(t) ==> t@.len() > 0,
{
    let n = s.unicode_len();
    let a: usize = if n > 0 && (s.get_char(0) == '+' || s.get_char(0) == '-') { 1 } else { 0 };
    let b = skip_digits(s, a);
    let point = b < n && s.get_char(b) == '.';
    let e = if point { skip_digits(s, b + 1) } else { b };
    let mantissa = b > a || (point && e > b + 1);
    let mut exponent = e == n;
    if !exponent && (s.get_char(e) == 'e' || s.get_char(e) == 'E') {
        let x = if e + 1 < n && (s.get_char(e + 1) == '+' || s.get_char(e + 1) == '-') {
            e + 2
        } else {
            e + 1
        };
        exponent = x < n && skip_digits(s, x) == n;
    }
    if mantissa && exponent {
        let z = skip_zeros(s, a, b);
        let mut t = String::new();
        if a == 1 && s.get_char(0) == '-' {
            push_char(&mut t, '-');
        }
        if z == b {
            push_char(&mut t, '0');
        } else {
            t.append(s.substring_char(z, b));
        }
        if point && e > b + 1 {
            t.append(s.substring_char(b, e));
        }
        let ghost mid = t@;
        t.append(s.substring_char(e, n));
        assert(t@.len() >= mid.len());
        return Some(t);
    }
    if word_at(s, a, "inf", "INF") || word_at(s, a, "infinity", "INFINITY") || word_at(
        s,
        a,
        "nan",
        "NAN",
    ) {
        let t = String::from_str("null");
        proof {
            reveal_strlit("null");
            assert(t@ =~= seq!['n', 'u', 'l', 'l']);
        }
        return Some(t);
    }
    None
}

/// The coordinate of the first match, or why there is none.
pub open spec fn resolution_of(matches: Seq<PlaceMatch>) -> Result<(Seq<char>, Seq<char>), EnrichError> {
    if matches.len() == 0 {
        Err(EnrichError::NotFound)
    } else {
        match (coordinate_text(matches[0].lat@), coordinate_text(matches[0].lon@)) {
            (Some(lat), Some(lon)) => Ok((lat, lon)),
            _ => Err(EnrichError::CoordinateParse),
        }
    }
}

/// Takes the first match of a geocoding answer; fails with `NotFound` when
/// there is none and with `CoordinateParse` when its latitude or longitude is
/// not a float.
pub fn resolve_coordinates(matches: &Vec<PlaceMatch>) -> (r: Result<GeoCoordinate, EnrichError>)
    ensures
        match (r, resolution_of(matches@)) {
            (Ok(c), Ok((lat, lon))) => c.wf() && c.lat@ == lat && c.lon@ == lon,
            (Err(e), Err(f)) => e == f,
            _ => false,
        },
{
    if matches.len() == 0 {
        return Err(EnrichError::NotFound);
    }
    let first = &matches[0];
    match (coordinate_text_of(first.lat.as_str()), coordinate_text_of(first.lon.as_str())) {
        (Some(lat), Some(lon)) => {
            Ok(GeoCoordinate { lat, lon })
        },
        _ => Err(EnrichError::CoordinateParse),
    }
}

} // verus!
