//! Line-oriented `KEY VALUE` configuration text.
//!
//! Keys match case-insensitively; blank lines and lines whose first
//! token starts with `#` are skipped; unknown keys are reported back to
//! the caller and otherwise ignored. Fractional values (periods,
//! dwell times, tolerances, factors) are parsed into thousandths with
//! three digits of precision.

use vstd::prelude::*;

use crate::codec::{
    all_dec_digits,
    dec_digits,
    dec_value,
    digit_val,
    find_first,
    is_dec_digit,
    lemma_dec_value_extend,
    lemma_dec_value_mono,
    prefix_len_until,
};
use crate::control::{CalibrateParameters, RunParameters};

verus! {

// ---------------------------------------------------------------------
// Whitespace tokenization
// ---------------------------------------------------------------------

/// Whitespace inside a line: space, tab, or a stray carriage return.
pub open spec fn is_ws(b: u8) -> bool {
    b == 0x20 || b == 0x09 || b == 0x0d
}

/// Drop leading whitespace.
pub open spec fn skip_ws(s: Seq<u8>) -> Seq<u8>
    decreases s.len(),
{
    if s.len() == 0 {
        s
    } else if is_ws(s[0]) {
        skip_ws(s.drop_first())
    } else {
        s
    }
}

/// The leading run of non-whitespace bytes.
pub open spec fn take_token(s: Seq<u8>) -> Seq<u8>
    decreases s.len(),
{
    if s.len() == 0 || is_ws(s[0]) {
        Seq::empty()
    } else {
        seq![s[0]] + take_token(s.drop_first())
    }
}

/// First whitespace-separated token of a line (empty when the line is
/// blank).
pub open spec fn first_token(s: Seq<u8>) -> Seq<u8> {
    take_token(skip_ws(s))
}

/// What remains after the first token.
pub open spec fn rest_after_first(s: Seq<u8>) -> Seq<u8> {
    skip_ws(s).skip(first_token(s).len() as int)
}

/// Second whitespace-separated token of a line (empty when absent).
pub open spec fn second_token(s: Seq<u8>) -> Seq<u8> {
    take_token(skip_ws(rest_after_first(s)))
}

/// If everything before index `i` is whitespace and `i` stops at the
/// end or at non-whitespace, then skipping whitespace lands on `i`.
proof fn lemma_skip_ws_at(s: Seq<u8>, i: int)
    requires
        0 <= i <= s.len(),
        forall|j: int| 0 <= j < i ==> is_ws(s[j]),
        i < s.len() ==> !is_ws(s[i]),
    ensures
        skip_ws(s) =~= s.skip(i),
    decreases s.len(),
{
    if s.len() == 0 {
    } else if i == 0 {
        assert(s.skip(0) =~= s);
    } else {
        assert(is_ws(s[0]));
        assert(forall|j: int| 0 <= j < i - 1 ==> is_ws(#[trigger] s.drop_first()[j]));
        assert(i - 1 < s.drop_first().len() ==> !is_ws(s.drop_first()[i - 1]));
        lemma_skip_ws_at(s.drop_first(), i - 1);
        assert(s.drop_first().skip(i - 1) =~= s.skip(i));
    }
}

/// If everything before index `i` is non-whitespace and `i` stops at
/// the end or at whitespace, then the leading token is exactly the
/// first `i` bytes.
proof fn lemma_take_token_at(s: Seq<u8>, i: int)
    requires
        0 <= i <= s.len(),
        forall|j: int| 0 <= j < i ==> !is_ws(s[j]),
        i < s.len() ==> is_ws(s[i]),
    ensures
        take_token(s) =~= s.take(i),
    decreases s.len(),
{
    if s.len() == 0 {
    } else if i == 0 {
        assert(is_ws(s[0]) || s.len() == 0);
        assert(s.take(0) =~= Seq::<u8>::empty());
    } else {
        assert(!is_ws(s[0]));
        assert(forall|j: int| 0 <= j < i - 1 ==> !is_ws(#[trigger] s.drop_first()[j]));
        assert(i - 1 < s.drop_first().len() ==> is_ws(s.drop_first()[i - 1]));
        lemma_take_token_at(s.drop_first(), i - 1);
        assert(seq![s[0]] + s.drop_first().take(i - 1) =~= s.take(i));
    }
}

/// First index at or after `from` holding non-whitespace (or the end).
fn scan_ws(line: &Vec<u8>, from: usize) -> (i: usize)
    requires
        from <= line@.len(),
    ensures
        from <= i <= line@.len(),
        forall|j: int| from <= j < i ==> is_ws(line@[j]),
        i < line@.len() ==> !is_ws(line@[i as int]),
{
    let mut i: usize = from;
    while i < line.len()
        invariant
            from <= i <= line@.len(),
            forall|j: int| from <= j < i ==> is_ws(line@[j]),
        decreases line@.len() - i,
    {
        let b = line[i];
        if !(b == 0x20 || b == 0x09 || b == 0x0d) {
            return i;
        }
        i = i + 1;
    }
    i
}

/// First index at or after `from` holding whitespace (or the end).
fn scan_token(line: &Vec<u8>, from: usize) -> (i: usize)
    requires
        from <= line@.len(),
    ensures
        from <= i <= line@.len(),
        forall|j: int| from <= j < i ==> !is_ws(line@[j]),
        i < line@.len() ==> is_ws(line@[i as int]),
{
    let mut i: usize = from;
    while i < line.len()
        invariant
            from <= i <= line@.len(),
            forall|j: int| from <= j < i ==> !is_ws(line@[j]),
        decreases line@.len() - i,
    {
        let b = line[i];
        if b == 0x20 || b == 0x09 || b == 0x0d {
            return i;
        }
        i = i + 1;
    }
    i
}

/// Copy of `line[a..b]`.
fn copy_range(line: &Vec<u8>, a: usize, b: usize) -> (r: Vec<u8>)
    requires
        a <= b <= line@.len(),
    ensures
        r@ == line@.subrange(a as int, b as int),
{
    let mut r: Vec<u8> = Vec::new();
    let mut i: usize = a;
    while i < b
        invariant
            a <= i <= b <= line@.len(),
            r@ == line@.subrange(a as int, i as int),
        decreases b - i,
    {
        r.push(line[i]);
        assert(r@ =~= line@.subrange(a as int, i + 1));
        i = i + 1;
    }
    r
}

/// The first two whitespace-separated tokens of a line; either may be
/// empty when the line holds fewer than two tokens.
pub fn line_tokens(line: &Vec<u8>) -> (r: (Vec<u8>, Vec<u8>))
    ensures
        r.0@ == first_token(line@),
        r.1@ == second_token(line@),
{
    let s = line;
    let a = scan_ws(s, 0);
    let b = scan_token(s, a);
    proof {
        lemma_skip_ws_at(s@, a as int);
        assert(forall|j: int|
            0 <= j < b - a ==> !is_ws(#[trigger] s@.skip(a as int)[j]));
        assert(b - a < s@.skip(a as int).len() ==> is_ws(s@.skip(a as int)[b - a]));
        lemma_take_token_at(s@.skip(a as int), b - a);
        assert(s@.skip(a as int).take(b - a) =~= s@.subrange(a as int, b as int));
        assert(first_token(s@) == s@.subrange(a as int, b as int));
    }
    let tok1 = copy_range(s, a, b);
    proof {
        assert(rest_after_first(s@) =~= s@.skip(b as int));
    }
    let c = scan_ws(s, b);
    let d = scan_token(s, c);
    proof {
        assert(forall|j: int|
            0 <= j < c - b ==> is_ws(#[trigger] s@.skip(b as int)[j]));
        assert(c - b < s@.skip(b as int).len() ==> !is_ws(s@.skip(b as int)[c - b]));
        lemma_skip_ws_at(s@.skip(b as int), c - b);
        assert(s@.skip(b as int).skip(c - b) =~= s@.skip(c as int));
        assert(forall|j: int|
            0 <= j < d - c ==> !is_ws(#[trigger] s@.skip(c as int)[j]));
        assert(d - c < s@.skip(c as int).len() ==> is_ws(s@.skip(c as int)[d - c]));
        lemma_take_token_at(s@.skip(c as int), d - c);
        assert(s@.skip(c as int).take(d - c) =~= s@.subrange(c as int, d as int));
        assert(second_token(s@) == s@.subrange(c as int, d as int));
    }
    let tok2 = copy_range(s, c, d);
    (tok1, tok2)
}

// ---------------------------------------------------------------------
// Line splitting
// ---------------------------------------------------------------------

/// The lines of a text, split on `\n` (an empty text is one empty
/// line, matching the behaviour of splitting a string on a separator).
pub open spec fn split_lines(s: Seq<u8>) -> Seq<Seq<u8>>
    decreases s.len(),
    via split_lines_decreases
{
    let n = prefix_len_until(s, 0x0a);
    if n == s.len() {
        seq![s]
    } else {
        seq![s.take(n)] + split_lines(s.skip(n + 1))
    }
}

#[via_fn]
proof fn split_lines_decreases(s: Seq<u8>) {
    crate::codec::lemma_prefix_len_until(s, 0x0a);
}

/// Split a whole file into its lines.
pub fn lines_of(content: &Vec<u8>) -> (r: Vec<Vec<u8>>)
    ensures
        r@.map_values(|l: Vec<u8>| l@) == split_lines(content@),
{
    let mut r: Vec<Vec<u8>> = Vec::new();
    let mut rest: Vec<u8> = Vec::new();
    let mut i: usize = 0;
    while i < content.len()
        invariant
            0 <= i <= content@.len(),
            rest@ == content@.take(i as int),
        decreases content@.len() - i,
    {
        rest.push(content[i]);
        assert(rest@ =~= content@.take(i + 1));
        i = i + 1;
    }
    assert(rest@ =~= content@);
    lines_of_rec(&mut r, rest);
    assert(r@.map_values(|l: Vec<u8>| l@) =~= split_lines(content@));
    r
}

/// Append the lines of `rest` to `acc`.
fn lines_of_rec(acc: &mut Vec<Vec<u8>>, rest: Vec<u8>)
    ensures
        final(acc)@.map_values(|l: Vec<u8>| l@) == old(acc)@.map_values(|l: Vec<u8>| l@)
            + split_lines(rest@),
    decreases rest@.len(),
{
    let ghost s = rest@;
    let n = find_first(&rest, 0x0a);
    proof {
        crate::codec::lemma_prefix_len_until(s, 0x0a);
    }
    if n == rest.len() {
        acc.push(rest);
        assert(final(acc)@.map_values(|l: Vec<u8>| l@) =~= old(acc)@.map_values(|l: Vec<u8>| l@)
            + split_lines(s));
    } else {
        let line = copy_range(&rest, 0, n);
        let tail = copy_range(&rest, n + 1, rest.len());
        assert(line@ =~= s.take(n as int));
        assert(tail@ =~= s.skip(n + 1));
        acc.push(line);
        lines_of_rec(acc, tail);
        assert(final(acc)@.map_values(|l: Vec<u8>| l@) =~= old(acc)@.map_values(|l: Vec<u8>| l@)
            + split_lines(s));
    }
}

// ---------------------------------------------------------------------
// Thousandths ("milli") values
// ---------------------------------------------------------------------

/// Thousandths encoded by the first three fractional digits, shorter
/// fractions scaled up (`5` is 500, `12` is 120); longer ones are truncated past the third digit (`9971` is 997).
pub open spec fn frac_milli(f: Seq<u8>) -> nat {
    if f.len() >= 3 {
        dec_value(f.take(3))
    } else if f.len() == 2 {
        dec_value(f) * 10
    } else if f.len() == 1 {
        dec_value(f) * 100
    } else {
        0
    }
}

/// Index of the decimal point (or the length when there is none).
pub open spec fn dot_pos(s: Seq<u8>) -> int {
    prefix_len_until(s, ('.' as u8))
}

/// A well-formed decimal numeral `digits[.digits]`: a non-empty integer
/// part, and when a point is present, a non-empty all-digit fraction.
pub open spec fn milli_wf(s: Seq<u8>) -> bool {
    let d = dot_pos(s);
    &&& d > 0
    &&& all_dec_digits(s.take(d))
    &&& (d == s.len() || (d + 1 < s.len() && all_dec_digits(s.skip(d + 1))))
}

/// Value of a decimal numeral in thousandths, the fraction truncated
/// past its third digit.
pub open spec fn milli_value(s: Seq<u8>) -> nat {
    let d = dot_pos(s);
    if d == s.len() {
        dec_value(s) * 1000
    } else {
        dec_value(s.take(d)) * 1000 + frac_milli(s.skip(d + 1))
    }
}

/// Whether every byte of `s[from..to]` is a decimal digit.
fn all_digits_range(s: &Vec<u8>, from: usize, to: usize) -> (r: bool)
    requires
        from <= to <= s@.len(),
    ensures
        r == all_dec_digits(s@.subrange(from as int, to as int)),
{
    let mut i: usize = from;
    while i < to
        invariant
            from <= i <= to <= s@.len(),
            forall|j: int| from <= j < i ==> is_dec_digit(s@[j]),
        decreases to - i,
    {
        let b = s[i];
        if b < 0x30 || b > 0x39 {
            assert(s@.subrange(from as int, to as int)[i - from] == s@[i as int]);
            return false;
        }
        i = i + 1;
    }
    assert(forall|j: int|
        0 <= j < to - from ==> is_dec_digit(#[trigger] s@.subrange(from as int, to as int)[j]));
    true
}

/// Thousandths encoded by the first fractional digits of `s[d+1..]`.
fn frac_value(s: &Vec<u8>, d: usize) -> (r: u64)
    requires
        d + 1 < s@.len(),
        all_dec_digits(s@.skip(d + 1)),
    ensures
        r as nat == frac_milli(s@.skip(d + 1)),
        r <= 999,
{
    let ghost fp = s@.skip(d + 1);
    let n = s.len();
    assert(d + 2 <= n);
    let b0 = s[d + 1];
    proof {
        assert(fp[0] == s@[d + 1]);
        assert(is_dec_digit(b0));
        assert(fp.take(1).drop_last() =~= fp.take(0));
        assert(fp.take(0) =~= Seq::<u8>::empty());
        assert(fp.take(1).last() == fp[0]);
        assert(dec_value(fp.take(0)) == 0);
        assert(dec_value(fp.take(1)) == digit_val(fp[0]));
    }
    let f0: u64 = (b0 - 0x30) as u64;
    if d + 2 < s.len() {
        let b1 = s[d + 2];
        proof {
            assert(fp[1] == s@[d + 2]);
            assert(is_dec_digit(b1));
            lemma_dec_value_extend(fp, 1);
            assert(fp.take(2).take(1) =~= fp.take(1));
        }
        let f1: u64 = (b1 - 0x30) as u64;
        if d + 3 < s.len() {
            let b2 = s[d + 3];
            proof {
                assert(fp[2] == s@[d + 3]);
                assert(is_dec_digit(b2));
                lemma_dec_value_extend(fp, 2);
                assert(fp.take(3).take(2) =~= fp.take(2));
            }
            let f2: u64 = (b2 - 0x30) as u64;
            let r = f0 * 100 + f1 * 10 + f2;
            assert(r as nat == frac_milli(fp));
            r
        } else {
            proof {
                assert(fp.take(2) =~= fp);
            }
            let r = f0 * 100 + f1 * 10;
            assert(r as nat == frac_milli(fp));
            r
        }
    } else {
        proof {
            assert(fp.take(1) =~= fp);
        }
        let r = f0 * 100;
        assert(r as nat == frac_milli(fp));
        r
    }
}

/// Parse a decimal numeral into thousandths. Returns `Some` iff the
/// input is well formed and its value fits a `u64`.
pub fn parse_milli(s: &Vec<u8>) -> (r: Option<u64>)
    ensures
        match r {
            Some(v) => milli_wf(s@) && milli_value(s@) == v as nat,
            None => !milli_wf(s@) || milli_value(s@) > u64::MAX,
        },
{
    let d = find_first(s, '.' as u8);
    proof {
        crate::codec::lemma_prefix_len_until(s@, ('.' as u8));
    }
    if d == 0 {
        return None;
    }
    // Integer part.
    if !all_digits_range(s, 0, d) {
        assert(s@.subrange(0, d as int) =~= s@.take(d as int));
        return None;
    }
    assert(s@.subrange(0, d as int) =~= s@.take(d as int));
    let ghost ip = s@.take(d as int);
    let mut int_part: u64 = 0;
    let mut i: usize = 0;
    while i < d
        invariant
            0 <= i <= d <= s@.len(),
            ip == s@.take(d as int),
            all_dec_digits(ip),
            d == dot_pos(s@),
            d > 0,
            int_part as nat == dec_value(ip.take(i as int)),
        decreases d - i,
    {
        let b = s[i];
        assert(ip[i as int] == s@[i as int]);
        assert(is_dec_digit(b));
        let dv: u64 = (b - 0x30) as u64;
        if int_part > (u64::MAX - dv) / 10 {
            proof {
                lemma_dec_value_extend(ip, i as int);
                assert(int_part as nat * 10 + dv > u64::MAX) by (nonlinear_arith)
                    requires
                        int_part > (u64::MAX - dv) / 10,
                        dv <= 9,
                ;
                lemma_dec_value_mono(ip, i + 1);
                lemma_whole_at_least_int_part(s@);
                assert(dec_value(ip) * 1000 >= dec_value(ip)) by (nonlinear_arith)
                    requires
                        dec_value(ip) >= 0,
                ;
            }
            return None;
        }
        proof {
            lemma_dec_value_extend(ip, i as int);
        }
        int_part = int_part * 10 + dv;
        i = i + 1;
    }
    assert(ip.take(d as int) =~= ip);
    assert(int_part as nat == dec_value(ip));
    if d == s.len() {
        // No decimal point: the value is the integer part in thousandths.
        proof {
            assert(s@.take(d as int) =~= s@);
        }
        if int_part > u64::MAX / 1000 {
            proof {
                assert(int_part as nat * 1000 > u64::MAX) by (nonlinear_arith)
                    requires
                        int_part > u64::MAX / 1000,
                ;
            }
            return None;
        }
        proof {
            assert(int_part as nat * 1000 <= u64::MAX) by (nonlinear_arith)
                requires
                    int_part <= u64::MAX / 1000,
            ;
        }
        return Some(int_part * 1000);
    }
    // Fraction after the point.
    if d + 1 == s.len() {
        // A trailing point with no fraction digits.
        return None;
    }
    if !all_digits_range(s, d + 1, s.len()) {
        assert(s@.subrange(d + 1, s@.len() as int) =~= s@.skip(d + 1));
        return None;
    }
    assert(s@.subrange(d + 1, s@.len() as int) =~= s@.skip(d + 1));
    let frac = frac_value(s, d);
    if int_part > (u64::MAX - frac) / 1000 {
        proof {
            assert(int_part as nat * 1000 + frac > u64::MAX) by (nonlinear_arith)
                requires
                    int_part > (u64::MAX - frac) / 1000,
                    frac <= 999,
            ;
        }
        return None;
    }
    proof {
        assert(int_part as nat * 1000 <= u64::MAX - frac) by (nonlinear_arith)
            requires
                int_part <= (u64::MAX - frac) / 1000,
                frac <= 999,
        ;
    }
    Some(int_part * 1000 + frac)
}

/// The value of a decimal numeral is at least its integer part in
/// thousandths.
proof fn lemma_whole_at_least_int_part(s: Seq<u8>)
    requires
        0 <= dot_pos(s) <= s.len(),
    ensures
        milli_value(s) >= dec_value(s.take(dot_pos(s))) * 1000,
{
    let d = dot_pos(s);
    if d == s.len() {
        assert(s.take(d) =~= s);
    }
}


// ---------------------------------------------------------------------
// Keys
// ---------------------------------------------------------------------

/// Lower-case image of one ASCII byte.
pub open spec fn lower_byte(b: u8) -> u8 {
    if 0x41 <= b <= 0x5a {
        (b + 0x20) as u8
    } else {
        b
    }
}

/// Lower-case image of a byte sequence.
pub open spec fn lower_seq(s: Seq<u8>) -> Seq<u8> {
    s.map_values(|b: u8| lower_byte(b))
}

/// Lower-case copy of a byte vector.
pub fn to_lower_vec(v: &Vec<u8>) -> (r: Vec<u8>)
    ensures
        r@ == lower_seq(v@),
{
    let mut r: Vec<u8> = Vec::new();
    let mut i: usize = 0;
    while i < v.len()
        invariant
            0 <= i <= v@.len(),
            r@ == lower_seq(v@.take(i as int)),
        decreases v@.len() - i,
    {
        let b = v[i];
        if 0x41 <= b && b <= 0x5a {
            r.push(b + 0x20);
        } else {
            r.push(b);
        }
        assert(r@ =~= lower_seq(v@.take(i + 1)));
        i = i + 1;
    }
    assert(v@.take(v@.len() as int) =~= v@);
    r
}

/// Whether two byte vectors hold the same bytes.
pub fn bytes_eq(a: &Vec<u8>, b: &Vec<u8>) -> (r: bool)
    ensures
        r == (a@ == b@),
{
    if a.len() != b.len() {
        return false;
    }
    let mut i: usize = 0;
    while i < a.len()
        invariant
            0 <= i <= a@.len(),
            a@.len() == b@.len(),
            forall|j: int| 0 <= j < i ==> a@[j] == b@[j],
        decreases a@.len() - i,
    {
        if a[i] != b[i] {
            return false;
        }
        i = i + 1;
    }
    assert(a@ =~= b@);
    true
}

/// The configuration keys any session file may carry.
#[derive(Clone, Copy, Debug, PartialEq, Eq, Structural)]
pub enum ConfigKey {
    /// `HighSpeed`: starting high speed.
    HighSpeed,
    /// `LowSpeed`: low (base) speed.
    LowSpeed,
    /// `AccelerationTime`.
    AccelerationTime,
    /// `DecelerationTime`.
    DecelerationTime,
    /// `IdleTime`: driver idle time.
    IdleTime,
    /// `Amplitude`: move amplitude in pulses.
    Amplitude,
    /// `AveragingCycles`: cycles averaged per measurement.
    AveragingCycles,
    /// `DwellTime`: dwell between reversals, in seconds.
    DwellTime,
    /// `Factor`: proportional factor.
    Factor,
    /// `MaxSpeed`: upper safety bound for corrected speeds.
    MaxSpeed,
    /// `Period`: target cycle period, in seconds.
    Period,
    /// `Tolerance`: convergence tolerance fraction.
    Tolerance,
    /// `Offset`: park offset in pulses.
    Offset,
    /// `LoadCycles`: how many load cycles a run executes.
    LoadCycles,
    /// `StandbyDuration`: pause before a run starts, in seconds.
    StandbyDuration,
    /// Anything else: reported and ignored.
    Unknown,
}

/// The lower-case spelling each key matches.
pub open spec fn key_lower_bytes(k: ConfigKey) -> Seq<u8> {
    match k {
        ConfigKey::HighSpeed => seq![
            ('h' as u8), ('i' as u8), ('g' as u8), ('h' as u8), ('s' as u8), ('p' as u8),
            ('e' as u8), ('e' as u8), ('d' as u8),
        ],
        ConfigKey::LowSpeed => seq![
            ('l' as u8), ('o' as u8), ('w' as u8), ('s' as u8), ('p' as u8), ('e' as u8),
            ('e' as u8), ('d' as u8),
        ],
        ConfigKey::AccelerationTime => seq![
            ('a' as u8), ('c' as u8), ('c' as u8), ('e' as u8), ('l' as u8), ('e' as u8),
            ('r' as u8), ('a' as u8), ('t' as u8), ('i' as u8), ('o' as u8), ('n' as u8),
            ('t' as u8), ('i' as u8), ('m' as u8), ('e' as u8),
        ],
        ConfigKey::DecelerationTime => seq![
            ('d' as u8), ('e' as u8), ('c' as u8), ('e' as u8), ('l' as u8), ('e' as u8),
            ('r' as u8), ('a' as u8), ('t' as u8), ('i' as u8), ('o' as u8), ('n' as u8),
            ('t' as u8), ('i' as u8), ('m' as u8), ('e' as u8),
        ],
        ConfigKey::IdleTime => seq![
            ('i' as u8), ('d' as u8), ('l' as u8), ('e' as u8), ('t' as u8), ('i' as u8),
            ('m' as u8), ('e' as u8),
        ],
        ConfigKey::Amplitude => seq![
            ('a' as u8), ('m' as u8), ('p' as u8), ('l' as u8), ('i' as u8), ('t' as u8),
            ('u' as u8), ('d' as u8), ('e' as u8),
        ],
        ConfigKey::AveragingCycles => seq![
            ('a' as u8), ('v' as u8), ('e' as u8), ('r' as u8), ('a' as u8), ('g' as u8),
            ('i' as u8), ('n' as u8), ('g' as u8), ('c' as u8), ('y' as u8), ('c' as u8),
            ('l' as u8), ('e' as u8), ('s' as u8),
        ],
        ConfigKey::DwellTime => seq![
            ('d' as u8), ('w' as u8), ('e' as u8), ('l' as u8), ('l' as u8), ('t' as u8),
            ('i' as u8), ('m' as u8), ('e' as u8),
        ],
        ConfigKey::Factor => seq![
            ('f' as u8), ('a' as u8), ('c' as u8), ('t' as u8), ('o' as u8), ('r' as u8),
        ],
        ConfigKey::MaxSpeed => seq![
            ('m' as u8), ('a' as u8), ('x' as u8), ('s' as u8), ('p' as u8), ('e' as u8),
            ('e' as u8), ('d' as u8),
        ],
        ConfigKey::Period => seq![
            ('p' as u8), ('e' as u8), ('r' as u8), ('i' as u8), ('o' as u8), ('d' as u8),
        ],
        ConfigKey::Tolerance => seq![
            ('t' as u8), ('o' as u8), ('l' as u8), ('e' as u8), ('r' as u8), ('a' as u8),
            ('n' as u8), ('c' as u8), ('e' as u8),
        ],
        ConfigKey::Offset => seq![
            ('o' as u8), ('f' as u8), ('f' as u8), ('s' as u8), ('e' as u8), ('t' as u8),
        ],
        ConfigKey::LoadCycles => seq![
            ('l' as u8), ('o' as u8), ('a' as u8), ('d' as u8), ('c' as u8), ('y' as u8),
            ('c' as u8), ('l' as u8), ('e' as u8), ('s' as u8),
        ],
        ConfigKey::StandbyDuration => seq![
            ('s' as u8), ('t' as u8), ('a' as u8), ('n' as u8), ('d' as u8), ('b' as u8),
            ('y' as u8), ('d' as u8), ('u' as u8), ('r' as u8), ('a' as u8), ('t' as u8),
            ('i' as u8), ('o' as u8), ('n' as u8),
        ],
        ConfigKey::Unknown => Seq::empty(),
    }
}

/// Which key a lower-cased token names.
pub open spec fn classify_key_bytes(t: Seq<u8>) -> ConfigKey {
    if t == key_lower_bytes(ConfigKey::HighSpeed) {
        ConfigKey::HighSpeed
    } else if t == key_lower_bytes(ConfigKey::LowSpeed) {
        ConfigKey::LowSpeed
    } else if t == key_lower_bytes(ConfigKey::AccelerationTime) {
        ConfigKey::AccelerationTime
    } else if t == key_lower_bytes(ConfigKey::DecelerationTime) {
        ConfigKey::DecelerationTime
    } else if t == key_lower_bytes(ConfigKey::IdleTime) {
        ConfigKey::IdleTime
    } else if t == key_lower_bytes(ConfigKey::Amplitude) {
        ConfigKey::Amplitude
    } else if t == key_lower_bytes(ConfigKey::AveragingCycles) {
        ConfigKey::AveragingCycles
    } else if t == key_lower_bytes(ConfigKey::DwellTime) {
        ConfigKey::DwellTime
    } else if t == key_lower_bytes(ConfigKey::Factor) {
        ConfigKey::Factor
    } else if t == key_lower_bytes(ConfigKey::MaxSpeed) {
        ConfigKey::MaxSpeed
    } else if t == key_lower_bytes(ConfigKey::Period) {
        ConfigKey::Period
    } else if t == key_lower_bytes(ConfigKey::Tolerance) {
        ConfigKey::Tolerance
    } else if t == key_lower_bytes(ConfigKey::Offset) {
        ConfigKey::Offset
    } else if t == key_lower_bytes(ConfigKey::LoadCycles) {
        ConfigKey::LoadCycles
    } else if t == key_lower_bytes(ConfigKey::StandbyDuration) {
        ConfigKey::StandbyDuration
    } else {
        ConfigKey::Unknown
    }
}

/// The lower-case spelling of a key, as a vector.
fn key_lower_vec(k: ConfigKey) -> (r: Vec<u8>)
    ensures
        r@ == key_lower_bytes(k),
{
    let mut v: Vec<u8> = Vec::new();
    match k {
        ConfigKey::HighSpeed => {
            v.push('h' as u8); v.push('i' as u8); v.push('g' as u8); v.push('h' as u8);
            v.push('s' as u8); v.push('p' as u8); v.push('e' as u8); v.push('e' as u8);
            v.push('d' as u8);
        },
        ConfigKey::LowSpeed => {
            v.push('l' as u8); v.push('o' as u8); v.push('w' as u8); v.push('s' as u8);
            v.push('p' as u8); v.push('e' as u8); v.push('e' as u8); v.push('d' as u8);
        },
        ConfigKey::AccelerationTime => {
            v.push('a' as u8); v.push('c' as u8); v.push('c' as u8); v.push('e' as u8);
            v.push('l' as u8); v.push('e' as u8); v.push('r' as u8); v.push('a' as u8);
            v.push('t' as u8); v.push('i' as u8); v.push('o' as u8); v.push('n' as u8);
            v.push('t' as u8); v.push('i' as u8); v.push('m' as u8); v.push('e' as u8);
        },
        ConfigKey::DecelerationTime => {
            v.push('d' as u8); v.push('e' as u8); v.push('c' as u8); v.push('e' as u8);
            v.push('l' as u8); v.push('e' as u8); v.push('r' as u8); v.push('a' as u8);
            v.push('t' as u8); v.push('i' as u8); v.push('o' as u8); v.push('n' as u8);
            v.push('t' as u8); v.push('i' as u8); v.push('m' as u8); v.push('e' as u8);
        },
        ConfigKey::IdleTime => {
            v.push('i' as u8); v.push('d' as u8); v.push('l' as u8); v.push('e' as u8);
            v.push('t' as u8); v.push('i' as u8); v.push('m' as u8); v.push('e' as u8);
        },
        ConfigKey::Amplitude => {
            v.push('a' as u8); v.push('m' as u8); v.push('p' as u8); v.push('l' as u8);
            v.push('i' as u8); v.push('t' as u8); v.push('u' as u8); v.push('d' as u8);
            v.push('e' as u8);
        },
        ConfigKey::AveragingCycles => {
            v.push('a' as u8); v.push('v' as u8); v.push('e' as u8); v.push('r' as u8);
            v.push('a' as u8); v.push('g' as u8); v.push('i' as u8); v.push('n' as u8);
            v.push('g' as u8); v.push('c' as u8); v.push('y' as u8); v.push('c' as u8);
            v.push('l' as u8); v.push('e' as u8); v.push('s' as u8);
        },
        ConfigKey::DwellTime => {
            v.push('d' as u8); v.push('w' as u8); v.push('e' as u8); v.push('l' as u8);
            v.push('l' as u8); v.push('t' as u8); v.push('i' as u8); v.push('m' as u8);
            v.push('e' as u8);
        },
        ConfigKey::Factor => {
            v.push('f' as u8); v.push('a' as u8); v.push('c' as u8); v.push('t' as u8);
            v.push('o' as u8); v.push('r' as u8);
        },
        ConfigKey::MaxSpeed => {
            v.push('m' as u8); v.push('a' as u8); v.push('x' as u8); v.push('s' as u8);
            v.push('p' as u8); v.push('e' as u8); v.push('e' as u8); v.push('d' as u8);
        },
        ConfigKey::Period => {
            v.push('p' as u8); v.push('e' as u8); v.push('r' as u8); v.push('i' as u8);
            v.push('o' as u8); v.push('d' as u8);
        },
        ConfigKey::Tolerance => {
            v.push('t' as u8); v.push('o' as u8); v.push('l' as u8); v.push('e' as u8);
            v.push('r' as u8); v.push('a' as u8); v.push('n' as u8); v.push('c' as u8);
            v.push('e' as u8);
        },
        ConfigKey::Offset => {
            v.push('o' as u8); v.push('f' as u8); v.push('f' as u8); v.push('s' as u8);
            v.push('e' as u8); v.push('t' as u8);
        },
        ConfigKey::LoadCycles => {
            v.push('l' as u8); v.push('o' as u8); v.push('a' as u8); v.push('d' as u8);
            v.push('c' as u8); v.push('y' as u8); v.push('c' as u8); v.push('l' as u8);
            v.push('e' as u8); v.push('s' as u8);
        },
        ConfigKey::StandbyDuration => {
            v.push('s' as u8); v.push('t' as u8); v.push('a' as u8); v.push('n' as u8);
            v.push('d' as u8); v.push('b' as u8); v.push('y' as u8); v.push('d' as u8);
            v.push('u' as u8); v.push('r' as u8); v.push('a' as u8); v.push('t' as u8);
            v.push('i' as u8); v.push('o' as u8); v.push('n' as u8);
        },
        ConfigKey::Unknown => {},
    }
    assert(v@ =~= key_lower_bytes(k));
    v
}

/// Classify a raw key token, matching case-insensitively.
pub fn classify_key(tok: &Vec<u8>) -> (k: ConfigKey)
    ensures
        k == classify_key_bytes(lower_seq(tok@)),
{
    let lower = to_lower_vec(tok);
    if bytes_eq(&lower, &key_lower_vec(ConfigKey::HighSpeed)) {
        ConfigKey::HighSpeed
    } else if bytes_eq(&lower, &key_lower_vec(ConfigKey::LowSpeed)) {
        ConfigKey::LowSpeed
    } else if bytes_eq(&lower, &key_lower_vec(ConfigKey::AccelerationTime)) {
        ConfigKey::AccelerationTime
    } else if bytes_eq(&lower, &key_lower_vec(ConfigKey::DecelerationTime)) {
        ConfigKey::DecelerationTime
    } else if bytes_eq(&lower, &key_lower_vec(ConfigKey::IdleTime)) {
        ConfigKey::IdleTime
    } else if bytes_eq(&lower, &key_lower_vec(ConfigKey::Amplitude)) {
        ConfigKey::Amplitude
    } else if bytes_eq(&lower, &key_lower_vec(ConfigKey::AveragingCycles)) {
        ConfigKey::AveragingCycles
    } else if bytes_eq(&lower, &key_lower_vec(ConfigKey::DwellTime)) {
        ConfigKey::DwellTime
    } else if bytes_eq(&lower, &key_lower_vec(ConfigKey::Factor)) {
        ConfigKey::Factor
    } else if bytes_eq(&lower, &key_lower_vec(ConfigKey::MaxSpeed)) {
        ConfigKey::MaxSpeed
    } else if bytes_eq(&lower, &key_lower_vec(ConfigKey::Period)) {
        ConfigKey::Period
    } else if bytes_eq(&lower, &key_lower_vec(ConfigKey::Tolerance)) {
        ConfigKey::Tolerance
    } else if bytes_eq(&lower, &key_lower_vec(ConfigKey::Offset)) {
        ConfigKey::Offset
    } else if bytes_eq(&lower, &key_lower_vec(ConfigKey::LoadCycles)) {
        ConfigKey::LoadCycles
    } else if bytes_eq(&lower, &key_lower_vec(ConfigKey::StandbyDuration)) {
        ConfigKey::StandbyDuration
    } else {
        ConfigKey::Unknown
    }
}


// ---------------------------------------------------------------------
// Parameter files
// ---------------------------------------------------------------------

/// The `u64` thousandths a numeral denotes, when well formed and in
/// range.
pub open spec fn spec_milli(s: Seq<u8>) -> Option<u64> {
    if milli_wf(s) && milli_value(s) <= u64::MAX {
        Some(milli_value(s) as u64)
    } else {
        None
    }
}

/// Why a configuration text was refused.
#[derive(Clone, Copy, Debug, PartialEq, Eq, Structural)]
pub enum ConfigError {
    /// A known key whose value is missing or does not parse; carries
    /// the zero-based line index.
    Malformed {
        /// Zero-based index of the offending line.
        line: usize,
    },
    /// The file parsed, but the resulting parameters leave the range
    /// the control law accepts (zero period, oversized factor, a low
    /// speed above the maximum, ...).
    OutOfRange,
}

/// Whether a line carries a key that a calibration file does not know:
/// reported to the operator and otherwise ignored.
pub open spec fn cal_line_unknown(line: Seq<u8>) -> bool {
    let t1 = first_token(line);
    &&& t1.len() > 0
    &&& t1[0] != ('#' as u8)
    &&& match classify_key_bytes(lower_seq(t1)) {
        ConfigKey::Offset => true,
        ConfigKey::LoadCycles => true,
        ConfigKey::StandbyDuration => true,
        ConfigKey::Unknown => true,
        _ => false,
    }
}

/// Effect of one line on the calibration parameters: blank and comment
/// lines change nothing, a known key overwrites its field, an unknown
/// key is ignored, and a known key with a missing or malformed value
/// refuses the file.
pub open spec fn spec_cal_line(p: CalibrateParameters, line: Seq<u8>) -> Option<
    CalibrateParameters,
> {
    let t1 = first_token(line);
    if t1.len() == 0 || t1[0] == ('#' as u8) {
        Some(p)
    } else {
        let v = second_token(line);
        match classify_key_bytes(lower_seq(t1)) {
            ConfigKey::HighSpeed => match crate::codec::spec_u32(v) {
                Some(x) => Some(CalibrateParameters { high_speed: x, ..p }),
                None => None,
            },
            ConfigKey::LowSpeed => match crate::codec::spec_u32(v) {
                Some(x) => Some(CalibrateParameters { low_speed: x, ..p }),
                None => None,
            },
            ConfigKey::AccelerationTime => match crate::codec::spec_u32(v) {
                Some(x) => Some(CalibrateParameters { acceleration_time: x, ..p }),
                None => None,
            },
            ConfigKey::DecelerationTime => match crate::codec::spec_u32(v) {
                Some(x) => Some(CalibrateParameters { deceleration_time: x, ..p }),
                None => None,
            },
            ConfigKey::IdleTime => match crate::codec::spec_u32(v) {
                Some(x) => Some(CalibrateParameters { idle_time: x, ..p }),
                None => None,
            },
            ConfigKey::Amplitude => match crate::codec::spec_i32(v) {
                Some(x) => Some(CalibrateParameters { amplitude: x, ..p }),
                None => None,
            },
            ConfigKey::AveragingCycles => match crate::codec::spec_u32(v) {
                Some(x) => Some(CalibrateParameters { averaging_cycles: x, ..p }),
                None => None,
            },
            ConfigKey::DwellTime => match spec_milli(v) {
                Some(x) => Some(CalibrateParameters { dwell_ms: x, ..p }),
                None => None,
            },
            ConfigKey::Factor => match spec_milli(v) {
                Some(x) => Some(CalibrateParameters { factor_milli: x, ..p }),
                None => None,
            },
            ConfigKey::MaxSpeed => match crate::codec::spec_u32(v) {
                Some(x) => Some(CalibrateParameters { max_speed: x, ..p }),
                None => None,
            },
            ConfigKey::Period => match spec_milli(v) {
                Some(x) => Some(CalibrateParameters { period_ms: x, ..p }),
                None => None,
            },
            ConfigKey::Tolerance => match spec_milli(v) {
                Some(x) => Some(CalibrateParameters { tolerance_milli: x, ..p }),
                None => None,
            },
            _ => Some(p),
        }
    }
}

/// Fold the lines from index `i` on over the parameters.
pub open spec fn spec_cal_from(
    p: CalibrateParameters,
    lines: Seq<Seq<u8>>,
    i: int,
) -> Option<CalibrateParameters>
    decreases lines.len() - i,
{
    if i < 0 || i >= lines.len() {
        Some(p)
    } else {
        match spec_cal_line(p, lines[i]) {
            None => None,
            Some(q) => spec_cal_from(q, lines, i + 1),
        }
    }
}

/// The parameters a calibration file denotes, starting from the
/// defaults.
pub open spec fn spec_cal_params(lines: Seq<Seq<u8>>) -> Option<CalibrateParameters> {
    spec_cal_from(crate::control::default_calibrate_parameters(), lines, 0)
}

/// Apply one line; the flag reports an unknown key.
fn apply_cal_line(p: &CalibrateParameters, line: &Vec<u8>) -> (r: Result<
    (CalibrateParameters, bool),
    (),
>)
    ensures
        r matches Ok(t) ==> spec_cal_line(*p, line@) == Some(t.0) && t.1 == cal_line_unknown(
            line@,
        ),
        r is Err ==> spec_cal_line(*p, line@) is None,
{
    let (tok1, tok2) = line_tokens(line);
    if tok1.len() == 0 {
        return Ok((*p, false));
    }
    if tok1[0] == ('#' as u8) {
        return Ok((*p, false));
    }
    match classify_key(&tok1) {
        ConfigKey::HighSpeed => match crate::codec::parse_u32(&tok2) {
            Some(x) => Ok((CalibrateParameters { high_speed: x, ..*p }, false)),
            None => Err(()),
        },
        ConfigKey::LowSpeed => match crate::codec::parse_u32(&tok2) {
            Some(x) => Ok((CalibrateParameters { low_speed: x, ..*p }, false)),
            None => Err(()),
        },
        ConfigKey::AccelerationTime => match crate::codec::parse_u32(&tok2) {
            Some(x) => Ok((CalibrateParameters { acceleration_time: x, ..*p }, false)),
            None => Err(()),
        },
        ConfigKey::DecelerationTime => match crate::codec::parse_u32(&tok2) {
            Some(x) => Ok((CalibrateParameters { deceleration_time: x, ..*p }, false)),
            None => Err(()),
        },
        ConfigKey::IdleTime => match crate::codec::parse_u32(&tok2) {
            Some(x) => Ok((CalibrateParameters { idle_time: x, ..*p }, false)),
            None => Err(()),
        },
        ConfigKey::Amplitude => match crate::codec::parse_i32(&tok2) {
            Some(x) => Ok((CalibrateParameters { amplitude: x, ..*p }, false)),
            None => Err(()),
        },
        ConfigKey::AveragingCycles => match crate::codec::parse_u32(&tok2) {
            Some(x) => Ok((CalibrateParameters { averaging_cycles: x, ..*p }, false)),
            None => Err(()),
        },
        ConfigKey::DwellTime => match parse_milli(&tok2) {
            Some(x) => Ok((CalibrateParameters { dwell_ms: x, ..*p }, false)),
            None => Err(()),
        },
        ConfigKey::Factor => match parse_milli(&tok2) {
            Some(x) => Ok((CalibrateParameters { factor_milli: x, ..*p }, false)),
            None => Err(()),
        },
        ConfigKey::MaxSpeed => match crate::codec::parse_u32(&tok2) {
            Some(x) => Ok((CalibrateParameters { max_speed: x, ..*p }, false)),
            None => Err(()),
        },
        ConfigKey::Period => match parse_milli(&tok2) {
            Some(x) => Ok((CalibrateParameters { period_ms: x, ..*p }, false)),
            None => Err(()),
        },
        ConfigKey::Tolerance => match parse_milli(&tok2) {
            Some(x) => Ok((CalibrateParameters { tolerance_milli: x, ..*p }, false)),
            None => Err(()),
        },
        ConfigKey::Offset => Ok((*p, true)),
        ConfigKey::LoadCycles => Ok((*p, true)),
        ConfigKey::StandbyDuration => Ok((*p, true)),
        ConfigKey::Unknown => Ok((*p, true)),
    }
}

/// Whether calibration parameters lie in the range the control law
/// accepts.
fn cal_wf_check(p: &CalibrateParameters) -> (r: bool)
    ensures
        r == p.wf(),
{
    0 < p.period_ms && p.period_ms <= crate::control::MAX_TIME_MS && p.dwell_ms
        <= crate::control::MAX_TIME_MS && p.tolerance_milli <= 1000 && p.factor_milli
        <= crate::control::MAX_FACTOR_MILLI && p.low_speed <= p.max_speed
}

/// Parse a calibration parameter file, starting from the defaults.
/// Returns the parameters and the zero-based indices of lines whose
/// keys were unknown (for the caller to report); a known key with a
/// bad value or parameters outside the control law's range refuse the
/// file.
pub fn parse_calibrate_parameters(lines: &Vec<Vec<u8>>) -> (r: Result<
    (CalibrateParameters, Vec<usize>),
    ConfigError,
>)
    ensures
        ({
            let lv = lines@.map_values(|l: Vec<u8>| l@);
            match r {
                Ok(t) => {
                    &&& spec_cal_params(lv) == Some(t.0)
                    &&& t.0.wf()
                    &&& forall|k: int|
                        0 <= k < t.1@.len() ==> t.1@[k] < lines@.len() && cal_line_unknown(
                            lv[t.1@[k] as int],
                        )
                },
                Err(ConfigError::Malformed { line }) => line < lines@.len() && spec_cal_params(
                    lv,
                ) is None,
                Err(ConfigError::OutOfRange) => match spec_cal_params(lv) {
                    Some(q) => !q.wf(),
                    None => false,
                },
            }
        }),
{
    let ghost lv = lines@.map_values(|l: Vec<u8>| l@);
    let mut p = crate::control::initialize_calibrate_parameters();
    let mut unknown: Vec<usize> = Vec::new();
    let mut i: usize = 0;
    while i < lines.len()
        invariant
            0 <= i <= lines@.len(),
            lv == lines@.map_values(|l: Vec<u8>| l@),
            spec_cal_params(lv) == spec_cal_from(p, lv, i as int),
            forall|k: int|
                0 <= k < unknown@.len() ==> unknown@[k] < lines@.len() && cal_line_unknown(
                    lv[unknown@[k] as int],
                ),
        decreases lines@.len() - i,
    {
        assert(lv[i as int] == lines@[i as int]@);
        match apply_cal_line(&p, &lines[i]) {
            Ok(t) => {
                if t.1 {
                    unknown.push(i);
                }
                p = t.0;
            },
            Err(()) => {
                return Err(ConfigError::Malformed { line: i });
            },
        }
        i = i + 1;
    }
    if !cal_wf_check(&p) {
        return Err(ConfigError::OutOfRange);
    }
    Ok((p, unknown))
}

/// Whether a line carries a key that a run file does not know:
/// reported to the operator and otherwise ignored.
pub open spec fn run_line_unknown(line: Seq<u8>) -> bool {
    let t1 = first_token(line);
    &&& t1.len() > 0
    &&& t1[0] != ('#' as u8)
    &&& match classify_key_bytes(lower_seq(t1)) {
        ConfigKey::AveragingCycles => true,
        ConfigKey::Tolerance => true,
        ConfigKey::Unknown => true,
        _ => false,
    }
}

/// Effect of one line on the run parameters; like the calibration
/// fold, with the run-only keys known and the calibration-only ones
/// unknown.
pub open spec fn spec_run_line(p: RunParameters, line: Seq<u8>) -> Option<RunParameters> {
    let t1 = first_token(line);
    if t1.len() == 0 || t1[0] == ('#' as u8) {
        Some(p)
    } else {
        let v = second_token(line);
        match classify_key_bytes(lower_seq(t1)) {
            ConfigKey::HighSpeed => match crate::codec::spec_u32(v) {
                Some(x) => Some(RunParameters { high_speed: x, ..p }),
                None => None,
            },
            ConfigKey::LowSpeed => match crate::codec::spec_u32(v) {
                Some(x) => Some(RunParameters { low_speed: x, ..p }),
                None => None,
            },
            ConfigKey::AccelerationTime => match crate::codec::spec_u32(v) {
                Some(x) => Some(RunParameters { acceleration_time: x, ..p }),
                None => None,
            },
            ConfigKey::DecelerationTime => match crate::codec::spec_u32(v) {
                Some(x) => Some(RunParameters { deceleration_time: x, ..p }),
                None => None,
            },
            ConfigKey::IdleTime => match crate::codec::spec_u32(v) {
                Some(x) => Some(RunParameters { idle_time: x, ..p }),
                None => None,
            },
            ConfigKey::Amplitude => match crate::codec::spec_i32(v) {
                Some(x) => Some(RunParameters { amplitude: x, ..p }),
                None => None,
            },
            ConfigKey::DwellTime => match spec_milli(v) {
                Some(x) => Some(RunParameters { dwell_ms: x, ..p }),
                None => None,
            },
            ConfigKey::Factor => match spec_milli(v) {
                Some(x) => Some(RunParameters { factor_milli: x, ..p }),
                None => None,
            },
            ConfigKey::MaxSpeed => match crate::codec::spec_u32(v) {
                Some(x) => Some(RunParameters { max_speed: x, ..p }),
                None => None,
            },
            ConfigKey::Period => match spec_milli(v) {
                Some(x) => Some(RunParameters { period_ms: x, ..p }),
                None => None,
            },
            ConfigKey::Offset => match crate::codec::spec_i32(v) {
                Some(x) => Some(RunParameters { offset: x, ..p }),
                None => None,
            },
            ConfigKey::LoadCycles => match crate::codec::spec_u32(v) {
                Some(x) => Some(RunParameters { load_cycles: x, ..p }),
                None => None,
            },
            ConfigKey::StandbyDuration => match spec_milli(v) {
                Some(x) => Some(RunParameters { standby_ms: x, ..p }),
                None => None,
            },
            _ => Some(p),
        }
    }
}

/// Fold the lines from index `i` on over the run parameters.
pub open spec fn spec_run_from(p: RunParameters, lines: Seq<Seq<u8>>, i: int) -> Option<
    RunParameters,
>
    decreases lines.len() - i,
{
    if i < 0 || i >= lines.len() {
        Some(p)
    } else {
        match spec_run_line(p, lines[i]) {
            None => None,
            Some(q) => spec_run_from(q, lines, i + 1),
        }
    }
}

/// The parameters a run file denotes, starting from the defaults.
pub open spec fn spec_run_params(lines: Seq<Seq<u8>>) -> Option<RunParameters> {
    spec_run_from(crate::control::default_run_parameters(), lines, 0)
}

/// Apply one line; the flag reports an unknown key.
fn apply_run_line(p: &RunParameters, line: &Vec<u8>) -> (r: Result<(RunParameters, bool), ()>)
    ensures
        r matches Ok(t) ==> spec_run_line(*p, line@) == Some(t.0) && t.1 == run_line_unknown(
            line@,
        ),
        r is Err ==> spec_run_line(*p, line@) is None,
{
    let (tok1, tok2) = line_tokens(line);
    if tok1.len() == 0 {
        return Ok((*p, false));
    }
    if tok1[0] == ('#' as u8) {
        return Ok((*p, false));
    }
    match classify_key(&tok1) {
        ConfigKey::HighSpeed => match crate::codec::parse_u32(&tok2) {
            Some(x) => Ok((RunParameters { high_speed: x, ..*p }, false)),
            None => Err(()),
        },
        ConfigKey::LowSpeed => match crate::codec::parse_u32(&tok2) {
            Some(x) => Ok((RunParameters { low_speed: x, ..*p }, false)),
            None => Err(()),
        },
        ConfigKey::AccelerationTime => match crate::codec::parse_u32(&tok2) {
            Some(x) => Ok((RunParameters { acceleration_time: x, ..*p }, false)),
            None => Err(()),
        },
        ConfigKey::DecelerationTime => match crate::codec::parse_u32(&tok2) {
            Some(x) => Ok((RunParameters { deceleration_time: x, ..*p }, false)),
            None => Err(()),
        },
        ConfigKey::IdleTime => match crate::codec::parse_u32(&tok2) {
            Some(x) => Ok((RunParameters { idle_time: x, ..*p }, false)),
            None => Err(()),
        },
        ConfigKey::Amplitude => match crate::codec::parse_i32(&tok2) {
            Some(x) => Ok((RunParameters { amplitude: x, ..*p }, false)),
            None => Err(()),
        },
        ConfigKey::DwellTime => match parse_milli(&tok2) {
            Some(x) => Ok((RunParameters { dwell_ms: x, ..*p }, false)),
            None => Err(()),
        },
        ConfigKey::Factor => match parse_milli(&tok2) {
            Some(x) => Ok((RunParameters { factor_milli: x, ..*p }, false)),
            None => Err(()),
        },
        ConfigKey::MaxSpeed => match crate::codec::parse_u32(&tok2) {
            Some(x) => Ok((RunParameters { max_speed: x, ..*p }, false)),
            None => Err(()),
        },
        ConfigKey::Period => match parse_milli(&tok2) {
            Some(x) => Ok((RunParameters { period_ms: x, ..*p }, false)),
            None => Err(()),
        },
        ConfigKey::Offset => match crate::codec::parse_i32(&tok2) {
            Some(x) => Ok((RunParameters { offset: x, ..*p }, false)),
            None => Err(()),
        },
        ConfigKey::LoadCycles => match crate::codec::parse_u32(&tok2) {
            Some(x) => Ok((RunParameters { load_cycles: x, ..*p }, false)),
            None => Err(()),
        },
        ConfigKey::StandbyDuration => match parse_milli(&tok2) {
            Some(x) => Ok((RunParameters { standby_ms: x, ..*p }, false)),
            None => Err(()),
        },
        ConfigKey::AveragingCycles => Ok((*p, true)),
        ConfigKey::Tolerance => Ok((*p, true)),
        ConfigKey::Unknown => Ok((*p, true)),
    }
}

/// Whether run parameters lie in the range the control law accepts.
fn run_wf_check(p: &RunParameters) -> (r: bool)
    ensures
        r == p.wf(),
{
    0 < p.period_ms && p.period_ms <= crate::control::MAX_TIME_MS && p.dwell_ms
        <= crate::control::MAX_TIME_MS && p.standby_ms <= crate::control::MAX_TIME_MS
        && p.factor_milli <= crate::control::MAX_FACTOR_MILLI && p.low_speed <= p.max_speed
}

/// Parse a run parameter file, starting from the defaults. Returns the
/// parameters and the zero-based indices of lines whose keys were
/// unknown.
pub fn parse_run_parameters(lines: &Vec<Vec<u8>>) -> (r: Result<
    (RunParameters, Vec<usize>),
    ConfigError,
>)
    ensures
        ({
            let lv = lines@.map_values(|l: Vec<u8>| l@);
            match r {
                Ok(t) => {
                    &&& spec_run_params(lv) == Some(t.0)
                    &&& t.0.wf()
                    &&& forall|k: int|
                        0 <= k < t.1@.len() ==> t.1@[k] < lines@.len() && run_line_unknown(
                            lv[t.1@[k] as int],
                        )
                },
                Err(ConfigError::Malformed { line }) => line < lines@.len() && spec_run_params(
                    lv,
                ) is None,
                Err(ConfigError::OutOfRange) => match spec_run_params(lv) {
                    Some(q) => !q.wf(),
                    None => false,
                },
            }
        }),
{
    let ghost lv = lines@.map_values(|l: Vec<u8>| l@);
    let mut p = crate::control::initialize_run_parameters();
    let mut unknown: Vec<usize> = Vec::new();
    let mut i: usize = 0;
    while i < lines.len()
        invariant
            0 <= i <= lines@.len(),
            lv == lines@.map_values(|l: Vec<u8>| l@),
            spec_run_params(lv) == spec_run_from(p, lv, i as int),
            forall|k: int|
                0 <= k < unknown@.len() ==> unknown@[k] < lines@.len() && run_line_unknown(
                    lv[unknown@[k] as int],
                ),
        decreases lines@.len() - i,
    {
        assert(lv[i as int] == lines@[i as int]@);
        match apply_run_line(&p, &lines[i]) {
            Ok(t) => {
                if t.1 {
                    unknown.push(i);
                }
                p = t.0;
            },
            Err(()) => {
                return Err(ConfigError::Malformed { line: i });
            },
        }
        i = i + 1;
    }
    if !run_wf_check(&p) {
        return Err(ConfigError::OutOfRange);
    }
    Ok((p, unknown))
}


// ---------------------------------------------------------------------
// The calibrated run file
// ---------------------------------------------------------------------

/// A single space.
pub open spec fn sp() -> Seq<u8> {
    seq![(' ' as u8)]
}

/// A single newline.
pub open spec fn nl() -> Seq<u8> {
    seq![(0x0a as u8)]
}

/// The spelling each key takes in an emitted parameter file (empty for
/// keys that are never emitted).
pub open spec fn out_key_bytes(k: ConfigKey) -> Seq<u8> {
    match k {
        ConfigKey::HighSpeed => seq![
             ('H' as u8), ('i' as u8), ('g' as u8), ('h' as u8), ('S' as u8), ('p' as u8),
             ('e' as u8), ('e' as u8), ('d' as u8),
        ],
        ConfigKey::LowSpeed => seq![
             ('L' as u8), ('o' as u8), ('w' as u8), ('S' as u8), ('p' as u8), ('e' as u8),
             ('e' as u8), ('d' as u8),
        ],
        ConfigKey::AccelerationTime => seq![
             ('A' as u8), ('c' as u8), ('c' as u8), ('e' as u8), ('l' as u8), ('e' as u8),
             ('r' as u8), ('a' as u8), ('t' as u8), ('i' as u8), ('o' as u8), ('n' as u8),
             ('T' as u8), ('i' as u8), ('m' as u8), ('e' as u8),
        ],
        ConfigKey::DecelerationTime => seq![
             ('D' as u8), ('e' as u8), ('c' as u8), ('e' as u8), ('l' as u8), ('e' as u8),
             ('r' as u8), ('a' as u8), ('t' as u8), ('i' as u8), ('o' as u8), ('n' as u8),
             ('T' as u8), ('i' as u8), ('m' as u8), ('e' as u8),
        ],
        ConfigKey::IdleTime => seq![
             ('I' as u8), ('d' as u8), ('l' as u8), ('e' as u8), ('T' as u8), ('i' as u8),
             ('m' as u8), ('e' as u8),
        ],
        ConfigKey::LoadCycles => seq![
             ('L' as u8), ('o' as u8), ('a' as u8), ('d' as u8), ('C' as u8), ('y' as u8),
             ('c' as u8), ('l' as u8), ('e' as u8), ('s' as u8),
        ],
        ConfigKey::Amplitude => seq![
             ('A' as u8), ('m' as u8), ('p' as u8), ('l' as u8), ('i' as u8), ('t' as u8),
             ('u' as u8), ('d' as u8), ('e' as u8),
        ],
        ConfigKey::Offset => seq![
             ('O' as u8), ('f' as u8), ('f' as u8), ('s' as u8), ('e' as u8), ('t' as u8),
        ],
        ConfigKey::Period => seq![
             ('P' as u8), ('e' as u8), ('r' as u8), ('i' as u8), ('o' as u8), ('d' as u8),
        ],
        ConfigKey::DwellTime => seq![
             ('D' as u8), ('w' as u8), ('e' as u8), ('l' as u8), ('l' as u8), ('T' as u8),
             ('i' as u8), ('m' as u8), ('e' as u8),
        ],
        _ => Seq::empty(),
    }
}

/// The emitted spelling of a key, as a vector.
fn out_key_vec(k: ConfigKey) -> (r: Vec<u8>)
    ensures
        r@ == out_key_bytes(k),
{
    let mut v: Vec<u8> = Vec::new();
    match k {
        ConfigKey::HighSpeed => {
             v.push('H' as u8); v.push('i' as u8); v.push('g' as u8); v.push('h' as u8);
             v.push('S' as u8); v.push('p' as u8); v.push('e' as u8); v.push('e' as u8);
             v.push('d' as u8);
        },
        ConfigKey::LowSpeed => {
             v.push('L' as u8); v.push('o' as u8); v.push('w' as u8); v.push('S' as u8);
             v.push('p' as u8); v.push('e' as u8); v.push('e' as u8); v.push('d' as u8);
        },
        ConfigKey::AccelerationTime => {
             v.push('A' as u8); v.push('c' as u8); v.push('c' as u8); v.push('e' as u8);
             v.push('l' as u8); v.push('e' as u8); v.push('r' as u8); v.push('a' as u8);
             v.push('t' as u8); v.push('i' as u8); v.push('o' as u8); v.push('n' as u8);
             v.push('T' as u8); v.push('i' as u8); v.push('m' as u8); v.push('e' as u8);
        },
        ConfigKey::DecelerationTime => {
             v.push('D' as u8); v.push('e' as u8); v.push('c' as u8); v.push('e' as u8);
             v.push('l' as u8); v.push('e' as u8); v.push('r' as u8); v.push('a' as u8);
             v.push('t' as u8); v.push('i' as u8); v.push('o' as u8); v.push('n' as u8);
             v.push('T' as u8); v.push('i' as u8); v.push('m' as u8); v.push('e' as u8);
        },
        ConfigKey::IdleTime => {
             v.push('I' as u8); v.push('d' as u8); v.push('l' as u8); v.push('e' as u8);
             v.push('T' as u8); v.push('i' as u8); v.push('m' as u8); v.push('e' as u8);
        },
        ConfigKey::LoadCycles => {
             v.push('L' as u8); v.push('o' as u8); v.push('a' as u8); v.push('d' as u8);
             v.push('C' as u8); v.push('y' as u8); v.push('c' as u8); v.push('l' as u8);
             v.push('e' as u8); v.push('s' as u8);
        },
        ConfigKey::Amplitude => {
             v.push('A' as u8); v.push('m' as u8); v.push('p' as u8); v.push('l' as u8);
             v.push('i' as u8); v.push('t' as u8); v.push('u' as u8); v.push('d' as u8);
             v.push('e' as u8);
        },
        ConfigKey::Offset => {
             v.push('O' as u8); v.push('f' as u8); v.push('f' as u8); v.push('s' as u8);
             v.push('e' as u8); v.push('t' as u8);
        },
        ConfigKey::Period => {
             v.push('P' as u8); v.push('e' as u8); v.push('r' as u8); v.push('i' as u8);
             v.push('o' as u8); v.push('d' as u8);
        },
        ConfigKey::DwellTime => {
             v.push('D' as u8); v.push('w' as u8); v.push('e' as u8); v.push('l' as u8);
             v.push('l' as u8); v.push('T' as u8); v.push('i' as u8); v.push('m' as u8);
             v.push('e' as u8);
        },
        _ => {},
    }
    assert(v@ =~= out_key_bytes(k));
    v
}

/// Header of the trailing comment block.
pub open spec fn comment_header() -> Seq<u8> {
    seq![
             ('#' as u8), (' ' as u8), ('C' as u8), ('a' as u8), ('l' as u8), ('i' as u8),
             ('b' as u8), ('r' as u8), ('a' as u8), ('t' as u8), ('i' as u8), ('o' as u8),
             ('n' as u8), (' ' as u8), ('p' as u8), ('e' as u8), ('r' as u8), ('f' as u8),
             ('o' as u8), ('r' as u8), ('m' as u8), ('e' as u8), ('d' as u8), (' ' as u8),
             ('w' as u8), ('i' as u8), ('t' as u8), ('h' as u8), (':' as u8),
    ]
}

/// Label of the averaging-cycles comment.
pub open spec fn comment_cycles() -> Seq<u8> {
    seq![
             ('#' as u8), (' ' as u8), ('A' as u8), ('v' as u8), ('e' as u8), ('r' as u8),
             ('a' as u8), ('g' as u8), ('i' as u8), ('n' as u8), ('g' as u8), (' ' as u8),
             ('c' as u8), ('y' as u8), ('c' as u8), ('l' as u8), ('e' as u8), ('s' as u8),
             (':' as u8), (' ' as u8),
    ]
}

/// Label of the final-period comment.
pub open spec fn comment_period() -> Seq<u8> {
    seq![
             ('#' as u8), (' ' as u8), ('F' as u8), ('i' as u8), ('n' as u8), ('a' as u8),
             ('l' as u8), (' ' as u8), ('p' as u8), ('e' as u8), ('r' as u8), ('i' as u8),
             ('o' as u8), ('d' as u8), (':' as u8), (' ' as u8),
    ]
}

/// Header of the trailing comment block, as a vector.
fn comment_header_vec() -> (r: Vec<u8>)
    ensures
        r@ == comment_header(),
{
    let mut v: Vec<u8> = Vec::new();
     v.push('#' as u8); v.push(' ' as u8); v.push('C' as u8); v.push('a' as u8);
     v.push('l' as u8); v.push('i' as u8); v.push('b' as u8); v.push('r' as u8);
     v.push('a' as u8); v.push('t' as u8); v.push('i' as u8); v.push('o' as u8);
     v.push('n' as u8); v.push(' ' as u8); v.push('p' as u8); v.push('e' as u8);
     v.push('r' as u8); v.push('f' as u8); v.push('o' as u8); v.push('r' as u8);
     v.push('m' as u8); v.push('e' as u8); v.push('d' as u8); v.push(' ' as u8);
     v.push('w' as u8); v.push('i' as u8); v.push('t' as u8); v.push('h' as u8);
     v.push(':' as u8);
    assert(v@ =~= comment_header());
    v
}

/// Label of the averaging-cycles comment, as a vector.
fn comment_cycles_vec() -> (r: Vec<u8>)
    ensures
        r@ == comment_cycles(),
{
    let mut v: Vec<u8> = Vec::new();
     v.push('#' as u8); v.push(' ' as u8); v.push('A' as u8); v.push('v' as u8);
     v.push('e' as u8); v.push('r' as u8); v.push('a' as u8); v.push('g' as u8);
     v.push('i' as u8); v.push('n' as u8); v.push('g' as u8); v.push(' ' as u8);
     v.push('c' as u8); v.push('y' as u8); v.push('c' as u8); v.push('l' as u8);
     v.push('e' as u8); v.push('s' as u8); v.push(':' as u8); v.push(' ' as u8);
    assert(v@ =~= comment_cycles());
    v
}

/// Label of the final-period comment, as a vector.
fn comment_period_vec() -> (r: Vec<u8>)
    ensures
        r@ == comment_period(),
{
    let mut v: Vec<u8> = Vec::new();
     v.push('#' as u8); v.push(' ' as u8); v.push('F' as u8); v.push('i' as u8);
     v.push('n' as u8); v.push('a' as u8); v.push('l' as u8); v.push(' ' as u8);
     v.push('p' as u8); v.push('e' as u8); v.push('r' as u8); v.push('i' as u8);
     v.push('o' as u8); v.push('d' as u8); v.push(':' as u8); v.push(' ' as u8);
    assert(v@ =~= comment_period());
    v
}

/// The fractional digits of a thousandths value `1..=999`, zero-padded
/// on the left and stripped of trailing zeros (`500` renders `5`,
/// `120` renders `12`, `7` renders `007`).
pub open spec fn frac_digits_of(fr: nat) -> Seq<u8> {
    let d1 = (0x30 + fr / 100) as u8;
    let d2 = (0x30 + (fr / 10) % 10) as u8;
    let d3 = (0x30 + fr % 10) as u8;
    if fr % 10 != 0 {
        seq![d1, d2, d3]
    } else if (fr / 10) % 10 != 0 {
        seq![d1, d2]
    } else {
        seq![d1]
    }
}

/// Decimal rendering of a thousandths value: the integer part, and a
/// point plus minimal fraction digits when the fraction is non-zero.
pub open spec fn milli_digits(m: nat) -> Seq<u8> {
    if m % 1000 == 0 {
        dec_digits(m / 1000)
    } else {
        dec_digits(m / 1000) + seq![('.' as u8)] + frac_digits_of(m % 1000)
    }
}

/// Render a thousandths value as a decimal numeral.
pub fn format_milli(m: u64) -> (r: Vec<u8>)
    ensures
        r@ == milli_digits(m as nat),
{
    let whole: u64 = m / 1000;
    let fr: u64 = m % 1000;
    let mut v = crate::codec::format_u64(whole);
    if fr == 0 {
        assert(v@ =~= milli_digits(m as nat));
        v
    } else {
        v.push('.' as u8);
        let d1: u8 = 0x30 + ((fr / 100) as u8);
        let d2: u8 = 0x30 + (((fr / 10) % 10) as u8);
        let d3: u8 = 0x30 + ((fr % 10) as u8);
        if fr % 10 != 0 {
            v.push(d1);
            v.push(d2);
            v.push(d3);
        } else if (fr / 10) % 10 != 0 {
            v.push(d1);
            v.push(d2);
        } else {
            v.push(d1);
        }
        assert(v@ =~= milli_digits(m as nat));
        v
    }
}

/// Append `piece` to `out`.
fn push_bytes(out: &mut Vec<u8>, piece: &Vec<u8>)
    ensures
        final(out)@ == old(out)@ + piece@,
{
    let mut i: usize = 0;
    while i < piece.len()
        invariant
            0 <= i <= piece@.len(),
            out@ == old(out)@ + piece@.take(i as int),
        decreases piece@.len() - i,
    {
        out.push(piece[i]);
        assert(out@ =~= old(out)@ + piece@.take(i + 1));
        i = i + 1;
    }
    assert(piece@.take(piece@.len() as int) =~= piece@);
}

/// One `KEY value` line.
pub open spec fn out_line(k: ConfigKey, value: Seq<u8>) -> Seq<u8> {
    out_key_bytes(k) + sp() + value + nl()
}

/// The calibrated parameter file: the loaded parameters with the
/// converged speed under `HighSpeed`, the run-only keys left blank for
/// the operator, and a comment block recording how the calibration was
/// performed and the final measured period.
pub open spec fn run_file_bytes(
    p: CalibrateParameters,
    final_speed: u32,
    measured_ms: u64,
) -> Seq<u8> {
    out_line(ConfigKey::HighSpeed, dec_digits(final_speed as nat)) + out_line(
        ConfigKey::LowSpeed,
        dec_digits(p.low_speed as nat),
    ) + out_line(ConfigKey::AccelerationTime, dec_digits(p.acceleration_time as nat)) + out_line(
        ConfigKey::DecelerationTime,
        dec_digits(p.deceleration_time as nat),
    ) + out_line(ConfigKey::IdleTime, dec_digits(p.idle_time as nat)) + out_line(
        ConfigKey::LoadCycles,
        Seq::empty(),
    ) + out_line(ConfigKey::Amplitude, crate::codec::int_digits(p.amplitude as int)) + out_line(
        ConfigKey::Offset,
        Seq::empty(),
    ) + out_line(ConfigKey::Period, milli_digits(p.period_ms as nat)) + out_line(
        ConfigKey::DwellTime,
        milli_digits(p.dwell_ms as nat),
    ) + nl() + nl() + comment_header() + nl() + comment_cycles() + dec_digits(
        p.averaging_cycles as nat,
    ) + nl() + comment_period() + milli_digits(measured_ms as nat) + nl()
}

/// Append one `KEY value` line.
fn push_line(out: &mut Vec<u8>, k: ConfigKey, value: &Vec<u8>)
    ensures
        final(out)@ == old(out)@ + out_line(k, value@),
{
    let key = out_key_vec(k);
    push_bytes(out, &key);
    out.push(' ' as u8);
    push_bytes(out, value);
    out.push(0x0a);
    assert(final(out)@ =~= old(out)@ + out_line(k, value@));
}

/// Render the calibrated parameter file for reuse as a run input.
pub fn render_run_file(p: &CalibrateParameters, final_speed: u32, measured_ms: u64) -> (r: Vec<
    u8,
>)
    ensures
        r@ == run_file_bytes(*p, final_speed, measured_ms),
{
    let mut out: Vec<u8> = Vec::new();
    let empty: Vec<u8> = Vec::new();
    let hs = crate::codec::format_u32(final_speed);
    push_line(&mut out, ConfigKey::HighSpeed, &hs);
    let ls = crate::codec::format_u32(p.low_speed);
    push_line(&mut out, ConfigKey::LowSpeed, &ls);
    let acc = crate::codec::format_u32(p.acceleration_time);
    push_line(&mut out, ConfigKey::AccelerationTime, &acc);
    let dec = crate::codec::format_u32(p.deceleration_time);
    push_line(&mut out, ConfigKey::DecelerationTime, &dec);
    let idle = crate::codec::format_u32(p.idle_time);
    push_line(&mut out, ConfigKey::IdleTime, &idle);
    push_line(&mut out, ConfigKey::LoadCycles, &empty);
    let amp = crate::codec::format_i32(p.amplitude);
    push_line(&mut out, ConfigKey::Amplitude, &amp);
    push_line(&mut out, ConfigKey::Offset, &empty);
    let period = format_milli(p.period_ms);
    push_line(&mut out, ConfigKey::Period, &period);
    let dwell = format_milli(p.dwell_ms);
    push_line(&mut out, ConfigKey::DwellTime, &dwell);
    out.push(0x0a);
    out.push(0x0a);
    let ch = comment_header_vec();
    push_bytes(&mut out, &ch);
    out.push(0x0a);
    let cc = comment_cycles_vec();
    push_bytes(&mut out, &cc);
    let avg = crate::codec::format_u32(p.averaging_cycles);
    push_bytes(&mut out, &avg);
    out.push(0x0a);
    let cp = comment_period_vec();
    push_bytes(&mut out, &cp);
    let fin = format_milli(measured_ms);
    push_bytes(&mut out, &fin);
    out.push(0x0a);
    assert(out@ =~= run_file_bytes(*p, final_speed, measured_ms));
    out
}


/// Value of a one-digit numeral.
proof fn lemma_dec_value_one(d1: u8)
    requires
        is_dec_digit(d1),
    ensures
        dec_value(seq![d1]) == digit_val(d1),
{
    assert(seq![d1].drop_last() =~= Seq::<u8>::empty());
    assert(dec_value(Seq::<u8>::empty()) == 0);
}

/// Value of a two-digit numeral.
proof fn lemma_dec_value_two(d1: u8, d2: u8)
    requires
        is_dec_digit(d1),
        is_dec_digit(d2),
    ensures
        dec_value(seq![d1, d2]) == digit_val(d1) * 10 + digit_val(d2),
{
    lemma_dec_value_one(d1);
    assert(seq![d1, d2].drop_last() =~= seq![d1]);
    assert(seq![d1, d2].last() == d2);
}

/// Value of a three-digit numeral.
proof fn lemma_dec_value_three(d1: u8, d2: u8, d3: u8)
    requires
        is_dec_digit(d1),
        is_dec_digit(d2),
        is_dec_digit(d3),
    ensures
        dec_value(seq![d1, d2, d3]) == (digit_val(d1) * 10 + digit_val(d2)) * 10 + digit_val(d3),
{
    lemma_dec_value_two(d1, d2);
    assert(seq![d1, d2, d3].drop_last() =~= seq![d1, d2]);
    assert(seq![d1, d2, d3].last() == d3);
}

/// The fraction digits of a thousandths remainder read back as that
/// remainder.
proof fn lemma_frac_digits_value(fr: nat)
    requires
        1 <= fr <= 999,
    ensures
        all_dec_digits(frac_digits_of(fr)),
        1 <= frac_digits_of(fr).len() <= 3,
        frac_milli(frac_digits_of(fr)) == fr,
{
    let d1 = (0x30 + fr / 100) as u8;
    let d2 = (0x30 + (fr / 10) % 10) as u8;
    let d3 = (0x30 + fr % 10) as u8;
    vstd::arithmetic::div_mod::lemma_div_denominator(fr as int, 10, 10);
    assert((fr / 10) / 10 == fr / 100);
    vstd::arithmetic::div_mod::lemma_fundamental_div_mod(fr as int, 10);
    vstd::arithmetic::div_mod::lemma_fundamental_div_mod(fr as int / 10, 10);
    assert(fr / 100 <= 9);
    assert(is_dec_digit(d1) && is_dec_digit(d2) && is_dec_digit(d3));
    assert(digit_val(d1) == fr / 100 && digit_val(d2) == (fr / 10) % 10 && digit_val(d3) == fr
        % 10);
    // fr/10 recomposed from its own digit split.
    assert(fr as int / 10 == 10 * (fr as int / 10 / 10) + (fr as int / 10) % 10);
    assert(fr / 10 == (fr / 100) * 10 + (fr / 10) % 10);
    // fr recomposed from its tens and ones.
    assert(fr as int == 10 * (fr as int / 10) + fr as int % 10);
    if fr % 10 != 0 {
        let f = seq![d1, d2, d3];
        assert(frac_digits_of(fr) == f);
        lemma_dec_value_three(d1, d2, d3);
        assert(f.take(3) =~= f);
        assert(frac_milli(f) == (fr / 100 * 10 + (fr / 10) % 10) * 10 + fr % 10);
        assert(frac_milli(f) == fr);
        assert(forall|i: int| 0 <= i < f.len() ==> is_dec_digit(#[trigger] f[i]));
    } else if (fr / 10) % 10 != 0 {
        let f = seq![d1, d2];
        assert(frac_digits_of(fr) == f);
        lemma_dec_value_two(d1, d2);
        assert(frac_milli(f) == (fr / 100 * 10 + (fr / 10) % 10) * 10);
        assert(frac_milli(f) == (fr / 10) * 10);
        assert(frac_milli(f) == fr);
        assert(forall|i: int| 0 <= i < f.len() ==> is_dec_digit(#[trigger] f[i]));
    } else {
        let f = seq![d1];
        assert(frac_digits_of(fr) == f);
        lemma_dec_value_one(d1);
        assert(fr / 10 == fr / 100 * 10);
        assert(fr == fr / 10 * 10);
        assert(frac_milli(f) == fr / 100 * 100);
        assert(fr / 100 * 100 == fr / 100 * 10 * 10) by (nonlinear_arith);
        assert(frac_milli(f) == fr);
        assert(forall|i: int| 0 <= i < f.len() ==> is_dec_digit(#[trigger] f[i]));
    }
}

/// Rendering a thousandths value and parsing it back returns the same
/// value: the numerals of an emitted parameter file reload exactly.
pub proof fn lemma_milli_round_trip(m: u64)
    ensures
        spec_milli(milli_digits(m as nat)) == Some(m),
{
    let n = m as nat;
    let ip = n / 1000;
    let fr = n % 1000;
    crate::codec::lemma_dec_digits_value(ip);
    let ds = dec_digits(ip);
    assert(forall|i: int| 0 <= i < ds.len() ==> #[trigger] ds[i] != ('.' as u8));
    vstd::arithmetic::div_mod::lemma_fundamental_div_mod(n as int, 1000);
    assert(n == ip * 1000 + fr) by (nonlinear_arith)
        requires
            n as int == 1000 * (n as int / 1000) + n as int % 1000,
            ip == n / 1000,
            fr == n % 1000,
    ;
    if fr == 0 {
        let md = milli_digits(n);
        assert(md == ds);
        crate::codec::lemma_prefix_len_until_is(ds, ('.' as u8), ds.len() as int);
        assert(dot_pos(md) == md.len());
        assert(md.take(md.len() as int) =~= md);
        assert(milli_wf(md));
        assert(milli_value(md) == ip * 1000);
        assert(milli_value(md) == n);
    } else {
        lemma_frac_digits_value(fr);
        let fs = frac_digits_of(fr);
        let md = milli_digits(n);
        assert(md == ds + seq![('.' as u8)] + fs);
        let d = ds.len() as int;
        assert(forall|i: int| 0 <= i < d ==> md[i] == #[trigger] ds[i]);
        assert(md[d] == ('.' as u8));
        crate::codec::lemma_prefix_len_until_is(md, ('.' as u8), d);
        assert(dot_pos(md) == d);
        assert(md.take(d) =~= ds);
        assert(md.skip(d + 1) =~= fs);
        assert(milli_wf(md));
        assert(milli_value(md) == ip * 1000 + frac_milli(fs));
        assert(milli_value(md) == n);
    }
    assert(n <= u64::MAX);
}

} // verus!




