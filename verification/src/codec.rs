//! Pure wire codec for the controller's ASCII protocol.
//!
//! A command is an uppercase ASCII mnemonic, optionally `=value`, closed
//! by a single NUL byte. A response is the ASCII text up to the first
//! NUL of the raw read buffer; a leading `?` means the command was not
//! understood.

use vstd::prelude::*;

verus! {

// ---------------------------------------------------------------------
// Decimal rendering
// ---------------------------------------------------------------------

/// Decimal digits of `n`, most significant first, as ASCII bytes.
pub open spec fn dec_digits(n: nat) -> Seq<u8>
    decreases n,
{
    if n < 10 {
        seq![(0x30 + n) as u8]
    } else {
        dec_digits(n / 10) + seq![(0x30 + n % 10) as u8]
    }
}

/// ASCII rendering of a possibly negative integer: a `-` sign followed
/// by the digits of its magnitude.
pub open spec fn int_digits(n: int) -> Seq<u8> {
    if n < 0 {
        seq![('-' as u8)] + dec_digits((-n) as nat)
    } else {
        dec_digits(n as nat)
    }
}

/// Every byte of a decimal rendering is an ASCII digit.
pub proof fn lemma_dec_digits_are_digits(n: nat)
    ensures
        forall|i: int| 0 <= i < dec_digits(n).len() ==> is_dec_digit(#[trigger] dec_digits(n)[i]),
    decreases n,
{
    if n >= 10 {
        lemma_dec_digits_are_digits(n / 10);
        assert forall|i: int| 0 <= i < dec_digits(n).len() implies is_dec_digit(
            #[trigger] dec_digits(n)[i],
        ) by {
            if i < dec_digits(n / 10).len() {
                assert(dec_digits(n)[i] == dec_digits(n / 10)[i]);
            } else {
                assert(dec_digits(n)[i] == (0x30 + n % 10) as u8);
            }
        }
    }
}

/// Digits of `n` as a vector, most significant first.
pub fn format_u32(n: u32) -> (r: Vec<u8>)
    ensures
        r@ == dec_digits(n as nat),
    decreases n,
{
    if n < 10 {
        let mut v: Vec<u8> = Vec::new();
        v.push(0x30 + (n as u8));
        v
    } else {
        let mut v = format_u32(n / 10);
        v.push(0x30 + ((n % 10) as u8));
        v
    }
}

/// Digits of `n` as a vector, most significant first.
pub fn format_u64(n: u64) -> (r: Vec<u8>)
    ensures
        r@ == dec_digits(n as nat),
    decreases n,
{
    if n < 10 {
        let mut v: Vec<u8> = Vec::new();
        v.push(0x30 + (n as u8));
        v
    } else {
        let mut v = format_u64(n / 10);
        v.push(0x30 + ((n % 10) as u8));
        v
    }
}

/// Reading the digits of `n` back gives `n`: decimal rendering and
/// decimal value are inverse.
pub proof fn lemma_dec_digits_value(n: nat)
    ensures
        dec_value(dec_digits(n)) == n,
        dec_digits(n).len() > 0,
        all_dec_digits(dec_digits(n)),
    decreases n,
{
    lemma_dec_digits_are_digits(n);
    if n < 10 {
        let s = dec_digits(n);
        assert(s.drop_last() =~= Seq::<u8>::empty());
        assert(s.last() == (0x30 + n) as u8);
        assert(digit_val((0x30 + n) as u8) == n);
        assert(dec_value(s) == dec_value(s.drop_last()) * 10 + digit_val(s.last()));
        assert(dec_value(s.drop_last()) == 0);
    } else {
        lemma_dec_digits_value(n / 10);
        let s = dec_digits(n);
        assert(s.drop_last() =~= dec_digits(n / 10));
        assert(s.last() == (0x30 + n % 10) as u8);
        assert(digit_val((0x30 + n % 10) as u8) == n % 10);
        assert(dec_value(s) == (n / 10) * 10 + n % 10);
        assert((n / 10) * 10 + n % 10 == n) by (nonlinear_arith);
    }
}

/// ASCII rendering of `n`, with a leading `-` when negative.
pub fn format_i32(n: i32) -> (r: Vec<u8>)
    ensures
        r@ == int_digits(n as int),
{
    if n < 0 {
        let mag: u32 = (-(n as i64)) as u32;
        let mut v: Vec<u8> = Vec::new();
        v.push('-' as u8);
        let mut digits = format_u32(mag);
        v.append(&mut digits);
        assert(v@ == int_digits(n as int));
        v
    } else {
        format_u32(n as u32)
    }
}

// ---------------------------------------------------------------------
// Command framing
// ---------------------------------------------------------------------

/// The bytes of a `KEY=value` command, NUL-terminated.
pub open spec fn set_command(key: Seq<u8>, value: int) -> Seq<u8> {
    key + seq![('=' as u8)] + int_digits(value) + seq![0u8]
}

/// The bytes of a bare `KEY` query command, NUL-terminated.
pub open spec fn bare_command(key: Seq<u8>) -> Seq<u8> {
    key + seq![0u8]
}

/// The bytes of a relative/absolute move command: `X` followed by the
/// signed target, NUL-terminated.
pub open spec fn move_command(value: int) -> Seq<u8> {
    seq![('X' as u8)] + int_digits(value) + seq![0u8]
}

/// A well-framed wire command: non-empty, closed by exactly one NUL,
/// with no NUL anywhere before the terminator.
pub open spec fn wire_terminated(c: Seq<u8>) -> bool {
    &&& c.len() > 0
    &&& c.last() == 0u8
    &&& forall|i: int| 0 <= i < c.len() - 1 ==> c[i] != 0u8
}

/// A protocol mnemonic: non-empty and free of NUL bytes.
pub open spec fn key_wf(key: Seq<u8>) -> bool {
    key.len() > 0 && forall|i: int| 0 <= i < key.len() ==> key[i] != 0u8
}

/// Commands built from a well-formed mnemonic and a numeric argument end
/// with exactly one NUL and hold no NUL before the terminator.
pub proof fn lemma_set_command_terminated(key: Seq<u8>, value: int)
    requires
        key_wf(key),
    ensures
        wire_terminated(set_command(key, value)),
{
    lemma_int_digits_no_nul(value);
}

/// Bare query commands are NUL-terminated the same way.
pub proof fn lemma_bare_command_terminated(key: Seq<u8>)
    requires
        key_wf(key),
    ensures
        wire_terminated(bare_command(key)),
{
}

/// Move commands are NUL-terminated the same way.
pub proof fn lemma_move_command_terminated(value: int)
    ensures
        wire_terminated(move_command(value)),
{
    lemma_int_digits_no_nul(value);
}

/// The rendering of an integer never holds a NUL byte.
pub proof fn lemma_int_digits_no_nul(value: int)
    ensures
        forall|i: int| 0 <= i < int_digits(value).len() ==> int_digits(value)[i] != 0u8,
{
    if value < 0 {
        lemma_dec_digits_are_digits((-value) as nat);
        assert(forall|i: int|
            0 <= i < dec_digits((-value) as nat).len() ==> int_digits(value)[i + 1] == #[trigger] dec_digits(
                (-value) as nat,
            )[i]);
    } else {
        lemma_dec_digits_are_digits(value as nat);
    }
}

/// `key` + `=` + digits of `value` + NUL, as a vector.
pub fn build_set_command(key: &Vec<u8>, value: i32) -> (r: Vec<u8>)
    ensures
        r@ == set_command(key@, value as int),
{
    let mut r: Vec<u8> = Vec::new();
    let mut i: usize = 0;
    while i < key.len()
        invariant
            0 <= i <= key@.len(),
            r@ == key@.take(i as int),
        decreases key@.len() - i,
    {
        r.push(key[i]);
        i = i + 1;
    }
    assert(r@ == key@);
    r.push('=' as u8);
    let mut digits = format_i32(value);
    r.append(&mut digits);
    r.push(0u8);
    assert(r@ =~= set_command(key@, value as int));
    r
}

/// `key` + `=` + digits of an unsigned `value` + NUL, as a vector.
pub fn build_set_command_u32(key: &Vec<u8>, value: u32) -> (r: Vec<u8>)
    ensures
        r@ == set_command(key@, value as int),
{
    let mut r: Vec<u8> = Vec::new();
    let mut i: usize = 0;
    while i < key.len()
        invariant
            0 <= i <= key@.len(),
            r@ == key@.take(i as int),
        decreases key@.len() - i,
    {
        r.push(key[i]);
        i = i + 1;
    }
    assert(r@ == key@);
    r.push('=' as u8);
    let mut digits = format_u32(value);
    r.append(&mut digits);
    r.push(0u8);
    assert(r@ =~= set_command(key@, value as int));
    r
}

/// `key` + NUL, as a vector.
pub fn build_bare_command(key: &Vec<u8>) -> (r: Vec<u8>)
    ensures
        r@ == bare_command(key@),
{
    let mut r: Vec<u8> = Vec::new();
    let mut i: usize = 0;
    while i < key.len()
        invariant
            0 <= i <= key@.len(),
            r@ == key@.take(i as int),
        decreases key@.len() - i,
    {
        r.push(key[i]);
        i = i + 1;
    }
    assert(r@ == key@);
    r.push(0u8);
    assert(r@ =~= bare_command(key@));
    r
}

/// `X` + signed target + NUL, as a vector.
pub fn build_move_command(value: i32) -> (r: Vec<u8>)
    ensures
        r@ == move_command(value as int),
{
    let mut r: Vec<u8> = Vec::new();
    r.push('X' as u8);
    let mut digits = format_i32(value);
    r.append(&mut digits);
    r.push(0u8);
    assert(r@ =~= move_command(value as int));
    r
}

// ---------------------------------------------------------------------
// Response extraction
// ---------------------------------------------------------------------

/// Number of bytes of `s` strictly before the first occurrence of `t`
/// (the whole length when `t` does not occur).
pub open spec fn prefix_len_until(s: Seq<u8>, t: u8) -> int
    decreases s.len(),
{
    if s.len() == 0 {
        0
    } else if s[0] == t {
        0
    } else {
        1 + prefix_len_until(s.drop_first(), t)
    }
}

/// `prefix_len_until` really is the index of the first occurrence.
pub proof fn lemma_prefix_len_until(s: Seq<u8>, t: u8)
    ensures
        0 <= prefix_len_until(s, t) <= s.len(),
        forall|i: int| 0 <= i < prefix_len_until(s, t) ==> s[i] != t,
        prefix_len_until(s, t) < s.len() ==> s[prefix_len_until(s, t)] == t,
    decreases s.len(),
{
    if s.len() > 0 && s[0] != t {
        lemma_prefix_len_until(s.drop_first(), t);
        assert forall|i: int| 0 <= i < prefix_len_until(s, t) implies s[i] != t by {
            if i > 0 {
                assert(s[i] == s.drop_first()[i - 1]);
            }
        }
    }
}

/// Conversely: an index below which `t` never occurs, and at which it
/// occurs (or the sequence ends), is the scan length.
pub proof fn lemma_prefix_len_until_is(s: Seq<u8>, t: u8, n: int)
    requires
        0 <= n <= s.len(),
        forall|i: int| 0 <= i < n ==> s[i] != t,
        n < s.len() ==> s[n] == t,
    ensures
        prefix_len_until(s, t) == n,
    decreases s.len(),
{
    if s.len() > 0 && s[0] != t {
        lemma_prefix_len_until_is(s.drop_first(), t, n - 1);
    }
}

/// The response held in a raw read buffer: the bytes up to (and not
/// including) the first NUL. Everything after that NUL is garbage left
/// over from earlier exchanges and never reaches a caller.
pub open spec fn response_of(raw: Seq<u8>) -> Seq<u8> {
    raw.take(prefix_len_until(raw, 0u8))
}

/// Index of the first occurrence of `t` in `s`, or `s.len()` if absent.
pub fn find_first(s: &Vec<u8>, t: u8) -> (n: usize)
    ensures
        n == prefix_len_until(s@, t),
{
    let mut i: usize = 0;
    while i < s.len()
        invariant
            0 <= i <= s@.len(),
            forall|j: int| 0 <= j < i ==> s@[j] != t,
        decreases s@.len() - i,
    {
        if s[i] == t {
            proof {
                lemma_prefix_len_until_is(s@, t, i as int);
            }
            return i;
        }
        i = i + 1;
    }
    proof {
        lemma_prefix_len_until_is(s@, t, s@.len() as int);
    }
    i
}

/// Copy of the response bytes of a raw read buffer.
pub fn extract_response(raw: &Vec<u8>) -> (r: Vec<u8>)
    ensures
        r@ == response_of(raw@),
{
    let n = find_first(raw, 0u8);
    proof {
        lemma_prefix_len_until(raw@, 0u8);
    }
    let mut r: Vec<u8> = Vec::new();
    let mut i: usize = 0;
    while i < n
        invariant
            0 <= i <= n <= raw@.len(),
            r@ == raw@.take(i as int),
        decreases n - i,
    {
        r.push(raw[i]);
        i = i + 1;
    }
    assert(r@ == response_of(raw@));
    r
}

/// Extraction reads only the bytes before the first NUL: the response is
/// a NUL-free prefix of the buffer, stopped by a NUL when one exists.
/// Being a function of the buffer alone, extracting the same buffer
/// twice necessarily yields the same response.
pub proof fn lemma_response_prefix(raw: Seq<u8>)
    ensures
        response_of(raw).len() <= raw.len(),
        forall|i: int|
            0 <= i < response_of(raw).len() ==> #[trigger] response_of(raw)[i] == raw[i] && raw[i]
                != 0u8,
        response_of(raw).len() < raw.len() ==> raw[response_of(raw).len() as int] == 0u8,
{
    lemma_prefix_len_until(raw, 0u8);
}

/// Bytes after the first NUL never matter: any buffer that agrees with
/// `a` up to and including `a`'s first NUL extracts to the same response.
pub proof fn lemma_response_ignores_tail(a: Seq<u8>, b: Seq<u8>)
    requires
        prefix_len_until(a, 0u8) < a.len(),
        prefix_len_until(a, 0u8) < b.len(),
        forall|i: int| 0 <= i <= prefix_len_until(a, 0u8) ==> a[i] == b[i],
    ensures
        response_of(b) == response_of(a),
{
    lemma_prefix_len_until(a, 0u8);
    lemma_prefix_len_until_is(b, 0u8, prefix_len_until(a, 0u8));
    assert(response_of(b) =~= response_of(a));
}

/// A response whose first byte is `?` reports a command the device did
/// not understand.
pub open spec fn is_rejected(resp: Seq<u8>) -> bool {
    resp.len() > 0 && resp[0] == ('?' as u8)
}

/// Whether the device rejected the command that produced `resp`.
pub fn response_rejected(resp: &Vec<u8>) -> (r: bool)
    ensures
        r == is_rejected(resp@),
{
    resp.len() > 0 && resp[0] == ('?' as u8)
}

// ---------------------------------------------------------------------
// Numeric parsing
// ---------------------------------------------------------------------

/// ASCII decimal digit.
pub open spec fn is_dec_digit(b: u8) -> bool {
    0x30 <= b && b <= 0x39
}

/// Every byte an ASCII decimal digit.
pub open spec fn all_dec_digits(s: Seq<u8>) -> bool {
    forall|i: int| 0 <= i < s.len() ==> is_dec_digit(#[trigger] s[i])
}

/// Numeric value of one digit byte (0 for anything below `0`).
pub open spec fn digit_val(b: u8) -> nat {
    if 0x30 <= b {
        (b - 0x30) as nat
    } else {
        0
    }
}

/// Value of an unsigned decimal numeral, most significant digit first.
pub open spec fn dec_value(s: Seq<u8>) -> nat
    decreases s.len(),
{
    if s.len() == 0 {
        0
    } else {
        dec_value(s.drop_last()) * 10 + digit_val(s.last())
    }
}

/// One more digit multiplies the prefix value by ten.
pub proof fn lemma_dec_value_extend(s: Seq<u8>, i: int)
    requires
        0 <= i < s.len(),
    ensures
        dec_value(s.take(i + 1)) == dec_value(s.take(i)) * 10 + digit_val(s[i]),
{
    assert(s.take(i + 1).drop_last() =~= s.take(i));
    assert(s.take(i + 1).last() == s[i]);
}

/// Appending digits never decreases the value.
pub proof fn lemma_dec_value_mono(s: Seq<u8>, i: int)
    requires
        0 <= i <= s.len(),
    ensures
        dec_value(s) >= dec_value(s.take(i)),
    decreases s.len() - i,
{
    if i < s.len() {
        lemma_dec_value_extend(s, i);
        let a = dec_value(s.take(i));
        assert(a * 10 >= a) by (nonlinear_arith)
            requires
                a >= 0,
        ;
        lemma_dec_value_mono(s, i + 1);
    } else {
        assert(s.take(i) =~= s);
    }
}

/// Magnitude parser: decimal digits starting at `start`, as a `u64`.
fn parse_mag(s: &Vec<u8>, start: usize) -> (r: Option<u64>)
    requires
        start <= s@.len(),
    ensures
        match r {
            Some(v) => {
                &&& s@.len() > start
                &&& all_dec_digits(s@.skip(start as int))
                &&& dec_value(s@.skip(start as int)) == v as nat
            },
            None => {
                ||| s@.len() == start
                ||| !all_dec_digits(s@.skip(start as int))
                ||| dec_value(s@.skip(start as int)) > u64::MAX
            },
        },
{
    let ghost t = s@.skip(start as int);
    if start == s.len() {
        return None;
    }
    let mut acc: u64 = 0;
    let mut i: usize = start;
    while i < s.len()
        invariant
            start <= i <= s@.len(),
            t == s@.skip(start as int),
            all_dec_digits(t.take(i - start)),
            acc as nat == dec_value(t.take(i - start)),
        decreases s@.len() - i,
    {
        let b = s[i];
        if b < 0x30 || b > 0x39 {
            assert(t[i - start] == s@[i as int]);
            return None;
        }
        let d: u64 = (b - 0x30) as u64;
        if acc > (u64::MAX - d) / 10 {
            proof {
                let j = i - start;
                lemma_dec_value_extend(t, j);
                assert(dec_value(t.take(j + 1)) == acc as nat * 10 + d);
                assert(acc as nat * 10 + d > u64::MAX) by (nonlinear_arith)
                    requires
                        acc > (u64::MAX - d) / 10,
                        d <= 9,
                ;
                lemma_dec_value_mono(t, j + 1);
            }
            return None;
        }
        proof {
            lemma_dec_value_extend(t, i - start);
            assert(t[i - start] == s@[i as int]);
        }
        acc = acc * 10 + d;
        i = i + 1;
    }
    assert(t.take(s@.len() - start) =~= t);
    Some(acc)
}

/// Parse an unsigned decimal numeral into a `u32`. Returns `Some` iff
/// the input is a non-empty run of digits whose value fits.
pub fn parse_u32(s: &Vec<u8>) -> (r: Option<u32>)
    ensures
        match r {
            Some(v) => {
                &&& s@.len() > 0
                &&& all_dec_digits(s@)
                &&& dec_value(s@) == v as nat
            },
            None => {
                ||| s@.len() == 0
                ||| !all_dec_digits(s@)
                ||| dec_value(s@) > u32::MAX
            },
        },
{
    assert(s@.skip(0) =~= s@);
    match parse_mag(s, 0) {
        Some(v) => if v <= u32::MAX as u64 {
            Some(v as u32)
        } else {
            None
        },
        None => None,
    }
}

/// The `u32` a numeral denotes, when it is a non-empty run of digits
/// whose value fits.
pub open spec fn spec_u32(s: Seq<u8>) -> Option<u32> {
    if s.len() > 0 && all_dec_digits(s) && dec_value(s) <= u32::MAX {
        Some(dec_value(s) as u32)
    } else {
        None
    }
}

/// Well-formed signed decimal numeral: an optional `-` sign followed by
/// at least one digit.
pub open spec fn signed_wf(s: Seq<u8>) -> bool {
    if s.len() > 0 && s[0] == ('-' as u8) {
        s.len() > 1 && all_dec_digits(s.skip(1))
    } else {
        s.len() > 0 && all_dec_digits(s)
    }
}

/// Value of a signed decimal numeral.
pub open spec fn signed_value(s: Seq<u8>) -> int {
    if s.len() > 0 && s[0] == ('-' as u8) {
        -(dec_value(s.skip(1)) as int)
    } else {
        dec_value(s) as int
    }
}

/// The `i32` a numeral denotes, when it is well formed and fits.
pub open spec fn spec_i32(s: Seq<u8>) -> Option<i32> {
    if signed_wf(s) && i32::MIN <= signed_value(s) <= i32::MAX {
        Some(signed_value(s) as i32)
    } else {
        None
    }
}

/// Parse a signed decimal numeral into an `i32`. Returns `Some` iff the
/// input is well formed and its value fits.
pub fn parse_i32(s: &Vec<u8>) -> (r: Option<i32>)
    ensures
        match r {
            Some(v) => signed_wf(s@) && signed_value(s@) == v as int,
            None => {
                ||| !signed_wf(s@)
                ||| signed_value(s@) < i32::MIN
                ||| signed_value(s@) > i32::MAX
            },
        },
{
    if s.len() > 0 && s[0] == ('-' as u8) {
        match parse_mag(s, 1) {
            Some(v) => if v <= 2147483648u64 {
                Some((-(v as i64)) as i32)
            } else {
                None
            },
            None => None,
        }
    } else {
        assert(s@.skip(0) =~= s@);
        match parse_mag(s, 0) {
            Some(v) => if v <= i32::MAX as u64 {
                Some(v as i32)
            } else {
                None
            },
            None => None,
        }
    }
}


// ---------------------------------------------------------------------
// Interactive commands
// ---------------------------------------------------------------------

/// Whitespace trimmed from an interactive line: space, tab, carriage
/// return or newline.
pub open spec fn is_line_ws(b: u8) -> bool {
    b == 0x20 || b == 0x09 || b == 0x0d || b == 0x0a
}

/// The line with leading and trailing whitespace removed.
pub open spec fn trim_ws(s: Seq<u8>) -> Seq<u8>
    decreases s.len(),
{
    if s.len() == 0 {
        s
    } else if is_line_ws(s[0]) {
        trim_ws(s.drop_first())
    } else if is_line_ws(s.last()) {
        trim_ws(s.drop_last())
    } else {
        s
    }
}

/// Upper-case image of one ASCII byte.
pub open spec fn upper_byte(b: u8) -> u8 {
    if 0x61 <= b <= 0x7a {
        (b - 0x20) as u8
    } else {
        b
    }
}

/// Upper-case image of a byte sequence.
pub open spec fn upper_seq(s: Seq<u8>) -> Seq<u8> {
    s.map_values(|b: u8| upper_byte(b))
}

/// The interactive exit word, `EXIT`.
pub open spec fn exit_bytes() -> Seq<u8> {
    seq![('E' as u8), ('X' as u8), ('I' as u8), ('T' as u8)]
}

/// What an interactive input line asks for.
#[derive(Debug, PartialEq, Eq)]
pub enum InteractiveAction {
    /// The operator typed `EXIT` (in any case): leave interactive mode.
    Exit,
    /// Exchange the contained framed command with the device.
    Send(Vec<u8>),
}

/// A trimmed, non-whitespace span: everything before `l` and after `r`
/// is whitespace, and the ends (when the span is non-empty) are not.
proof fn lemma_trim_ws_at(s: Seq<u8>, l: int, r: int)
    requires
        0 <= l <= r <= s.len(),
        forall|j: int| 0 <= j < l ==> is_line_ws(s[j]),
        forall|j: int| r <= j < s.len() ==> is_line_ws(s[j]),
        l < r ==> !is_line_ws(s[l]) && !is_line_ws(s[r - 1]),
        l == r ==> l == 0 || r == s.len(),
    ensures
        trim_ws(s) =~= s.subrange(l, r),
    decreases s.len(),
{
    if s.len() == 0 {
    } else if is_line_ws(s[0]) {
        assert(l > 0 || (l == 0 && l < r && !is_line_ws(s[0])) || (l == 0 && l == r));
        if l == 0 && l == r {
            // The whole line is whitespace: r == s.len() is impossible
            // unless everything is whitespace, and then both sides are
            // empty.
            assert(r == 0 || r == s.len());
            if r == 0 {
                let t = s.drop_first();
                assert(forall|j: int| 0 <= j < t.len() ==> is_line_ws(#[trigger] t[j]));
                lemma_trim_ws_at(t, 0, 0);
                assert(s.subrange(0, 0) =~= t.subrange(0, 0));
            } else {
                let t = s.drop_first();
                assert(forall|j: int| 0 <= j < t.len() ==> is_line_ws(#[trigger] t[j]));
                lemma_trim_ws_at(t, t.len() as int, t.len() as int);
                assert(s.subrange(l, r) =~= t.subrange(t.len() as int, t.len() as int));
            }
        } else {
            let t = s.drop_first();
            assert(forall|j: int| 0 <= j < l - 1 ==> is_line_ws(#[trigger] t[j]));
            assert(forall|j: int| r - 1 <= j < t.len() ==> is_line_ws(#[trigger] t[j]));
            lemma_trim_ws_at(t, l - 1, r - 1);
            assert(t.subrange(l - 1, r - 1) =~= s.subrange(l, r));
        }
    } else if is_line_ws(s.last()) {
        assert(r < s.len());
        let t = s.drop_last();
        assert(forall|j: int| 0 <= j < l ==> is_line_ws(#[trigger] t[j]));
        assert(forall|j: int| r <= j < t.len() ==> is_line_ws(#[trigger] t[j]));
        lemma_trim_ws_at(t, l, r);
        assert(t.subrange(l, r) =~= s.subrange(l, r));
    } else {
        assert(l == 0 && r == s.len());
        assert(s.subrange(0, s.len() as int) =~= s);
    }
}

/// Whether a byte counts as line whitespace.
fn byte_is_line_ws(b: u8) -> (r: bool)
    ensures
        r == is_line_ws(b),
{
    b == 0x20 || b == 0x09 || b == 0x0d || b == 0x0a
}

/// Trimmed copy of a line.
pub fn trim_line(line: &Vec<u8>) -> (r: Vec<u8>)
    ensures
        r@ == trim_ws(line@),
{
    let n = line.len();
    let mut l: usize = 0;
    while l < n && byte_is_line_ws(line[l])
        invariant
            0 <= l <= n == line@.len(),
            forall|j: int| 0 <= j < l ==> is_line_ws(line@[j]),
        decreases n - l,
    {
        l = l + 1;
    }
    let mut r: usize = n;
    while r > l && byte_is_line_ws(line[r - 1])
        invariant
            l <= r <= n == line@.len(),
            forall|j: int| r <= j < n ==> is_line_ws(line@[j]),
        decreases r,
    {
        r = r - 1;
    }
    proof {
        if l == r && l < n {
            assert(is_line_ws(line@[l as int]));
            assert(false);
        }
        lemma_trim_ws_at(line@, l as int, r as int);
    }
    let mut out: Vec<u8> = Vec::new();
    let mut i: usize = l;
    while i < r
        invariant
            l <= i <= r <= line@.len(),
            out@ == line@.subrange(l as int, i as int),
        decreases r - i,
    {
        out.push(line[i]);
        assert(out@ =~= line@.subrange(l as int, i + 1));
        i = i + 1;
    }
    out
}

/// Upper-case copy of a byte vector.
pub fn to_upper_vec(v: &Vec<u8>) -> (r: Vec<u8>)
    ensures
        r@ == upper_seq(v@),
{
    let mut r: Vec<u8> = Vec::new();
    let mut i: usize = 0;
    while i < v.len()
        invariant
            0 <= i <= v@.len(),
            r@ == upper_seq(v@.take(i as int)),
        decreases v@.len() - i,
    {
        let b = v[i];
        if 0x61 <= b && b <= 0x7a {
            r.push(b - 0x20);
        } else {
            r.push(b);
        }
        assert(r@ =~= upper_seq(v@.take(i + 1)));
        i = i + 1;
    }
    assert(v@.take(v@.len() as int) =~= v@);
    r
}

/// Normalize one interactive input line: trim it, raise it to upper
/// case, and either recognize the exit word or frame the command with
/// its NUL terminator, exactly as it will go onto the wire.
pub fn interactive_action(line: &Vec<u8>) -> (r: InteractiveAction)
    ensures
        upper_seq(trim_ws(line@)) == exit_bytes() ==> r == InteractiveAction::Exit,
        upper_seq(trim_ws(line@)) != exit_bytes() ==> (r matches InteractiveAction::Send(c) && c@
            == bare_command(upper_seq(trim_ws(line@)))),
{
    let trimmed = trim_line(line);
    let upper = to_upper_vec(&trimmed);
    let is_exit = upper.len() == 4 && upper[0] == ('E' as u8) && upper[1] == ('X' as u8)
        && upper[2] == ('I' as u8) && upper[3] == ('T' as u8);
    proof {
        if is_exit {
            assert(upper@ =~= exit_bytes());
        } else {
            assert(exit_bytes().len() == 4);
            assert(exit_bytes()[0] == ('E' as u8) && exit_bytes()[1] == ('X' as u8) && exit_bytes()[2]
                == ('I' as u8) && exit_bytes()[3] == ('T' as u8));
        }
    }
    if is_exit {
        InteractiveAction::Exit
    } else {
        InteractiveAction::Send(build_bare_command(&upper))
    }
}

// ---------------------------------------------------------------------
// Responses as text
// ---------------------------------------------------------------------

/// The characters of an ASCII byte sequence, one per byte.
pub open spec fn ascii_chars(s: Seq<u8>) -> Seq<char> {
    Seq::new(s.len(), |i: int| s[i] as char)
}

/// Every byte below `0x80`.
pub open spec fn all_ascii(s: Seq<u8>) -> bool {
    forall|i: int| 0 <= i < s.len() ==> s[i] < 0x80
}

/// Relies on String::from_utf8: ASCII bytes are valid UTF-8 and decode
/// to one character per byte.
#[verifier::external_body]
fn string_from_ascii(bytes: Vec<u8>) -> (r: Option<String>)
    ensures
        match r {
            Some(s) => all_ascii(bytes@) ==> s@ == ascii_chars(bytes@),
            None => !all_ascii(bytes@),
        },
{
    match String::from_utf8(bytes) {
        Ok(s) => Some(s),
        Err(_) => None,
    }
}

/// Whether every byte of `v` is ASCII.
pub fn is_all_ascii(v: &Vec<u8>) -> (r: bool)
    ensures
        r == all_ascii(v@),
{
    let mut i: usize = 0;
    while i < v.len()
        invariant
            0 <= i <= v@.len(),
            forall|j: int| 0 <= j < i ==> v@[j] < 0x80,
        decreases v@.len() - i,
    {
        if v[i] >= 0x80 {
            return false;
        }
        i = i + 1;
    }
    true
}

/// The text of a raw read buffer: the bytes before the first NUL,
/// decoded as ASCII. A response holding non-ASCII bytes breaks the
/// protocol contract and is refused.
pub fn byte_vec_to_string(byte_vec: &Vec<u8>) -> (r: Result<String, crate::error::StageError>)
    ensures
        all_ascii(response_of(byte_vec@)) <==> r is Ok,
        r matches Ok(s) ==> s@ == ascii_chars(response_of(byte_vec@)),
        r matches Err(e) ==> e == crate::error::StageError::ResponseParseFailed,
{
    let resp = extract_response(byte_vec);
    if !is_all_ascii(&resp) {
        return Err(crate::error::StageError::ResponseParseFailed);
    }
    match string_from_ascii(resp) {
        Some(s) => Ok(s),
        None => Err(crate::error::StageError::ResponseParseFailed),
    }
}

/// The text of a raw read buffer whose response is known to be ASCII.
pub fn _extract_response_from_raw_output(output: &Vec<u8>) -> (r: String)
    requires
        all_ascii(response_of(output@)),
    ensures
        r@ == ascii_chars(response_of(output@)),
{
    let resp = extract_response(output);
    match string_from_ascii(resp) {
        Some(s) => s,
        None => {
            // Unreachable: the response is ASCII by precondition.
            proof {
                assert(false);
            }
            String::new()
        },
    }
}

} // verus!

