//! What the node reports, and how amounts and ages are written and read.

use crate::clock::unix_now;
use crate::text::{
    all_digit_chars, all_digits, chars_of, decimal, decimal_string, digit_char, digit_to_char, digit_value,
    digits_value, is_digit, is_space, lemma_decimal_reads_back, lemma_digits_value_bound,
    parse_u64, parse_u64_chars, pow10, string_of, strip, strip_at, strip_end, strip_end_at,
    strip_start, Strip,
};
use vstd::prelude::*;
use vstd::string::StringExecFns;

verus! {

/// Node and chain status.
#[derive(Debug, Clone)]
pub struct DaemonStats {
    pub peer_id: String,
    pub peers: u32,
    pub chain_height: u64,
    pub best_hash: String,
    pub total_work: u64,
    pub mempool_size: u32,
    pub mempool_bytes: u64,
    pub syncing: bool,
    pub sync_progress: u64,
    pub sync_target: u64,
    pub sync_percent: Option<String>,
    pub identity_age: String,
}

/// Mempool totals. The average fee is held in whole atomic units.
#[derive(Debug, Clone)]
pub struct MempoolStats {
    pub count: u32,
    pub size_bytes: u64,
    pub min_fee: u64,
    pub max_fee: u64,
    pub avg_fee: u64,
}

/// Wallet balance, in atomic units.
#[derive(Debug, Clone)]
pub struct BalanceResponse {
    pub spendable: u64,
    pub pending: u64,
    pub total: u64,
    pub outputs_total: u32,
    pub outputs_unspent: u32,
    pub chain_height: u64,
}

/// The wallet's receiving address.
#[derive(Debug, Clone)]
pub struct AddressResponse {
    pub address: String,
}

/// Miner status. The hash rate is carried as the bit pattern of the
/// reported double-precision number and is never interpreted here.
#[derive(Debug, Clone)]
pub struct MiningStatus {
    pub running: bool,
    pub threads: u32,
    pub hashrate_bits: u64,
    pub hash_count: u64,
    pub blocks_found: u64,
    pub started_at: Option<String>,
}

/// One transaction of a block, summarised.
#[derive(Debug, Clone)]
pub struct BlockTransaction {
    pub hash: String,
    pub fee: u64,
    pub inputs: u32,
    pub outputs: u32,
    pub is_coinbase: bool,
}

/// A block as fetched by height. Never changed once stored.
#[derive(Debug, Clone)]
pub struct BlockResponse {
    pub height: u64,
    pub hash: String,
    pub timestamp: u64,
    pub difficulty: u64,
    pub tx_count: u32,
    pub confirmations: u64,
    pub reward: u64,
    pub transactions: Vec<BlockTransaction>,
}

/// Atomic units in one BNT.
pub const ATOMIC_PER_BNT: u64 = 100_000_000;

/// Digits after the decimal point of a BNT amount.
pub const FRACTION_DIGITS: usize = 8;

/// The low `width` decimal digits of `n`, zero-padded on the left.
pub open spec fn padded_decimal(n: nat, width: nat) -> Seq<char>
    decreases width,
{
    if width == 0 {
        Seq::empty()
    } else {
        padded_decimal(n / 10, (width - 1) as nat).push(digit_char(n % 10))
    }
}

/// The fractional digits of an amount: eight digits with the trailing
/// zeros dropped, but never fewer than one digit.
pub open spec fn fraction_text(frac: nat) -> Seq<char> {
    if frac == 0 {
        seq!['0']
    } else {
        strip_end(padded_decimal(frac, FRACTION_DIGITS as nat), Strip::Only('0'))
    }
}

/// An atomic amount in BNT, without the unit.
pub open spec fn amount_text(atomic: u64) -> Seq<char> {
    decimal((atomic / ATOMIC_PER_BNT) as nat) + seq!['.'] + fraction_text(
        (atomic % ATOMIC_PER_BNT) as nat,
    )
}

/// Appends the low `width` decimal digits of `n`, zero-padded.
pub fn push_padded_decimal(out: &mut Vec<char>, n: u64, width: usize)
    ensures
        final(out)@ == old(out)@ + padded_decimal(n as nat, width as nat),
    decreases width,
{
    if width > 0 {
        push_padded_decimal(out, n / 10, width - 1);
        out.push(digit_to_char((n % 10) as u8));
    }
}

/// Writes an atomic amount in BNT: the whole part, a point, at least one
/// fractional digit and no trailing zeros beyond it, then the unit.
pub fn format_bnt(atomic: u64) -> (s: String)
    ensures
        s@ == amount_text(atomic) + " BNT"@,
{
    let whole = atomic / ATOMIC_PER_BNT;
    let frac = atomic % ATOMIC_PER_BNT;
    let mut s = decimal_string(whole);
    s.push('.');
    if frac == 0 {
        s.push('0');
    } else {
        let mut digits: Vec<char> = Vec::new();
        push_padded_decimal(&mut digits, frac, FRACTION_DIGITS);
        assert(digits@ == padded_decimal(frac as nat, FRACTION_DIGITS as nat));
        assert(digits@.subrange(0, digits.len() as int) == digits@);
        let end = strip_end_at(&digits, 0, digits.len(), Strip::Only('0'));
        let kept = string_of(&digits, 0, end);
        s.append(kept.as_str());
    }
    s.append(" BNT");
    s
}

/// Where the first `.` of `s` stands, or the length of `s` if it has none.
pub open spec fn first_dot(s: Seq<char>) -> int
    decreases s.len(),
{
    if s.len() == 0 || s[0] == '.' {
        0
    } else {
        1 + first_dot(s.skip(1))
    }
}

/// `count` zeros.
pub open spec fn zeros(count: nat) -> Seq<char> {
    Seq::new(count, |i: int| '0')
}

/// `whole` BNT and `frac` atomic units together, if that fits.
pub open spec fn atomic_sum(whole: u64, frac: u64) -> Option<u64> {
    if whole * ATOMIC_PER_BNT + frac <= u64::MAX {
        Some((whole * ATOMIC_PER_BNT + frac) as u64)
    } else {
        None
    }
}

/// The atomic amount that a text in BNT stands for.
///
/// White space around the text is ignored. What is left is a number of
/// whole BNT, read as [`parse_u64`] reads, or such a number, a `.` and at
/// most eight digits, which count as atomic units once zeros have filled
/// them up to eight. After the `.` nothing but digits may stand, no sign
/// either; no digit at all counts as zero. Anything else, and any amount
/// that does not fit, is `None`.
pub open spec fn parse_amount(s: Seq<char>) -> Option<u64> {
    let t = strip(s, Strip::Whitespace);
    let dot = first_dot(t);
    if dot == t.len() {
        match parse_u64(t) {
            Some(whole) => atomic_sum(whole, 0),
            None => None,
        }
    } else {
        let frac = t.skip(dot + 1);
        if frac.len() > FRACTION_DIGITS || !all_digits(frac) {
            None
        } else {
            match parse_u64(t.take(dot)) {
                Some(whole) => atomic_sum(
                    whole,
                    digits_value(frac + zeros((FRACTION_DIGITS - frac.len()) as nat)) as u64,
                ),
                None => None,
            }
        }
    }
}

/// The exec form of [`atomic_sum`].
pub fn checked_atomic_sum(whole: u64, frac: u64) -> (r: Option<u64>)
    ensures
        r == atomic_sum(whole, frac),
{
    match whole.checked_mul(ATOMIC_PER_BNT) {
        Some(scaled) => scaled.checked_add(frac),
        None => None,
    }
}

/// Reads an amount in BNT and gives it in atomic units.
pub fn parse_bnt_amount(s: &str) -> (r: Option<u64>)
    ensures
        r == parse_amount(s@),
{
    let v = chars_of(s);
    assert(v@.subrange(0, v.len() as int) == v@);
    let (a, b) = strip_at(&v, 0, v.len(), Strip::Whitespace);
    let ghost t = v@.subrange(a as int, b as int);
    let mut dot: usize = a;
    assert(t.skip(0) == t);
    while dot < b && v[dot] != '.'
        invariant
            a <= dot <= b <= v.len(),
            t == v@.subrange(a as int, b as int),
            first_dot(t) == (dot - a) + first_dot(t.skip(dot - a)),
        decreases b - dot,
    {
        assert(t.skip(dot - a).skip(1) == t.skip(dot - a + 1));
        dot += 1;
    }
    assert(t.skip(dot - a).len() == b - dot);
    assert(first_dot(t) == dot - a);
    if dot == b {
        return match parse_u64_chars(&v, a, b) {
            Some(whole) => checked_atomic_sum(whole, 0),
            None => None,
        };
    }
    assert(v@.subrange(a as int, dot as int) == t.take(dot - a));
    assert(v@.subrange(dot + 1, b as int) == t.skip(dot - a + 1));
    if b - (dot + 1) > FRACTION_DIGITS || !all_digit_chars(&v, dot + 1, b) {
        return None;
    }
    let whole = parse_u64_chars(&v, a, dot);
    let mut padded: Vec<char> = Vec::new();
    let mut i: usize = dot + 1;
    while i < b
        invariant
            dot + 1 <= i <= b <= v.len(),
            padded@ == v@.subrange(dot + 1, i as int),
        decreases b - i,
    {
        padded.push(v[i]);
        i += 1;
    }
    let ghost frac = v@.subrange(dot + 1, b as int);
    while padded.len() < FRACTION_DIGITS
        invariant
            frac.len() <= FRACTION_DIGITS,
            frac.len() <= padded.len() <= FRACTION_DIGITS,
            padded@ == frac + zeros((padded.len() - frac.len()) as nat),
        decreases FRACTION_DIGITS - padded.len(),
    {
        padded.push('0');
    }
    assert(padded@.subrange(0, padded.len() as int) == padded@);
    proof {
        assert forall|k: int| 0 <= k < padded@.len() implies is_digit(#[trigger] padded@[k]) by {
            if k < frac.len() {
                assert(padded@[k] == frac[k]);
            }
        }
        lemma_digits_value_bound(padded@);
        assert(pow10(8) == 100_000_000) by {
            reveal_with_fuel(pow10, 9);
        }
        assert(is_digit(padded@[0]));
    }
    let f = parse_u64_chars(&padded, 0, padded.len());
    match (whole, f) {
        (Some(w), Some(f)) => checked_atomic_sum(w, f),
        _ => None,
    }
}

/// Seconds from `timestamp` to `now`, zero if `timestamp` lies ahead.
pub open spec fn age_seconds(now: u64, timestamp: u64) -> nat {
    if now >= timestamp {
        (now - timestamp) as nat
    } else {
        0
    }
}

/// How long ago `timestamp` was at the time `now`, in the largest unit of
/// seconds, minutes, hours and days that the age has reached, rounded down.
pub open spec fn time_ago_text(now: u64, timestamp: u64) -> Seq<char> {
    let age = age_seconds(now, timestamp);
    if age < 60 {
        decimal(age) + "s ago"@
    } else if age < 3600 {
        decimal(age / 60) + "m ago"@
    } else if age < 86400 {
        decimal(age / 3600) + "h ago"@
    } else {
        decimal(age / 86400) + "d ago"@
    }
}

/// Writes the age of `timestamp` at the time `now`.
pub fn time_ago(now: u64, timestamp: u64) -> (s: String)
    ensures
        s@ == time_ago_text(now, timestamp),
{
    let age = now.saturating_sub(timestamp);
    if age < 60 {
        let mut s = decimal_string(age);
        s.append("s ago");
        s
    } else if age < 3600 {
        let mut s = decimal_string(age / 60);
        s.append("m ago");
        s
    } else if age < 86400 {
        let mut s = decimal_string(age / 3600);
        s.append("h ago");
        s
    } else {
        let mut s = decimal_string(age / 86400);
        s.append("d ago");
        s
    }
}

/// Writes the age of `timestamp` as of the moment of the call. The clock
/// is read once; the text is that of [`time_ago`] for what it showed.
pub fn format_time_ago(timestamp: u64) -> (s: String)
    ensures
        exists|now: u64| s@ == #[trigger] time_ago_text(now, timestamp),
{
    let now = unix_now();
    time_ago(now, timestamp)
}

/// A padded numeral has its width, holds digits only, and writes its
/// number when the number fits the width.
pub proof fn lemma_padded_decimal_reads_back(n: nat, width: nat)
    requires
        n < pow10(width),
    ensures
        padded_decimal(n, width).len() == width,
        all_digits(padded_decimal(n, width)),
        digits_value(padded_decimal(n, width)) == n,
    decreases width,
{
    if width > 0 {
        let d = digit_char(n % 10);
        assert(is_digit(d) && digit_value(d) == n % 10);
        lemma_padded_decimal_reads_back(n / 10, (width - 1) as nat);
        assert(padded_decimal(n, width).drop_last() == padded_decimal(n / 10, (width - 1) as nat));
    }
}

/// A string of zeros writes zero.
pub proof fn lemma_zeros_value(count: nat)
    ensures
        digits_value(zeros(count)) == 0,
    decreases count,
{
    if count > 0 {
        lemma_zeros_value((count - 1) as nat);
        assert(zeros(count).drop_last() == zeros((count - 1) as nat));
    }
}

/// Dropping trailing zeros leaves a prefix, and putting the zeros back
/// restores the string.
pub proof fn lemma_strip_zeros_restores(s: Seq<char>)
    ensures
        strip_end(s, Strip::Only('0')).len() <= s.len(),
        strip_end(s, Strip::Only('0')) + zeros(
            (s.len() - strip_end(s, Strip::Only('0')).len()) as nat,
        ) == s,
    decreases s.len(),
{
    let k = Strip::Only('0');
    if s.len() > 0 && k.removes(s.last()) {
        lemma_strip_zeros_restores(s.drop_last());
        let kept = strip_end(s.drop_last(), k);
        assert(kept + zeros((s.len() - kept.len()) as nat) == (kept + zeros(
            (s.len() - 1 - kept.len()) as nat,
        )).push('0'));
        assert(s.drop_last().push('0') == s);
    } else {
        assert(s + zeros(0) == s);
    }
}

/// The first `.` of a digit string followed by a `.` is that very `.`.
pub proof fn lemma_first_dot_after_digits(whole: Seq<char>, rest: Seq<char>)
    requires
        all_digits(whole),
    ensures
        first_dot(whole + seq!['.'] + rest) == whole.len(),
    decreases whole.len(),
{
    let s = whole + seq!['.'] + rest;
    if whole.len() == 0 {
        assert(s[0] == '.');
    } else {
        assert(s[0] == whole[0]);
        assert(is_digit(whole[0]));
        assert(s.skip(1) == whole.skip(1) + seq!['.'] + rest);
        assert forall|i: int| 0 <= i < whole.skip(1).len() implies is_digit(
            #[trigger] whole.skip(1)[i],
        ) by {
            assert(whole.skip(1)[i] == whole[i + 1]);
        }
        lemma_first_dot_after_digits(whole.skip(1), rest);
    }
}

/// Reading back what [`format_bnt`] writes before the unit gives the
/// amount again, for every amount.
pub proof fn lemma_parse_inverts_format(atomic: u64)
    ensures
        parse_amount(amount_text(atomic)) == Some(atomic),
{
    let w = (atomic / ATOMIC_PER_BNT) as nat;
    let f = (atomic % ATOMIC_PER_BNT) as nat;
    let whole = decimal(w);
    let frac = fraction_text(f);
    let text = amount_text(atomic);
    let padded = padded_decimal(f, FRACTION_DIGITS as nat);
    let zero = Strip::Only('0');

    lemma_decimal_reads_back(w);
    assert(pow10(8) == 100_000_000) by {
        reveal_with_fuel(pow10, 9);
    }
    lemma_padded_decimal_reads_back(f, FRACTION_DIGITS as nat);
    lemma_strip_zeros_restores(padded);
    lemma_zeros_value(FRACTION_DIGITS as nat);

    // The fraction is a non-empty run of digits that fills up to `padded`.
    assert(frac.len() >= 1 && frac.len() <= FRACTION_DIGITS && all_digits(frac) && frac + zeros(
        (FRACTION_DIGITS - frac.len()) as nat,
    ) == padded) by {
        if f == 0 {
            assert(padded == zeros(FRACTION_DIGITS as nat)) by {
                reveal_with_fuel(padded_decimal, 9);
            }
            assert(frac + zeros(7) == zeros(8));
        } else {
            let kept = strip_end(padded, zero);
            if kept.len() == 0 {
                assert(zeros(8) == padded);
            }
            assert forall|i: int| 0 <= i < kept.len() implies is_digit(#[trigger] kept[i]) by {
                assert(kept[i] == padded[i]);
            }
        }
    }

    // No white space at either end, so trimming changes nothing.
    assert(text[0] == whole[0]);
    assert(text.last() == frac.last());
    assert(is_digit(whole[0]) && is_digit(frac.last()));
    assert(!is_space(text[0]) && !is_space(text.last()));
    assert(strip_start(text, Strip::Whitespace) == text);
    assert(strip(text, Strip::Whitespace) == text);

    lemma_first_dot_after_digits(whole, frac);
    assert(text.take(whole.len() as int) == whole);
    assert(text.skip(whole.len() as int + 1) == frac);
    assert(whole[0] != '+' && padded[0] != '+') by {
        assert(is_digit(padded[0]));
    }
    assert(parse_u64(whole) == Some(w as u64));
    assert(digits_value(frac + zeros((FRACTION_DIGITS - frac.len()) as nat)) == f);
}

} // verus!
