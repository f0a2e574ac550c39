//! Character-level building blocks: decimal numerals, whitespace and the
//! small string operations the rest of the crate is written with.

use vstd::prelude::*;

verus! {

/// `String::push` appends exactly one character.
pub assume_specification[ String::push ](s: &mut String, c: char)
    ensures
        final(s)@ == old(s)@.push(c),
;

/// `String::pop` removes the last character and returns it, or returns
/// `None` and leaves an empty string alone.
pub assume_specification[ String::pop ](s: &mut String) -> (r: Option<char>)
    ensures
        old(s)@.len() == 0 ==> r is None && final(s)@ == old(s)@,
        old(s)@.len() > 0 ==> r == Some(old(s)@.last()) && final(s)@ == old(s)@.drop_last(),
;

/// The character that writes the decimal digit `d`.
pub open spec fn digit_char(d: nat) -> char
    recommends
        d < 10,
{
    (('0' as u8) + d) as char
}

/// Whether `c` is one of `'0'..='9'`.
pub open spec fn is_digit(c: char) -> bool {
    '0' <= c && c <= '9'
}

/// The value of a decimal digit character.
pub open spec fn digit_value(c: char) -> nat
    recommends
        is_digit(c),
{
    (c as u8 - '0' as u8) as nat
}

/// The shortest decimal numeral of `n`: no leading zeros, `"0"` for zero.
pub open spec fn decimal(n: nat) -> Seq<char>
    decreases n,
{
    if n < 10 {
        seq![digit_char(n)]
    } else {
        decimal(n / 10).push(digit_char(n % 10))
    }
}

/// The exec form of [`digit_char`].
pub fn digit_to_char(d: u8) -> (c: char)
    requires
        d < 10,
    ensures
        c == digit_char(d as nat),
        is_digit(c),
        digit_value(c) == d,
{
    (48u8 + d) as char
}

/// Appends the decimal numeral of `n` to `out`.
pub fn push_decimal(out: &mut String, n: u64)
    ensures
        final(out)@ == old(out)@ + decimal(n as nat),
    decreases n,
{
    if n >= 10 {
        push_decimal(out, n / 10);
    }
    out.push(digit_to_char((n % 10) as u8));
}

/// The decimal numeral of `n` as a fresh string.
pub fn decimal_string(n: u64) -> (s: String)
    ensures
        s@ == decimal(n as nat),
{
    let mut s = String::new();
    push_decimal(&mut s, n);
    s
}

/// The characters of `s`, in order.
pub fn chars_of(s: &str) -> (v: Vec<char>)
    ensures
        v@ == s@,
{
    let mut v: Vec<char> = Vec::new();
    for c in it: s.chars()
        invariant
            v@ == it.seq().take(it.index() as int),
            it.seq() == s@,
    {
        v.push(c);
    }
    v
}

/// The characters `v[from..to]` as a string.
pub fn string_of(v: &Vec<char>, from: usize, to: usize) -> (s: String)
    requires
        from <= to <= v.len(),
    ensures
        s@ == v@.subrange(from as int, to as int),
{
    let mut s = String::new();
    let mut i: usize = from;
    while i < to
        invariant
            from <= i <= to <= v.len(),
            s@ == v@.subrange(from as int, i as int),
        decreases to - i,
    {
        s.push(v[i]);
        i += 1;
    }
    s
}

/// Whether every character of `s` is a decimal digit.
pub open spec fn all_digits(s: Seq<char>) -> bool {
    forall|i: int| 0 <= i < s.len() ==> is_digit(#[trigger] s[i])
}

/// The number that the digit string `s` writes in base ten; zero for the
/// empty string. Leading zeros count for nothing.
pub open spec fn digits_value(s: Seq<char>) -> nat
    decreases s.len(),
{
    if s.len() == 0 {
        0
    } else {
        digits_value(s.drop_last()) * 10 + digit_value(s.last())
    }
}

/// Reading an unsigned 64-bit integer: an optional `+`, then at least one
/// digit and nothing else, and a value that fits.
pub open spec fn parse_u64(s: Seq<char>) -> Option<u64> {
    let body = if s.len() > 0 && s[0] == '+' {
        s.skip(1)
    } else {
        s
    };
    if body.len() > 0 && all_digits(body) && digits_value(body) <= u64::MAX {
        Some(digits_value(body) as u64)
    } else {
        None
    }
}

/// A string of digits writes a number under ten to the power of its
/// length.
pub proof fn lemma_digits_value_bound(s: Seq<char>)
    requires
        all_digits(s),
    ensures
        digits_value(s) < pow10(s.len()),
    decreases s.len(),
{
    if s.len() > 0 {
        let rest = s.drop_last();
        assert forall|i: int| 0 <= i < rest.len() implies is_digit(#[trigger] rest[i]) by {
            assert(rest[i] == s[i]);
        }
        lemma_digits_value_bound(rest);
        assert(is_digit(s.last()));
    }
}

/// Whether `v[from..to]` holds decimal digits only.
pub fn all_digit_chars(v: &Vec<char>, from: usize, to: usize) -> (b: bool)
    requires
        from <= to <= v.len(),
    ensures
        b == all_digits(v@.subrange(from as int, to as int)),
{
    let ghost s = v@.subrange(from as int, to as int);
    let mut i: usize = from;
    while i < to
        invariant
            from <= i <= to <= v.len(),
            s == v@.subrange(from as int, to as int),
            forall|k: int| 0 <= k < i - from ==> is_digit(#[trigger] s[k]),
        decreases to - i,
    {
        let c = v[i];
        if !(c >= '0' && c <= '9') {
            assert(!is_digit(s[i - from]));
            return false;
        }
        i += 1;
    }
    true
}

/// A prefix of a digit string never writes a larger number than the whole.
pub proof fn lemma_digits_value_prefix(s: Seq<char>, k: int)
    requires
        0 <= k <= s.len(),
    ensures
        digits_value(s.take(k)) <= digits_value(s),
    decreases s.len(),
{
    if k == s.len() {
        assert(s.take(k) == s);
    } else {
        lemma_digits_value_prefix(s.drop_last(), k);
        assert(s.drop_last().take(k) == s.take(k));
    }
}

/// Reads `v[from..to]` as an unsigned 64-bit integer.
pub fn parse_u64_chars(v: &Vec<char>, from: usize, to: usize) -> (r: Option<u64>)
    requires
        from <= to <= v.len(),
    ensures
        r == parse_u64(v@.subrange(from as int, to as int)),
{
    let ghost s = v@.subrange(from as int, to as int);
    let mut i: usize = from;
    if i < to && v[i] == '+' {
        i += 1;
    }
    let start: usize = i;
    let ghost body = v@.subrange(start as int, to as int);
    assert(body == if s.len() > 0 && s[0] == '+' {
        s.skip(1)
    } else {
        s
    });
    if i == to {
        return None;
    }
    let mut acc: u64 = 0;
    while i < to
        invariant
            start <= i <= to <= v.len(),
            from <= start,
            body == v@.subrange(start as int, to as int),
            parse_u64(v@.subrange(from as int, to as int)) == if body.len() > 0 && all_digits(body)
                && digits_value(body) <= u64::MAX {
                Some(digits_value(body) as u64)
            } else {
                None
            },
            all_digits(body.take(i - start)),
            acc == digits_value(body.take(i - start)),
        decreases to - i,
    {
        let c = v[i];
        let ghost k = i - start;
        assert(body[k] == c);
        if !(c >= '0' && c <= '9') {
            return None;
        }
        let d: u64 = (c as u8 - 48u8) as u64;
        proof {
            assert(body.take(k + 1).drop_last() == body.take(k));
            assert(body.take(k + 1).last() == c);
            assert(digits_value(body.take(k + 1)) == acc * 10 + d);
            lemma_digits_value_prefix(body, k + 1);
            assert forall|j: int| 0 <= j < k + 1 implies is_digit(#[trigger] body.take(k + 1)[j]) by {
                if j < k {
                    assert(body.take(k)[j] == body.take(k + 1)[j]);
                }
            }
        }
        let next = match acc.checked_mul(10) {
            Some(m) => m.checked_add(d),
            None => None,
        };
        match next {
            Some(n) => {
                acc = n;
            },
            None => {
                return None;
            },
        }
        i += 1;
    }
    assert(body.take(i - start) == body);
    Some(acc)
}

/// Ten to the power `e`.
pub open spec fn pow10(e: nat) -> nat
    decreases e,
{
    if e == 0 {
        1
    } else {
        10 * pow10((e - 1) as nat)
    }
}

/// A numeral is a non-empty digit string that writes its number.
pub proof fn lemma_decimal_reads_back(n: nat)
    ensures
        decimal(n).len() >= 1,
        all_digits(decimal(n)),
        digits_value(decimal(n)) == n,
    decreases n,
{
    let d = digit_char(n % 10);
    assert(is_digit(d) && digit_value(d) == n % 10);
    if n < 10 {
        assert(decimal(n).drop_last() == Seq::<char>::empty());
        assert(digits_value(decimal(n).drop_last()) == 0);
    } else {
        lemma_decimal_reads_back(n / 10);
        assert(decimal(n).drop_last() == decimal(n / 10));
    }
}

/// A numeral of a number under ten to the `k` has at most `k` digits.
pub proof fn lemma_decimal_len_bound(n: nat, k: nat)
    requires
        k >= 1,
        n < pow10(k),
    ensures
        1 <= decimal(n).len() <= k,
    decreases n,
{
    if n >= 10 {
        assert(k >= 2) by {
            reveal_with_fuel(pow10, 2);
        }
        lemma_decimal_len_bound(n / 10, (k - 1) as nat);
    }
}

/// The number of digits of `n`.
pub fn decimal_len(n: u64) -> (len: usize)
    ensures
        len == decimal(n as nat).len(),
        1 <= len <= 20,
{
    proof {
        assert(pow10(20) == 100_000_000_000_000_000_000) by {
            reveal_with_fuel(pow10, 21);
        }
        lemma_decimal_len_bound(n as nat, 20);
    }
    let mut len: usize = 1;
    let mut rest: u64 = n;
    while rest >= 10
        invariant
            1 <= len,
            len + decimal(rest as nat).len() == decimal(n as nat).len() + 1,
            decimal(n as nat).len() <= 20,
        decreases rest,
    {
        rest = rest / 10;
        len += 1;
    }
    len
}

/// Unicode's `White_Space` property: the characters that trimming removes.
pub open spec fn is_space(c: char) -> bool {
    let u = c as u32;
    ||| 0x09 <= u <= 0x0D
    ||| u == 0x20
    ||| u == 0x85
    ||| u == 0xA0
    ||| u == 0x1680
    ||| 0x2000 <= u <= 0x200A
    ||| u == 0x2028
    ||| u == 0x2029
    ||| u == 0x202F
    ||| u == 0x205F
    ||| u == 0x3000
}

/// Which characters a trim removes from the ends of a string.
#[derive(Clone, Copy, Debug)]
pub enum Strip {
    /// Every white-space character.
    Whitespace,
    /// One given character.
    Only(char),
}

impl Strip {
    /// Whether this trim removes `c`.
    pub open spec fn removes(self, c: char) -> bool {
        match self {
            Strip::Whitespace => is_space(c),
            Strip::Only(x) => c == x,
        }
    }

    /// The exec form of [`Strip::removes`].
    pub fn test(&self, c: char) -> (b: bool)
        ensures
            b == self.removes(c),
    {
        match self {
            Strip::Whitespace => {
                let u: u32 = c as u32;
                (0x09 <= u && u <= 0x0D) || u == 0x20 || u == 0x85 || u == 0xA0 || u == 0x1680 || (
                0x2000 <= u && u <= 0x200A) || u == 0x2028 || u == 0x2029 || u == 0x202F || u
                    == 0x205F || u == 0x3000
            },
            Strip::Only(x) => c == *x,
        }
    }
}

/// `s` without its longest prefix of removed characters.
pub open spec fn strip_start(s: Seq<char>, k: Strip) -> Seq<char>
    decreases s.len(),
{
    if s.len() > 0 && k.removes(s[0]) {
        strip_start(s.skip(1), k)
    } else {
        s
    }
}

/// `s` without its longest suffix of removed characters.
pub open spec fn strip_end(s: Seq<char>, k: Strip) -> Seq<char>
    decreases s.len(),
{
    if s.len() > 0 && k.removes(s.last()) {
        strip_end(s.drop_last(), k)
    } else {
        s
    }
}

/// `s` trimmed at both ends.
pub open spec fn strip(s: Seq<char>, k: Strip) -> Seq<char> {
    strip_end(strip_start(s, k), k)
}

/// Where `v[from..to]` starts once its leading removed characters are gone.
pub fn strip_start_at(v: &Vec<char>, from: usize, to: usize, k: Strip) -> (a: usize)
    requires
        from <= to <= v.len(),
    ensures
        from <= a <= to,
        v@.subrange(a as int, to as int) == strip_start(v@.subrange(from as int, to as int), k),
{
    let mut a: usize = from;
    while a < to && k.test(v[a])
        invariant
            from <= a <= to <= v.len(),
            strip_start(v@.subrange(a as int, to as int), k) == strip_start(
                v@.subrange(from as int, to as int),
                k,
            ),
        decreases to - a,
    {
        assert(v@.subrange(a as int, to as int).skip(1) == v@.subrange(a + 1, to as int));
        a += 1;
    }
    a
}

/// Where `v[from..to]` ends once its trailing removed characters are gone.
pub fn strip_end_at(v: &Vec<char>, from: usize, to: usize, k: Strip) -> (b: usize)
    requires
        from <= to <= v.len(),
    ensures
        from <= b <= to,
        v@.subrange(from as int, b as int) == strip_end(v@.subrange(from as int, to as int), k),
{
    let mut b: usize = to;
    while b > from && k.test(v[b - 1])
        invariant
            from <= b <= to <= v.len(),
            strip_end(v@.subrange(from as int, b as int), k) == strip_end(
                v@.subrange(from as int, to as int),
                k,
            ),
        decreases b - from,
    {
        assert(v@.subrange(from as int, b as int).drop_last() == v@.subrange(
            from as int,
            b - 1,
        ));
        b -= 1;
    }
    b
}

/// The bounds of `v[from..to]` trimmed at both ends.
pub fn strip_at(v: &Vec<char>, from: usize, to: usize, k: Strip) -> (r: (usize, usize))
    requires
        from <= to <= v.len(),
    ensures
        from <= r.0 <= r.1 <= to,
        v@.subrange(r.0 as int, r.1 as int) == strip(v@.subrange(from as int, to as int), k),
{
    let a = strip_start_at(v, from, to, k);
    let b = strip_end_at(v, a, to, k);
    (a, b)
}

/// `c` with an ASCII capital letter turned into its small letter.
pub open spec fn ascii_lower(c: char) -> char {
    if 'A' <= c && c <= 'Z' {
        ((c as u8) + 32) as char
    } else {
        c
    }
}

/// `s` with every ASCII capital letter turned into its small letter.
pub open spec fn lower(s: Seq<char>) -> Seq<char> {
    Seq::new(s.len(), |i: int| ascii_lower(s[i]))
}

/// Whether `needle` stands in `hay` at the position `at`.
pub open spec fn occurs_at(hay: Seq<char>, needle: Seq<char>, at: int) -> bool {
    0 <= at && at + needle.len() <= hay.len() && hay.subrange(at, at + needle.len()) == needle
}

/// Whether `needle` stands somewhere in `hay`.
pub open spec fn has_substring(hay: Seq<char>, needle: Seq<char>) -> bool {
    exists|at: int| occurs_at(hay, needle, at)
}

/// Whether `hay` ends with `needle`.
pub open spec fn has_suffix(hay: Seq<char>, needle: Seq<char>) -> bool {
    occurs_at(hay, needle, hay.len() - needle.len())
}

/// The characters of `s` in lower case.
pub fn lower_chars(s: &str) -> (v: Vec<char>)
    ensures
        v@ == lower(s@),
{
    let src = chars_of(s);
    let mut v: Vec<char> = Vec::new();
    let mut i: usize = 0;
    while i < src.len()
        invariant
            i <= src.len(),
            src@ == s@,
            v@ == lower(s@).take(i as int),
        decreases src.len() - i,
    {
        let c = src[i];
        let l = if 'A' <= c && c <= 'Z' {
            ((c as u8) + 32) as char
        } else {
            c
        };
        v.push(l);
        i += 1;
    }
    assert(lower(s@).take(i as int) == lower(s@));
    v
}

/// Whether `needle` stands in `hay` at `at`.
pub fn matches_at(hay: &Vec<char>, needle: &Vec<char>, at: usize) -> (b: bool)
    ensures
        b == occurs_at(hay@, needle@, at as int),
{
    if needle.len() > hay.len() || at > hay.len() - needle.len() {
        return false;
    }
    let mut i: usize = 0;
    while i < needle.len()
        invariant
            i <= needle.len(),
            at + needle.len() <= hay.len(),
            hay@.subrange(at as int, at + i) == needle@.take(i as int),
        decreases needle.len() - i,
    {
        if hay[at + i] != needle[i] {
            assert(hay@.subrange(at as int, at + needle.len())[i as int] != needle@[i as int]);
            return false;
        }
        assert(hay@.subrange(at as int, at + i + 1) == hay@.subrange(at as int, at + i).push(
            hay@[at + i],
        ));
        assert(needle@.take(i + 1) == needle@.take(i as int).push(needle@[i as int]));
        i += 1;
    }
    assert(needle@.take(i as int) == needle@);
    true
}

/// Whether the text `needle` stands somewhere in `hay`.
pub fn contains_text(hay: &Vec<char>, needle: &str) -> (b: bool)
    ensures
        b == has_substring(hay@, needle@),
{
    let n = chars_of(needle);
    if n.len() > hay.len() {
        return false;
    }
    let last: usize = hay.len() - n.len();
    let mut at: usize = 0;
    while at < last
        invariant
            at <= last,
            last == hay.len() - n.len(),
            n@ == needle@,
            forall|k: int| 0 <= k < at ==> !occurs_at(hay@, n@, k),
        decreases last - at,
    {
        if matches_at(hay, &n, at) {
            return true;
        }
        at += 1;
    }
    matches_at(hay, &n, last)
}

/// Whether `hay` ends with the text `needle`.
pub fn ends_with_text(hay: &Vec<char>, needle: &str) -> (b: bool)
    ensures
        b == has_suffix(hay@, needle@),
{
    let n = chars_of(needle);
    if n.len() > hay.len() {
        return false;
    }
    matches_at(hay, &n, hay.len() - n.len())
}

/// Whether `v` spells the text `text`.
pub fn is_text(v: &Vec<char>, text: &str) -> (b: bool)
    ensures
        b == (v@ == text@),
{
    let t = chars_of(text);
    if t.len() != v.len() {
        return false;
    }
    assert(v@.subrange(0, v.len() as int) == v@);
    matches_at(v, &t, 0)
}

/// The bytes that `c` takes in UTF-8.
pub open spec fn utf8_width(c: char) -> nat {
    let u = c as u32;
    if u < 0x80 {
        1
    } else if u < 0x800 {
        2
    } else if u < 0x1_0000 {
        3
    } else {
        4
    }
}

/// The bytes that `s` takes in UTF-8.
pub open spec fn utf8_len(s: Seq<char>) -> nat
    decreases s.len(),
{
    if s.len() == 0 {
        0
    } else {
        utf8_len(s.drop_last()) + utf8_width(s.last())
    }
}

/// Whether `v[from..to]` takes at most `limit` bytes in UTF-8.
pub fn fits_bytes(v: &Vec<char>, from: usize, to: usize, limit: usize) -> (b: bool)
    requires
        from <= to <= v.len(),
        limit <= usize::MAX - 4,
    ensures
        b == (utf8_len(v@.subrange(from as int, to as int)) <= limit),
{
    let ghost s = v@.subrange(from as int, to as int);
    let mut bytes: usize = 0;
    let mut i: usize = from;
    while i < to
        invariant
            from <= i <= to <= v.len(),
            limit <= usize::MAX - 4,
            s == v@.subrange(from as int, to as int),
            bytes == utf8_len(s.take(i - from)),
            bytes <= limit,
        decreases to - i,
    {
        let u: u32 = v[i] as u32;
        let width: usize = if u < 0x80 {
            1
        } else if u < 0x800 {
            2
        } else if u < 0x1_0000 {
            3
        } else {
            4
        };
        proof {
            assert(s.take(i - from + 1).drop_last() == s.take(i - from));
            assert(s.take(i - from + 1).last() == v@[i as int]);
            lemma_utf8_len_prefix(s, i - from + 1);
        }
        bytes = bytes + width;
        if bytes > limit {
            return false;
        }
        i += 1;
    }
    assert(s.take(i - from) == s);
    true
}

/// A prefix never takes more bytes than the whole.
pub proof fn lemma_utf8_len_prefix(s: Seq<char>, k: int)
    requires
        0 <= k <= s.len(),
    ensures
        utf8_len(s.take(k)) <= utf8_len(s),
    decreases s.len(),
{
    if k == s.len() {
        assert(s.take(k) == s);
    } else {
        lemma_utf8_len_prefix(s.drop_last(), k);
        assert(s.drop_last().take(k) == s.take(k));
    }
}

} // verus!
