//! Character-level text utilities shared by the configuration, request and
//! manager modules: whitespace classification, trimming, prefix and
//! substring tests, decimal rendering and decimal parsing.
use vstd::prelude::*;

verus! {

/// Unicode `White_Space`, the set that `char::is_whitespace` tests.
pub open spec fn is_ws(c: char) -> bool {
    ||| c == ' '
    ||| c == '\t'
    ||| c == '\n'
    ||| c == '\x0B'
    ||| c == '\x0C'
    ||| c == '\r'
    ||| c == '\u{85}'
    ||| c == '\u{A0}'
    ||| c == '\u{1680}'
    ||| ('\u{2000}' <= c && c <= '\u{200A}')
    ||| c == '\u{2028}'
    ||| c == '\u{2029}'
    ||| c == '\u{202F}'
    ||| c == '\u{205F}'
    ||| c == '\u{3000}'
}

/// Every character of `s` is whitespace (so `s.trim()` is empty).
pub open spec fn all_ws(s: Seq<char>) -> bool {
    forall|i: int| 0 <= i < s.len() ==> is_ws(#[trigger] s[i])
}

/// `s` with its leading whitespace removed.
pub open spec fn trim_start_seq(s: Seq<char>) -> Seq<char>
    decreases s.len(),
{
    if s.len() > 0 && is_ws(s[0]) {
        trim_start_seq(s.drop_first())
    } else {
        s
    }
}

/// `s` with its trailing whitespace removed.
pub open spec fn trim_end_seq(s: Seq<char>) -> Seq<char>
    decreases s.len(),
{
    if s.len() > 0 && is_ws(s.last()) {
        trim_end_seq(s.drop_last())
    } else {
        s
    }
}

/// `s` with leading and trailing whitespace removed, as `str::trim` gives it.
pub open spec fn trim_seq(s: Seq<char>) -> Seq<char> {
    trim_end_seq(trim_start_seq(s))
}

/// `p` is a prefix of `s`.
pub open spec fn has_prefix(s: Seq<char>, p: Seq<char>) -> bool {
    p.len() <= s.len() && s.subrange(0, p.len() as int) == p
}

/// `p` is a suffix of `s`.
pub open spec fn has_suffix(s: Seq<char>, p: Seq<char>) -> bool {
    p.len() <= s.len() && s.subrange(s.len() - p.len(), s.len() as int) == p
}

/// `p` occurs in `s` at position `i`.
pub open spec fn occurs_at(s: Seq<char>, p: Seq<char>, i: int) -> bool {
    0 <= i && i + p.len() <= s.len() && s.subrange(i, i + p.len()) == p
}

/// `p` occurs somewhere in `s`, as `str::contains` tests.
pub open spec fn contains_seq(s: Seq<char>, p: Seq<char>) -> bool {
    exists|i: int| occurs_at(s, p, i)
}

/// ASCII lowercase of one character, as `char::to_ascii_lowercase` gives it.
pub open spec fn ascii_lower(c: char) -> char {
    if 'A' <= c && c <= 'Z' {
        ((c as u32) + 32) as char
    } else {
        c
    }
}

/// ASCII lowercase of a text, as `str::to_ascii_lowercase` gives it.
pub open spec fn ascii_lower_seq(s: Seq<char>) -> Seq<char> {
    Seq::new(s.len(), |i: int| ascii_lower(s[i]))
}

pub open spec fn is_digit(c: char) -> bool {
    '0' <= c && c <= '9'
}

pub open spec fn digit_val(c: char) -> nat {
    ((c as u32) - ('0' as u32)) as nat
}

pub open spec fn digit_char(d: nat) -> char {
    ((d + ('0' as u32)) as u32) as char
}

/// The decimal rendering of a natural number, without sign or padding.
pub open spec fn dec(n: nat) -> Seq<char>
    decreases n,
{
    if n < 10 {
        seq![digit_char(n)]
    } else {
        dec(n / 10).push(digit_char(n % 10))
    }
}

/// The decimal rendering of an integer, with a leading `-` when negative, as
/// `Display` gives it for Rust's integer types.
pub open spec fn dec_int(n: int) -> Seq<char> {
    if n < 0 {
        seq!['-'] + dec((-n) as nat)
    } else {
        dec(n as nat)
    }
}

/// All characters of `s` are ASCII digits.
pub open spec fn all_digits(s: Seq<char>) -> bool {
    forall|i: int| 0 <= i < s.len() ==> is_digit(#[trigger] s[i])
}

/// The value of a string of decimal digits.
pub open spec fn digits_val(s: Seq<char>) -> nat
    decreases s.len(),
{
    if s.len() == 0 {
        0
    } else {
        digits_val(s.drop_last()) * 10 + digit_val(s.last())
    }
}

/// The digits that an unsigned `FromStr` reads: `s` without one leading `+`.
pub open spec fn unsigned_body(s: Seq<char>) -> Seq<char> {
    if s.len() > 0 && s[0] == '+' {
        s.drop_first()
    } else {
        s
    }
}

/// What `str::parse` gives for an unsigned integer type whose largest value
/// is `max`: the value, or `None` where the text is empty, holds a character
/// that is no digit (after one optional leading `+`), or overflows.
pub open spec fn parse_unsigned(s: Seq<char>, max: nat) -> Option<nat> {
    let body = unsigned_body(s);
    if body.len() > 0 && all_digits(body) && digits_val(body) <= max {
        Some(digits_val(body))
    } else {
        None
    }
}

/// Appends a character to a string (`String::push`).
#[verifier::external_body]
pub(crate) fn push_char(s: &mut String, c: char)
    ensures
        final(s)@ == old(s)@.push(c),
{
    s.push(c);
}

/// The characters of a text, in order.
pub fn chars_of(s: &str) -> (v: Vec<char>)
    ensures
        v@ == s@,
{
    let mut v: Vec<char> = Vec::new();
    for c in it: s.chars()
        invariant
            v@ == it.seq().take(it.index() as int),
    {
        v.push(c);
    }
    v
}

/// A string holding the characters `v@[from..to]`.
pub fn string_from_range(v: &Vec<char>, from: usize, to: usize) -> (s: String)
    requires
        from <= to <= v.len(),
    ensures
        s@ == v@.subrange(from as int, to as int),
{
    let mut s = String::new();
    let mut i = from;
    while i < to
        invariant
            from <= i <= to <= v.len(),
            s@ == v@.subrange(from as int, i as int),
        decreases to - i,
    {
        push_char(&mut s, v[i]);
        i += 1;
    }
    s
}

/// A string holding the characters of `v`.
pub fn string_from_chars(v: &Vec<char>) -> (s: String)
    ensures
        s@ == v@,
{
    let s = string_from_range(v, 0, v.len());
    assert(v@.subrange(0, v.len() as int) =~= v@);
    s
}

/// Appends all characters of `t` to `s`.
pub fn push_all(s: &mut String, t: &str)
    ensures
        final(s)@ == old(s)@ + t@,
{
    let chars = chars_of(t);
    let mut i: usize = 0;
    while i < chars.len()
        invariant
            0 <= i <= chars.len(),
            chars@ == t@,
            s@ == old(s)@ + t@.subrange(0, i as int),
        decreases chars.len() - i,
    {
        push_char(s, chars[i]);
        i += 1;
        assert(t@.subrange(0, i as int) =~= t@.subrange(0, (i - 1) as int).push(chars@[i - 1]));
    }
    assert(t@.subrange(0, i as int) =~= t@);
}

/// The concatenation of two texts.
pub fn concat2(a: &str, b: &str) -> (s: String)
    ensures
        s@ == a@ + b@,
{
    let mut s = String::new();
    push_all(&mut s, a);
    push_all(&mut s, b);
    assert(s@ =~= a@ + b@);
    s
}

/// The concatenation of three texts.
pub fn concat3(a: &str, b: &str, c: &str) -> (s: String)
    ensures
        s@ == a@ + b@ + c@,
{
    let mut s = String::new();
    push_all(&mut s, a);
    push_all(&mut s, b);
    push_all(&mut s, c);
    assert(s@ =~= a@ + b@ + c@);
    s
}

/// Whether a character is Unicode whitespace (`char::is_whitespace`).
pub fn char_is_ws(c: char) -> (r: bool)
    ensures
        r == is_ws(c),
{
    c == ' ' || c == '\t' || c == '\n' || c == '\x0B' || c == '\x0C' || c == '\r' || c == '\u{85}'
        || c == '\u{A0}' || c == '\u{1680}' || ('\u{2000}' <= c && c <= '\u{200A}') || c
        == '\u{2028}' || c == '\u{2029}' || c == '\u{202F}' || c == '\u{205F}' || c == '\u{3000}'
}

/// Whether a text is empty once trimmed (`s.trim().is_empty()`).
pub fn is_blank(s: &str) -> (r: bool)
    ensures
        r == all_ws(s@),
{
    let chars = chars_of(s);
    let mut i: usize = 0;
    while i < chars.len()
        invariant
            0 <= i <= chars.len(),
            chars@ == s@,
            forall|j: int| 0 <= j < i ==> is_ws(#[trigger] s@[j]),
        decreases chars.len() - i,
    {
        if !char_is_ws(chars[i]) {
            return false;
        }
        i += 1;
    }
    true
}

pub proof fn lemma_trim_start_skip(s: Seq<char>, k: int)
    requires
        0 <= k <= s.len(),
        forall|j: int| 0 <= j < k ==> is_ws(#[trigger] s[j]),
    ensures
        trim_start_seq(s) == trim_start_seq(s.subrange(k, s.len() as int)),
    decreases k,
{
    if k > 0 {
        assert(s.drop_first().subrange(k - 1, s.drop_first().len() as int) =~= s.subrange(
            k,
            s.len() as int,
        ));
        assert forall|j: int| 0 <= j < k - 1 implies is_ws(#[trigger] s.drop_first()[j]) by {
            assert(s.drop_first()[j] == s[j + 1]);
        }
        lemma_trim_start_skip(s.drop_first(), k - 1);
    } else {
        assert(s.subrange(0, s.len() as int) =~= s);
    }
}

pub proof fn lemma_trim_end_skip(s: Seq<char>, k: int)
    requires
        0 <= k <= s.len(),
        forall|j: int| k <= j < s.len() ==> is_ws(#[trigger] s[j]),
    ensures
        trim_end_seq(s) == trim_end_seq(s.subrange(0, k)),
    decreases s.len() - k,
{
    if k < s.len() {
        assert(s.drop_last().subrange(0, k) =~= s.subrange(0, k));
        assert forall|j: int| k <= j < s.drop_last().len() implies is_ws(
            #[trigger] s.drop_last()[j],
        ) by {
            assert(s.drop_last()[j] == s[j]);
        }
        lemma_trim_end_skip(s.drop_last(), k);
    } else {
        assert(s.subrange(0, s.len() as int) =~= s);
    }
}

/// The characters of `s.trim()`.
pub fn trim_chars(s: &str) -> (v: Vec<char>)
    ensures
        v@ == trim_seq(s@),
{
    let chars = chars_of(s);
    let n = chars.len();
    let mut start: usize = 0;
    while start < n && char_is_ws(chars[start])
        invariant
            0 <= start <= n,
            n == chars.len(),
            chars@ == s@,
            forall|j: int| 0 <= j < start ==> is_ws(#[trigger] s@[j]),
        decreases n - start,
    {
        start += 1;
    }
    proof {
        lemma_trim_start_skip(s@, start as int);
    }
    let ghost rest = s@.subrange(start as int, n as int);
    assert(start == n || !is_ws(rest[0]));
    assert(trim_start_seq(rest) == rest);
    let mut end: usize = n;
    while end > start && char_is_ws(chars[end - 1])
        invariant
            start <= end <= n,
            n == chars.len(),
            chars@ == s@,
            rest == s@.subrange(start as int, n as int),
            forall|j: int| end - start <= j < rest.len() ==> is_ws(#[trigger] rest[j]),
        decreases end,
    {
        end -= 1;
    }
    proof {
        lemma_trim_end_skip(rest, end - start);
        let r2 = rest.subrange(0, end - start);
        assert(r2 =~= s@.subrange(start as int, end as int));
        if r2.len() > 0 {
            assert(r2.last() == chars@[end - 1]);
        }
    }
    let mut v: Vec<char> = Vec::new();
    let mut i = start;
    while i < end
        invariant
            start <= i <= end <= n,
            n == chars.len(),
            v@ == chars@.subrange(start as int, i as int),
        decreases end - i,
    {
        v.push(chars[i]);
        i += 1;
        assert(v@ =~= chars@.subrange(start as int, i as int));
    }
    v
}

/// `s.trim()` as a new string.
pub fn trim_string(s: &str) -> (r: String)
    ensures
        r@ == trim_seq(s@),
{
    let v = trim_chars(s);
    string_from_chars(&v)
}

/// Whether `s` starts with `p` (`str::starts_with`).
pub fn starts_with_seq(s: &Vec<char>, p: &str) -> (r: bool)
    ensures
        r == has_prefix(s@, p@),
{
    let pc = chars_of(p);
    if pc.len() > s.len() {
        return false;
    }
    let mut i: usize = 0;
    while i < pc.len()
        invariant
            0 <= i <= pc.len() <= s.len(),
            pc@ == p@,
            forall|j: int| 0 <= j < i ==> s@[j] == p@[j],
        decreases pc.len() - i,
    {
        if s[i] != pc[i] {
            assert(s@.subrange(0, p@.len() as int)[i as int] != p@[i as int]);
            return false;
        }
        i += 1;
    }
    assert(s@.subrange(0, p@.len() as int) =~= p@);
    true
}

/// Whether the characters `v` spell exactly `s`.
pub fn eq_str(v: &Vec<char>, s: &str) -> (r: bool)
    ensures
        r == (v@ == s@),
{
    let sc = chars_of(s);
    if sc.len() != v.len() {
        return false;
    }
    let mut i: usize = 0;
    while i < v.len()
        invariant
            0 <= i <= v.len(),
            sc.len() == v.len(),
            sc@ == s@,
            forall|j: int| 0 <= j < i ==> v@[j] == s@[j],
        decreases v.len() - i,
    {
        if v[i] != sc[i] {
            return false;
        }
        i += 1;
    }
    assert(v@ =~= s@);
    true
}

/// Whether `s` ends with `p` (`str::ends_with`).
pub fn ends_with_seq(s: &Vec<char>, p: &str) -> (r: bool)
    ensures
        r == has_suffix(s@, p@),
{
    let pc = chars_of(p);
    if pc.len() > s.len() {
        return false;
    }
    let off = s.len() - pc.len();
    let mut i: usize = 0;
    while i < pc.len()
        invariant
            0 <= i <= pc.len() <= s.len(),
            off == s.len() - pc.len(),
            pc@ == p@,
            forall|j: int| 0 <= j < i ==> s@[off + j] == p@[j],
        decreases pc.len() - i,
    {
        if s[off + i] != pc[i] {
            assert(s@.subrange(off as int, s@.len() as int)[i as int] != p@[i as int]);
            return false;
        }
        i += 1;
    }
    assert(s@.subrange(off as int, s@.len() as int) =~= p@);
    true
}

/// Whether `p` occurs in `s` at position `at`.
pub fn occurs_at_exec(s: &Vec<char>, p: &Vec<char>, at: usize) -> (r: bool)
    ensures
        r == occurs_at(s@, p@, at as int),
{
    if at > s.len() || p.len() > s.len() - at {
        return false;
    }
    let mut i: usize = 0;
    while i < p.len()
        invariant
            0 <= i <= p.len(),
            at + p.len() <= s.len(),
            forall|j: int| 0 <= j < i ==> s@[at + j] == p@[j],
        decreases p.len() - i,
    {
        if s[at + i] != p[i] {
            assert(s@.subrange(at as int, at + p@.len())[i as int] != p@[i as int]);
            return false;
        }
        i += 1;
    }
    assert(s@.subrange(at as int, at + p@.len()) =~= p@);
    true
}

/// Whether `p` occurs anywhere in `s` (`str::contains`).
pub fn contains_exec(s: &Vec<char>, p: &str) -> (r: bool)
    ensures
        r == contains_seq(s@, p@),
{
    let pc = chars_of(p);
    if pc.len() > s.len() {
        assert forall|i: int| !occurs_at(s@, p@, i) by {}
        return false;
    }
    let last = s.len() - pc.len();
    let mut at: usize = 0;
    while at < last
        invariant
            pc@ == p@,
            pc.len() <= s.len(),
            last == s.len() - pc.len(),
            0 <= at <= last,
            forall|j: int| 0 <= j < at ==> !occurs_at(s@, p@, j),
        decreases last - at,
    {
        if occurs_at_exec(s, &pc, at) {
            return true;
        }
        at += 1;
    }
    if occurs_at_exec(s, &pc, last) {
        return true;
    }
    assert forall|i: int| !occurs_at(s@, p@, i) by {
        if 0 <= i < at {
        }
    }
    false
}

/// The ASCII-lowercased characters of a text.
pub fn ascii_lower_chars(s: &str) -> (v: Vec<char>)
    ensures
        v@ == ascii_lower_seq(s@),
{
    let chars = chars_of(s);
    let mut v: Vec<char> = Vec::new();
    let mut i: usize = 0;
    while i < chars.len()
        invariant
            0 <= i <= chars.len(),
            chars@ == s@,
            v@ =~= ascii_lower_seq(s@).subrange(0, i as int),
        decreases chars.len() - i,
    {
        let c = chars[i];
        let l = if 'A' <= c && c <= 'Z' {
            ((c as u32) + 32) as u8 as char
        } else {
            c
        };
        assert(l == ascii_lower(c)) by {
            if 'A' <= c && c <= 'Z' {
                assert(((c as u32) + 32) as u8 as char == ((c as u32) + 32) as char);
            }
        };
        v.push(l);
        i += 1;
    }
    assert(v@ =~= ascii_lower_seq(s@));
    v
}

pub proof fn lemma_dec_nonempty(n: nat)
    ensures
        dec(n).len() >= 1,
    decreases n,
{
    if n >= 10 {
        lemma_dec_nonempty(n / 10);
    }
}

/// Different numbers have different decimal renderings.
pub proof fn lemma_dec_injective(a: nat, b: nat)
    requires
        dec(a) == dec(b),
    ensures
        a == b,
    decreases a,
{
    lemma_dec_nonempty(a);
    lemma_dec_nonempty(b);
    if a >= 10 {
        lemma_dec_nonempty(a / 10);
    }
    if b >= 10 {
        lemma_dec_nonempty(b / 10);
    }
    if a < 10 && b < 10 {
        assert(dec(a)[0] == digit_char(a));
        assert(dec(b)[0] == digit_char(b));
    } else if a >= 10 && b >= 10 {
        assert(dec(a).drop_last() == dec(a / 10));
        assert(dec(b).drop_last() == dec(b / 10));
        assert(dec(a).last() == digit_char(a % 10));
        assert(dec(b).last() == digit_char(b % 10));
        lemma_dec_injective(a / 10, b / 10);
    }
}

/// Decimal rendering of an unsigned integer (`u128::to_string`).
pub fn render_u128(n: u128) -> (s: String)
    ensures
        s@ == dec(n as nat),
{
    let mut digits: Vec<char> = Vec::new();
    let mut m = n;
    // digits are collected least significant first
    while m >= 10
        invariant
            dec(n as nat) == dec(m as nat) + digits@.reverse(),
        decreases m,
    {
        let c = char_from_digit((m % 10) as u32);
        assert(dec(m as nat) == dec((m / 10) as nat).push(digit_char((m % 10) as nat)));
        digits.push(c);
        assert(digits@.reverse() =~= seq![c] + digits@.drop_last().reverse());
        assert(dec((m / 10) as nat).push(c) + digits@.drop_last().reverse() =~= dec(
            (m / 10) as nat,
        ) + (seq![c] + digits@.drop_last().reverse()));
        m = m / 10;
    }
    let c = char_from_digit(m as u32);
    assert(dec(m as nat) =~= seq![c]);
    digits.push(c);
    assert(digits@.reverse() =~= seq![c] + digits@.drop_last().reverse());
    assert(dec(n as nat) =~= digits@.reverse());
    let mut s = String::new();
    let mut i = digits.len();
    while i > 0
        invariant
            0 <= i <= digits.len(),
            s@ =~= digits@.reverse().subrange(0, (digits.len() - i) as int),
        decreases i,
    {
        i -= 1;
        push_char(&mut s, digits[i]);
        assert(s@ =~= digits@.reverse().subrange(0, (digits.len() - i) as int));
    }
    assert(digits@.reverse().subrange(0, digits.len() as int) =~= digits@.reverse());
    s
}

/// The character of a decimal digit.
pub fn char_from_digit(d: u32) -> (c: char)
    requires
        d < 10,
    ensures
        c == digit_char(d as nat),
        is_digit(c),
{
    let c = ((d + 48) as u8) as char;
    assert(c == digit_char(d as nat));
    c
}

/// Decimal rendering of a signed integer (`i128::to_string`).
pub fn render_i128(n: i128) -> (s: String)
    ensures
        s@ == dec_int(n as int),
{
    if n < 0 {
        let mag: u128 = if n == i128::MIN {
            (i128::MAX as u128) + 1
        } else {
            (-n) as u128
        };
        let digits = render_u128(mag);
        let mut s = String::new();
        push_char(&mut s, '-');
        push_all(&mut s, &digits);
        assert(s@ =~= seq!['-'] + dec((-n) as nat));
        s
    } else {
        render_u128(n as u128)
    }
}

pub proof fn lemma_digits_val_push(s: Seq<char>, c: char)
    ensures
        digits_val(s.push(c)) == digits_val(s) * 10 + digit_val(c),
{
    assert(s.push(c).drop_last() =~= s);
}

/// Parses an unsigned decimal text the way `str::parse` does for an integer
/// type whose largest value is `max`.
pub fn parse_unsigned_chars(s: &Vec<char>, max: u64) -> (r: Option<u64>)
    requires
        max >= 9,
    ensures
        r is Some <==> parse_unsigned(s@, max as nat) is Some,
        r matches Some(v) ==> parse_unsigned(s@, max as nat) == Some(v as nat),
{
    let start: usize = if s.len() > 0 && s[0] == '+' {
        1
    } else {
        0
    };
    let ghost body = unsigned_body(s@);
    assert(body =~= s@.subrange(start as int, s@.len() as int));
    if start >= s.len() {
        return None;
    }
    let mut acc: u64 = 0;
    let mut i = start;
    while i < s.len()
        invariant
            start <= i <= s.len(),
            body =~= s@.subrange(start as int, s@.len() as int),
            body == unsigned_body(s@),
            max >= 9,
            all_digits(s@.subrange(start as int, i as int)),
            acc as nat == digits_val(s@.subrange(start as int, i as int)),
            acc <= max,
        decreases s.len() - i,
    {
        let c = s[i];
        if !('0' <= c && c <= '9') {
            assert(body[i - start] == c);
            assert(!is_digit(body[i - start]));
            return None;
        }
        let d = (c as u32 - 48) as u64;
        assert(d <= 9);
        proof {
            lemma_digits_val_push(s@.subrange(start as int, i as int), c);
            assert(s@.subrange(start as int, i + 1) =~= s@.subrange(start as int, i as int).push(
                c,
            ));
        }
        if acc > (max - d) / 10 {
            // acc * 10 + d > max, and every longer prefix only grows
            proof {
                assert(acc * 10 + d > max) by (nonlinear_arith)
                    requires
                        acc > (max - d) / 10,
                        d <= max,
                {
                }
                if all_digits(body) {
                    assert(body.subrange(0, i + 1 - start) =~= s@.subrange(start as int, i + 1));
                    lemma_digits_val_mono(body, i + 1 - start);
                }
            }
            return None;
        }
        acc = acc * 10 + d;
        i += 1;
    }
    assert(s@.subrange(start as int, s@.len() as int) == body);
    Some(acc)
}

/// A longer run of digits never has a smaller value.
pub proof fn lemma_digits_val_mono(s: Seq<char>, k: int)
    requires
        0 <= k <= s.len(),
        all_digits(s),
    ensures
        digits_val(s.subrange(0, k)) <= digits_val(s),
    decreases s.len() - k,
{
    if k < s.len() {
        assert forall|i: int| 0 <= i < s.drop_last().len() implies is_digit(
            #[trigger] s.drop_last()[i],
        ) by {
            assert(s.drop_last()[i] == s[i]);
        }
        lemma_digits_val_mono(s.drop_last(), k);
        assert(s.drop_last().subrange(0, k) =~= s.subrange(0, k));
        assert(digits_val(s) == digits_val(s.drop_last()) * 10 + digit_val(s.last()));
    } else {
        assert(s.subrange(0, k) =~= s);
    }
}

/// The pieces of `s` between occurrences of `sep` (`s.split(sep)`).
pub open spec fn split_on(s: Seq<char>, sep: char) -> Seq<Seq<char>>
    decreases s.len(),
{
    if s.len() == 0 {
        seq![Seq::<char>::empty()]
    } else {
        let p = split_on(s.drop_last(), sep);
        if s.last() == sep {
            p.push(Seq::<char>::empty())
        } else {
            p.update(p.len() - 1, p.last().push(s.last()))
        }
    }
}

pub proof fn lemma_split_on_nonempty(s: Seq<char>, sep: char)
    ensures
        split_on(s, sep).len() >= 1,
    decreases s.len(),
{
    if s.len() > 0 {
        lemma_split_on_nonempty(s.drop_last(), sep);
    }
}

/// The pieces of a text between occurrences of `sep` (`str::split`).
pub fn split_on_exec(s: &Vec<char>, sep: char) -> (pcs: Vec<Vec<char>>)
    ensures
        crate::paths::views(pcs@) == split_on(s@, sep),
{
    let mut pcs: Vec<Vec<char>> = Vec::new();
    let mut cur: Vec<char> = Vec::new();
    let mut i: usize = 0;
    while i < s.len()
        invariant
            0 <= i <= s.len(),
            crate::paths::views(pcs@).push(cur@) =~= split_on(s@.subrange(0, i as int), sep),
        decreases s.len() - i,
    {
        let c = s[i];
        let ghost prev = s@.subrange(0, i as int);
        assert(s@.subrange(0, i + 1).drop_last() =~= prev);
        proof {
            lemma_split_on_nonempty(prev, sep);
        }
        if c == sep {
            pcs.push(cur);
            cur = Vec::new();
            assert(crate::paths::views(pcs@).push(cur@) =~= split_on(prev, sep).push(
                Seq::<char>::empty(),
            ));
        } else {
            cur.push(c);
            assert(crate::paths::views(pcs@).push(cur@) =~= split_on(prev, sep).update(
                split_on(prev, sep).len() - 1,
                split_on(prev, sep).last().push(c),
            ));
        }
        i += 1;
    }
    pcs.push(cur);
    assert(s@.subrange(0, s.len() as int) =~= s@);
    pcs
}

/// How many pieces hold something other than whitespace.
pub open spec fn count_nonblank(pcs: Seq<Seq<char>>) -> nat
    decreases pcs.len(),
{
    if pcs.len() == 0 {
        0
    } else {
        count_nonblank(pcs.drop_last()) + if all_ws(pcs.last()) {
            0nat
        } else {
            1nat
        }
    }
}

/// The pieces of `s` between runs of whitespace, empty pieces included.
pub open spec fn split_ws(s: Seq<char>) -> Seq<Seq<char>>
    decreases s.len(),
{
    if s.len() == 0 {
        seq![Seq::<char>::empty()]
    } else {
        let p = split_ws(s.drop_last());
        if is_ws(s.last()) {
            p.push(Seq::<char>::empty())
        } else {
            p.update(p.len() - 1, p.last().push(s.last()))
        }
    }
}

pub proof fn lemma_split_ws_nonempty(s: Seq<char>)
    ensures
        split_ws(s).len() >= 1,
    decreases s.len(),
{
    if s.len() > 0 {
        lemma_split_ws_nonempty(s.drop_last());
    }
}

/// The non-empty pieces, in order.
pub open spec fn nonempty_pieces(pcs: Seq<Seq<char>>) -> Seq<Seq<char>>
    decreases pcs.len(),
{
    if pcs.len() == 0 {
        Seq::empty()
    } else if pcs.last().len() > 0 {
        nonempty_pieces(pcs.drop_last()).push(pcs.last())
    } else {
        nonempty_pieces(pcs.drop_last())
    }
}

/// Words joined with single spaces.
pub open spec fn join_space(words: Seq<Seq<char>>) -> Seq<char>
    decreases words.len(),
{
    if words.len() == 0 {
        Seq::empty()
    } else if words.len() == 1 {
        words[0]
    } else {
        join_space(words.drop_last()) + seq![' '] + words.last()
    }
}

/// The words of `s` (`s.split_whitespace()`) joined by single spaces.
pub open spec fn collapse_ws(s: Seq<char>) -> Seq<char> {
    join_space(nonempty_pieces(split_ws(s)))
}

pub proof fn lemma_join_space_empty(words: Seq<Seq<char>>)
    requires
        forall|i: int| 0 <= i < words.len() ==> (#[trigger] words[i]).len() > 0,
    ensures
        (join_space(words).len() == 0) == (words.len() == 0),
    decreases words.len(),
{
    if words.len() > 1 {
        lemma_join_space_empty(words.drop_last());
    }
}

pub proof fn lemma_nonempty_pieces_nonempty(pcs: Seq<Seq<char>>)
    ensures
        forall|i: int|
            0 <= i < nonempty_pieces(pcs).len() ==> (#[trigger] nonempty_pieces(pcs)[i]).len() > 0,
    decreases pcs.len(),
{
    if pcs.len() > 0 {
        lemma_nonempty_pieces_nonempty(pcs.drop_last());
        let prev = nonempty_pieces(pcs.drop_last());
        if pcs.last().len() > 0 {
            assert forall|i: int| 0 <= i < prev.push(pcs.last()).len() implies (#[trigger] prev.push(
                pcs.last(),
            )[i]).len() > 0 by {
                if i < prev.len() {
                    assert(prev.push(pcs.last())[i] == prev[i]);
                }
            }
        }
    }
}

/// `s.split_whitespace().collect::<Vec<_>>().join(" ")` as characters.
pub fn collapse_ws_exec(s: &Vec<char>) -> (r: Vec<char>)
    ensures
        r@ == collapse_ws(s@),
{
    let mut out: Vec<char> = Vec::new();
    let mut cur_len: usize = 0;
    let mut i: usize = 0;
    assert(s@.subrange(0, 0) =~= Seq::<char>::empty());
    assert(split_ws(Seq::<char>::empty()) == seq![Seq::<char>::empty()]);
    assert(seq![Seq::<char>::empty()].drop_last() =~= Seq::<Seq<char>>::empty());
    assert(nonempty_pieces(seq![Seq::<char>::empty()]) == nonempty_pieces(Seq::<Seq<char>>::empty()));
    assert(out@ =~= join_space(nonempty_pieces(split_ws(s@.subrange(0, 0)))));
    while i < s.len()
        invariant
            0 <= i <= s.len(),
            cur_len <= i,
            split_ws(s@.subrange(0, i as int)).len() >= 1,
            cur_len == split_ws(s@.subrange(0, i as int)).last().len(),
            out@ == join_space(nonempty_pieces(split_ws(s@.subrange(0, i as int)))),
        decreases s.len() - i,
    {
        let c = s[i];
        let ghost prev = s@.subrange(0, i as int);
        let ghost pcs = split_ws(prev);
        assert(s@.subrange(0, i + 1).drop_last() =~= prev);
        assert(s@.subrange(0, i + 1).last() == c);
        if char_is_ws(c) {
            assert(split_ws(s@.subrange(0, i + 1)) == pcs.push(Seq::<char>::empty()));
            assert(pcs.push(Seq::<char>::empty()).drop_last() =~= pcs);
            cur_len = 0;
        } else {
            let ghost npcs = pcs.update(pcs.len() - 1, pcs.last().push(c));
            assert(split_ws(s@.subrange(0, i + 1)) == npcs);
            assert(npcs.drop_last() =~= pcs.drop_last());
            assert(npcs.last() == pcs.last().push(c));
            proof {
                lemma_nonempty_pieces_nonempty(pcs.drop_last());
                lemma_join_space_empty(nonempty_pieces(pcs.drop_last()));
            }
            if cur_len == 0 {
                assert(pcs.last() =~= Seq::<char>::empty());
                assert(nonempty_pieces(pcs) == nonempty_pieces(pcs.drop_last()));
                assert(nonempty_pieces(npcs) == nonempty_pieces(pcs.drop_last()).push(seq![c]));
                let ghost w = nonempty_pieces(pcs.drop_last());
                assert(w.push(seq![c]).drop_last() =~= w);
                if out.len() > 0 {
                    assert(w.len() >= 1);
                    out.push(' ');
                    out.push(c);
                    assert(join_space(w.push(seq![c])) == join_space(w) + seq![' '] + seq![c]);
                    assert(out@ =~= join_space(nonempty_pieces(npcs)));
                } else {
                    assert(w.len() == 0);
                    out.push(c);
                    assert(w.push(seq![c]) =~= seq![seq![c]]);
                    assert(out@ =~= join_space(nonempty_pieces(npcs)));
                }
            } else {
                let ghost w = nonempty_pieces(pcs.drop_last());
                assert(nonempty_pieces(pcs) == w.push(pcs.last()));
                assert(nonempty_pieces(npcs) == w.push(pcs.last().push(c)));
                assert(w.push(pcs.last()).drop_last() =~= w);
                assert(w.push(pcs.last().push(c)).drop_last() =~= w);
                out.push(c);
                assert(out@ =~= join_space(nonempty_pieces(npcs)));
            }
            cur_len = cur_len + 1;
        }
        i += 1;
    }
    assert(s@.subrange(0, s.len() as int) =~= s@);
    out
}

/// Single quotes doubled, as `s.replace('\'', "''")` gives it.
pub open spec fn double_quotes(s: Seq<char>) -> Seq<char>
    decreases s.len(),
{
    if s.len() == 0 {
        Seq::empty()
    } else if s.last() == '\'' {
        double_quotes(s.drop_last()) + seq!['\'', '\'']
    } else {
        double_quotes(s.drop_last()).push(s.last())
    }
}

/// A text with every single quote doubled.
pub fn double_quotes_exec(s: &str) -> (r: String)
    ensures
        r@ == double_quotes(s@),
{
    let chars = chars_of(s);
    let mut r = String::new();
    let mut i: usize = 0;
    while i < chars.len()
        invariant
            0 <= i <= chars.len(),
            chars@ == s@,
            r@ == double_quotes(s@.subrange(0, i as int)),
        decreases chars.len() - i,
    {
        assert(s@.subrange(0, i + 1).drop_last() =~= s@.subrange(0, i as int));
        if chars[i] == '\'' {
            push_char(&mut r, '\'');
            push_char(&mut r, '\'');
            assert(r@ =~= double_quotes(s@.subrange(0, i + 1)));
        } else {
            push_char(&mut r, chars[i]);
        }
        i += 1;
    }
    assert(s@.subrange(0, s@.len() as int) =~= s@);
    r
}

/// Text order, as `Ord` orders `str`: character by character, a proper prefix
/// first. (`str` compares UTF-8 bytes, and UTF-8 keeps the order of code
/// points.)
pub open spec fn text_le(a: Seq<char>, b: Seq<char>) -> bool
    decreases a.len(),
{
    if a.len() == 0 {
        true
    } else if b.len() == 0 {
        false
    } else if a[0] != b[0] {
        a[0] < b[0]
    } else {
        text_le(a.drop_first(), b.drop_first())
    }
}

/// Of two texts one comes first.
pub proof fn lemma_text_le_total(a: Seq<char>, b: Seq<char>)
    ensures
        text_le(a, b) || text_le(b, a),
    decreases a.len(),
{
    if a.len() > 0 && b.len() > 0 && a[0] == b[0] {
        lemma_text_le_total(a.drop_first(), b.drop_first());
    }
}

/// Text order is transitive.
pub proof fn lemma_text_le_transitive(a: Seq<char>, b: Seq<char>, c: Seq<char>)
    requires
        text_le(a, b),
        text_le(b, c),
    ensures
        text_le(a, c),
    decreases a.len(),
{
    if a.len() > 0 && b.len() > 0 && c.len() > 0 && a[0] == b[0] && b[0] == c[0] {
        lemma_text_le_transitive(a.drop_first(), b.drop_first(), c.drop_first());
    }
}

/// Whether `a` comes no later than `b` in text order.
pub fn text_le_exec(a: &Vec<char>, b: &Vec<char>) -> (r: bool)
    ensures
        r == text_le(a@, b@),
{
    let mut i: usize = 0;
    assert(a@.skip(0) =~= a@);
    assert(b@.skip(0) =~= b@);
    while i < a.len() && i < b.len()
        invariant
            0 <= i <= a.len(),
            i <= b.len(),
            a@.subrange(0, i as int) == b@.subrange(0, i as int),
            text_le(a@, b@) == text_le(a@.skip(i as int), b@.skip(i as int)),
        decreases a.len() - i,
    {
        if a[i] != b[i] {
            return a[i] < b[i];
        }
        assert(a@.skip(i as int).drop_first() =~= a@.skip(i + 1));
        assert(b@.skip(i as int).drop_first() =~= b@.skip(i + 1));
        assert(a@.subrange(0, i + 1) =~= a@.subrange(0, i as int).push(a@[i as int]));
        assert(b@.subrange(0, i + 1) =~= b@.subrange(0, i as int).push(b@[i as int]));
        i += 1;
    }
    i == a.len()
}

} // verus!
