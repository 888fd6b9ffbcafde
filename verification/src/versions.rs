//! Release versions and tags (`v0.3.1`, `0.3.1-beta`) and how they order.
use vstd::prelude::*;
use core::cmp::Ordering;
use crate::text::{chars_of, digits_val, is_digit, parse_unsigned, split_on, split_on_exec};

verus! {

/// The text without its leading `v`s (`trim_start_matches('v')`).
pub open spec fn strip_v(s: Seq<char>) -> Seq<char>
    decreases s.len(),
{
    if s.len() > 0 && s[0] == 'v' {
        strip_v(s.drop_first())
    } else {
        s
    }
}

/// The ASCII digits of a text, in order.
pub open spec fn keep_digits(s: Seq<char>) -> Seq<char>
    decreases s.len(),
{
    if s.len() == 0 {
        Seq::empty()
    } else if is_digit(s.last()) {
        keep_digits(s.drop_last()).push(s.last())
    } else {
        keep_digits(s.drop_last())
    }
}

/// The number a part of a version stands for: its digits read as a `u64`,
/// or 0 where there are none or they overflow.
pub open spec fn part_value(p: Seq<char>) -> nat {
    match parse_unsigned(keep_digits(p), u64::MAX as nat) {
        Some(v) => v,
        None => 0,
    }
}

/// The numbers of a version, one for each `.`-separated part.
pub open spec fn version_numbers(s: Seq<char>) -> Seq<nat> {
    let parts = split_on(strip_v(s), '.');
    Seq::new(parts.len(), |i: int| part_value(parts[i]))
}

/// The `i`-th number of a version, 0 past its end.
pub open spec fn number_at(v: Seq<nat>, i: int) -> nat {
    if 0 <= i < v.len() {
        v[i]
    } else {
        0
    }
}

pub open spec fn longest(a: Seq<nat>, b: Seq<nat>) -> nat {
    if a.len() >= b.len() {
        a.len()
    } else {
        b.len()
    }
}

/// How two number lists compare from position `i` on, a missing number
/// counting as 0.
pub open spec fn order_from(a: Seq<nat>, b: Seq<nat>, i: int) -> Ordering
    decreases longest(a, b) - i,
{
    if i >= longest(a, b) {
        Ordering::Equal
    } else if number_at(a, i) < number_at(b, i) {
        Ordering::Less
    } else if number_at(a, i) > number_at(b, i) {
        Ordering::Greater
    } else {
        order_from(a, b, i + 1)
    }
}

/// How two versions compare: number by number.
pub open spec fn version_order(left: Seq<char>, right: Seq<char>) -> Ordering {
    order_from(version_numbers(left), version_numbers(right), 0)
}

proof fn lemma_keep_digits_push(s: Seq<char>, c: char)
    ensures
        keep_digits(s.push(c)) == if is_digit(c) {
            keep_digits(s).push(c)
        } else {
            keep_digits(s)
        },
{
    assert(s.push(c).drop_last() =~= s);
}

proof fn lemma_keep_digits_all(s: Seq<char>)
    ensures
        crate::text::all_digits(keep_digits(s)),
    decreases s.len(),
{
    if s.len() > 0 {
        lemma_keep_digits_all(s.drop_last());
    }
}

/// The number of one part of a version.
fn part_number(part: &Vec<char>) -> (r: u64)
    ensures
        r as nat == part_value(part@),
{
    let mut digits: Vec<char> = Vec::new();
    let mut i: usize = 0;
    while i < part.len()
        invariant
            0 <= i <= part.len(),
            digits@ == keep_digits(part@.subrange(0, i as int)),
        decreases part.len() - i,
    {
        let c = part[i];
        proof {
            lemma_keep_digits_push(part@.subrange(0, i as int), c);
            assert(part@.subrange(0, i + 1) =~= part@.subrange(0, i as int).push(c));
        }
        if '0' <= c && c <= '9' {
            digits.push(c);
        }
        i += 1;
    }
    assert(part@.subrange(0, part.len() as int) =~= part@);
    match crate::text::parse_unsigned_chars(&digits, u64::MAX) {
        Some(v) => v,
        None => 0,
    }
}

/// A list of `u64` as numbers.
pub open spec fn widen(v: Seq<u64>) -> Seq<nat> {
    Seq::new(v.len(), |i: int| v[i] as nat)
}

/// The numbers of a version.
pub fn version_number_list(value: &str) -> (r: Vec<u64>)
    ensures
        widen(r@) == version_numbers(value@),
{
    let chars = chars_of(value);
    let mut start: usize = 0;
    assert(chars@.subrange(0, chars.len() as int) =~= chars@);
    while start < chars.len() && chars[start] == 'v'
        invariant
            0 <= start <= chars.len(),
            chars@ == value@,
            strip_v(value@) == strip_v(chars@.subrange(start as int, chars.len() as int)),
        decreases chars.len() - start,
    {
        assert(chars@.subrange(start as int, chars.len() as int).drop_first() =~= chars@.subrange(
            start + 1,
            chars.len() as int,
        ));
        start += 1;
    }
    let mut rest: Vec<char> = Vec::new();
    let mut k = start;
    while k < chars.len()
        invariant
            start <= k <= chars.len(),
            rest@ =~= chars@.subrange(start as int, k as int),
        decreases chars.len() - k,
    {
        rest.push(chars[k]);
        k += 1;
    }
    assert(strip_v(rest@) == rest@);
    let parts = split_on_exec(&rest, '.');
    let mut out: Vec<u64> = Vec::new();
    let ghost want = version_numbers(value@);
    let mut j: usize = 0;
    while j < parts.len()
        invariant
            0 <= j <= parts.len(),
            crate::paths::views(parts@) == split_on(strip_v(value@), '.'),
            out@.len() == j,
            forall|i: int| 0 <= i < j ==> #[trigger] out@[i] as nat == version_numbers(value@)[i],
        decreases parts.len() - j,
    {
        let n = part_number(&parts[j]);
        out.push(n);
        j += 1;
    }
    assert(widen(out@) =~= want);
    out
}

/// How two versions compare, number by number, a missing number counting
/// as 0.
pub fn version_compare(left: &str, right: &str) -> (r: Ordering)
    ensures
        r == version_order(left@, right@),
{
    let l = version_number_list(left);
    let r = version_number_list(right);
    let count = if l.len() >= r.len() {
        l.len()
    } else {
        r.len()
    };
    let ghost a = version_numbers(left@);
    let ghost b = version_numbers(right@);
    let mut i: usize = 0;
    let ghost mut gi: int = 0;
    while i < count
        invariant
            0 <= i <= count,
            gi == i,
            a == version_numbers(left@),
            b == version_numbers(right@),
            count == longest(a, b),
            widen(l@) == a,
            widen(r@) == b,
            order_from(a, b, 0) == order_from(a, b, gi),
        decreases count - i,
    {
        let x: u64 = if i < l.len() {
            l[i]
        } else {
            0
        };
        let y: u64 = if i < r.len() {
            r[i]
        } else {
            0
        };
        assert(x == number_at(a, gi) && y == number_at(b, gi));
        if x < y {
            return Ordering::Less;
        }
        if x > y {
            return Ordering::Greater;
        }
        i += 1;
        proof {
            gi = gi + 1;
        }
    }
    Ordering::Equal
}

pub open spec fn flip(o: Ordering) -> Ordering {
    match o {
        Ordering::Less => Ordering::Greater,
        Ordering::Equal => Ordering::Equal,
        Ordering::Greater => Ordering::Less,
    }
}

proof fn lemma_order_from_flip(a: Seq<nat>, b: Seq<nat>, i: int)
    ensures
        order_from(b, a, i) == flip(order_from(a, b, i)),
        order_from(a, a, i) == Ordering::Equal,
    decreases longest(a, b) - i,
{
    assert(longest(a, b) == longest(b, a));
    if i < longest(a, b) {
        lemma_order_from_flip(a, b, i + 1);
    }
}

/// Comparing two versions the other way round gives the opposite answer,
/// and a version is equal to itself.
pub proof fn lemma_version_order_antisymmetric(left: Seq<char>, right: Seq<char>)
    ensures
        version_order(right, left) == flip(version_order(left, right)),
        version_order(left, left) == Ordering::Equal,
{
    lemma_order_from_flip(version_numbers(left), version_numbers(right), 0);
}

/// How two number lists compare from position `i` up to position `n`.
pub open spec fn order_upto(a: Seq<nat>, b: Seq<nat>, i: int, n: nat) -> Ordering
    decreases n - i,
{
    if i >= n {
        Ordering::Equal
    } else if number_at(a, i) < number_at(b, i) {
        Ordering::Less
    } else if number_at(a, i) > number_at(b, i) {
        Ordering::Greater
    } else {
        order_upto(a, b, i + 1, n)
    }
}

/// Comparing up to any bound past both lists is comparing them whole.
proof fn lemma_order_upto(a: Seq<nat>, b: Seq<nat>, i: int, n: nat)
    requires
        n >= longest(a, b),
    ensures
        order_from(a, b, i) == order_upto(a, b, i, n),
    decreases n - i,
{
    if i < n {
        lemma_order_upto(a, b, i + 1, n);
    }
}

proof fn lemma_order_upto_transitive(a: Seq<nat>, b: Seq<nat>, c: Seq<nat>, i: int, n: nat)
    ensures
        order_upto(a, b, i, n) != Ordering::Greater && order_upto(b, c, i, n) != Ordering::Greater
            ==> order_upto(a, c, i, n) != Ordering::Greater,
        order_upto(a, b, i, n) == Ordering::Greater && order_upto(b, c, i, n) == Ordering::Greater
            ==> order_upto(a, c, i, n) == Ordering::Greater,
    decreases n - i,
{
    if i < n {
        lemma_order_upto_transitive(a, b, c, i + 1, n);
    }
}

/// Version order is transitive: a version no later than a second one that
/// is no later than a third is no later than the third, and a version later
/// than a second one that is later than a third is later than the third.
pub proof fn lemma_version_order_transitive(x: Seq<char>, y: Seq<char>, z: Seq<char>)
    ensures
        version_order(x, y) != Ordering::Greater && version_order(y, z) != Ordering::Greater
            ==> version_order(x, z) != Ordering::Greater,
        version_order(x, y) == Ordering::Greater && version_order(y, z) == Ordering::Greater
            ==> version_order(x, z) == Ordering::Greater,
{
    let a = version_numbers(x);
    let b = version_numbers(y);
    let c = version_numbers(z);
    let n = longest(a, b) + longest(b, c) + longest(a, c);
    lemma_order_upto(a, b, 0, n);
    lemma_order_upto(b, c, 0, n);
    lemma_order_upto(a, c, 0, n);
    lemma_order_upto_transitive(a, b, c, 0, n);
}

/// Whether `candidate` is a later version than `current`.
pub fn is_newer(candidate: &str, current: &str) -> (r: bool)
    ensures
        r == (version_order(candidate@, current@) == Ordering::Greater),
{
    match version_compare(candidate, current) {
        Ordering::Greater => true,
        Ordering::Less => false,
        Ordering::Equal => false,
    }
}

/// What an update check finds: the manager can be updated when the latest
/// release is newer than the running manager; the services' programs when
/// it is newer than the installed release, or when none is installed.
pub fn update_check(
    current_manager_version: String,
    latest_release_tag: String,
    installed_release_tag: Option<String>,
) -> (r: crate::manager_install::UpdateCheck)
    ensures
        r.current_manager_version@ == current_manager_version@,
        r.latest_release_tag matches Some(t) && t@ == latest_release_tag@,
        match (r.installed_release_tag, installed_release_tag) {
            (Some(a), Some(b)) => a@ == b@,
            (None, None) => true,
            _ => false,
        },
        r.manager_update_available == (version_order(latest_release_tag@, current_manager_version@)
            == Ordering::Greater),
        r.binary_update_available == match installed_release_tag {
            Some(installed) => version_order(latest_release_tag@, installed@) == Ordering::Greater,
            None => true,
        },
{
    let manager_update_available = is_newer(&latest_release_tag, &current_manager_version);
    let binary_update_available = match &installed_release_tag {
        Some(installed) => is_newer(&latest_release_tag, installed),
        None => true,
    };
    crate::manager_install::UpdateCheck {
        current_manager_version,
        latest_release_tag: Some(latest_release_tag),
        installed_release_tag,
        manager_update_available,
        binary_update_available,
    }
}

} // verus!
