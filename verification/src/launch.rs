//! Start-up choices: the first of several candidate settings that is
//! present, and the process id recorded in the confirmation lock file.
use vstd::prelude::*;
use crate::text::{owned, trim, trim_str, is_digit, char_is_digit};
use crate::wt::opt_text;
use crate::picker::all_digits;

verus! {

/// The first candidate that is present, or `fallback`.
pub open spec fn first_present_of(cs: Seq<Option<Seq<char>>>, fallback: Seq<char>) -> Seq<char>
    decreases cs.len(),
{
    if cs.len() == 0 {
        fallback
    } else {
        match cs[0] {
            Some(c) => c,
            None => first_present_of(cs.drop_first(), fallback),
        }
    }
}

pub open spec fn opt_texts(cs: Seq<Option<String>>) -> Seq<Option<Seq<char>>> {
    cs.map_values(|c: Option<String>| opt_text(c))
}

/// The first candidate that is present, or `fallback` (the chains of
/// `or_else` that pick the start directory, the plugin id and herdr's path).
pub fn first_present(candidates: &[Option<String>], fallback: &str) -> (r: String)
    ensures
        r@ == first_present_of(opt_texts(candidates@), fallback@),
{
    let ghost cs = opt_texts(candidates@);
    let n = candidates.len();
    let mut i: usize = 0;
    assert(cs.skip(0) =~= cs);
    while i < n
        invariant
            n == candidates@.len(),
            cs == opt_texts(candidates@),
            cs.len() == n,
            i <= n,
            first_present_of(cs, fallback@) == first_present_of(cs.skip(i as int), fallback@),
        decreases n - i,
    {
        assert(cs.skip(i as int).drop_first() =~= cs.skip(i + 1));
        assert(cs.skip(i as int)[0] == opt_text(candidates@[i as int]));
        match &candidates[i] {
            Some(c) => return owned(c.as_str()),
            None => {},
        }
        i = i + 1;
    }
    assert(cs.skip(n as int) =~= Seq::<Option<Seq<char>>>::empty());
    owned(fallback)
}

/// The value of a run of decimal digits.
pub open spec fn decimal_value(ds: Seq<char>) -> nat
    decreases ds.len(),
{
    if ds.len() == 0 {
        0
    } else {
        decimal_value(ds.drop_last()) * 10 + ((ds.last() as u32) - ('0' as u32)) as nat
    }
}

/// `s` without a leading `+`.
pub open spec fn unsigned_part(s: Seq<char>) -> Seq<char> {
    if s.len() > 0 && s[0] == '+' {
        s.drop_first()
    } else {
        s
    }
}

/// What `str::parse::<u32>` reads: an optional `+`, then one or more
/// ASCII digits whose value fits in a `u32`.
pub open spec fn u32_of(s: Seq<char>) -> Option<u32> {
    let ds = unsigned_part(s);
    if ds.len() > 0 && all_digits(ds) && decimal_value(ds) <= u32::MAX {
        Some(decimal_value(ds) as u32)
    } else {
        None
    }
}

proof fn lemma_decimal_grows(ds: Seq<char>, k: int)
    requires
        0 <= k <= ds.len(),
        all_digits(ds),
    ensures
        decimal_value(ds.take(k)) <= decimal_value(ds),
    decreases ds.len() - k,
{
    if k < ds.len() {
        lemma_decimal_grows(ds, k + 1);
        assert(ds.take(k + 1).drop_last() =~= ds.take(k));
    } else {
        assert(ds.take(k) =~= ds);
    }
}

/// Reads a decimal `u32` (`str::parse::<u32>`).
pub fn parse_u32(s: &str) -> (r: Option<u32>)
    ensures
        r == u32_of(s@),
{
    let n = s.unicode_len();
    let start: usize = if n > 0 && s.get_char(0) == '+' {
        1
    } else {
        0
    };
    let ghost ds = unsigned_part(s@);
    assert(ds =~= s@.skip(start as int));
    if start >= n {
        return None;
    }
    let mut value: u64 = 0;
    let mut i: usize = start;
    while i < n
        invariant
            n == s@.len(),
            start <= i <= n,
            ds == s@.skip(start as int),
            ds == unsigned_part(s@),
            forall|j: int| 0 <= j < i - start ==> is_digit(#[trigger] ds[j]),
            value == decimal_value(ds.take(i - start)),
            value <= u32::MAX,
        decreases n - i,
    {
        let c = s.get_char(i);
        assert(c == ds[i - start]);
        if !char_is_digit(c) {
            assert(!is_digit(ds[i - start]));
            assert(!(forall|j: int| 0 <= j < ds.len() ==> is_digit(#[trigger] ds[j])));
            assert(u32_of(s@) is None);
            return None;
        }
        let d = (c as u32 - '0' as u32) as u64;
        assert(ds.take(i - start + 1).drop_last() =~= ds.take(i - start));
        let next = value * 10 + d;
        if next > 4294967295u64 {
            proof {
                let k = i - start + 1;
                assert(ds.take(k).last() == c);
                assert(decimal_value(ds.take(k)) == decimal_value(ds.take(k).drop_last()) * 10 + ((c as u32) - ('0' as u32)) as nat);
                assert(decimal_value(ds.take(k)) == next);
                if all_digits(ds) {
                    lemma_decimal_grows(ds, k);
                    assert(decimal_value(ds) > u32::MAX);
                }
                assert(u32_of(s@) is None);
            }
            return None;
        }
        value = next;
        i = i + 1;
    }
    assert(ds.take(n - start) =~= ds);
    Some(value as u32)
}

/// The process id written in the confirmation lock file, if it holds one.
pub fn lock_owner(contents: &str) -> (r: Option<u32>)
    ensures
        r == u32_of(trim(contents@)),
{
    parse_u32(trim_str(contents))
}

} // verus!
