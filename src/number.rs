//! Unsigned integers written as digits, the way Rust's integer parsing reads
//! them: an optional leading `+`, then one or more digits of the radix.

use vstd::prelude::*;

verus! {

/// The value of the ASCII digit `b` in `radix` (10 or 16; both letter cases
/// count for 16).
pub open spec fn digit_value(b: u8, radix: nat) -> Option<nat> {
    if 48 <= b <= 57 && (b - 48) < radix {
        Some((b - 48) as nat)
    } else if radix == 16 && 97 <= b <= 102 {
        Some((b - 87) as nat)
    } else if radix == 16 && 65 <= b <= 70 {
        Some((b - 55) as nat)
    } else {
        None
    }
}

/// Whether every byte of `s` is a digit of `radix`.
pub open spec fn all_digits(s: Seq<u8>, radix: nat) -> bool {
    forall|i: int| 0 <= i < s.len() ==> (#[trigger] digit_value(s[i], radix)) is Some
}

/// The number that the digits `s` spell, most significant first.
pub open spec fn digits_value(s: Seq<u8>, radix: nat) -> nat
    decreases s.len(),
{
    if s.len() == 0 {
        0
    } else {
        digits_value(s.drop_last(), radix) * radix + digit_value(s.last(), radix).unwrap()
    }
}

/// The digits of `s` once a single leading `+` is set aside.
pub open spec fn unsigned_digits(s: Seq<u8>) -> Seq<u8> {
    if s.len() > 0 && s[0] == 43 {
        s.drop_first()
    } else {
        s
    }
}

/// The number that `s` writes in `radix`, if it writes one no larger than `max`.
pub open spec fn parse_unsigned(s: Seq<u8>, radix: nat, max: nat) -> Option<nat> {
    let d = unsigned_digits(s);
    if d.len() > 0 && all_digits(d, radix) && digits_value(d, radix) <= max {
        Some(digits_value(d, radix))
    } else {
        None
    }
}

fn digit(b: u8, radix: u64) -> (r: Option<u64>)
    requires
        radix == 10 || radix == 16,
    ensures
        r matches Some(v) ==> digit_value(b, radix as nat) == Some(v as nat),
        r is None ==> digit_value(b, radix as nat) is None,
{
    if 48 <= b && b <= 57 && ((b - 48) as u64) < radix {
        Some((b - 48) as u64)
    } else if radix == 16 && 97 <= b && b <= 102 {
        Some((b - 87) as u64)
    } else if radix == 16 && 65 <= b && b <= 70 {
        Some((b - 55) as u64)
    } else {
        None
    }
}

proof fn lemma_step_bound(acc: nat, radix: nat, d: nat, max: nat)
    requires
        radix > 0,
        d < radix,
        d <= max,
    ensures
        acc <= (max - d) as nat / radix <==> acc * radix + d <= max,
{
    assert(acc <= (max - d) as nat / radix <==> acc * radix + d <= max) by (nonlinear_arith)
        requires
            radix > 0,
            d <= max,
    {
    }
}

proof fn lemma_value_grows(s: Seq<u8>, radix: nat, i: int)
    requires
        radix > 0,
        0 <= i <= s.len(),
        all_digits(s, radix),
    ensures
        digits_value(s.subrange(0, i), radix) <= digits_value(s, radix),
    decreases s.len() - i,
{
    if i < s.len() {
        lemma_value_grows(s, radix, i + 1);
        let p = s.subrange(0, i + 1);
        assert(p.drop_last() =~= s.subrange(0, i));
        assert(digit_value(p.last(), radix) is Some);
        assert(digits_value(s.subrange(0, i), radix) <= digits_value(s.subrange(0, i), radix)
            * radix) by (nonlinear_arith)
            requires
                radix > 0,
        {
        }
    } else {
        assert(s.subrange(0, i) =~= s);
    }
}

/// Reads `s[start..end]` as a number in `radix` no larger than `max`.
pub fn parse_unsigned_at(s: &[u8], start: usize, end: usize, radix: u64, max: u64) -> (r: Option<
    u64,
>)
    requires
        start <= end <= s@.len(),
        radix == 10 || radix == 16,
    ensures
        r matches Some(v) ==> parse_unsigned(s@.subrange(start as int, end as int), radix as nat, max as nat) == Some(v as nat),
        r is None ==> parse_unsigned(s@.subrange(start as int, end as int), radix as nat, max as nat) is None,
{
    let ghost whole = s@.subrange(start as int, end as int);
    let mut i = start;
    if i < end && s[i] == 43 {
        i = i + 1;
    }
    let ghost first = i;
    let ghost d = s@.subrange(first as int, end as int);
    assert(d =~= unsigned_digits(whole));
    if i == end {
        return None;
    }
    let mut acc: u64 = 0;
    while i < end
        invariant
            first <= i <= end <= s@.len(),
            first < end,
            radix == 10 || radix == 16,
            d == s@.subrange(first as int, end as int),
            d == unsigned_digits(s@.subrange(start as int, end as int)),
            all_digits(s@.subrange(first as int, i as int), radix as nat),
            acc as nat == digits_value(s@.subrange(first as int, i as int), radix as nat),
            acc <= max,
        decreases end - i,
    {
        let ghost before = s@.subrange(first as int, i as int);
        let ghost after = s@.subrange(first as int, i + 1);
        assert(after.drop_last() =~= before);
        assert(after.last() == s@[i as int]);
        match digit(s[i], radix) {
            None => {
                assert(!all_digits(d, radix as nat)) by {
                    assert(d[i - first] == s@[i as int]);
                    assert(digit_value(d[i - first], radix as nat) is None);
                }
                return None;
            },
            Some(v) => {
                proof {
                    if v <= max {
                        lemma_step_bound(acc as nat, radix as nat, v as nat, max as nat);
                    }
                }
                if v > max || acc > (max - v) / radix {
                    proof {
                        if v <= max {
                            assert(digits_value(after, radix as nat) > max);
                        } else {
                            assert(digits_value(after, radix as nat) >= v);
                        }
                        if all_digits(d, radix as nat) {
                            assert(after =~= d.subrange(0, i + 1 - first));
                            lemma_value_grows(d, radix as nat, i + 1 - first);
                        }
                    }
                    return None;
                }
                acc = acc * radix + v;
                assert(all_digits(after, radix as nat)) by {
                    assert forall|k: int| 0 <= k < after.len() implies (#[trigger] digit_value(
                        after[k],
                        radix as nat,
                    )) is Some by {
                        if k < after.len() - 1 {
                            assert(after[k] == before[k]);
                        }
                    }
                }
            },
        }
        i = i + 1;
    }
    assert(s@.subrange(first as int, i as int) =~= d);
    Some(acc)
}

} // verus!
