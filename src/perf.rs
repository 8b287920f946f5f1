use vstd::prelude::*;

verus! {

/// ASCII whitespace: space, tab, line feed, form feed, carriage return.
pub open spec fn is_space(b: u8) -> bool {
    b == 32 || b == 9 || b == 10 || b == 12 || b == 13
}

/// Splitting `s` into whitespace-separated fields, as far as it goes: the fields already
/// closed by a whitespace byte, and the field still open at the end.
pub open spec fn split_state(s: Seq<u8>) -> (Seq<Seq<u8>>, Seq<u8>)
    decreases s.len(),
{
    if s.len() == 0 {
        (Seq::empty(), Seq::empty())
    } else {
        let (done, cur) = split_state(s.drop_last());
        let b = s.last();
        if is_space(b) {
            if cur.len() > 0 {
                (done.push(cur), Seq::empty())
            } else {
                (done, Seq::empty())
            }
        } else {
            (done, cur.push(b))
        }
    }
}

/// The non-empty runs of non-whitespace bytes of `s`, in order.
pub open spec fn fields(s: Seq<u8>) -> Seq<Seq<u8>> {
    let (done, cur) = split_state(s);
    if cur.len() > 0 {
        done.push(cur)
    } else {
        done
    }
}

pub open spec fn is_digit(b: u8) -> bool {
    48 <= b <= 57
}

/// Value of a string of decimal digits.
pub open spec fn digits_value(d: Seq<u8>) -> nat
    decreases d.len(),
{
    if d.len() == 0 {
        0
    } else {
        digits_value(d.drop_last()) * 10 + (d.last() - 48) as nat
    }
}

/// The digits of a decimal numeral: what follows an optional leading `+`.
pub open spec fn numeral_digits(f: Seq<u8>) -> Seq<u8> {
    if f.len() > 0 && f[0] == 43 {
        f.drop_first()
    } else {
        f
    }
}

/// The unsigned integer that `f` writes in decimal (an optional `+`, then one or more
/// digits), when it fits in 64 bits.
pub open spec fn decimal_u64(f: Seq<u8>) -> Option<u64> {
    let d = numeral_digits(f);
    if d.len() > 0 && (forall|i: int| 0 <= i < d.len() ==> is_digit(#[trigger] d[i])) && digits_value(d)
        <= u64::MAX {
        Some(digits_value(d) as u64)
    } else {
        None
    }
}

/// Process cycle time recorded in a `/proc/<pid>/stat` record: the sum of its user time
/// (field 14) and system time (field 15), when both are numerals and the sum fits.
pub open spec fn stat_cycle_time(s: Seq<u8>) -> Option<u64> {
    let f = fields(s);
    if f.len() >= 15 {
        match (decimal_u64(f[13]), decimal_u64(f[14])) {
            (Some(u), Some(t)) => if u + t <= u64::MAX {
                Some((u + t) as u64)
            } else {
                None
            },
            _ => None,
        }
    } else {
        None
    }
}

proof fn lemma_value_grows(d: Seq<u8>, k: int)
    requires
        0 <= k <= d.len(),
        forall|i: int| 0 <= i < d.len() ==> is_digit(#[trigger] d[i]),
    ensures
        digits_value(d.take(k)) <= digits_value(d),
    decreases d.len() - k,
{
    if k < d.len() {
        lemma_value_grows(d, k + 1);
        assert(d.take(k + 1).drop_last() =~= d.take(k));
    } else {
        assert(d.take(k) =~= d);
    }
}

/// Reads `f` as a decimal numeral (an optional `+`, then one or more digits) that fits in
/// 64 bits.
pub fn parse_u64(f: &[u8]) -> (r: Option<u64>)
    ensures
        r == decimal_u64(f@),
{
    let mut i: usize = 0;
    if f.len() > 0 && f[0] == 43u8 {
        i = 1;
    }
    let start = i;
    let ghost d = numeral_digits(f@);
    assert(d =~= f@.skip(start as int));
    if i == f.len() {
        return None;
    }
    let mut v: u64 = 0;
    while i < f.len()
        invariant
            start <= i <= f.len(),
            d == f@.skip(start as int),
            d == numeral_digits(f@),
            forall|j: int| 0 <= j < i - start ==> is_digit(#[trigger] d[j]),
            v as nat == digits_value(d.take(i - start)),
        decreases f.len() - i,
    {
        let b = f[i];
        assert(d[i - start] == b);
        if b < 48u8 || b > 57u8 {
            assert(!is_digit(d[i - start]));
            return None;
        }
        assert(d.take(i - start + 1).drop_last() =~= d.take(i - start));
        assert(d.take(i - start + 1).last() == b);
        let digit = (b - 48u8) as u64;
        match v.checked_mul(10) {
            Some(m) => match m.checked_add(digit) {
                Some(n) => {
                    v = n;
                },
                None => {
                    proof {
                        lemma_overflow_stays(d, i - start + 1);
                    }
                    return None;
                },
            },
            None => {
                proof {
                    lemma_overflow_stays(d, i - start + 1);
                }
                return None;
            },
        }
        i = i + 1;
    }
    assert(d.take(i - start) =~= d);
    Some(v)
}

/// Once a prefix of digits is past 64 bits, either the numeral has a non-digit further on
/// or its value is past 64 bits too.
proof fn lemma_overflow_stays(d: Seq<u8>, k: int)
    requires
        0 <= k <= d.len(),
        digits_value(d.take(k)) > u64::MAX,
    ensures
        (forall|i: int| 0 <= i < d.len() ==> is_digit(#[trigger] d[i])) ==> digits_value(d) > u64::MAX,
{
    if forall|i: int| 0 <= i < d.len() ==> is_digit(#[trigger] d[i]) {
        lemma_value_grows(d, k);
    }
}

/// Views of a list of byte strings.
pub open spec fn views(v: Seq<Vec<u8>>) -> Seq<Seq<u8>> {
    v.map_values(|x: Vec<u8>| x@)
}

/// Splits `s` into its whitespace-separated fields.
pub fn split_fields(s: &[u8]) -> (r: Vec<Vec<u8>>)
    ensures
        views(r@) == fields(s@),
{
    let mut done: Vec<Vec<u8>> = Vec::new();
    let mut cur: Vec<u8> = Vec::new();
    let mut i: usize = 0;
    while i < s.len()
        invariant
            i <= s.len(),
            split_state(s@.take(i as int)) == (views(done@), cur@),
        decreases s.len() - i,
    {
        let b = s[i];
        assert(s@.take(i as int + 1).drop_last() =~= s@.take(i as int));
        assert(s@.take(i as int + 1).last() == b);
        if b == 32u8 || b == 9u8 || b == 10u8 || b == 12u8 || b == 13u8 {
            if cur.len() > 0 {
                done.push(cur);
                cur = Vec::new();
                assert(views(done@) =~= split_state(s@.take(i as int + 1)).0);
            }
        } else {
            cur.push(b);
        }
        i = i + 1;
    }
    assert(s@.take(i as int) =~= s@);
    if cur.len() > 0 {
        done.push(cur);
        assert(views(done@) =~= fields(s@));
    }
    done
}

/// Process cycle time recorded in a `/proc/<pid>/stat` record: user time plus system
/// time, or `None` when the record has fewer than fifteen fields, either field is not a
/// numeral, or the sum does not fit.
pub fn cycle_time_from_stat(contents: &[u8]) -> (r: Option<u64>)
    ensures
        r == stat_cycle_time(contents@),
{
    let f = split_fields(contents);
    if f.len() < 15 {
        return None;
    }
    assert(f@[13]@ == fields(contents@)[13]);
    assert(f@[14]@ == fields(contents@)[14]);
    let utime = parse_u64(f[13].as_slice());
    let stime = parse_u64(f[14].as_slice());
    match (utime, stime) {
        (Some(u), Some(t)) => u.checked_add(t),
        _ => None,
    }
}

} // verus!
