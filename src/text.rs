use vstd::prelude::*;

verus! {

/// An ASCII decimal digit.
pub open spec fn is_digit(b: u8) -> bool {
    0x30 <= b <= 0x39
}

/// The value of a string of decimal digits.
pub open spec fn digits_value(d: Seq<u8>) -> nat
    decreases d.len(),
{
    if d.len() == 0 {
        0
    } else {
        digits_value(d.drop_last()) * 10 + (d.last() - 0x30) as nat
    }
}

/// Every byte of `d` is a decimal digit.
pub open spec fn all_digits(d: Seq<u8>) -> bool {
    forall|i: int| 0 <= i < d.len() ==> is_digit(#[trigger] d[i])
}

/// `f` without its leading `+`, if it has one.
pub open spec fn unsigned_part(f: Seq<u8>) -> Seq<u8> {
    if f.len() > 0 && f[0] == 0x2B {
        f.drop_first()
    } else {
        f
    }
}

/// The number that `f` writes in decimal, with an optional leading `+`, when
/// it is at most `max`.
pub open spec fn number_of(f: Seq<u8>, max: nat) -> Option<nat> {
    let d = unsigned_part(f);
    if d.len() > 0 && all_digits(d) && digits_value(d) <= max {
        Some(digits_value(d))
    } else {
        None
    }
}

/// The pieces of `s` between the `sep` bytes.
pub open spec fn fields(s: Seq<u8>, sep: u8) -> Seq<Seq<u8>>
    decreases s.len(),
{
    if s.len() == 0 {
        seq![Seq::empty()]
    } else {
        let f = fields(s.drop_last(), sep);
        if s.last() == sep {
            f.push(Seq::empty())
        } else {
            f.drop_last().push(f.last().push(s.last()))
        }
    }
}

/// Split pieces seen as sequences.
pub open spec fn fields_view(v: Seq<Vec<u8>>) -> Seq<Seq<u8>> {
    v.map_values(|x: Vec<u8>| x@)
}

proof fn lemma_digits_prefix(d: Seq<u8>, k: int)
    requires
        0 <= k <= d.len(),
        all_digits(d),
    ensures
        digits_value(d.subrange(0, k)) <= digits_value(d),
    decreases d.len(),
{
    if k < d.len() {
        assert(d.drop_last().subrange(0, k) =~= d.subrange(0, k));
        lemma_digits_prefix(d.drop_last(), k);
    } else {
        assert(d.subrange(0, k) =~= d);
    }
}

/// Reads `f` as a decimal number of at most `max`.
pub fn parse_number(f: &Vec<u8>, max: u32) -> (r: Option<u32>)
    ensures
        match r {
            Some(v) => number_of(f@, max as nat) == Some(v as nat),
            None => number_of(f@, max as nat) is None,
        },
{
    let start: usize = if f.len() > 0 && f[0] == 0x2B {
        1
    } else {
        0
    };
    let ghost d = unsigned_part(f@);
    assert(d =~= f@.subrange(start as int, f@.len() as int));
    if start >= f.len() {
        return None;
    }
    let mut v: u64 = 0;
    let mut i: usize = start;
    while i < f.len()
        invariant
            start <= i <= f@.len(),
            d == unsigned_part(f@),
            d == f@.subrange(start as int, f@.len() as int),
            v as nat == digits_value(d.subrange(0, i - start)),
            v <= max,
            forall|k: int| 0 <= k < i - start ==> is_digit(#[trigger] d[k]),
        decreases f.len() - i,
    {
        let b = f[i];
        assert(b == d[i - start]);
        if b < 0x30 || b > 0x39 {
            assert(!is_digit(d[i - start]));
            assert(!all_digits(d));
            assert(number_of(f@, max as nat) is None);
            return None;
        }
        let ghost p = d.subrange(0, i + 1 - start);
        assert(p.drop_last() =~= d.subrange(0, i - start));
        assert(p.last() == b);
        assert(digits_value(p) == digits_value(p.drop_last()) * 10 + (b - 0x30) as nat);
        v = v * 10 + (b - 0x30) as u64;
        i += 1;
        if v > max as u64 {
            proof {
                if all_digits(d) {
                    lemma_digits_prefix(d, i - start);
                }
            }
            assert(number_of(f@, max as nat) is None);
            return None;
        }
    }
    assert(d.subrange(0, i - start) =~= d);
    Some(v as u32)
}

/// Splits the bytes of `s` from `start` to `end` at each `sep`.
pub fn split_fields(s: &[u8], start: usize, end: usize, sep: u8) -> (r: Vec<Vec<u8>>)
    requires
        start <= end <= s@.len(),
    ensures
        fields_view(r@) == fields(s@.subrange(start as int, end as int), sep),
{
    let mut out: Vec<Vec<u8>> = Vec::new();
    let mut cur: Vec<u8> = Vec::new();
    let mut i: usize = start;
    assert(fields_view(out@).push(cur@) =~= fields(s@.subrange(start as int, start as int), sep));
    while i < end
        invariant
            start <= i <= end <= s@.len(),
            fields_view(out@).push(cur@) == fields(s@.subrange(start as int, i as int), sep),
        decreases end - i,
    {
        let b = s[i];
        let ghost before = fields_view(out@).push(cur@);
        assert(s@.subrange(start as int, i + 1).drop_last() =~= s@.subrange(start as int, i as int));
        if b == sep {
            out.push(cur);
            cur = Vec::new();
            assert(fields_view(out@).push(cur@) =~= before.push(Seq::empty()));
        } else {
            cur.push(b);
            assert(fields_view(out@).push(cur@) =~= before.drop_last().push(before.last().push(b)));
        }
        i += 1;
    }
    let ghost last = fields_view(out@).push(cur@);
    out.push(cur);
    assert(fields_view(out@) =~= last);
    out
}

} // verus!
