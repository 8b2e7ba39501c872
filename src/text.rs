//! Decimal numbers and `;`-separated fields, the building blocks of the
//! one-line info files.
use vstd::prelude::*;

verus! {

/// The ASCII byte of `;`.
pub const SEP: u8 = 59;

/// The ASCII byte of a newline.
pub const NL: u8 = 10;

/// The shortest decimal text of `n` (no sign, no leading zeros).
pub open spec fn dec(n: nat) -> Seq<u8>
    decreases n,
{
    if n < 10 {
        seq![(48 + n) as u8]
    } else {
        dec(n / 10).push((48 + n % 10) as u8)
    }
}

pub open spec fn is_digit(b: u8) -> bool {
    48 <= b <= 57
}

pub open spec fn all_digits(s: Seq<u8>) -> bool {
    forall|i: int| 0 <= i < s.len() ==> is_digit(#[trigger] s[i])
}

/// The value of a sequence of decimal digits.
pub open spec fn dec_value(s: Seq<u8>) -> nat
    decreases s.len(),
{
    if s.len() == 0 {
        0
    } else {
        dec_value(s.drop_last()) * 10 + (s.last() - 48) as nat
    }
}

/// `s` is a decimal number whose value is at most `max`.
pub open spec fn decimal_within(s: Seq<u8>, max: nat) -> bool {
    s.len() > 0 && all_digits(s) && dec_value(s) <= max
}

/// Append the decimal text of `v` to `out`.
pub fn push_decimal(out: &mut Vec<u8>, v: u64)
    ensures
        final(out)@ == old(out)@ + dec(v as nat),
    decreases v,
{
    if v >= 10 {
        push_decimal(out, v / 10);
    }
    out.push((48 + v % 10) as u8);
    assert(out@ =~= old(out)@ + dec(v as nat));
}

/// The value of the decimal number `s`, or `None` where `s` is empty, holds
/// a byte that is not a digit, or is larger than `max`.
pub fn parse_decimal(s: &[u8], max: u64) -> (r: Option<u64>)
    ensures
        r is Some <==> decimal_within(s@, max as nat),
        r matches Some(v) ==> v == dec_value(s@),
{
    if s.len() == 0 {
        return None;
    }
    let mut acc: u64 = 0;
    let mut i: usize = 0;
    while i < s.len()
        invariant
            0 <= i <= s@.len(),
            all_digits(s@.subrange(0, i as int)),
            acc == dec_value(s@.subrange(0, i as int)),
            acc <= max,
        decreases s@.len() - i,
    {
        let b = s[i];
        proof {
            assert(s@.subrange(0, i + 1).drop_last() =~= s@.subrange(0, i as int));
        }
        if b < 48 || b > 57 {
            assert(!is_digit(s@[i as int]));
            proof { lemma_digits_prefix(s@, i as int + 1); }
            return None;
        }
        let d = (b - 48) as u64;
        if d > max || acc > (max - d) / 10 {
            proof {
                assert(acc * 10 + d > max) by (nonlinear_arith)
                    requires d > max || acc > (max - d) / 10, acc >= 0;
                lemma_value_grows(s@, i as int + 1);
            }
            return None;
        }
        assert(acc * 10 + d <= max) by (nonlinear_arith)
            requires acc <= (max - d) / 10, d <= max;
        acc = acc * 10 + d;
        i = i + 1;
    }
    assert(s@.subrange(0, s@.len() as int) =~= s@);
    Some(acc)
}

proof fn lemma_digits_prefix(s: Seq<u8>, n: int)
    requires
        0 < n <= s.len(),
        !is_digit(s[n - 1]),
    ensures
        !all_digits(s),
{
    assert(!is_digit(s[n - 1]));
}

/// The value of the first `n` digits never exceeds the value of all of them.
proof fn lemma_value_grows(s: Seq<u8>, n: int)
    requires
        0 <= n <= s.len(),
    ensures
        all_digits(s) ==> dec_value(s.subrange(0, n)) <= dec_value(s),
    decreases s.len() - n,
{
    if n < s.len() && all_digits(s) {
        lemma_value_grows(s, n + 1);
        assert(s.subrange(0, n + 1).drop_last() =~= s.subrange(0, n));
        assert(is_digit(s[n]));
    } else if n == s.len() {
        assert(s.subrange(0, n) =~= s);
    }
}

/// The decimal text of a number holds digits alone and reads back as it.
pub proof fn lemma_dec_round_trip(n: nat)
    ensures
        dec(n).len() > 0,
        all_digits(dec(n)),
        dec_value(dec(n)) == n,
    decreases n,
{
    if n >= 10 {
        lemma_dec_round_trip(n / 10);
        assert(dec(n).drop_last() =~= dec(n / 10));
        assert(dec(n).last() == (48 + n % 10) as u8);
        assert(dec(n).last() - 48 == n % 10);
        assert(n == (n / 10) * 10 + n % 10);
    } else {
        assert(dec(n).drop_last() =~= Seq::<u8>::empty());
        assert(dec_value(Seq::<u8>::empty()) == 0);
    }
}

/// The `;`-separated fields of `s` (always at least one).
pub open spec fn split_fields(s: Seq<u8>) -> Seq<Seq<u8>>
    decreases s.len(),
{
    if s.len() == 0 {
        seq![Seq::<u8>::empty()]
    } else {
        let p = split_fields(s.drop_last());
        if s.last() == SEP {
            p.push(Seq::<u8>::empty())
        } else {
            p.update(p.len() - 1, p.last().push(s.last()))
        }
    }
}

pub open spec fn no_sep(s: Seq<u8>) -> bool {
    forall|i: int| 0 <= i < s.len() ==> s[i] != SEP
}

pub proof fn lemma_split_len(s: Seq<u8>)
    ensures
        split_fields(s).len() >= 1,
    decreases s.len(),
{
    if s.len() > 0 {
        lemma_split_len(s.drop_last());
    }
}

/// Where there are two fields or more, the last one and the `;` before it
/// fit in the text.
pub proof fn lemma_split_last(s: Seq<u8>)
    ensures
        split_fields(s).len() >= 1,
        split_fields(s).len() >= 2 ==> split_fields(s).last().len() < s.len(),
    decreases s.len(),
{
    if s.len() > 0 {
        lemma_split_last(s.drop_last());
    }
}

/// A field free of `;` appended after a `;` becomes one more field.
pub proof fn lemma_split_append(s: Seq<u8>, t: Seq<u8>)
    requires
        no_sep(t),
    ensures
        split_fields(s + seq![SEP] + t) == split_fields(s).push(t),
    decreases t.len(),
{
    lemma_split_len(s);
    if t.len() == 0 {
        assert((s + seq![SEP] + t).drop_last() =~= s);
        assert(s + seq![SEP] + t =~= s.push(SEP));
        assert(t =~= Seq::<u8>::empty());
        assert((s + seq![SEP] + t).last() == SEP);
    } else {
        assert(t.last() != SEP);
        let t0 = t.drop_last();
        lemma_split_append(s, t0);
        assert((s + seq![SEP] + t).drop_last() =~= s + seq![SEP] + t0);
        assert(t0.push(t.last()) =~= t);
        assert(split_fields(s + seq![SEP] + t) =~= split_fields(s).push(t));
    }
}

/// Text free of `;` is a single field.
pub proof fn lemma_split_single(t: Seq<u8>)
    requires
        no_sep(t),
    ensures
        split_fields(t) == seq![t],
    decreases t.len(),
{
    if t.len() > 0 {
        let t0 = t.drop_last();
        lemma_split_single(t0);
        assert(t.last() != SEP);
        assert(t0.push(t.last()) =~= t);
        assert(split_fields(t) =~= seq![t]);
    } else {
        assert(t =~= Seq::<u8>::empty());
    }
}

/// Split `s` into its `;`-separated fields.
pub fn split_fields_of(s: &[u8]) -> (r: Vec<Vec<u8>>)
    ensures
        r@.len() == split_fields(s@).len(),
        forall|j: int| 0 <= j < r@.len() ==> (#[trigger] r@[j])@ == split_fields(s@)[j],
{
    let mut done: Vec<Vec<u8>> = Vec::new();
    let mut cur: Vec<u8> = Vec::new();
    let mut i: usize = 0;
    assert(s@.subrange(0, 0) =~= Seq::<u8>::empty());
    while i < s.len()
        invariant
            0 <= i <= s@.len(),
            split_fields(s@.subrange(0, i as int)).len() == done@.len() + 1,
            forall|j: int| 0 <= j < done@.len() ==> (#[trigger] done@[j])@ == split_fields(s@.subrange(0, i as int))[j],
            cur@ == split_fields(s@.subrange(0, i as int)).last(),
        decreases s@.len() - i,
    {
        let b = s[i];
        assert(s@.subrange(0, i + 1).drop_last() =~= s@.subrange(0, i as int));
        if b == SEP {
            done.push(cur);
            cur = Vec::new();
        } else {
            cur.push(b);
        }
        i = i + 1;
    }
    assert(s@.subrange(0, s@.len() as int) =~= s@);
    done.push(cur);
    done
}

/// Append every byte of `src` to `out`.
pub fn push_all(out: &mut Vec<u8>, src: &[u8])
    ensures
        final(out)@ == old(out)@ + src@,
{
    let mut i: usize = 0;
    while i < src.len()
        invariant
            0 <= i <= src@.len(),
            out@ == old(out)@ + src@.subrange(0, i as int),
        decreases src@.len() - i,
    {
        out.push(src[i]);
        i = i + 1;
        assert(out@ =~= old(out)@ + src@.subrange(0, i as int));
    }
    assert(src@.subrange(0, src@.len() as int) =~= src@);
}

} // verus!
