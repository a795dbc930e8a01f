//! Verified byte-level parsing: splitting on a delimiter and strict decimal
//! number reading, the raw material of the tab-separated table source.

use vstd::prelude::*;

verus! {

/// The pieces of `s` between occurrences of the delimiter `d`; always at
/// least one piece, empty pieces kept.
pub open spec fn split_by(s: Seq<u8>, d: u8) -> Seq<Seq<u8>>
    decreases s.len(),
{
    if s.len() == 0 {
        seq![Seq::<u8>::empty()]
    } else if s.last() == d {
        split_by(s.drop_last(), d).push(Seq::<u8>::empty())
    } else {
        let r = split_by(s.drop_last(), d);
        r.update(r.len() - 1, r.last().push(s.last()))
    }
}

proof fn lemma_split_by_len(s: Seq<u8>, d: u8)
    ensures
        split_by(s, d).len() >= 1,
    decreases s.len(),
{
    if s.len() > 0 {
        lemma_split_by_len(s.drop_last(), d);
    }
}

/// Split `data` at every occurrence of `d`.
pub fn split_bytes(data: &[u8], d: u8) -> (r: Vec<Vec<u8>>)
    ensures
        r@.len() == split_by(data@, d).len(),
        forall|j: int| 0 <= j < r@.len() ==> (#[trigger] r@[j])@ == split_by(data@, d)[j],
{
    let mut out: Vec<Vec<u8>> = Vec::new();
    let mut cur: Vec<u8> = Vec::new();
    let n = data.len();
    let mut i: usize = 0;
    while i < n
        invariant
            i <= n,
            n == data@.len(),
            out@.len() + 1 == split_by(data@.take(i as int), d).len(),
            forall|j: int|
                0 <= j < out@.len() ==> (#[trigger] out@[j])@ == split_by(data@.take(i as int), d)[j],
            cur@ == split_by(data@.take(i as int), d).last(),
        decreases n - i,
    {
        let b = data[i];
        proof {
            assert(data@.take(i + 1).drop_last() =~= data@.take(i as int));
            assert(data@.take(i + 1).last() == data@[i as int]);
            lemma_split_by_len(data@.take(i as int), d);
        }
        if b == d {
            out.push(cur);
            cur = Vec::new();
        } else {
            cur.push(b);
            proof {
                let r = split_by(data@.take(i as int), d);
                assert(split_by(data@.take(i + 1), d) =~= r.update(r.len() - 1, cur@));
            }
        }
        i += 1;
    }
    proof {
        assert(data@.take(n as int) =~= data@);
    }
    out.push(cur);
    out
}

pub open spec fn is_digit_byte(b: u8) -> bool {
    48 <= b <= 57
}

pub open spec fn all_digits(s: Seq<u8>) -> bool {
    s.len() > 0 && forall|i: int| 0 <= i < s.len() ==> is_digit_byte(#[trigger] s[i])
}

/// The decimal value of a run of digit bytes.
pub open spec fn dec_val(s: Seq<u8>) -> int
    decreases s.len(),
{
    if s.len() == 0 {
        0
    } else {
        dec_val(s.drop_last()) * 10 + (s.last() - 48)
    }
}

proof fn lemma_dec_val_nonneg(s: Seq<u8>)
    requires
        forall|i: int| 0 <= i < s.len() ==> is_digit_byte(#[trigger] s[i]),
    ensures
        dec_val(s) >= 0,
    decreases s.len(),
{
    if s.len() > 0 {
        assert(forall|i: int| 0 <= i < s.len() - 1 ==> is_digit_byte(#[trigger] s.drop_last()[i]));
        lemma_dec_val_nonneg(s.drop_last());
    }
}

proof fn lemma_dec_val_mono(t: Seq<u8>, i: int, j: int)
    requires
        0 <= i <= j <= t.len(),
        forall|k: int| 0 <= k < j ==> is_digit_byte(#[trigger] t[k]),
    ensures
        0 <= dec_val(t.take(i)) <= dec_val(t.take(j)),
    decreases j - i,
{
    assert(forall|k: int| 0 <= k < i ==> is_digit_byte(#[trigger] t.take(i)[k]));
    lemma_dec_val_nonneg(t.take(i));
    if i < j {
        lemma_dec_val_mono(t, i, j - 1);
        assert(t.take(j).drop_last() =~= t.take(j - 1));
        assert(is_digit_byte(t.take(j).last()));
    }
}

/// Parse `t[start..]` as an unadorned run of decimal digits.
fn parse_digits_u64(t: &[u8], start: usize) -> (r: Option<u64>)
    requires
        start <= t@.len(),
    ensures
        r is Some <==> (all_digits(t@.skip(start as int)) && dec_val(t@.skip(start as int))
            <= u64::MAX),
        r is Some ==> r.unwrap() == dec_val(t@.skip(start as int)),
{
    let n = t.len();
    if start == n {
        return None;
    }
    let ghost body = t@.skip(start as int);
    let mut acc: u64 = 0;
    let mut i: usize = start;
    while i < n
        invariant
            start <= i <= n,
            n == t@.len(),
            body == t@.skip(start as int),
            forall|k: int| 0 <= k < i - start ==> is_digit_byte(#[trigger] body[k]),
            acc == dec_val(body.take(i - start)),
        decreases n - i,
    {
        let b = t[i];
        if b < 48 || b > 57 {
            proof {
                assert(!is_digit_byte(body[i - start]));
            }
            return None;
        }
        let d = b - 48;
        proof {
            assert(body.take(i - start + 1).drop_last() =~= body.take(i - start as int));
            assert(body.take(i - start + 1).last() == body[i - start]);
        }
        if acc > (u64::MAX - d as u64) / 10 {
            proof {
                assert(dec_val(body.take(i - start + 1)) > u64::MAX);
                if all_digits(body) {
                    lemma_dec_val_mono(body, i - start + 1, body.len() as int);
                    assert(body.take(body.len() as int) =~= body);
                }
            }
            return None;
        }
        acc = acc * 10 + d as u64;
        i += 1;
    }
    proof {
        assert(body.take(n - start as int) =~= body);
        assert(all_digits(body));
    }
    Some(acc)
}

/// The digits of an unsigned decimal literal: an optional leading `+` is
/// allowed, as strict integer parsing accepts it.
pub open spec fn unsigned_digits(s: Seq<u8>) -> Seq<u8> {
    if s.len() > 0 && s[0] == 43 {
        s.drop_first()
    } else {
        s
    }
}

pub open spec fn is_u64_text(s: Seq<u8>) -> bool {
    all_digits(unsigned_digits(s)) && dec_val(unsigned_digits(s)) <= u64::MAX
}

/// Strict decimal parse of an unsigned 64-bit number.
pub fn parse_u64(s: &[u8]) -> (r: Option<u64>)
    ensures
        r is Some <==> is_u64_text(s@),
        r is Some ==> r.unwrap() == dec_val(unsigned_digits(s@)),
{
    let start: usize = if s.len() > 0 && s[0] == 43 {
        1
    } else {
        0
    };
    proof {
        assert(unsigned_digits(s@) =~= s@.skip(start as int));
    }
    parse_digits_u64(s, start)
}

/// Whether `s` is a strict decimal signed 64-bit literal (optional `+` or
/// `-` sign), and its value.
pub open spec fn signed_body(s: Seq<u8>) -> Seq<u8> {
    if s.len() > 0 && (s[0] == 43 || s[0] == 45) {
        s.drop_first()
    } else {
        s
    }
}

pub open spec fn signed_negative(s: Seq<u8>) -> bool {
    s.len() > 0 && s[0] == 45
}

pub open spec fn is_i64_text(s: Seq<u8>) -> bool {
    &&& all_digits(signed_body(s))
    &&& if signed_negative(s) {
        dec_val(signed_body(s)) <= i64::MAX + 1
    } else {
        dec_val(signed_body(s)) <= i64::MAX
    }
}

pub open spec fn i64_text_val(s: Seq<u8>) -> int {
    if signed_negative(s) {
        -dec_val(signed_body(s))
    } else {
        dec_val(signed_body(s))
    }
}

/// Strict decimal parse of a signed 64-bit number.
pub fn parse_i64(s: &[u8]) -> (r: Option<i64>)
    ensures
        r is Some <==> is_i64_text(s@),
        r is Some ==> r.unwrap() == i64_text_val(s@),
{
    let negative = s.len() > 0 && s[0] == 45;
    let start: usize = if s.len() > 0 && (s[0] == 43 || s[0] == 45) {
        1
    } else {
        0
    };
    proof {
        assert(signed_body(s@) =~= s@.skip(start as int));
    }
    let mag = parse_digits_u64(s, start);
    match mag {
        None => None,
        Some(m) => {
            if negative {
                if m <= i64::MAX as u64 {
                    Some(-(m as i64))
                } else if m == i64::MAX as u64 + 1 {
                    Some(i64::MIN)
                } else {
                    None
                }
            } else {
                if m <= i64::MAX as u64 {
                    Some(m as i64)
                } else {
                    None
                }
            }
        },
    }
}

} // verus!
