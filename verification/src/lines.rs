//! Comma-delimited ASCII lines as both serial sources deliver them.
//!
//! A line splits on every comma into one or more (possibly empty) fields;
//! a trailing carriage-return/line-feed pair belongs to the channel, not to
//! the data, and is stripped before fields are read.

use vstd::prelude::*;
use vstd::slice::{slice_subrange, slice_to_vec};

verus! {

/// The comma byte that separates fields.
pub const COMMA: u8 = 44;

/// The carriage-return/line-feed pair that terminates a line.
pub open spec fn crlf() -> Seq<u8> {
    seq![13u8, 10u8]
}

/// The four ASCII characters backslash, `r`, backslash, `n`: the escaped
/// spelling of a line terminator, which some firmware emits literally.
pub open spec fn escaped_crlf() -> Seq<u8> {
    seq![92u8, 114u8, 92u8, 110u8]
}

/// The views of a sequence of byte vectors, in order.
pub open spec fn views_of(ls: Seq<Vec<u8>>) -> Seq<Seq<u8>> {
    Seq::new(ls.len(), |i: int| ls[i]@)
}

/// A vector holding a bare line terminator.
pub fn crlf_bytes() -> (r: Vec<u8>)
    ensures
        r@ == crlf(),
{
    let mut v: Vec<u8> = Vec::new();
    v.push(13);
    v.push(10);
    proof {
        assert(v@ =~= crlf());
    }
    v
}

/// A vector holding the escaped spelling of a line terminator.
pub fn escaped_crlf_bytes() -> (r: Vec<u8>)
    ensures
        r@ == escaped_crlf(),
{
    let mut v: Vec<u8> = Vec::new();
    v.push(92);
    v.push(114);
    v.push(92);
    v.push(110);
    proof {
        assert(v@ =~= escaped_crlf());
    }
    v
}

/// The fields of a comma-delimited line, in order. A line with no comma is
/// a single field, and every comma separates two (possibly empty) fields.
pub open spec fn fields_of(s: Seq<u8>) -> Seq<Seq<u8>>
    decreases s.len(),
{
    if s.len() == 0 {
        seq![Seq::<u8>::empty()]
    } else if s[0] == COMMA {
        seq![Seq::<u8>::empty()] + fields_of(s.drop_first())
    } else {
        let rest = fields_of(s.drop_first());
        seq![seq![s[0]] + rest[0]] + rest.drop_first()
    }
}

/// Every line has at least one field.
pub proof fn lemma_fields_of_len(s: Seq<u8>)
    ensures
        fields_of(s).len() >= 1,
    decreases s.len(),
{
    if s.len() == 0 {
    } else {
        lemma_fields_of_len(s.drop_first());
    }
}

/// A line without a comma is exactly one field: itself.
pub proof fn lemma_fields_of_no_comma(s: Seq<u8>)
    requires
        forall|j: int| 0 <= j < s.len() ==> s[j] != COMMA,
    ensures
        fields_of(s) == seq![s],
    decreases s.len(),
{
    if s.len() == 0 {
        assert(s =~= Seq::<u8>::empty());
    } else {
        let s1 = s.drop_first();
        assert(forall|j: int| 0 <= j < s1.len() ==> s1[j] == s[j + 1] && s1[j] != COMMA);
        lemma_fields_of_no_comma(s1);
        let rest = fields_of(s1);
        assert(rest.drop_first() =~= Seq::<Seq<u8>>::empty());
        assert(seq![s[0]] + s1 =~= s);
        assert(fields_of(s) =~= seq![s]);
    }
}

/// Splitting at the first comma: the field before it, then the fields of
/// what follows it.
pub proof fn lemma_fields_of_split(s: Seq<u8>, i: int)
    requires
        0 <= i < s.len(),
        s[i] == COMMA,
        forall|j: int| 0 <= j < i ==> s[j] != COMMA,
    ensures
        fields_of(s) == seq![s.take(i)] + fields_of(s.skip(i + 1)),
        fields_of(s).len() == 1 + fields_of(s.skip(i + 1)).len(),
    decreases i,
{
    if i == 0 {
        assert(s.take(0) =~= Seq::<u8>::empty());
        assert(s.drop_first() =~= s.skip(1));
    } else {
        let s1 = s.drop_first();
        assert(s1[i - 1] == s[i]);
        assert(forall|j: int| 0 <= j < i - 1 ==> s1[j] == s[j + 1] && s1[j] != COMMA);
        lemma_fields_of_split(s1, i - 1);
        let rest = fields_of(s1);
        lemma_fields_of_len(s1.skip(i));
        assert(rest[0] == s1.take(i - 1));
        assert(seq![s[0]] + s1.take(i - 1) =~= s.take(i));
        assert(rest.drop_first() =~= fields_of(s1.skip(i)));
        assert(s1.skip(i) =~= s.skip(i + 1));
        assert(fields_of(s) =~= seq![s.take(i)] + fields_of(s.skip(i + 1)));
    }
}

/// A fresh vector holding the bytes of `v` from `start` up to `end`.
pub fn subvec(v: &Vec<u8>, start: usize, end: usize) -> (r: Vec<u8>)
    requires
        start <= end <= v@.len(),
    ensures
        r@ == v@.subrange(start as int, end as int),
{
    slice_to_vec(slice_subrange(v.as_slice(), start, end))
}

/// Whether two byte vectors hold the same bytes.
pub fn vec_eq(a: &Vec<u8>, b: &Vec<u8>) -> (r: bool)
    ensures
        r <==> a@ == b@,
{
    if a.len() != b.len() {
        return false;
    }
    let mut i: usize = 0;
    while i < a.len()
        invariant
            i <= a@.len(),
            a@.len() == b@.len(),
            forall|j: int| 0 <= j < i ==> a@[j] == b@[j],
        decreases a@.len() - i,
    {
        if a[i] != b[i] {
            return false;
        }
        i += 1;
    }
    proof {
        assert(a@ =~= b@);
    }
    true
}

/// A line with its trailing carriage-return/line-feed pair removed, if it
/// carries one.
pub open spec fn strip_crlf(s: Seq<u8>) -> Seq<u8> {
    if s.len() >= 2 && s[s.len() - 2] == 13u8 && s[s.len() - 1] == 10u8 {
        s.take(s.len() - 2)
    } else {
        s
    }
}

/// Removes the trailing carriage-return/line-feed pair, if the line has one.
pub fn strip_terminator(line: &Vec<u8>) -> (r: Vec<u8>)
    ensures
        r@ == strip_crlf(line@),
{
    let n = line.len();
    if n >= 2 && line[n - 2] == 13u8 && line[n - 1] == 10u8 {
        subvec(line, 0, n - 2)
    } else {
        let r = subvec(line, 0, n);
        proof {
            assert(line@.subrange(0, n as int) =~= line@);
        }
        r
    }
}

/// The field at index `k` of the line, or `None` when the line has `k` or
/// fewer fields.
pub fn nth_field(line: &Vec<u8>, k: usize) -> (r: Option<Vec<u8>>)
    ensures
        match r {
            Some(f) => fields_of(line@).len() > k && f@ == fields_of(line@)[k as int],
            None => fields_of(line@).len() <= k,
        },
{
    let ghost s = line@;
    let mut start: usize = 0;
    let mut field_idx: usize = 0;
    let mut i: usize = 0;
    proof {
        assert(s.skip(0) =~= s);
        assert(fields_of(s).take(0) =~= Seq::<Seq<u8>>::empty());
        assert(fields_of(s) =~= fields_of(s).take(0) + fields_of(s.skip(0)));
    }
    while i < line.len()
        invariant
            s == line@,
            start <= i <= s.len(),
            field_idx <= k,
            forall|j: int| start <= j < i ==> s[j] != COMMA,
            fields_of(s) == fields_of(s).take(field_idx as int) + fields_of(
                s.skip(start as int),
            ),
            fields_of(s).len() == field_idx + fields_of(s.skip(start as int)).len(),
        decreases s.len() - i,
    {
        if line[i] == COMMA {
            let ghost tail = s.skip(start as int);
            proof {
                assert(tail[i - start] == s[i as int]);
                assert(forall|j: int| 0 <= j < i - start ==> tail[j] == s[start + j] && tail[j]
                    != COMMA);
                lemma_fields_of_split(tail, i - start);
                assert(tail.take(i - start) =~= s.subrange(start as int, i as int));
                assert(tail.skip(i - start + 1) =~= s.skip(i + 1));
            }
            if field_idx == k {
                let f = subvec(line, start, i);
                proof {
                    lemma_fields_of_len(s.skip(i + 1));
                    assert(fields_of(s)[field_idx as int] == fields_of(tail)[0]);
                }
                return Some(f);
            }
            proof {
                let t0 = fields_of(s).take(field_idx as int);
                let f0 = tail.take(i - start);
                assert(fields_of(s) =~= (t0 + seq![f0]) + fields_of(s.skip(i + 1)));
                assert(fields_of(s).take(field_idx + 1) =~= t0 + seq![f0]);
            }
            field_idx += 1;
            start = i + 1;
        }
        i += 1;
    }
    proof {
        assert(forall|j: int| 0 <= j < s.skip(start as int).len() ==> s.skip(start as int)[j]
            == s[start + j] && s.skip(start as int)[j] != COMMA);
        lemma_fields_of_no_comma(s.skip(start as int));
    }
    if field_idx == k {
        let f = subvec(line, start, line.len());
        proof {
            assert(s.skip(start as int) =~= s.subrange(start as int, s.len() as int));
            assert(fields_of(s)[field_idx as int] == fields_of(s.skip(start as int))[0]);
        }
        Some(f)
    } else {
        None
    }
}

} // verus!
