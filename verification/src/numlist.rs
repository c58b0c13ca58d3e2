//! The comma-joined integer list decoder: a string result is split on
//! commas, empty segments are discarded, and every remaining segment must
//! read as an unsigned 64-bit integer (an optional leading plus sign, then
//! decimal digits, with no overflow), or the whole list fails to parse.

use vstd::prelude::*;
use vstd::string::{StringExecFns, StrSliceExecFns};
use crate::errors::{BridgeError, ErrorModel};
use crate::wire::{Doc, Node, NodeModel, Scalar, ScalarModel};
use crate::interpret::{interpret, interpret_model};

verus! {

pub open spec fn is_digit(c: char) -> bool {
    '0' <= c && c <= '9'
}

pub open spec fn digit_val(c: char) -> int {
    c as int - '0' as int
}

/// The number written by a sequence of decimal digits.
pub open spec fn digits_val(g: Seq<char>) -> int
    decreases g.len(),
{
    if g.len() == 0 {
        0
    } else {
        digits_val(g.drop_last()) * 10 + digit_val(g.last())
    }
}

pub open spec fn all_digits(g: Seq<char>) -> bool {
    forall|i: int| 0 <= i < g.len() ==> is_digit(#[trigger] g[i])
}

/// A segment with an optional leading plus sign stripped, as Rust's unsigned
/// integer parsing accepts one.
pub open spec fn numeric_body(g: Seq<char>) -> Seq<char> {
    if g.len() > 0 && g[0] == '+' {
        g.drop_first()
    } else {
        g
    }
}

/// What a segment parses to as an u64: at least one digit after the optional
/// sign, digits only, and a value that fits — or nothing.
pub open spec fn seg_val(g: Seq<char>) -> Option<int> {
    let b = numeric_body(g);
    if b.len() > 0 && all_digits(b) && digits_val(b) <= u64::MAX {
        Some(digits_val(b))
    } else {
        None
    }
}

/// The segments a text splits into at commas. A text always has at least one
/// segment; each comma ends the current segment and opens a new one.
pub open spec fn segments(s: Seq<char>) -> Seq<Seq<char>>
    decreases s.len(),
{
    if s.len() == 0 {
        seq![Seq::empty()]
    } else if s.last() == ',' {
        segments(s.drop_last()).push(Seq::empty())
    } else {
        let pre = segments(s.drop_last());
        pre.update(pre.len() - 1, pre.last().push(s.last()))
    }
}

pub open spec fn nonempty_pred() -> spec_fn(Seq<char>) -> bool {
    |g: Seq<char>| g.len() > 0
}

pub open spec fn nonempty_segments(s: Seq<char>) -> Seq<Seq<char>> {
    segments(s).filter(nonempty_pred())
}

/// The list a text denotes: every nonempty segment parsed as an u64, in
/// order, or nothing if any one of them fails to parse.
pub open spec fn list_of_text(s: Seq<char>) -> Option<Seq<u64>> {
    let segs = nonempty_segments(s);
    if forall|i: int| 0 <= i < segs.len() ==> seg_val(#[trigger] segs[i]) is Some {
        Some(Seq::new(segs.len(), |i: int| (seg_val(segs[i])->0) as u64))
    } else {
        None
    }
}

/// The list reading of a result: it must be text, and its text must denote a
/// list; a non-text result is a type mismatch and an unparsable text a parse
/// error.
pub open spec fn list_model(n: NodeModel) -> Result<Seq<u64>, ErrorModel> {
    match n {
        NodeModel::Prim(ScalarModel::Text(s)) => match list_of_text(s) {
            Some(v) => Ok(v),
            None => Err(ErrorModel::ParseError),
        },
        _ => Err(ErrorModel::TypeMismatch),
    }
}

/// A decoded list at the model level.
pub open spec fn list_res_view(r: Result<Vec<u64>, BridgeError>) -> Result<Seq<u64>, ErrorModel> {
    match r {
        Ok(v) => Ok(v@),
        Err(e) => Err(e@),
    }
}

pub proof fn lemma_segments_nonempty(s: Seq<char>)
    ensures
        segments(s).len() >= 1,
    decreases s.len(),
{
    if s.len() > 0 {
        lemma_segments_nonempty(s.drop_last());
    }
}

proof fn lemma_digits_val_nonneg(b: Seq<char>)
    requires
        all_digits(b),
    ensures
        digits_val(b) >= 0,
    decreases b.len(),
{
    if b.len() > 0 {
        assert(all_digits(b.drop_last()));
        lemma_digits_val_nonneg(b.drop_last());
    }
}

/// A prefix of a digit string never writes a larger number than the whole.
proof fn lemma_digits_val_mono(b: Seq<char>, k: int)
    requires
        0 <= k <= b.len(),
        all_digits(b),
    ensures
        digits_val(b) >= digits_val(b.take(k)),
    decreases b.len() - k,
{
    if k == b.len() {
        assert(b.take(k) =~= b);
    } else {
        lemma_digits_val_mono(b, k + 1);
        assert(b.take(k + 1).drop_last() =~= b.take(k));
        assert(b.take(k + 1).last() == b[k]);
        assert(all_digits(b.take(k)));
        lemma_digits_val_nonneg(b.take(k));
    }
}

/// Splits a text at its commas, exactly as `segments` says.
fn split_commas(s: &str) -> (r: Vec<String>)
    ensures
        r@.map_values(|g: String| g@) == segments(s@),
{
    let len: usize = s.unicode_len();
    let mut out: Vec<String> = Vec::new();
    let mut start: usize = 0;
    let mut i: usize = 0;
    proof {
        assert(s@.take(0) =~= Seq::<char>::empty());
        assert(s@.subrange(0, 0) =~= Seq::<char>::empty());
        assert(out@.map_values(|g: String| g@) =~= Seq::<Seq<char>>::empty());
        assert(segments(s@.take(0)) =~= seq![Seq::<char>::empty()]);
    }
    while i < len
        invariant
            start <= i <= len,
            len == s@.len(),
            segments(s@.take(i as int)) == out@.map_values(|g: String| g@).push(
                s@.subrange(start as int, i as int),
            ),
        decreases len - i,
    {
        let c = s.get_char(i);
        proof {
            assert(s@.take((i + 1) as int).drop_last() =~= s@.take(i as int));
            assert(s@.take((i + 1) as int).last() == s@[i as int]);
        }
        if c == ',' {
            let seg = String::from_str(s.substring_char(start, i));
            proof {
                assert((out@.push(seg)).map_values(|g: String| g@) =~= out@.map_values(
                    |g: String| g@,
                ).push(seg@));
                assert(s@.subrange((i + 1) as int, (i + 1) as int) =~= Seq::<char>::empty());
            }
            out.push(seg);
            start = i + 1;
        } else {
            proof {
                let pre = segments(s@.take(i as int));
                lemma_segments_nonempty(s@.take(i as int));
                assert(s@.subrange(start as int, i as int).push(s@[i as int]) =~= s@.subrange(
                    start as int,
                    (i + 1) as int,
                ));
                assert(pre.update(pre.len() - 1, s@.subrange(start as int, (i + 1) as int))
                    =~= out@.map_values(|g: String| g@).push(
                    s@.subrange(start as int, (i + 1) as int),
                ));
            }
        }
        i = i + 1;
    }
    let seg = String::from_str(s.substring_char(start, len));
    proof {
        assert(s@.take(len as int) =~= s@);
        assert((out@.push(seg)).map_values(|g: String| g@) =~= out@.map_values(
            |g: String| g@,
        ).push(seg@));
    }
    out.push(seg);
    out
}

/// Parses one segment as an u64, exactly as `seg_val` says: overflow and any
/// character that is not a digit fail the segment.
fn parse_u64_segment(g: &str) -> (r: Option<u64>)
    ensures
        match r {
            Some(v) => seg_val(g@) == Some(v as int),
            None => seg_val(g@) is None,
        },
{
    let glen: usize = g.unicode_len();
    if glen == 0 {
        return None;
    }
    let start: usize = if g.get_char(0) == '+' {
        1
    } else {
        0
    };
    if start >= glen {
        proof {
            assert(numeric_body(g@) =~= Seq::<char>::empty());
        }
        return None;
    }
    proof {
        assert(numeric_body(g@) =~= g@.subrange(start as int, glen as int));
        assert(g@.subrange(start as int, start as int) =~= Seq::<char>::empty());
    }
    let mut i: usize = start;
    let mut acc: u64 = 0;
    while i < glen
        invariant
            start <= i <= glen,
            glen == g@.len(),
            start < glen,
            numeric_body(g@) == g@.subrange(start as int, glen as int),
            all_digits(g@.subrange(start as int, i as int)),
            acc as int == digits_val(g@.subrange(start as int, i as int)),
        decreases glen - i,
    {
        let c = g.get_char(i);
        if c < '0' || c > '9' {
            proof {
                assert(numeric_body(g@)[(i - start) as int] == g@[i as int]);
            }
            return None;
        }
        proof {
            assert(g@.subrange(start as int, (i + 1) as int).drop_last() =~= g@.subrange(
                start as int,
                i as int,
            ));
            assert(g@.subrange(start as int, (i + 1) as int).last() == g@[i as int]);
            assert(all_digits(g@.subrange(start as int, (i + 1) as int)));
        }
        let d: u64 = ((c as u32) - ('0' as u32)) as u64;
        let overflowed: bool = match acc.checked_mul(10) {
            Some(a) => match a.checked_add(d) {
                Some(b) => {
                    acc = b;
                    false
                },
                None => true,
            },
            None => true,
        };
        if overflowed {
            proof {
                let body = numeric_body(g@);
                if all_digits(body) {
                    assert(body.take((i + 1 - start) as int) =~= g@.subrange(
                        start as int,
                        (i + 1) as int,
                    ));
                    lemma_digits_val_mono(body, (i + 1 - start) as int);
                }
            }
            return None;
        }
        i = i + 1;
    }
    proof {
        assert(g@.subrange(start as int, glen as int) == numeric_body(g@));
        assert(numeric_body(g@).len() > 0);
    }
    Some(acc)
}

/// Decodes a result as a list of unsigned integers, exactly as `list_model`
/// says.
pub fn decode_u64_list(n: &Node) -> (r: Result<Vec<u64>, BridgeError>)
    ensures
        list_res_view(r) == list_model(n@),
{
    let s = match n {
        Node::Prim(Scalar::Text(s)) => s,
        _ => {
            return Err(BridgeError::TypeMismatch);
        },
    };
    let segs = split_commas(s.as_str());
    let ghost all = segs@.map_values(|g: String| g@);
    proof {
        assert(all == segments(s@));
        assert(all.take(0) =~= Seq::<Seq<char>>::empty());
        reveal(Seq::<Seq<char>>::filter);
        assert(all.take(0).filter(nonempty_pred()) =~= Seq::<Seq<char>>::empty());
    }
    let mut out: Vec<u64> = Vec::new();
    let mut idx: usize = 0;
    while idx < segs.len()
        invariant
            idx <= segs@.len(),
            n@ == NodeModel::Prim(ScalarModel::Text(s@)),
            all == segs@.map_values(|g: String| g@),
            all == segments(s@),
            ({
                let pre = all.take(idx as int).filter(nonempty_pred());
                &&& out@.len() == pre.len()
                &&& (forall|j: int|
                    0 <= j < pre.len() ==> seg_val(#[trigger] pre[j]) == Some(out@[j] as int))
            }),
        decreases segs@.len() - idx,
    {
        let g = &segs[idx];
        let glen: usize = g.as_str().unicode_len();
        proof {
            reveal(Seq::<Seq<char>>::filter);
            assert(all.take((idx + 1) as int).drop_last() =~= all.take(idx as int));
            assert(all.take((idx + 1) as int).last() == g@);
        }
        if glen > 0 {
            match parse_u64_segment(g.as_str()) {
                Some(v) => {
                    out.push(v);
                },
                None => {
                    proof {
                        reveal(Seq::<Seq<char>>::filter);
                        let pre = all.take(idx as int).filter(nonempty_pred());
                        let upto = all.take((idx + 1) as int).filter(nonempty_pred());
                        assert(upto =~= pre.push(g@));
                        assert(all =~= all.take((idx + 1) as int) + all.skip((idx + 1) as int));
                        Seq::<Seq<char>>::filter_distributes_over_add(
                            all.take((idx + 1) as int),
                            all.skip((idx + 1) as int),
                            nonempty_pred(),
                        );
                        assert(nonempty_segments(s@) == upto + all.skip((idx + 1) as int).filter(
                            nonempty_pred(),
                        ));
                        assert(0 <= pre.len() < nonempty_segments(s@).len());
                        assert(nonempty_segments(s@)[pre.len() as int] == g@);
                        assert(seg_val(nonempty_segments(s@)[pre.len() as int]) is None);
                        assert(list_of_text(s@) is None);
                        assert(list_model(n@) == Err::<Seq<u64>, ErrorModel>(
                            ErrorModel::ParseError,
                        ));
                    }
                    return Err(BridgeError::ParseError);
                },
            }
        } else {
            proof {
                reveal(Seq::<Seq<char>>::filter);
                assert(all.take((idx + 1) as int).filter(nonempty_pred()) =~= all.take(
                    idx as int,
                ).filter(nonempty_pred()));
            }
        }
        idx = idx + 1;
    }
    proof {
        assert(all.take(segs@.len() as int) =~= all);
        let segs_ne = nonempty_segments(s@);
        assert(forall|j: int|
            0 <= j < segs_ne.len() ==> seg_val(#[trigger] segs_ne[j]) == Some(out@[j] as int));
        assert(out@ =~= Seq::new(segs_ne.len(), |i: int| (seg_val(segs_ne[i])->0) as u64));
    }
    Ok(out)
}

/// Interprets a reply and reads its result as a list of unsigned integers;
/// a failure anywhere on the way comes through unchanged.
pub fn to_vec_u64(v: Result<Doc, BridgeError>) -> (r: Result<Vec<u64>, BridgeError>)
    ensures
        match v {
            Err(e) => r matches Err(e2) && e2@ == e@,
            Ok(doc) => match interpret_model(doc@) {
                Ok(n) => list_res_view(r) == list_model(n),
                Err(e) => list_res_view(r) == Err::<Seq<u64>, ErrorModel>(e),
            },
        },
{
    match v {
        Err(e) => Err(e),
        Ok(doc) => match interpret(&doc) {
            Err(e) => Err(e),
            Ok(n) => decode_u64_list(n),
        },
    }
}

} // verus!
