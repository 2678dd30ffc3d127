//! The general laws of the library, each proved once and for all
//! inputs: rewriting without markers is the identity, a well-formed
//! marker site is replaced by exactly one identifier token with its
//! neighbours kept, nesting is preserved, credential validation is
//! cached, and only the correlated reply of a poll batch is accepted.

use vstd::prelude::*;
use crate::oracle::OracleSession;
use crate::oracle::UpdateV;
use crate::oracle::ValidationEvent;
use crate::oracle::is_reply_to;
use crate::oracle::advance;
use crate::oracle::scan;
use crate::oracle::spec_apply_validation;
use crate::oracle::spec_needs_validation;
use crate::rewrite::RwV;
use crate::rewrite::absorb;
use crate::rewrite::rw;
use crate::tokens::Delim;
use crate::tokens::TokenV;
use crate::tokens::lemma_size_of_pos;
use crate::tokens::lemma_size_seq_tail;
use crate::tokens::marker_name;
use crate::tokens::size_seq;
use crate::literal::checked_lit_value;

verus! {

/// Whether a token forest holds no marker identifier anywhere, groups'
/// contents included.
pub open spec fn no_markers(toks: Seq<TokenV>) -> bool
    decreases size_seq(toks),
{
    if toks.len() == 0 {
        true
    } else {
        let head_ok = match toks[0] {
            TokenV::Ident(text, _) => text != marker_name(),
            TokenV::Group(_, ch, _) => {
                proof {
                    lemma_size_seq_tail(toks);
                    lemma_size_of_pos(toks[0]);
                }
                no_markers(ch)
            },
            _ => true,
        };
        proof {
            lemma_size_seq_tail(toks);
        }
        head_ok && no_markers(toks.subrange(1, toks.len() as int))
    }
}

/// Rewriting a forest that holds no markers returns it unchanged,
/// token for token and position for position, whatever answers are on
/// hand, and consumes none of them.
pub proof fn lemma_no_markers_identity(toks: Seq<TokenV>, answers: Seq<Seq<char>>)
    requires
        no_markers(toks),
    ensures
        rw(toks, false, answers) == RwV::Done(toks, 0),
    decreases size_seq(toks),
{
    if toks.len() == 0 {
        assert(toks =~= Seq::<TokenV>::empty());
    } else {
        let t = toks[0];
        let rest = toks.subrange(1, toks.len() as int);
        lemma_size_seq_tail(toks);
        lemma_no_markers_identity(rest, answers);
        match t {
            TokenV::Group(d, ch, p) => {
                lemma_size_of_pos(t);
                lemma_no_markers_identity(ch, answers);
                assert(answers.skip(0) =~= answers);
                assert(seq![t] + rest =~= toks);
            },
            _ => {
                assert(seq![t] + rest =~= toks);
            },
        }
    }
}

/// Prefixing twice is prefixing with the concatenation.
proof fn lemma_absorb_absorb(a: Seq<TokenV>, ca: nat, b: Seq<TokenV>, cb: nat, r: RwV)
    ensures
        absorb(a, ca, absorb(b, cb, r)) == absorb(a + b, ca + cb, r),
{
    match r {
        RwV::Done(out, used) => {
            assert(a + (b + out) =~= (a + b) + out);
        },
        _ => {},
    }
}

/// A walk over a marker-free prefix followed by anything is the
/// prefix, passed through, in front of the walk over the remainder.
pub proof fn lemma_prefix_passthrough(pre: Seq<TokenV>, rest: Seq<TokenV>, answers: Seq<Seq<char>>)
    requires
        no_markers(pre),
    ensures
        rw(pre + rest, false, answers) == absorb(pre, 0, rw(rest, false, answers)),
    decreases size_seq(pre),
{
    if pre.len() == 0 {
        assert(pre + rest =~= rest);
        let r = rw(rest, false, answers);
        match r {
            RwV::Done(o, u) => {
                assert(pre + o =~= o);
                assert(absorb(pre, 0, r) =~~= r);
            },
            _ => {},
        }
    } else {
        let s = pre + rest;
        let t = pre[0];
        let pre1 = pre.subrange(1, pre.len() as int);
        lemma_size_seq_tail(pre);
        assert(s[0] == t);
        assert(s.subrange(1, s.len() as int) =~= pre1 + rest);
        lemma_prefix_passthrough(pre1, rest, answers);
        let r = rw(rest, false, answers);
        match t {
            TokenV::Group(d, ch, p) => {
                lemma_size_of_pos(t);
                lemma_no_markers_identity(ch, answers);
                assert(answers.skip(0) =~= answers);
                lemma_absorb_absorb(seq![t], 0, pre1, 0, r);
                assert(seq![t] + pre1 =~= pre);
            },
            _ => {
                lemma_absorb_absorb(seq![t], 0, pre1, 0, r);
                assert(seq![t] + pre1 =~= pre);
            },
        }
    }
}

/// The two tokens of a well-formed marker site.
pub open spec fn marker_site(mpos: u64, d: Delim, raw: Seq<char>, lit_pos: u64, gpos: u64) -> Seq<
    TokenV,
> {
    seq![
        TokenV::Ident(marker_name(), mpos),
        TokenV::Group(d, seq![TokenV::Lit(raw, lit_pos)], gpos),
    ]
}

/// A well-formed marker site with marker-free neighbours is replaced
/// by exactly one identifier token holding the first answer, at the
/// argument group's position; every neighbour is kept in order, and
/// exactly one answer is consumed.
pub proof fn lemma_marker_site_rewrite(
    pre: Seq<TokenV>,
    mpos: u64,
    d: Delim,
    raw: Seq<char>,
    lit_pos: u64,
    gpos: u64,
    suf: Seq<TokenV>,
    answers: Seq<Seq<char>>,
)
    requires
        no_markers(pre),
        no_markers(suf),
        checked_lit_value(raw) is Some,
        answers.len() >= 1,
    ensures
        rw(pre + marker_site(mpos, d, raw, lit_pos, gpos) + suf, false, answers) == RwV::Done(
            pre + seq![TokenV::Ident(answers[0], gpos)] + suf,
            1,
        ),
{
    let site = marker_site(mpos, d, raw, lit_pos, gpos);
    let mid = site + suf;
    assert(pre + site + suf =~= pre + mid);
    lemma_prefix_passthrough(pre, mid, answers);
    let mid1 = mid.subrange(1, mid.len() as int);
    assert(mid1 =~= seq![site[1]] + suf);
    let grp_first = seq![site[1]] + suf;
    let after_grp = grp_first.subrange(1, grp_first.len() as int);
    assert(after_grp =~= suf);
    lemma_no_markers_identity(suf, answers.subrange(1, answers.len() as int));
    assert(rw(mid, false, answers) == rw(grp_first, true, answers));
    assert(rw(grp_first, true, answers) == absorb(
        seq![TokenV::Ident(answers[0], gpos)],
        1,
        rw(suf, false, answers.subrange(1, answers.len() as int)),
    ));
    assert(seq![TokenV::Ident(answers[0], gpos)] + suf =~= grp_first.update(
        0,
        TokenV::Ident(answers[0], gpos),
    ));
    assert(pre + (seq![TokenV::Ident(answers[0], gpos)] + suf) =~= pre + seq![
        TokenV::Ident(answers[0], gpos),
    ] + suf);
    assert(rw(pre + site + suf, false, answers) =~~= RwV::Done(
        pre + seq![TokenV::Ident(answers[0], gpos)] + suf,
        1,
    ));
}

/// A forest wrapped in `k` levels of grouping with one delimiter each.
pub open spec fn nest(k: nat, d: Delim, p: u64, inner: Seq<TokenV>) -> Seq<TokenV>
    decreases k,
{
    if k == 0 {
        inner
    } else {
        seq![TokenV::Group(d, nest((k - 1) as nat, d, p, inner), p)]
    }
}

/// A walk resolves markers at any nesting depth: wrapping the input in
/// `k` levels of grouping wraps the rewritten output in the same `k`
/// levels, delimiters and positions kept, consuming the same answers.
pub proof fn lemma_nested_rewrite(
    k: nat,
    d: Delim,
    p: u64,
    inner: Seq<TokenV>,
    answers: Seq<Seq<char>>,
    out: Seq<TokenV>,
    used: nat,
)
    requires
        rw(inner, false, answers) == RwV::Done(out, used),
    ensures
        rw(nest(k, d, p, inner), false, answers) == RwV::Done(nest(k, d, p, out), used),
    decreases k,
{
    if k > 0 {
        lemma_nested_rewrite((k - 1) as nat, d, p, inner, answers, out, used);
        let toks = nest(k, d, p, inner);
        let inner_out = nest((k - 1) as nat, d, p, out);
        assert(toks.len() == 1);
        assert(toks.subrange(1, toks.len() as int) =~= Seq::<TokenV>::empty());
        assert(seq![TokenV::Group(d, inner_out, p)] + Seq::<TokenV>::empty() =~= nest(
            k,
            d,
            p,
            out,
        ));
        assert(rw(nest((k - 1) as nat, d, p, inner), false, answers) == RwV::Done(
            inner_out,
            used,
        ));
        assert(rw(toks.subrange(1, toks.len() as int), false, answers.skip(used as int))
            == RwV::Done(Seq::<TokenV>::empty(), 0));
        assert(rw(toks, false, answers) == absorb(
            seq![TokenV::Group(d, inner_out, p)],
            used,
            RwV::Done(Seq::<TokenV>::empty(), 0),
        ));
        assert(rw(toks, false, answers) =~~= RwV::Done(nest(k, d, p, out), used));
    }
}

/// Credential validation is cached: once one validation event has been
/// applied successfully, the session no longer asks for a check, and
/// applying any further event leaves it untouched and succeeds.
pub proof fn lemma_validation_cached(s: OracleSession, ev: ValidationEvent, ev2: ValidationEvent)
    requires
        spec_apply_validation(s, ev).1,
    ensures
        !spec_needs_validation(spec_apply_validation(s, ev).0),
        spec_apply_validation(spec_apply_validation(s, ev).0, ev2) == (
            spec_apply_validation(s, ev).0,
            true,
        ),
{
}

/// The scanned offset never falls below where it started.
pub proof fn lemma_scan_monotonic(ups: Seq<UpdateV>, sent: i64, last: i64)
    ensures
        scan(ups, sent, last).offset >= last,
    decreases ups.len(),
{
    if ups.len() > 0 && !is_reply_to(ups[0], sent) {
        lemma_scan_monotonic(ups.subrange(1, ups.len() as int), sent, advance(
            last,
            ups[0].update_id,
        ));
    }
}

/// Scanning a batch yields an answer exactly when the batch holds a
/// qualifying reply, and then the text of the first one; updates that
/// reply to other messages are passed over.
pub proof fn lemma_reply_correlation(ups: Seq<UpdateV>, sent: i64, last: i64)
    ensures
        scan(ups, sent, last).answer is None <==> (forall|k: int|
            0 <= k < ups.len() ==> !is_reply_to(#[trigger] ups[k], sent)),
        forall|k: int|
            0 <= k < ups.len() && is_reply_to(#[trigger] ups[k], sent) && (forall|j: int|
                0 <= j < k ==> !is_reply_to(#[trigger] ups[j], sent)) ==> scan(
                ups,
                sent,
                last,
            ).answer == Some(ups[k].text.unwrap()),
    decreases ups.len(),
{
    if ups.len() > 0 {
        let tail = ups.subrange(1, ups.len() as int);
        if is_reply_to(ups[0], sent) {
            assert(scan(ups, sent, last).answer is Some);
        } else {
            let moved = advance(last, ups[0].update_id);
            lemma_reply_correlation(tail, sent, moved);
            assert(scan(ups, sent, last) == scan(tail, sent, moved));
            if scan(tail, sent, moved).answer is None {
                assert forall|k: int| 0 <= k < ups.len() implies !is_reply_to(
                    #[trigger] ups[k],
                    sent,
                ) by {
                    if k > 0 {
                        assert(tail[k - 1] == ups[k]);
                    }
                }
            }
            if forall|k: int| 0 <= k < ups.len() ==> !is_reply_to(#[trigger] ups[k], sent) {
                assert forall|k: int| 0 <= k < tail.len() implies !is_reply_to(
                    #[trigger] tail[k],
                    sent,
                ) by {
                    assert(tail[k] == ups[k + 1]);
                }
                assert(scan(tail, sent, moved).answer is None);
            }
            assert forall|k: int|
                0 <= k < ups.len() && is_reply_to(#[trigger] ups[k], sent) && (forall|j: int|
                    0 <= j < k ==> !is_reply_to(#[trigger] ups[j], sent)) implies scan(
                ups,
                sent,
                last,
            ).answer == Some(ups[k].text.unwrap()) by {
                assert(k >= 1);
                assert(tail[k - 1] == ups[k]);
                assert(forall|j: int| 0 <= j < k - 1 ==> tail[j] == ups[j + 1]);
            }
        }
    }
}

} // verus!
