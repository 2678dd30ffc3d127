//! The token-tree rewriter. It walks the input depth-first with a
//! two-state machine: every token passes through unchanged until the
//! marker identifier is seen; the single token allowed after a marker
//! is a group holding exactly one string literal, whose decoded text is
//! the question for the oracle. The walk is resumable: given the
//! answers obtained so far, it either finishes, stops at the first
//! unanswered question, or fails with a positioned diagnostic.

use vstd::prelude::*;
use crate::errors::Diagnostic;
use crate::literal::checked_decode;
use crate::seqs::lemma_skip_one;
use crate::seqs::lemma_skip_skip;
use crate::literal::checked_lit_value;
use crate::tokens::Token;
use crate::tokens::TokenV;
use crate::tokens::is_marker_text;
use crate::tokens::lemma_group_view;
use crate::tokens::lemma_size_of_pos;
use crate::tokens::lemma_size_seq_tail;
use crate::tokens::marker_name;
use crate::tokens::seq_view;
use crate::tokens::size_seq;

verus! {

pub open spec fn msg_found_nothing() -> Seq<char> {
    "expected the question string, found nothing"@
}

pub open spec fn msg_more_than_one() -> Seq<char> {
    "expected a single string literal here, found more than one item"@
}

pub open spec fn msg_single_string() -> Seq<char> {
    "expected a single string literal here"@
}

pub open spec fn msg_not_string() -> Seq<char> {
    "expected a string literal here"@
}

pub open spec fn msg_expected_argument() -> Seq<char> {
    "expected the question argument at this position"@
}

/// The outcome of walking a token forest: the rewritten forest together
/// with the number of answers it consumed; or the first question that
/// has no answer yet, at its argument group's position; or a
/// diagnostic's message and position.
#[verifier::ext_equal]
pub enum RwV {
    Done(Seq<TokenV>, nat),
    Need(Seq<char>, u64),
    Fail(Seq<char>, u64),
}

/// Prefix an outcome with already-rewritten tokens and already-consumed
/// answers; a question or a failure passes through unchanged.
pub open spec fn absorb(pre: Seq<TokenV>, consumed: nat, r: RwV) -> RwV {
    match r {
        RwV::Done(out, used) => RwV::Done(pre + out, consumed + used),
        RwV::Need(q, p) => RwV::Need(q, p),
        RwV::Fail(m, p) => RwV::Fail(m, p),
    }
}

/// What the group following a marker yields: the decoded question, or
/// the diagnostic for its malformed shape.
pub enum ArgV {
    Question(Seq<char>),
    Bad(Seq<char>, u64),
}

/// Validation of a marker's argument group: it must hold exactly one
/// token, and that token must be a string literal.
pub open spec fn validate_arg(ch: Seq<TokenV>, group_pos: u64) -> ArgV {
    if ch.len() == 0 {
        ArgV::Bad(msg_found_nothing(), group_pos)
    } else if ch.len() > 1 {
        ArgV::Bad(msg_more_than_one(), ch[1].pos())
    } else {
        match ch[0] {
            TokenV::Lit(raw, lit_pos) => match checked_lit_value(raw) {
                Some(q) => ArgV::Question(q),
                None => ArgV::Bad(msg_not_string(), lit_pos),
            },
            _ => ArgV::Bad(msg_single_string(), ch[0].pos()),
        }
    }
}

/// The rewrite of a token forest, given the answers obtained so far.
///
/// In the resting state (`awaiting_arg` false) every token passes
/// through; a group is rewritten recursively with a fresh resting
/// state; the marker identifier is consumed and flips the state. In the
/// argument state the only legal token is a group: if well-formed, its
/// question takes the next answer as a single identifier token at the
/// group's position, or stops the walk when no answer is left; at the
/// end of input a dangling marker is silently dropped.
pub open spec fn rw(toks: Seq<TokenV>, awaiting_arg: bool, answers: Seq<Seq<char>>) -> RwV
    decreases size_seq(toks),
{
    if toks.len() == 0 {
        RwV::Done(Seq::empty(), 0)
    } else {
        let t = toks[0];
        let rest = toks.subrange(1, toks.len() as int);
        proof {
            lemma_size_seq_tail(toks);
        }
        if awaiting_arg {
            match t {
                TokenV::Group(_, ch, p) => match validate_arg(ch, p) {
                    ArgV::Question(q) => if answers.len() == 0 {
                        RwV::Need(q, p)
                    } else {
                        absorb(
                            seq![TokenV::Ident(answers[0], p)],
                            1,
                            rw(rest, false, answers.subrange(1, answers.len() as int)),
                        )
                    },
                    ArgV::Bad(m, bp) => RwV::Fail(m, bp),
                },
                _ => RwV::Fail(msg_expected_argument(), t.pos()),
            }
        } else {
            match t {
                TokenV::Ident(text, _) => if text == marker_name() {
                    rw(rest, true, answers)
                } else {
                    absorb(seq![t], 0, rw(rest, false, answers))
                },
                TokenV::Group(d, ch, p) => {
                    proof {
                        lemma_size_of_pos(t);
                    }
                    match rw(ch, false, answers) {
                        RwV::Done(out_ch, used) => absorb(
                            seq![TokenV::Group(d, out_ch, p)],
                            used,
                            rw(rest, false, answers.skip(used as int)),
                        ),
                        RwV::Need(q, qp) => RwV::Need(q, qp),
                        RwV::Fail(m, mp) => RwV::Fail(m, mp),
                    }
                },
                _ => absorb(seq![t], 0, rw(rest, false, answers)),
            }
        }
    }
}

/// The views of a sequence of answer strings.
pub open spec fn strs_view(s: Seq<String>) -> Seq<Seq<char>> {
    Seq::new(s.len(), |i: int| s[i]@)
}

/// The outcome of one resumable walk over the input.
pub enum StepResult {
    /// Every marker had an answer; the rewritten tree.
    Done(Vec<Token>),
    /// The first marker with no answer yet: its decoded question and
    /// the position of its argument group.
    Need(String, u64),
    /// The walk failed on a malformed marker site.
    Fail(Diagnostic),
}

/// How a concrete step outcome realises a mathematical one.
pub open spec fn step_matches(r: StepResult, rr: RwV) -> bool {
    match rr {
        RwV::Done(o, _) => r matches StepResult::Done(out) && seq_view(out@) == o,
        RwV::Need(q, p) => r matches StepResult::Need(eq, ep) && eq@ == q && ep == p,
        RwV::Fail(m, p) => (r matches StepResult::Fail(d) && d.message@ == m && d.pos == p),
    }
}

enum Walk {
    Out(Vec<Token>, usize),
    Ask(String, u64),
    Stop(String, u64),
}

spec fn walk_matches(r: Walk, rr: RwV) -> bool {
    match rr {
        RwV::Done(o, used) => (r matches Walk::Out(v, u) && seq_view(v@) == o && u as nat
            == used),
        RwV::Need(q, p) => r matches Walk::Ask(eq, ep) && eq@ == q && ep == p,
        RwV::Fail(m, p) => r matches Walk::Stop(em, ep) && em@ == m && ep == p,
    }
}

/// The view of a sequence with a token put in front.
proof fn lemma_seq_view_insert(s: Seq<Token>, t: Token)
    ensures
        seq_view(s.insert(0, t)) == seq![t@] + seq_view(s),
{
    assert(seq_view(s.insert(0, t)) =~= seq![t@] + seq_view(s));
}

/// One resumable walk over the whole input tree, in the resting state,
/// consuming answers for markers in encounter order. The outcome is
/// exactly the mathematical rewrite of the input's view.
pub fn rewrite_step(input: &Vec<Token>, answers: &Vec<String>) -> (r: StepResult)
    ensures
        step_matches(r, rw(seq_view(input@), false, strs_view(answers@))),
{
    proof {
        assert(seq_view(input@).skip(0) =~= seq_view(input@));
        assert(strs_view(answers@).skip(0) =~= strs_view(answers@));
    }
    match walk(input, 0, false, answers, 0) {
        Walk::Out(v, _) => StepResult::Done(v),
        Walk::Ask(q, p) => StepResult::Need(q, p),
        Walk::Stop(m, p) => StepResult::Fail(Diagnostic { message: m, pos: p }),
    }
}

/// The walk from position `i` of `toks`, with `answers[ai..]` still
/// unconsumed.
fn walk(toks: &Vec<Token>, i: usize, awaiting_arg: bool, answers: &Vec<String>, ai: usize) -> (r:
    Walk)
    requires
        i <= toks@.len(),
        ai <= answers@.len(),
    ensures
        walk_matches(
            r,
            rw(
                seq_view(toks@).skip(i as int),
                awaiting_arg,
                strs_view(answers@).skip(ai as int),
            ),
        ),
        r matches Walk::Out(_, u) ==> ai + u <= answers@.len(),
    decreases size_seq(seq_view(toks@).skip(i as int)),
{
    let ghost s = seq_view(toks@).skip(i as int);
    let ghost aseq = strs_view(answers@).skip(ai as int);
    if i == toks.len() {
        let out: Vec<Token> = Vec::new();
        proof {
            assert(seq_view(out@) =~= Seq::<TokenV>::empty());
        }
        Walk::Out(out, 0)
    } else {
        proof {
            lemma_skip_one(seq_view(toks@), i as int);
            lemma_size_seq_tail(s);
            if ai < answers@.len() {
                lemma_skip_one(strs_view(answers@), ai as int);
            }
        }
        let t = &toks[i];
        if awaiting_arg {
            match t {
                Token::Group(d, ch, p) => {
                    proof {
                        lemma_group_view(*d, *ch, *p);
                    }
                    if ch.len() == 0 {
                        Walk::Stop(
                            String::from_str("expected the question string, found nothing"),
                            *p,
                        )
                    } else if ch.len() > 1 {
                        Walk::Stop(
                            String::from_str(
                                "expected a single string literal here, found more than one item",
                            ),
                            ch[1].position(),
                        )
                    } else {
                        match &ch[0] {
                            Token::Lit(raw, lit_pos) => {
                                match checked_decode(raw.as_str()) {
                                    Some(q) => {
                                        if ai < answers.len() {
                                            let rest = walk(toks, i + 1, false, answers, ai + 1);
                                            match rest {
                                                Walk::Out(mut v, u) => {
                                                    let answer = Token::Ident(
                                                        answers[ai].clone(),
                                                        *p,
                                                    );
                                                    proof {
                                                        lemma_seq_view_insert(v@, answer);
                                                    }
                                                    v.insert(0, answer);
                                                    Walk::Out(v, u + 1)
                                                },
                                                other => other,
                                            }
                                        } else {
                                            Walk::Ask(q, *p)
                                        }
                                    },
                                    None => Walk::Stop(
                                        String::from_str("expected a string literal here"),
                                        *lit_pos,
                                    ),
                                }
                            },
                            other_tok => Walk::Stop(
                                String::from_str("expected a single string literal here"),
                                other_tok.position(),
                            ),
                        }
                    }
                },
                _ => Walk::Stop(
                    String::from_str("expected the question argument at this position"),
                    t.position(),
                ),
            }
        } else {
            match t {
                Token::Ident(text, _) => {
                    if is_marker_text(text) {
                        walk(toks, i + 1, true, answers, ai)
                    } else {
                        let rest = walk(toks, i + 1, false, answers, ai);
                        match rest {
                            Walk::Out(mut v, u) => {
                                let copy = t.duplicate();
                                proof {
                                    lemma_seq_view_insert(v@, copy);
                                }
                                v.insert(0, copy);
                                Walk::Out(v, u)
                            },
                            other => other,
                        }
                    }
                },
                Token::Group(d, ch, p) => {
                    proof {
                        lemma_group_view(*d, *ch, *p);
                        assert(seq_view(ch@).skip(0) =~= seq_view(ch@));
                        assert(size_seq(seq_view(ch@)) < size_seq(s));
                    }
                    let sub = walk(ch, 0, false, answers, ai);
                    match sub {
                        Walk::Out(v, u) => {
                            proof {
                                assert(ai + u <= answers.len());
                                lemma_skip_skip(strs_view(answers@), ai as int, u as int);
                            }
                            let rest = walk(toks, i + 1, false, answers, ai + u);
                            match rest {
                                Walk::Out(mut v2, u2) => {
                                    proof {
                                        lemma_group_view(*d, v, *p);
                                    }
                                    let grp = Token::Group(*d, v, *p);
                                    proof {
                                        lemma_seq_view_insert(v2@, grp);
                                    }
                                    v2.insert(0, grp);
                                    Walk::Out(v2, u + u2)
                                },
                                other => other,
                            }
                        },
                        other => other,
                    }
                },
                _ => {
                    let rest = walk(toks, i + 1, false, answers, ai);
                    match rest {
                        Walk::Out(mut v, u) => {
                            let copy = t.duplicate();
                            proof {
                                lemma_seq_view_insert(v@, copy);
                            }
                            v.insert(0, copy);
                            Walk::Out(v, u)
                        },
                        other => other,
                    }
                },
            }
        }
    }
}

} // verus!
