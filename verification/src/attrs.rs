//! The attribute scanner: reading the leading bracket group off an
//! invocation and collecting its `name = literal` pairs. A shape the
//! scan cannot take is reported as the message the caller aborts with;
//! a repeated name keeps the last value.

use vstd::prelude::*;
use crate::config::AttrEntry;
use crate::config::AttrEntryV;
use crate::config::attrs_view;
use crate::seqs::lemma_skip_one;
use crate::tokens::Delim;
use crate::tokens::Token;
use crate::tokens::TokenV;
use crate::tokens::lemma_group_view;
use crate::tokens::seq_view;

verus! {

/// The attribute group's contents and the remainder, when the input
/// starts with a bracket group.
pub open spec fn spec_extract(toks: Seq<TokenV>) -> Option<(Seq<TokenV>, Seq<TokenV>)> {
    if toks.len() == 0 {
        None
    } else {
        match toks[0] {
            TokenV::Group(Delim::Bracket, ch, _) => Some(
                (ch, toks.subrange(1, toks.len() as int)),
            ),
            _ => None,
        }
    }
}

/// Splits a token sequence that starts with a bracket group into that
/// group's contents and the rest; nothing if no such group is at the
/// front.
pub fn extract_attrs(input: Vec<Token>) -> (r: Option<(Vec<Token>, Vec<Token>)>)
    ensures
        match spec_extract(seq_view(input@)) {
            Some((attrs, rest)) => r matches Some((a, b)) && seq_view(a@) == attrs && seq_view(b@)
                == rest,
            None => r is None,
        },
{
    let ghost iv = seq_view(input@);
    if input.len() == 0 {
        return None;
    }
    let mut rest = input;
    let first = rest.remove(0);
    proof {
        assert(seq_view(rest@) =~= iv.subrange(1, iv.len() as int));
    }
    match first {
        Token::Group(Delim::Bracket, children, p) => {
            proof {
                lemma_group_view(Delim::Bracket, children, p);
            }
            Some((children, rest))
        },
        _ => None,
    }
}

/// Where the scan stands: before a name, after a name, or after its
/// equals sign — then carrying the name the next literal belongs to.
pub enum ScanStateV {
    Name,
    Equals(Seq<char>),
    Value(Seq<char>),
}

pub open spec fn msg_unexpected_ident() -> Seq<char> {
    "Unexpected ident"@
}

pub open spec fn msg_unexpected_equals() -> Seq<char> {
    "Unexpected equals"@
}

pub open spec fn msg_unexpected_literal() -> Seq<char> {
    "Unexpected literal"@
}

pub open spec fn msg_unexpected_group() -> Seq<char> {
    "Unexpected group"@
}

/// The scan of an attribute list: identifiers name an attribute, `=`
/// announces its literal value, any other punctuation is ignored, and
/// a group or a token out of place stops the scan with its message. A
/// name left dangling at the end of input collects nothing.
pub open spec fn scan_attrs(toks: Seq<TokenV>, st: ScanStateV, acc: Seq<AttrEntryV>) -> Result<
    Seq<AttrEntryV>,
    Seq<char>,
>
    decreases toks.len(),
{
    if toks.len() == 0 {
        Ok(acc)
    } else {
        let rest = toks.subrange(1, toks.len() as int);
        match toks[0] {
            TokenV::Ident(name, _) => match st {
                ScanStateV::Name => scan_attrs(rest, ScanStateV::Equals(name), acc),
                _ => Err(msg_unexpected_ident()),
            },
            TokenV::Punct(c, _) => if c == '=' {
                match st {
                    ScanStateV::Equals(n) => scan_attrs(rest, ScanStateV::Value(n), acc),
                    _ => Err(msg_unexpected_equals()),
                }
            } else {
                scan_attrs(rest, st, acc)
            },
            TokenV::Lit(raw, pos) => match st {
                ScanStateV::Value(n) => scan_attrs(
                    rest,
                    ScanStateV::Name,
                    acc.push(AttrEntryV { name: n, raw, pos }),
                ),
                _ => Err(msg_unexpected_literal()),
            },
            TokenV::Group(_, _, _) => Err(msg_unexpected_group()),
        }
    }
}

enum ScanState {
    Name,
    Equals(String),
    Value(String),
}

spec fn scan_state_view(s: ScanState) -> ScanStateV {
    match s {
        ScanState::Name => ScanStateV::Name,
        ScanState::Equals(n) => ScanStateV::Equals(n@),
        ScanState::Value(n) => ScanStateV::Value(n@),
    }
}

/// Collects the `name = literal` pairs of an attribute list, commas
/// and other stray punctuation ignored; the first token out of place
/// stops the scan with the message the invocation aborts with.
#[verifier::loop_isolation(false)]
pub fn parse_attrs(toks: &Vec<Token>) -> (r: Result<Vec<AttrEntry>, String>)
    ensures
        match scan_attrs(seq_view(toks@), ScanStateV::Name, Seq::empty()) {
            Ok(entries) => r matches Ok(v) && attrs_view(v@) == entries,
            Err(m) => r matches Err(s) && s@ == m,
        },
{
    let ghost tv = seq_view(toks@);
    let mut acc: Vec<AttrEntry> = Vec::new();
    let mut state = ScanState::Name;
    let mut i: usize = 0;
    proof {
        assert(tv.skip(0) =~= tv);
        assert(attrs_view(acc@) =~= Seq::<AttrEntryV>::empty());
    }
    while i < toks.len()
        invariant
            i <= toks@.len(),
            scan_attrs(tv.skip(i as int), scan_state_view(state), attrs_view(acc@)) == scan_attrs(
                tv,
                ScanStateV::Name,
                Seq::empty(),
            ),
        decreases toks@.len() - i as int,
    {
        proof {
            lemma_skip_one(tv, i as int);
        }
        match &toks[i] {
            Token::Ident(name, _) => {
                state = match state {
                    ScanState::Name => ScanState::Equals(name.clone()),
                    _ => {
                        return Err(String::from_str("Unexpected ident"));
                    },
                };
            },
            Token::Punct(c, _) => {
                if *c == '=' {
                    state = match state {
                        ScanState::Equals(n) => ScanState::Value(n),
                        _ => {
                            return Err(String::from_str("Unexpected equals"));
                        },
                    };
                }
            },
            Token::Lit(raw, pos) => {
                state = match state {
                    ScanState::Value(n) => {
                        let entry = AttrEntry { name: n, raw: raw.clone(), pos: *pos };
                        proof {
                            assert(attrs_view(acc@.push(entry)) =~= attrs_view(acc@).push(
                                entry@,
                            ));
                        }
                        acc.push(entry);
                        ScanState::Name
                    },
                    _ => {
                        return Err(String::from_str("Unexpected literal"));
                    },
                };
            },
            Token::Group(_, _, _) => {
                return Err(String::from_str("Unexpected group"));
            },
        }
        i = i + 1;
    }
    proof {
        assert(tv.skip(i as int) =~= Seq::<TokenV>::empty());
    }
    Ok(acc)
}

} // verus!
