//! Invocation configuration: the rewriter's setup reads the attribute
//! map the excluded attribute scanner produced, demands a string
//! credential under `token` and an integer destination under
//! `chat_id`, and reports a hard configuration error before any
//! rewriting begins when either is absent or of the wrong literal
//! kind.

use vstd::prelude::*;
use crate::errors::Diagnostic;
use crate::literal::checked_decode;
use crate::literal::checked_lit_value;

verus! {

/// One attribute: its name, the raw text of its literal value, and the
/// value's source position.
#[derive(Debug, PartialEq, Eq)]
pub struct AttrEntry {
    pub name: String,
    pub raw: String,
    pub pos: u64,
}

/// The view of an attribute entry.
#[verifier::ext_equal]
pub struct AttrEntryV {
    pub name: Seq<char>,
    pub raw: Seq<char>,
    pub pos: u64,
}

impl View for AttrEntry {
    type V = AttrEntryV;

    open spec fn view(&self) -> AttrEntryV {
        AttrEntryV { name: self.name@, raw: self.raw@, pos: self.pos }
    }
}

/// The views of an attribute map: an association list in which a later
/// entry shadows an earlier one of the same name.
pub open spec fn attrs_view(s: Seq<AttrEntry>) -> Seq<AttrEntryV> {
    Seq::new(s.len(), |i: int| s[i]@)
}

/// The last entry under a name, if any: a repeated attribute keeps its
/// latest value.
pub open spec fn spec_lookup(attrs: Seq<AttrEntryV>, key: Seq<char>) -> Option<AttrEntryV>
    decreases attrs.len(),
{
    if attrs.len() == 0 {
        None
    } else if attrs.last().name == key {
        Some(attrs.last())
    } else {
        spec_lookup(attrs.drop_last(), key)
    }
}

/// What an integer literal's text denotes as a value of the
/// destination's type, or nothing if it does not parse as one. A
/// function of the text alone.
pub uninterp spec fn parsed_i64(s: Seq<char>) -> Option<i64>;

/// Relies on str::parse::<i64>: whether a text parses as a 64-bit
/// signed integer, and its value, depend on the text alone.
#[verifier::external_body]
fn parse_i64(s: &str) -> (r: Option<i64>)
    ensures
        r is Some <==> parsed_i64(s@) is Some,
        r matches Some(v) ==> parsed_i64(s@) == Some(v),
{
    s.parse::<i64>().ok()
}

pub open spec fn msg_missing_token() -> Seq<char> {
    "expected attribute `token`"@
}

pub open spec fn msg_token_not_string() -> Seq<char> {
    "expected a string literal for the token"@
}

pub open spec fn msg_missing_chat_id() -> Seq<char> {
    "expected attribute `chat_id`"@
}

pub open spec fn msg_chat_id_not_integer() -> Seq<char> {
    "expected an integer literal for the chat_id"@
}

/// The configuration a valid attribute map denotes: the decoded
/// credential and the destination identifier; or the configuration
/// error's message and position. A missing attribute has no token to
/// point at and is reported at the start of the input.
pub open spec fn spec_config(attrs: Seq<AttrEntryV>) -> Result<(Seq<char>, i64), (Seq<char>, u64)> {
    match spec_lookup(attrs, "token"@) {
        None => Err((msg_missing_token(), 0)),
        Some(tok) => match checked_lit_value(tok.raw) {
            None => Err((msg_token_not_string(), tok.pos)),
            Some(credential) => match spec_lookup(attrs, "chat_id"@) {
                None => Err((msg_missing_chat_id(), 0)),
                Some(cid) => match parsed_i64(cid.raw) {
                    None => Err((msg_chat_id_not_integer(), cid.pos)),
                    Some(chat_id) => Ok((credential, chat_id)),
                },
            },
        },
    }
}

/// The last entry under a name, if any.
#[verifier::loop_isolation(false)]
fn lookup<'a>(attrs: &'a Vec<AttrEntry>, key: &String) -> (r: Option<&'a AttrEntry>)
    ensures
        match spec_lookup(attrs_view(attrs@), key@) {
            Some(e) => r matches Some(f) && f@ == e,
            None => r is None,
        },
{
    let ghost av = attrs_view(attrs@);
    let mut i: usize = attrs.len();
    proof {
        assert(av.subrange(0, i as int) =~= av);
    }
    while i > 0
        invariant
            i <= attrs@.len(),
            spec_lookup(av.subrange(0, i as int), key@) == spec_lookup(av, key@),
        decreases i,
    {
        i = i - 1;
        proof {
            assert(av.subrange(0, i as int + 1).last() == av[i as int]);
            assert(av.subrange(0, i as int + 1).drop_last() =~= av.subrange(0, i as int));
        }
        if attrs[i].name == *key {
            return Some(&attrs[i]);
        }
    }
    proof {
        assert(av.subrange(0, 0) =~= Seq::<AttrEntryV>::empty());
    }
    None
}

/// Read the credential and the destination out of the attribute map,
/// or report the first configuration error: a missing `token`, a
/// `token` that is no string literal, a missing `chat_id`, or a
/// `chat_id` that is no integer literal — in that order.
pub fn read_config(attrs: &Vec<AttrEntry>) -> (r: Result<(String, i64), Diagnostic>)
    ensures
        match spec_config(attrs_view(attrs@)) {
            Ok((credential, chat_id)) => r matches Ok((c, id)) && c@ == credential && id
                == chat_id,
            Err((m, p)) => r matches Err(d) && d.message@ == m && d.pos == p,
        },
{
    let key_token = String::from_str("token");
    let key_chat_id = String::from_str("chat_id");
    let tok = match lookup(attrs, &key_token) {
        None => {
            return Err(
                Diagnostic { message: String::from_str("expected attribute `token`"), pos: 0 },
            );
        },
        Some(e) => e,
    };
    let credential = match checked_decode(tok.raw.as_str()) {
        None => {
            return Err(
                Diagnostic {
                    message: String::from_str("expected a string literal for the token"),
                    pos: tok.pos,
                },
            );
        },
        Some(c) => c,
    };
    let cid = match lookup(attrs, &key_chat_id) {
        None => {
            return Err(
                Diagnostic { message: String::from_str("expected attribute `chat_id`"), pos: 0 },
            );
        },
        Some(e) => e,
    };
    match parse_i64(cid.raw.as_str()) {
        None => Err(
            Diagnostic {
                message: String::from_str("expected an integer literal for the chat_id"),
                pos: cid.pos,
            },
        ),
        Some(chat_id) => Ok((credential, chat_id)),
    }
}

} // verus!
