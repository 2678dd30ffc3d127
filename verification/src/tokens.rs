//! The token-tree data model: concrete tokens as the rewriter holds
//! them, and their mathematical view.

use vstd::prelude::*;

verus! {

/// Delimiter kind of a group token.
#[derive(Clone, Copy, Debug, PartialEq, Eq, Structural)]
pub enum Delim {
    Paren,
    Brace,
    Bracket,
    Bare,
}

/// A token tree. Positions are opaque identifiers handed through to
/// diagnostics; the rewriter never interprets them.
#[derive(Debug, PartialEq, Eq)]
pub enum Token {
    /// A delimited group owning its child sequence.
    Group(Delim, Vec<Token>, u64),
    /// An identifier with its text.
    Ident(String, u64),
    /// A literal with its raw source text (quotes and escapes included).
    Lit(String, u64),
    /// A single punctuation character.
    Punct(char, u64),
}

/// Mathematical model of a token tree.
#[verifier::ext_equal]
pub enum TokenV {
    Group(Delim, Seq<TokenV>, u64),
    Ident(Seq<char>, u64),
    Lit(Seq<char>, u64),
    Punct(char, u64),
}

impl Token {
    pub open spec fn view_rec(self) -> TokenV
        decreases self,
    {
        match self {
            Token::Group(d, ch, p) => TokenV::Group(
                d,
                Seq::new(
                    ch@.len(),
                    |i: int|
                        if 0 <= i < ch@.len() {
                            ch@[i].view_rec()
                        } else {
                            TokenV::Punct(' ', 0)
                        },
                ),
                p,
            ),
            Token::Ident(s, p) => TokenV::Ident(s@, p),
            Token::Lit(s, p) => TokenV::Lit(s@, p),
            Token::Punct(c, p) => TokenV::Punct(c, p),
        }
    }
}

impl Token {
    /// The source position this token carries.
    pub fn position(&self) -> (r: u64)
        ensures
            r == self@.pos(),
    {
        match self {
            Token::Group(_, _, p) => *p,
            Token::Ident(_, p) => *p,
            Token::Lit(_, p) => *p,
            Token::Punct(_, p) => *p,
        }
    }

    /// A deep copy of the token.
    #[verifier::loop_isolation(false)]
    pub fn duplicate(&self) -> (r: Token)
        ensures
            r@ == self@,
        decreases *self,
    {
        match self {
            Token::Group(d, ch, p) => {
                let mut out: Vec<Token> = Vec::new();
                let mut i: usize = 0;
                while i < ch.len()
                    invariant
                        i <= ch@.len(),
                        out@.len() == i as nat,
                        forall|j: int| 0 <= j < i as int ==> out@[j]@ == ch@[j]@,
                    decreases ch@.len() - i as int,
                {
                    let t = ch[i].duplicate();
                    out.push(t);
                    i = i + 1;
                }
                let r = Token::Group(*d, out, *p);
                proof {
                    let rv = r@;
                    let sv = (*self)@;
                    assert(rv.children().len() == sv.children().len());
                    assert forall|j: int| 0 <= j < sv.children().len() implies rv.children()[j]
                        == sv.children()[j] by {
                        assert(out@[j]@ == ch@[j]@);
                    }
                    assert(rv.children() =~~= sv.children());
                    assert(rv =~~= sv);
                }
                r
            },
            Token::Ident(s, p) => Token::Ident(s.clone(), *p),
            Token::Lit(s, p) => Token::Lit(s.clone(), *p),
            Token::Punct(c, p) => Token::Punct(*c, *p),
        }
    }
}

impl View for Token {
    type V = TokenV;

    open spec fn view(&self) -> TokenV {
        self.view_rec()
    }
}

/// The view of a whole token sequence.
pub open spec fn seq_view(s: Seq<Token>) -> Seq<TokenV> {
    Seq::new(s.len(), |i: int| s[i]@)
}

impl TokenV {
    /// The child sequence of a group token; empty for the other kinds.
    pub open spec fn children(self) -> Seq<TokenV> {
        match self {
            TokenV::Group(_, ch, _) => ch,
            _ => Seq::empty(),
        }
    }

    /// The source position a token carries.
    pub open spec fn pos(self) -> u64 {
        match self {
            TokenV::Group(_, _, p) => p,
            TokenV::Ident(_, p) => p,
            TokenV::Lit(_, p) => p,
            TokenV::Punct(_, p) => p,
        }
    }
}

/// A group token's view holds exactly the views of its children.
pub proof fn lemma_group_view(d: Delim, ch: Vec<Token>, p: u64)
    ensures
        (Token::Group(d, ch, p))@ == TokenV::Group(d, seq_view(ch@), p),
{
    assert((Token::Group(d, ch, p))@.children() =~= seq_view(ch@));
    assert((Token::Group(d, ch, p))@ =~~= TokenV::Group(d, seq_view(ch@), p));
}

/// The number of tokens in a tree, groups' contents included. Serves
/// as the termination measure of the walks over token trees.
pub open spec fn size_of(t: TokenV) -> nat
    decreases t, 0int,
{
    match t {
        TokenV::Group(_, ch, _) => 1 + size_seq(ch),
        _ => 1,
    }
}

/// The number of tokens in a forest, groups' contents included.
pub open spec fn size_seq(s: Seq<TokenV>) -> nat
    decreases s, 1int,
{
    if s.len() == 0 {
        0
    } else {
        size_of(s[0]) + size_seq(s.subrange(1, s.len() as int))
    }
}

pub proof fn lemma_size_of_pos(t: TokenV)
    ensures
        size_of(t) >= 1,
{
}

/// Dropping the head of a forest strictly shrinks it.
pub proof fn lemma_size_seq_tail(s: Seq<TokenV>)
    requires
        s.len() > 0,
    ensures
        size_seq(s.subrange(1, s.len() as int)) < size_seq(s),
        size_of(s[0]) <= size_seq(s),
{
    lemma_size_of_pos(s[0]);
}

/// The identifier text that opens a marker site.
pub open spec fn marker_name() -> Seq<char> {
    "PhoneAFriend"@
}

/// Whether an identifier's text opens a marker site.
pub fn is_marker_text(s: &String) -> (r: bool)
    ensures
        r == (s@ == marker_name()),
{
    let m: String = String::from_str("PhoneAFriend");
    *s == m
}

} // verus!
