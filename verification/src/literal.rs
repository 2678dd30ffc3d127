//! Decoding the raw text of a string literal into the question it
//! carries. The decoding itself (quote and escape handling) is done by
//! an outside crate; its result is given a name that the rewriter's
//! contracts speak of.

use vstd::prelude::*;

verus! {

/// The value a raw literal text denotes as a (raw) string literal, with
/// all escapes resolved, or nothing if the text is not a string
/// literal. A function of the text alone.
pub uninterp spec fn str_lit_value(raw: Seq<char>) -> Option<Seq<char>>;

/// Whether the decoder may be handed a text. Its escape scan slices the
/// text one byte short of its end whenever it meets a backslash, which
/// is out of bounds when the text's last character is not ASCII; such a
/// text is kept away from it. Every string literal the decoder accepts
/// ends in a quote, a hash, or its suffix, so this refuses, beyond what
/// the decoder refuses, only texts whose suffix ends in a character
/// that is not ASCII.
pub open spec fn decodable_lit_text(raw: Seq<char>) -> bool {
    !raw.contains('\\') || (raw.len() > 0 && (raw.last() as u32) < 128)
}

/// The value a raw literal text is read as: its string-literal value,
/// with a text the decoder must not see treated like one that is no
/// string literal.
pub open spec fn checked_lit_value(raw: Seq<char>) -> Option<Seq<char>> {
    if decodable_lit_text(raw) {
        str_lit_value(raw)
    } else {
        None
    }
}

/// Relies on litrs::StringLit::parse and StringLit::value: whether a
/// raw literal text is a string literal, and the unescaped value it
/// denotes, depend on the text alone. The scan of a text holding a
/// backslash slices up to one byte short of the end, so such a text is
/// admitted only when its last character is ASCII.
#[verifier::external_body]
fn decode_string_literal(raw: &str) -> (r: Option<String>)
    requires
        decodable_lit_text(raw@),
    ensures
        r is Some <==> str_lit_value(raw@) is Some,
        r matches Some(v) ==> str_lit_value(raw@) == Some(v@),
{
    match litrs::StringLit::parse(raw) {
        Ok(lit) => Some(lit.value().to_string()),
        Err(_) => None,
    }
}

/// Whether the decoder may be handed this text.
#[verifier::loop_isolation(false)]
fn is_decodable(raw: &str) -> (r: bool)
    ensures
        r == decodable_lit_text(raw@),
{
    let n = raw.unicode_len();
    if n > 0 {
        let last = raw.get_char(n - 1);
        if (last as u32) < 128 {
            return true;
        }
    }
    let mut i: usize = 0;
    while i < n
        invariant
            i <= n,
            n == raw@.len(),
            forall|j: int| 0 <= j < i as int ==> raw@[j] != '\\',
        decreases n - i,
    {
        if raw.get_char(i) == '\\' {
            return false;
        }
        i = i + 1;
    }
    proof {
        if raw@.contains('\\') {
            let k = choose|k: int| 0 <= k < raw@.len() && raw@[k] == '\\';
            assert(raw@[k] != '\\');
        }
    }
    true
}

/// Read a raw literal text as a string literal and decode its value; a
/// text the decoder must not see is treated like one that is no string
/// literal.
pub(crate) fn checked_decode(raw: &str) -> (r: Option<String>)
    ensures
        r is Some <==> checked_lit_value(raw@) is Some,
        r matches Some(v) ==> checked_lit_value(raw@) == Some(v@),
{
    if is_decodable(raw) {
        decode_string_literal(raw)
    } else {
        None
    }
}

} // verus!
