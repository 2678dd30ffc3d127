//! Build-time rewriting of token trees whose marker sites
//! (`PhoneAFriend("question")`) are resolved by asking a remote
//! human oracle over a chat protocol.
//!
//! The crate verifies the two halves of that job: the recursive
//! token-tree rewriter, which must preserve every non-marker token
//! exactly and report precise positioned diagnostics, and the oracle
//! client protocol, whose credential validation, message dispatch and
//! long-poll wait loop are modelled as pure step functions that a thin
//! network driver feeds with events.

pub mod attrs;
pub mod config;
pub mod errors;
pub mod laws;
pub mod literal;
pub mod oracle;
pub mod rewrite;
pub mod seqs;
pub mod tokens;
