//! Castling-token normalization.
//!
//! The engine expects castling written as the king capturing its own rook.
//! The four conventional two-square castling tokens are rewritten to that
//! form, but only when a king actually stands on the origin square; every
//! other token passes through unchanged.

use vstd::prelude::*;
use vstd::string::StringExecFns;

verus! {

/// The four tokens that conventional notation uses for castling.
pub open spec fn is_castle_token(t: Seq<char>) -> bool {
    ||| t == "e1g1"@
    ||| t == "e1c1"@
    ||| t == "e8g8"@
    ||| t == "e8c8"@
}

/// What normalization returns: the king-captures-own-rook form of a castling
/// token when a king occupies its origin square, and the token itself
/// otherwise. `king_e1` and `king_e8` say whether a king stands on e1 and e8.
pub open spec fn normalize_spec(t: Seq<char>, king_e1: bool, king_e8: bool) -> Seq<char> {
    if king_e1 && t == "e1g1"@ {
        "e1h1"@
    } else if king_e1 && t == "e1c1"@ {
        "e1a1"@
    } else if king_e8 && t == "e8g8"@ {
        "e8h8"@
    } else if king_e8 && t == "e8c8"@ {
        "e8a8"@
    } else {
        t
    }
}

/// A token that is not one of the four castling tokens is never rewritten,
/// whatever stands on e1 and e8.
pub proof fn lemma_normalize_keeps_ordinary_tokens(t: Seq<char>, king_e1: bool, king_e8: bool)
    requires
        !is_castle_token(t),
    ensures
        normalize_spec(t, king_e1, king_e8) == t,
{
}

/// Whether the characters of `t` are exactly those of `lit`.
fn eq_str(t: &String, lit: &str) -> (r: bool)
    ensures
        r == (t@ == lit@),
{
    let l = String::from_str(lit);
    t.eq(&l)
}

/// Rewrites a conventional castling token into the king-captures-own-rook
/// form the engine understands, when a king stands on the origin square.
pub fn normalize_token(token: &String, king_e1: bool, king_e8: bool) -> (r: String)
    ensures
        r@ == normalize_spec(token@, king_e1, king_e8),
{
    if king_e1 && eq_str(token, "e1g1") {
        String::from_str("e1h1")
    } else if king_e1 && eq_str(token, "e1c1") {
        String::from_str("e1a1")
    } else if king_e8 && eq_str(token, "e8g8") {
        String::from_str("e8h8")
    } else if king_e8 && eq_str(token, "e8c8") {
        String::from_str("e8a8")
    } else {
        token.clone()
    }
}

} // verus!
