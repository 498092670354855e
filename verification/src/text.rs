//! Splitting the raw move string into whitespace-separated tokens.
//!
//! `tokens_of` is the specification: the maximal runs of non-whitespace
//! characters, in order. `tokenize` computes it.

use vstd::prelude::*;
use vstd::string::StrSliceExecFns;
use vstd::string::StringExecFns;

verus! {

/// The Unicode `White_Space` characters: the separators between move tokens.
pub open spec fn is_ws(c: char) -> bool {
    ||| c == ' '
    ||| c == '\t'
    ||| c == '\n'
    ||| c == '\r'
    ||| c == '\u{b}'
    ||| c == '\u{c}'
    ||| c == '\u{85}'
    ||| c == '\u{a0}'
    ||| c == '\u{1680}'
    ||| c == '\u{2000}'
    ||| c == '\u{2001}'
    ||| c == '\u{2002}'
    ||| c == '\u{2003}'
    ||| c == '\u{2004}'
    ||| c == '\u{2005}'
    ||| c == '\u{2006}'
    ||| c == '\u{2007}'
    ||| c == '\u{2008}'
    ||| c == '\u{2009}'
    ||| c == '\u{200a}'
    ||| c == '\u{2028}'
    ||| c == '\u{2029}'
    ||| c == '\u{202f}'
    ||| c == '\u{205f}'
    ||| c == '\u{3000}'
}

/// Where the token starting at `i` ends: the first position at or after `i`
/// that is past the end of `s` or holds a whitespace character.
pub open spec fn token_end(s: Seq<char>, i: int) -> int
    decreases s.len() - i,
{
    if i < 0 || i >= s.len() {
        s.len() as int
    } else if is_ws(s[i]) {
        i
    } else {
        token_end(s, i + 1)
    }
}

/// A token's end never lies before its start nor past the end of the
/// string, and a token that starts on a non-whitespace character is not
/// empty.
pub proof fn lemma_token_end_bounds(s: Seq<char>, i: int)
    requires
        0 <= i <= s.len(),
    ensures
        i <= token_end(s, i) <= s.len(),
        i < s.len() && !is_ws(s[i]) ==> i < token_end(s, i),
    decreases s.len() - i,
{
    if i < s.len() && !is_ws(s[i]) {
        lemma_token_end_bounds(s, i + 1);
    }
}

/// The whitespace-separated tokens of `s` from position `i` on.
pub open spec fn tokens_from(s: Seq<char>, i: int) -> Seq<Seq<char>>
    decreases s.len() - i,
    via tokens_from_decreases
{
    if i < 0 || i >= s.len() {
        Seq::empty()
    } else if is_ws(s[i]) {
        tokens_from(s, i + 1)
    } else {
        seq![s.subrange(i, token_end(s, i))] + tokens_from(s, token_end(s, i))
    }
}

#[via_fn]
proof fn tokens_from_decreases(s: Seq<char>, i: int) {
    if 0 <= i < s.len() && !is_ws(s[i]) {
        lemma_token_end_bounds(s, i);
    }
}

/// The whitespace-separated tokens of the whole of `s`, in input order.
pub open spec fn tokens_of(s: Seq<char>) -> Seq<Seq<char>> {
    tokens_from(s, 0)
}

/// Whether the character at position `i` of `s` is whitespace.
fn is_ws_at(s: &str, i: usize) -> (r: bool)
    requires
        i < s@.len(),
    ensures
        r == is_ws(s@[i as int]),
{
    let c = s.get_char(i);
    c == ' ' || c == '\t' || c == '\n' || c == '\r' || c == '\u{b}' || c == '\u{c}'
        || c == '\u{85}' || c == '\u{a0}' || c == '\u{1680}' || c == '\u{2000}'
        || c == '\u{2001}' || c == '\u{2002}' || c == '\u{2003}' || c == '\u{2004}'
        || c == '\u{2005}' || c == '\u{2006}' || c == '\u{2007}' || c == '\u{2008}'
        || c == '\u{2009}' || c == '\u{200a}' || c == '\u{2028}' || c == '\u{2029}'
        || c == '\u{202f}' || c == '\u{205f}' || c == '\u{3000}'
}

/// Splits the move string into its whitespace-separated tokens.
pub fn tokenize(s: &str) -> (r: Vec<String>)
    ensures
        r.deep_view() == tokens_of(s@),
{
    let n = s.unicode_len();
    let mut result: Vec<String> = Vec::new();
    let mut i: usize = 0;
    while i < n
        invariant
            n == s@.len(),
            0 <= i <= n,
            tokens_of(s@) == result.deep_view() + tokens_from(s@, i as int),
        decreases n - i,
    {
        if is_ws_at(s, i) {
            i = i + 1;
        } else {
            let ghost i0 = i as int;
            let mut j: usize = i + 1;
            proof {
                lemma_token_end_bounds(s@, i0);
            }
            while j < n && !is_ws_at(s, j)
                invariant
                    n == s@.len(),
                    i0 < j <= n,
                    token_end(s@, i0) == token_end(s@, j as int),
                decreases n - j,
            {
                proof {
                    lemma_token_end_bounds(s@, j as int);
                }
                j = j + 1;
            }
            proof {
                assert(token_end(s@, j as int) == j);
                assert(token_end(s@, i0) == j);
            }
            let piece = s.substring_char(i, j);
            let token = String::from_str(piece);
            let ghost dv0 = result.deep_view();
            result.push(token);
            proof {
                assert(result.deep_view() =~= dv0.push(s@.subrange(i0, j as int)));
                assert(tokens_from(s@, i0) == seq![s@.subrange(i0, j as int)] + tokens_from(
                    s@,
                    j as int,
                ));
                assert(dv0 + tokens_from(s@, i0) =~= result.deep_view() + tokens_from(
                    s@,
                    j as int,
                ));
            }
            i = j;
        }
    }
    proof {
        assert(result.deep_view() + tokens_from(s@, i as int) =~= result.deep_view());
    }
    result
}

} // verus!
