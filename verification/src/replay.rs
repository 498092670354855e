//! Move-sequence replay.
//!
//! Replays the tokens one at a time from the standard starting position:
//! each token is normalized against the current board, parsed, and applied
//! through the engine's legality-checked play; the position identity after
//! every applied move is appended to the history. The first failing token
//! aborts the whole sequence.
//!
//! The replay is specified as a fold over the engine's named operations:
//! `board_after` is the board reached by the first `i` tokens, `step_ok`
//! says whether the next token parses and is legal there, and the contract
//! of `replay_tokens` pins the result — success, the exact error kind, the
//! final board and every history entry — to that fold.

use crate::engine::id_of;
use crate::engine::legal_of;
use crate::engine::new_board;
use crate::engine::parse_move;
use crate::engine::parse_of;
use crate::engine::parse_ok;
use crate::engine::piece_at;
use crate::engine::piece_on;
use crate::engine::play_of;
use crate::engine::position_id;
use crate::engine::start_board;
use crate::engine::try_play;
use crate::engine::PieceKind;
use crate::normalize::is_castle_token;
use crate::normalize::normalize_spec;
use crate::normalize::normalize_token;
use vstd::prelude::*;

verus! {

/// Rank-major index of the e1 square, where the white king starts.
pub const E1_SQUARE: u8 = 4;

/// Rank-major index of the e8 square, where the black king starts.
pub const E8_SQUARE: u8 = 60;

/// Why a replay was abandoned: a token outside the coordinate-move grammar,
/// or a well-formed move that is illegal in its position.
#[derive(Clone, Copy, Debug, PartialEq, Eq, Structural)]
pub enum ReplayError {
    Parse,
    Illegal,
}

/// A completed replay: the final board and the position-identity history,
/// one entry per position visited, the starting position first.
pub struct Replay {
    pub board: cozy_chess::Board,
    pub history: Vec<u64>,
}

/// The normalized form of a token against board `b`: rewritten only when a
/// king stands on the corresponding origin square of `b`.
pub open spec fn normalized_on(b: cozy_chess::Board, t: Seq<char>) -> Seq<char> {
    normalize_spec(
        t,
        piece_at(b, E1_SQUARE) == Some(PieceKind::King),
        piece_at(b, E8_SQUARE) == Some(PieceKind::King),
    )
}

/// Whether the replay step on board `b` with token `t` goes through: the
/// normalized token parses, and the parsed move is legal on `b`.
pub open spec fn step_ok(b: cozy_chess::Board, t: Seq<char>) -> bool {
    &&& parse_ok(normalized_on(b, t))
    &&& legal_of(b, parse_of(normalized_on(b, t))->Some_0)
}

/// The board after a successful replay step on board `b` with token `t`.
pub open spec fn step_board(b: cozy_chess::Board, t: Seq<char>) -> cozy_chess::Board {
    play_of(b, parse_of(normalized_on(b, t))->Some_0)
}

/// The board reached from `b0` by the first `i` tokens (meaningful when
/// those steps all go through).
pub open spec fn board_after(
    b0: cozy_chess::Board,
    toks: Seq<Seq<char>>,
    i: int,
) -> cozy_chess::Board
    decreases i,
{
    if i <= 0 {
        b0
    } else {
        step_board(board_after(b0, toks, i - 1), toks[i - 1])
    }
}

/// Whether the first `i` replay steps from `b0` all go through.
pub open spec fn steps_ok_to(b0: cozy_chess::Board, toks: Seq<Seq<char>>, i: int) -> bool {
    forall|j: int| 0 <= j < i ==> step_ok(board_after(b0, toks, j), toks[j])
}

/// Whether the replay from `b0` first fails at token `i`, on parsing.
pub open spec fn fails_parse_at(b0: cozy_chess::Board, toks: Seq<Seq<char>>, i: int) -> bool {
    &&& 0 <= i < toks.len()
    &&& steps_ok_to(b0, toks, i)
    &&& !parse_ok(normalized_on(board_after(b0, toks, i), toks[i]))
}

/// Whether the replay from `b0` first fails at token `i`, on legality.
pub open spec fn fails_legality_at(b0: cozy_chess::Board, toks: Seq<Seq<char>>, i: int) -> bool {
    &&& 0 <= i < toks.len()
    &&& steps_ok_to(b0, toks, i)
    &&& parse_ok(normalized_on(board_after(b0, toks, i), toks[i]))
    &&& !legal_of(
        board_after(b0, toks, i),
        parse_of(normalized_on(board_after(b0, toks, i), toks[i]))->Some_0,
    )
}

/// The position-identity history of a full replay from `b0`: one identity
/// per position visited, the starting position first.
pub open spec fn history_of(b0: cozy_chess::Board, toks: Seq<Seq<char>>) -> Seq<u64> {
    Seq::new(toks.len() + 1, |i: int| id_of(board_after(b0, toks, i)))
}

/// Whether `p` is a standing king.
fn is_king(p: &Option<PieceKind>) -> (r: bool)
    ensures
        r == (*p == Some(PieceKind::King)),
{
    match p {
        Some(PieceKind::King) => true,
        _ => false,
    }
}

/// Replays the tokens in input order from the standard starting position.
/// It succeeds if and only if every step of the fold goes through, and then
/// returns exactly the board and the history that the fold prescribes;
/// otherwise it reports, by kind, the first step that failed — `Parse` when
/// the normalized token is outside the grammar, `Illegal` when the engine
/// refuses the move. A token that is not one of the four castling tokens is
/// never rewritten, so a parse failure also pins a board-independent bad
/// token.
pub fn replay_tokens(tokens: &Vec<String>) -> (r: Result<Replay, ReplayError>)
    ensures
        r is Ok <==> steps_ok_to(
            start_board(()),
            tokens.deep_view(),
            tokens.deep_view().len() as int,
        ),
        r is Ok ==> r->Ok_0.board == board_after(
            start_board(()),
            tokens.deep_view(),
            tokens.deep_view().len() as int,
        ),
        r is Ok ==> r->Ok_0.history@ == history_of(start_board(()), tokens.deep_view()),
        r is Ok ==> r->Ok_0.history@.len() == tokens@.len() + 1,
        r is Ok ==> forall|i: int|
            0 <= i < tokens.deep_view().len() && !is_castle_token(tokens.deep_view()[i])
                ==> parse_ok(tokens.deep_view()[i]),
        r matches Err(ReplayError::Parse) <==> exists|i: int|
            fails_parse_at(start_board(()), tokens.deep_view(), i),
        r matches Err(ReplayError::Illegal) <==> exists|i: int|
            fails_legality_at(start_board(()), tokens.deep_view(), i),
        r matches Err(ReplayError::Parse) ==> exists|i: int|
            0 <= i < tokens.deep_view().len() && !is_castle_token(tokens.deep_view()[i])
                && !parse_ok(tokens.deep_view()[i]),
{
    let ghost b0 = start_board(());
    let ghost dv = tokens.deep_view();
    let mut board = new_board();
    let mut history: Vec<u64> = Vec::new();
    history.push(position_id(&board));
    let mut k: usize = 0;
    while k < tokens.len()
        invariant
            k <= dv.len(),
            dv == tokens.deep_view(),
            dv.len() == tokens@.len(),
            b0 == start_board(()),
            board == board_after(b0, dv, k as int),
            steps_ok_to(b0, dv, k as int),
            history@.len() == k + 1,
            forall|i: int| 0 <= i <= k ==> history@[i] == id_of(board_after(b0, dv, i)),
            forall|i: int| 0 <= i < k && !is_castle_token(dv[i]) ==> parse_ok(dv[i]),
        decreases dv.len() - k,
    {
        let token = &tokens[k];
        proof {
            assert(dv[k as int] == token@);
        }
        let on_e1 = piece_on(&board, E1_SQUARE);
        let on_e8 = piece_on(&board, E8_SQUARE);
        let king_e1 = is_king(&on_e1);
        let king_e8 = is_king(&on_e8);
        let normalized = normalize_token(token, king_e1, king_e8);
        proof {
            assert(normalized@ == normalized_on(board, token@));
        }
        match parse_move(normalized.as_str()) {
            None => {
                proof {
                    if is_castle_token(token@) {
                        assert(false);
                    }
                    crate::normalize::lemma_normalize_keeps_ordinary_tokens(
                        token@,
                        king_e1,
                        king_e8,
                    );
                    assert(fails_parse_at(b0, dv, k as int));
                    assert forall|i: int| !fails_legality_at(b0, dv, i) by {
                        if fails_legality_at(b0, dv, i) {
                            if i < k {
                                assert(step_ok(board_after(b0, dv, i), dv[i]));
                            } else if i == k {
                                assert(!parse_ok(normalized_on(board, token@)));
                            } else {
                                assert(steps_ok_to(b0, dv, i));
                                assert(step_ok(board_after(b0, dv, k as int), dv[k as int]));
                            }
                        }
                    }
                    assert(!steps_ok_to(b0, dv, dv.len() as int)) by {
                        if steps_ok_to(b0, dv, dv.len() as int) {
                            assert(step_ok(board_after(b0, dv, k as int), dv[k as int]));
                        }
                    }
                }
                return Err(ReplayError::Parse);
            },
            Some(mv) => {
                proof {
                    assert(parse_ok(normalized_on(board, token@)));
                    assert(mv == parse_of(normalized_on(board, token@))->Some_0);
                }
                let played = try_play(&mut board, &mv);
                if !played {
                    proof {
                        assert(fails_legality_at(b0, dv, k as int));
                        assert forall|i: int| !fails_parse_at(b0, dv, i) by {
                            if fails_parse_at(b0, dv, i) {
                                if i < k {
                                    assert(step_ok(board_after(b0, dv, i), dv[i]));
                                } else if i > k {
                                    assert(steps_ok_to(b0, dv, i));
                                    assert(step_ok(board_after(b0, dv, k as int), dv[k as int]));
                                }
                            }
                        }
                        assert(!steps_ok_to(b0, dv, dv.len() as int)) by {
                            if steps_ok_to(b0, dv, dv.len() as int) {
                                assert(step_ok(board_after(b0, dv, k as int), dv[k as int]));
                            }
                        }
                    }
                    return Err(ReplayError::Illegal);
                }
                history.push(position_id(&board));
                proof {
                    assert(step_ok(board_after(b0, dv, k as int), dv[k as int]));
                    assert(board == board_after(b0, dv, k + 1));
                    assert(steps_ok_to(b0, dv, k + 1)) by {
                        assert forall|j: int|
                            0 <= j < k + 1 implies step_ok(board_after(b0, dv, j), dv[j]) by {
                            if j < k {
                                assert(step_ok(board_after(b0, dv, j), dv[j]));
                            }
                        }
                    }
                    if !is_castle_token(token@) {
                        crate::normalize::lemma_normalize_keeps_ordinary_tokens(
                            token@,
                            king_e1,
                            king_e8,
                        );
                    }
                }
            },
        }
        k = k + 1;
    }
    proof {
        assert forall|i: int| !fails_parse_at(b0, dv, i) by {
            if fails_parse_at(b0, dv, i) {
                assert(step_ok(board_after(b0, dv, i), dv[i]));
            }
        }
        assert forall|i: int| !fails_legality_at(b0, dv, i) by {
            if fails_legality_at(b0, dv, i) {
                assert(step_ok(board_after(b0, dv, i), dv[i]));
            }
        }
        assert(history@ =~= history_of(b0, dv));
    }
    Ok(Replay { board, history })
}

} // verus!
