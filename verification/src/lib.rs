//! Replays a whitespace-separated list of coordinate-notation chess moves
//! from the standard starting position and classifies the outcome: ongoing,
//! drawn, checkmated, or malformed input.
//!
//! The chess rules engine (the `cozy_chess` crate) is an external
//! collaborator: it owns the board, enforces legality and reports its own
//! terminal verdict. This crate holds the logic around it — castling-token
//! normalization, the replay loop with its position-identity history, the
//! insufficient-material rules and the clock-bounded repetition check — and
//! that logic is verified.

pub mod classify;
pub mod engine;
pub mod normalize;
pub mod replay;
pub mod text;

use vstd::prelude::*;

verus! {

/// The terminal classification of a replayed move sequence.
#[derive(Clone, Copy, Debug, PartialEq, Eq, Structural)]
pub enum GameState {
    Ongoing,
    Draw,
    Checkmate,
    Error,
}

/// What processing a move list returns: `Error` exactly when the replay
/// fold from board `b0` over the tokens breaks down — a normalized token
/// outside the grammar, or a move the engine refuses — and otherwise the
/// classification of the final board's queried piece counts, verdict and
/// clock together with the replay's position-identity history.
pub open spec fn outcome_of(b0: cozy_chess::Board, toks: Seq<Seq<char>>) -> GameState {
    if !replay::steps_ok_to(b0, toks, toks.len() as int) {
        GameState::Error
    } else {
        let bf = replay::board_after(b0, toks, toks.len() as int);
        classify::classify_spec(
            engine::side_count_of(bf, engine::Side::White) + engine::side_count_of(
                bf,
                engine::Side::Black,
            ),
            engine::kind_count_of(bf, engine::PieceKind::Bishop) + engine::kind_count_of(
                bf,
                engine::PieceKind::Knight,
            ),
            engine::status_of(bf),
            engine::clock_of(bf) as int,
            replay::history_of(b0, toks),
        )
    }
}

/// Replays a whitespace-separated list of coordinate-notation moves from the
/// standard starting position and classifies the outcome: exactly
/// `outcome_of` on the starting position and the input's tokens.
///
/// In particular an input with no tokens is never malformed, and an input
/// holding a token that the move grammar rejects, other than one of the four
/// castling tokens that normalization may rewrite, is always malformed.
pub fn process_moves(moves: &str) -> (r: GameState)
    ensures
        r == outcome_of(engine::start_board(()), text::tokens_of(moves@)),
        text::tokens_of(moves@).len() == 0 ==> r != GameState::Error,
        (exists|i: int|
            0 <= i < text::tokens_of(moves@).len() && !normalize::is_castle_token(
                text::tokens_of(moves@)[i],
            ) && !engine::parse_ok(text::tokens_of(moves@)[i])) ==> r == GameState::Error,
{
    let ghost toks = text::tokens_of(moves@);
    let ghost b0 = engine::start_board(());
    let tokens = text::tokenize(moves);
    match replay::replay_tokens(&tokens) {
        Err(_) => {
            proof {
                assert(!replay::steps_ok_to(b0, toks, toks.len() as int));
            }
            GameState::Error
        },
        Ok(rep) => {
            let white = engine::side_piece_count(&rep.board, &engine::Side::White);
            let black = engine::side_piece_count(&rep.board, &engine::Side::Black);
            let bishops = engine::kind_piece_count(&rep.board, &engine::PieceKind::Bishop);
            let knights = engine::kind_piece_count(&rep.board, &engine::PieceKind::Knight);
            let clock = engine::halfmove_clock(&rep.board);
            let verdict = engine::status(&rep.board);
            let outcome = classify::classify(
                white + black,
                bishops + knights,
                verdict,
                clock,
                &rep.history,
            );
            proof {
                classify::lemma_classify_spec_not_error(
                    (white + black) as int,
                    (bishops + knights) as int,
                    verdict,
                    clock as int,
                    rep.history@,
                );
                assert(replay::steps_ok_to(b0, toks, toks.len() as int));
                assert(rep.board == replay::board_after(b0, toks, toks.len() as int));
                assert(rep.history@ == replay::history_of(b0, toks));
                assert(outcome == outcome_of(b0, toks));
            }
            outcome
        },
    }
}

} // verus!
