//! Outcome classification of a fully replayed game.
//!
//! The rules are tried in a fixed order: the two insufficient-material
//! rules, then the engine's own verdict, and, only for an ongoing game, the
//! clock-bounded repetition check. The repetition window is exactly the last
//! `clock` entries of the position-identity history (fewer when the history
//! is shorter), and the position is drawn when the latest identity occurs
//! exactly three times inside that window.

use crate::engine::EngineStatus;
use crate::GameState;
use vstd::prelude::*;

verus! {

/// How many entries of `s` equal `v`.
pub open spec fn eq_count(s: Seq<u64>, v: u64) -> nat
    decreases s.len(),
{
    if s.len() == 0 {
        0
    } else {
        eq_count(s.drop_last(), v) + if s.last() == v {
            1nat
        } else {
            0nat
        }
    }
}

/// Where the repetition window begins: `clock` entries before the end of a
/// history of length `len`, or the start of the history when it is shorter.
pub open spec fn window_start(len: int, clock: int) -> int {
    if clock <= len {
        len - clock
    } else {
        0
    }
}

/// The trailing window of the history that the repetition check inspects.
pub open spec fn repetition_window(h: Seq<u64>, clock: int) -> Seq<u64> {
    h.subrange(window_start(h.len() as int, clock), h.len() as int)
}

/// Whether the history ends in a repetition draw: the clock is running, and
/// the latest position identity occurs exactly three times within the
/// trailing window of `clock` entries.
pub open spec fn is_repetition_draw(h: Seq<u64>, clock: int) -> bool {
    &&& clock > 0
    &&& h.len() > 0
    &&& eq_count(repetition_window(h, clock), h.last()) == 3
}

/// The repetition window holds exactly the last `clock` entries of the
/// history — the literal clock value, not one more — and the whole history
/// when the history is shorter than the clock.
pub proof fn lemma_window_is_clock_sized(h: Seq<u64>, clock: int)
    requires
        0 <= clock,
    ensures
        clock <= h.len() ==> repetition_window(h, clock).len() == clock,
        clock > h.len() ==> repetition_window(h, clock) == h,
{
    if clock > h.len() {
        assert(repetition_window(h, clock) =~= h);
    }
}

/// The classification of a replayed game, given the final position's piece
/// counts, the engine's verdict, the halfmove clock and the
/// position-identity history. First match wins: two pieces are the bare
/// kings (a draw); three pieces draw only when one is a bishop or knight;
/// otherwise the engine's verdict stands, except that an ongoing game is
/// still probed for a repetition draw.
pub open spec fn classify_spec(
    pieces: int,
    minors: int,
    status: EngineStatus,
    clock: int,
    h: Seq<u64>,
) -> GameState {
    if pieces == 2 {
        GameState::Draw
    } else if pieces == 3 && minors >= 1 {
        GameState::Draw
    } else {
        match status {
            EngineStatus::Won => GameState::Checkmate,
            EngineStatus::Drawn => GameState::Draw,
            EngineStatus::Ongoing => if is_repetition_draw(h, clock) {
                GameState::Draw
            } else {
                GameState::Ongoing
            },
        }
    }
}

/// A successful replay is never classified as malformed input.
pub proof fn lemma_classify_spec_not_error(
    pieces: int,
    minors: int,
    status: EngineStatus,
    clock: int,
    h: Seq<u64>,
)
    ensures
        classify_spec(pieces, minors, status, clock, h) != GameState::Error,
{
    match status {
        EngineStatus::Won => {
        },
        EngineStatus::Drawn => {
        },
        EngineStatus::Ongoing => {
        },
    }
}

/// Classifies the final position. `pieces` is the number of pieces on the
/// board, `minors` the number of bishops and knights among them, `status`
/// the engine's verdict, `clock` the halfmove clock, and `history` the
/// position-identity history of the replay.
pub fn classify(
    pieces: u64,
    minors: u64,
    status: EngineStatus,
    clock: u8,
    history: &Vec<u64>,
) -> (r: GameState)
    ensures
        r == classify_spec(pieces as int, minors as int, status, clock as int, history@),
{
    if pieces == 2 {
        return GameState::Draw;
    }
    if pieces == 3 && minors >= 1 {
        return GameState::Draw;
    }
    match status {
        EngineStatus::Won => GameState::Checkmate,
        EngineStatus::Drawn => GameState::Draw,
        EngineStatus::Ongoing => {
            if clock == 0 {
                return GameState::Ongoing;
            }
            let len = history.len();
            if len == 0 {
                return GameState::Ongoing;
            }
            let c = clock as usize;
            let start: usize = if c <= len {
                len - c
            } else {
                0
            };
            let reference = history[len - 1];
            let mut count: usize = 0;
            let mut k: usize = start;
            while k < len
                invariant
                    start <= k <= len,
                    len == history@.len(),
                    count <= k - start,
                    reference == history@[len - 1],
                    count == eq_count(history@.subrange(start as int, k as int), reference),
                decreases len - k,
            {
                proof {
                    assert(history@.subrange(start as int, k + 1 as int).drop_last()
                        =~= history@.subrange(start as int, k as int));
                    assert(history@.subrange(start as int, k + 1 as int).last() == history@[
                        k as int
                    ]);
                }
                if history[k] == reference {
                    count = count + 1;
                }
                k = k + 1;
            }
            proof {
                assert(history@.subrange(start as int, len as int) =~= repetition_window(
                    history@,
                    clock as int,
                ));
            }
            if count == 3 {
                GameState::Draw
            } else {
                GameState::Ongoing
            }
        },
    }
}

} // verus!
