//! Trusted boundary to the chess rules engine (the `cozy_chess` crate).
//!
//! The board is opaque to this crate, but every engine operation the logic
//! relies on is deterministic — a pure computation over the board value,
//! with compile-time constants — so each operation's result is given a
//! name: an uninterpreted spec function of the arguments. The wrappers
//! below tie each call to its name, and the verified pipeline's contracts
//! are stated over those names.

use vstd::prelude::*;

verus! {

/// Declares `cozy_chess::Board` so that it can stand in signatures and fields.
#[verifier::external_type_specification]
#[verifier::external_body]
pub struct ExBoard(cozy_chess::Board);

/// Declares `cozy_chess::Move` so that parsed moves can be handed around.
#[verifier::external_type_specification]
#[verifier::external_body]
pub struct ExMove(cozy_chess::Move);

/// The kind of a piece standing on a square, as this crate sees it.
#[derive(Clone, Copy, Debug, PartialEq, Eq, Structural)]
pub enum PieceKind {
    Pawn,
    Knight,
    Bishop,
    Rook,
    Queen,
    King,
}

/// One of the two sides of the game.
#[derive(Clone, Copy, Debug, PartialEq, Eq, Structural)]
pub enum Side {
    White,
    Black,
}

/// The rules engine's own terminal verdict on a position.
#[derive(Clone, Copy, Debug, PartialEq, Eq, Structural)]
pub enum EngineStatus {
    Won,
    Drawn,
    Ongoing,
}

/// The standard starting position, the board `cozy_chess::Board::default`
/// builds. Building it takes no input, so the parameter is unit.
pub uninterp spec fn start_board(game: ()) -> cozy_chess::Board;

/// What `cozy_chess::Move::from_str` makes of a token: the parsed move, or
/// nothing when the token is outside the coordinate-move grammar. It
/// depends on the token's characters alone.
pub uninterp spec fn parse_of(t: Seq<char>) -> Option<cozy_chess::Move>;

/// Whether the engine's coordinate-move grammar accepts a token.
pub open spec fn parse_ok(t: Seq<char>) -> bool {
    parse_of(t) is Some
}

/// Which piece `cozy_chess::Board::piece_on` reports on a square (given by
/// its rank-major index) of a board.
pub uninterp spec fn piece_at(b: cozy_chess::Board, square: u8) -> Option<PieceKind>;

/// Whether `cozy_chess::Board::try_play` accepts a move as legal on a board.
pub uninterp spec fn legal_of(b: cozy_chess::Board, m: cozy_chess::Move) -> bool;

/// The board `cozy_chess::Board::try_play` leaves behind after applying a
/// legal move.
pub uninterp spec fn play_of(b: cozy_chess::Board, m: cozy_chess::Move) -> cozy_chess::Board;

/// The position identity `cozy_chess::Board::hash` computes for a board.
pub uninterp spec fn id_of(b: cozy_chess::Board) -> u64;

/// How many pieces of one side `cozy_chess::Board::colors` reports.
pub uninterp spec fn side_count_of(b: cozy_chess::Board, side: Side) -> u64;

/// How many pieces of one kind `cozy_chess::Board::pieces` reports, both
/// sides together.
pub uninterp spec fn kind_count_of(b: cozy_chess::Board, kind: PieceKind) -> u64;

/// The halfmove clock `cozy_chess::Board::halfmove_clock` reports.
pub uninterp spec fn clock_of(b: cozy_chess::Board) -> u8;

/// The terminal verdict `cozy_chess::Board::status` reports.
pub uninterp spec fn status_of(b: cozy_chess::Board) -> EngineStatus;

/// Relies on `cozy_chess::Board::default`: the standard chess starting
/// position, ready to have moves applied to it.
#[verifier::external_body]
pub(crate) fn new_board() -> (r: cozy_chess::Board)
    ensures
        r == start_board(()),
{
    cozy_chess::Board::default()
}

/// Relies on `cozy_chess::Board::piece_on` and `cozy_chess::Square::index`
/// (rank-major, so a1 is 0 and h8 is 63): reports which piece, if any,
/// stands on the given square. `Square::index` panics at 64 and above.
#[verifier::external_body]
pub(crate) fn piece_on(board: &cozy_chess::Board, square: u8) -> (r: Option<PieceKind>)
    requires
        square < 64,
    ensures
        r == piece_at(*board, square),
{
    match board.piece_on(cozy_chess::Square::index(square as usize)) {
        None => None,
        Some(cozy_chess::Piece::Pawn) => Some(PieceKind::Pawn),
        Some(cozy_chess::Piece::Knight) => Some(PieceKind::Knight),
        Some(cozy_chess::Piece::Bishop) => Some(PieceKind::Bishop),
        Some(cozy_chess::Piece::Rook) => Some(PieceKind::Rook),
        Some(cozy_chess::Piece::Queen) => Some(PieceKind::Queen),
        Some(cozy_chess::Piece::King) => Some(PieceKind::King),
    }
}

/// Relies on `cozy_chess::Move::from_str`: parses a coordinate-notation
/// token. Its outcome is a function of the token's characters alone, and
/// the grammar accepts every four-character pair of valid squares — in
/// particular the four castling tokens and the four king-takes-rook forms
/// that normalization rewrites them to.
#[verifier::external_body]
pub(crate) fn parse_move(token: &str) -> (r: Option<cozy_chess::Move>)
    ensures
        r == parse_of(token@),
        crate::normalize::is_castle_token(token@) ==> r is Some,
        token@ == "e1h1"@ || token@ == "e1a1"@ || token@ == "e8h8"@ || token@ == "e8a8"@
            ==> r is Some,
{
    token.parse::<cozy_chess::Move>().ok()
}

/// Relies on `cozy_chess::Board::try_play`: applies the move if and only if
/// it is legal in the current position, mutating the board in place to the
/// played position, and leaving it untouched otherwise.
#[verifier::external_body]
pub(crate) fn try_play(board: &mut cozy_chess::Board, mv: &cozy_chess::Move) -> (r: bool)
    ensures
        r == legal_of(*old(board), *mv),
        r ==> *final(board) == play_of(*old(board), *mv),
        !r ==> *final(board) == *old(board),
{
    board.try_play(*mv).is_ok()
}

/// Relies on `cozy_chess::Board::hash`: a position-identity value, equal
/// for positions the engine considers the same.
#[verifier::external_body]
pub(crate) fn position_id(board: &cozy_chess::Board) -> (r: u64)
    ensures
        r == id_of(*board),
{
    board.hash()
}

/// Relies on `cozy_chess::Board::colors` and `cozy_chess::BitBoard::len`:
/// how many pieces of one side stand on the board. A `BitBoard` is a set of
/// the 64 squares, so its length is at most 64.
#[verifier::external_body]
pub(crate) fn side_piece_count(board: &cozy_chess::Board, side: &Side) -> (r: u64)
    ensures
        r == side_count_of(*board, *side),
        r <= 64,
{
    let color = match side {
        Side::White => cozy_chess::Color::White,
        Side::Black => cozy_chess::Color::Black,
    };
    board.colors(color).len() as u64
}

/// Relies on `cozy_chess::Board::pieces` and `cozy_chess::BitBoard::len`:
/// how many pieces of one kind stand on the board, both sides together. A
/// `BitBoard` is a set of the 64 squares, so its length is at most 64.
#[verifier::external_body]
pub(crate) fn kind_piece_count(board: &cozy_chess::Board, kind: &PieceKind) -> (r: u64)
    ensures
        r == kind_count_of(*board, *kind),
        r <= 64,
{
    let piece = match kind {
        PieceKind::Pawn => cozy_chess::Piece::Pawn,
        PieceKind::Knight => cozy_chess::Piece::Knight,
        PieceKind::Bishop => cozy_chess::Piece::Bishop,
        PieceKind::Rook => cozy_chess::Piece::Rook,
        PieceKind::Queen => cozy_chess::Piece::Queen,
        PieceKind::King => cozy_chess::Piece::King,
    };
    board.pieces(piece).len() as u64
}

/// Relies on `cozy_chess::Board::halfmove_clock`: the number of plies since
/// the last capture or pawn move.
#[verifier::external_body]
pub(crate) fn halfmove_clock(board: &cozy_chess::Board) -> (r: u8)
    ensures
        r == clock_of(*board),
{
    board.halfmove_clock()
}

/// Relies on `cozy_chess::Board::status`: the engine's terminal verdict,
/// one variant mapped to one variant.
#[verifier::external_body]
pub(crate) fn status(board: &cozy_chess::Board) -> (r: EngineStatus)
    ensures
        r == status_of(*board),
{
    match board.status() {
        cozy_chess::GameStatus::Won => EngineStatus::Won,
        cozy_chess::GameStatus::Drawn => EngineStatus::Drawn,
        cozy_chess::GameStatus::Ongoing => EngineStatus::Ongoing,
    }
}

} // verus!
