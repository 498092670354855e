use uci_inspector::process_moves;
use uci_inspector::GameState;

#[test]
fn empty_input_is_ongoing() {
    assert_eq!(process_moves(""), GameState::Ongoing);
}

#[test]
fn whitespace_only_is_ongoing() {
    assert_eq!(process_moves("  \t \n "), GameState::Ongoing);
}

#[test]
fn fools_mate_is_checkmate() {
    assert_eq!(process_moves("f2f3 e7e5 g2g4 d8h4"), GameState::Checkmate);
}

#[test]
fn malformed_first_token_is_error() {
    assert_eq!(process_moves("z9z9"), GameState::Error);
}

#[test]
fn malformed_later_token_is_error() {
    assert_eq!(process_moves("g1f3 z9z9 e7e5"), GameState::Error);
}

#[test]
fn illegal_blocked_move_is_error() {
    // The f1 bishop cannot leave its home square through the e2 pawn.
    assert_eq!(process_moves("f1d3"), GameState::Error);
}

#[test]
fn move_leaving_king_in_check_is_error() {
    // After the fool's mate the white king is mated; any further move
    // would leave it in check.
    assert_eq!(process_moves("f2f3 e7e5 g2g4 d8h4 h2h3"), GameState::Error);
}

#[test]
fn threefold_shuffle_is_draw() {
    // The knights go out and back three times: the starting position
    // recurs three times inside the clock-sized window.
    let shuffle = "g1f3 g8f6 f3g1 f6g8 g1f3 g8f6 f3g1 f6g8 g1f3 g8f6 f3g1 f6g8";
    assert_eq!(process_moves(shuffle), GameState::Draw);
}

#[test]
fn twofold_shuffle_is_ongoing() {
    // The same shuffle stopped one round earlier repeats the position
    // only twice within the window.
    let shuffle = "g1f3 g8f6 f3g1 f6g8 g1f3 g8f6 f3g1 f6g8";
    assert_eq!(process_moves(shuffle), GameState::Ongoing);
}

#[test]
fn kingside_castling_both_sides_is_applied() {
    // e1g1 and e8g8 are rewritten to the king-takes-rook form and applied.
    let game = "e2e4 e7e5 g1f3 b8c6 f1c4 f8c5 e1g1 g8f6 d2d3 e8g8";
    assert_eq!(process_moves(game), GameState::Ongoing);
}

#[test]
fn queenside_castling_both_sides_is_applied() {
    let game = "d2d4 d7d5 b1c3 b8c6 c1f4 c8f5 d1d2 d8d7 e1c1 e8c8";
    assert_eq!(process_moves(game), GameState::Ongoing);
}

#[test]
fn castle_token_without_king_on_origin_is_error() {
    // The white king has stepped to e2, so e1g1 is not rewritten; with no
    // piece on e1 the move is illegal.
    assert_eq!(process_moves("e2e4 e7e5 e1e2 d7d6 e1g1"), GameState::Error);
}

#[test]
fn promotion_token_is_applied() {
    // The a-pawn marches through b5, a7 and promotes by capturing on b8.
    let game = "a2a4 b7b5 a4b5 h7h6 b5b6 h6h5 b6a7 h5h4 a7b8q";
    assert_eq!(process_moves(game), GameState::Ongoing);
}

#[test]
fn stalemate_is_draw() {
    // A quick stalemate: the black king has no legal move and is not in
    // check, so the engine's verdict is a draw.
    let game = "e2e3 a7a5 d1h5 a8a6 h5a5 h7h5 h2h4 a6h6 a5c7 f7f6 \
                c7d7 e8f7 d7b7 d8d3 b7b8 d3h7 b8c8 f7g6 c8e6";
    assert_eq!(process_moves(game), GameState::Draw);
}

#[test]
fn ragged_whitespace_is_tokenized() {
    assert_eq!(
        process_moves("  g1f3\t g8f6 \n f3g1  "),
        process_moves("g1f3 g8f6 f3g1")
    );
}

#[test]
fn classification_is_idempotent() {
    let inputs = [
        "",
        "f2f3 e7e5 g2g4 d8h4",
        "g1f3 g8f6 f3g1 f6g8 g1f3 g8f6 f3g1 f6g8 g1f3 g8f6 f3g1 f6g8",
        "g1f3 z9z9 e7e5",
        "e2e4 e7e5 g1f3 b8c6 f1c4 f8c5 e1g1 g8f6 d2d3 e8g8",
    ];
    for input in inputs {
        assert_eq!(process_moves(input), process_moves(input));
    }
}
