use uci_inspector::classify::classify;
use uci_inspector::engine::EngineStatus;
use uci_inspector::replay::replay_tokens;
use uci_inspector::replay::ReplayError;
use uci_inspector::GameState;

fn moves(tokens: &[&str]) -> Vec<String> {
    tokens.iter().map(|t| String::from(*t)).collect()
}

#[test]
fn history_counts_applied_moves() {
    let replay = match replay_tokens(&moves(&["e2e4", "e7e5", "g1f3"])) {
        Ok(replay) => replay,
        Err(_) => panic!("a legal sequence must replay"),
    };
    assert_eq!(replay.history.len(), 4);
}

#[test]
fn history_of_empty_replay_is_the_start_alone() {
    let replay = match replay_tokens(&moves(&[])) {
        Ok(replay) => replay,
        Err(_) => panic!("an empty sequence must replay"),
    };
    assert_eq!(replay.history.len(), 1);
}

#[test]
fn replay_reports_parse_error() {
    match replay_tokens(&moves(&["e2e4", "z9z9"])) {
        Err(err) => assert_eq!(err, ReplayError::Parse),
        Ok(_) => panic!("a malformed token must abort the replay"),
    }
}

#[test]
fn replay_reports_illegal_move() {
    match replay_tokens(&moves(&["f1d3"])) {
        Err(err) => assert_eq!(err, ReplayError::Illegal),
        Ok(_) => panic!("an illegal move must abort the replay"),
    }
}

#[test]
fn bare_kings_are_a_material_draw() {
    let history = vec![1, 2, 3];
    assert_eq!(classify(2, 0, EngineStatus::Ongoing, 7, &history), GameState::Draw);
}

#[test]
fn lone_minor_piece_is_a_material_draw() {
    let history = vec![1, 2, 3];
    assert_eq!(classify(3, 1, EngineStatus::Ongoing, 0, &history), GameState::Draw);
}

#[test]
fn lone_rook_is_not_a_material_draw() {
    let history = vec![1, 2, 3];
    assert_eq!(classify(3, 0, EngineStatus::Ongoing, 0, &history), GameState::Ongoing);
}

#[test]
fn engine_win_is_checkmate() {
    let history = vec![1, 2, 3];
    assert_eq!(classify(32, 4, EngineStatus::Won, 0, &history), GameState::Checkmate);
}

#[test]
fn engine_draw_is_draw() {
    let history = vec![1, 2, 3];
    assert_eq!(classify(32, 4, EngineStatus::Drawn, 0, &history), GameState::Draw);
}

#[test]
fn three_occurrences_in_window_draw() {
    let history = vec![1, 2, 1, 2, 1];
    assert_eq!(classify(4, 0, EngineStatus::Ongoing, 5, &history), GameState::Draw);
}

#[test]
fn window_excludes_older_occurrences() {
    // The reference identity occurs three times in the full history but
    // only twice within the trailing window of four entries.
    let history = vec![1, 2, 1, 2, 1];
    assert_eq!(classify(4, 0, EngineStatus::Ongoing, 4, &history), GameState::Ongoing);
}

#[test]
fn four_occurrences_are_not_exactly_three() {
    let history = vec![1, 1, 1, 1];
    assert_eq!(classify(4, 0, EngineStatus::Ongoing, 4, &history), GameState::Ongoing);
}

#[test]
fn zero_clock_skips_the_repetition_check() {
    let history = vec![1, 1, 1, 1];
    assert_eq!(classify(4, 0, EngineStatus::Ongoing, 0, &history), GameState::Ongoing);
}

#[test]
fn clock_beyond_history_uses_whole_history() {
    let history = vec![9, 9, 9];
    assert_eq!(classify(4, 0, EngineStatus::Ongoing, 200, &history), GameState::Draw);
}
