use tetterm::board::Board;
use tetterm::input::Command;
use tetterm::panel::{chrome_ops, help_ops, score_ops, title_ops};
use tetterm::session::{EngineAction, GameEvent, RenderState};
use tetterm::shape::{Orientation, Point, ShapeKind};
use tetterm::term::{encode_ops, TermOp};

#[test]
fn score_nine_then_ten_sets_level_once() {
    let mut st = RenderState::new();
    let (_, actions) = st.handle_event(GameEvent::ScoreUpdate(9));
    assert!(actions.is_empty());
    assert_eq!(st.level, 0);
    let (ops, actions) = st.handle_event(GameEvent::ScoreUpdate(10));
    assert_eq!(actions, vec![EngineAction::SetLevel(1)]);
    assert_eq!(st.level, 1);
    // Exactly one level-panel reposition accompanies the change.
    let level_gotos =
        ops.iter().filter(|op| matches!(op, TermOp::Goto(15, 46))).count();
    assert_eq!(level_gotos, 1);
}

#[test]
fn score_update_without_level_change_redraws_score_only() {
    let mut st = RenderState::new();
    let (ops, actions) = st.handle_event(GameEvent::ScoreUpdate(7));
    assert!(actions.is_empty());
    let bytes = encode_ops(&ops);
    assert_eq!(bytes, b"\x1b[13;46HLines: 7".to_vec());
}

#[test]
fn level_is_score_divided_by_ten() {
    for (score, level) in [(0u32, 0u8), (9, 0), (10, 1), (99, 9), (100, 10), (255, 25)] {
        let mut st = RenderState::new();
        let (_, actions) = st.handle_event(GameEvent::ScoreUpdate(score));
        assert_eq!(st.level, level, "score {score}");
        if level != 0 {
            assert_eq!(actions, vec![EngineAction::SetLevel(level)]);
        } else {
            assert!(actions.is_empty());
        }
    }
}

#[test]
fn shape_position_erases_old_anchor_before_drawing_new() {
    let mut st = RenderState::new();
    let (ops, _) = st.handle_event(GameEvent::ShapePosition(
        ShapeKind::El,
        None,
        Orientation::Up,
        None,
        Point::new(5, 20),
    ));
    // First appearance: no erase, 16 marks drawn.
    let spaces = ops.iter().filter(|op| matches!(op, TermOp::Put(b' '))).count();
    let marks = ops.iter().filter(|op| matches!(op, TermOp::Put(b'*'))).count();
    assert_eq!((spaces, marks), (0, 16));

    let (ops, _) = st.handle_event(GameEvent::ShapePosition(
        ShapeKind::El,
        Some(Orientation::Up),
        Orientation::Up,
        Some(Point::new(5, 20)),
        Point::new(5, 19),
    ));
    // The move erases exactly the 16 marks at (5,20), then draws 16 anew.
    let spaces = ops.iter().filter(|op| matches!(op, TermOp::Put(b' '))).count();
    let marks = ops.iter().filter(|op| matches!(op, TermOp::Put(b'*'))).count();
    assert_eq!((spaces, marks), (16, 16));
    // Erase starts at the old anchor: map(5,20) = (col 22, row 10) - height 6.
    assert!(matches!(ops[0], TermOp::Goto(4, 22)));
    // The erase segment fully precedes the draw segment.
    let first_mark = ops.iter().position(|op| matches!(op, TermOp::Put(b'*'))).unwrap();
    let last_space = ops.iter().rposition(|op| matches!(op, TermOp::Put(b' '))).unwrap();
    assert!(last_space < first_mark);
    assert_eq!(st.latest_position, Some(Point::new(5, 19)));
    assert_eq!(st.latest_orientation, Some(Orientation::Up));
    assert_eq!(st.latest_shape, Some(ShapeKind::El));
}

#[test]
fn line_completed_diff_erases_old_cells_and_draws_new() {
    // Old settled board: five occupied cells; after the collapse two are
    // gone and three have shifted down one row.
    let mut old_board = Board::new();
    old_board.set(1, 0, Some(ShapeKind::El));
    old_board.set(2, 0, Some(ShapeKind::El));
    old_board.set(3, 1, Some(ShapeKind::Zee));
    old_board.set(4, 1, Some(ShapeKind::Zee));
    old_board.set(5, 1, Some(ShapeKind::Tee));
    let mut new_board = Board::new();
    new_board.set(3, 0, Some(ShapeKind::Zee));
    new_board.set(4, 0, Some(ShapeKind::Zee));
    new_board.set(5, 0, Some(ShapeKind::Tee));

    let mut st = RenderState::new();
    let (_, _) = st.handle_event(GameEvent::ShapeLocked(ShapeKind::El, old_board));
    let (ops, _) = st.handle_event(GameEvent::LineCompleted(1, new_board));

    // Each erased single cell writes 4 blanks; each drawn one 4 marks and
    // one color tag. Net: 5 erases, 3 draws.
    let spaces = ops.iter().filter(|op| matches!(op, TermOp::Put(b' '))).count();
    let marks = ops.iter().filter(|op| matches!(op, TermOp::Put(b'*'))).count();
    let colors = ops.iter().filter(|op| matches!(op, TermOp::Sgr(_))).count();
    assert_eq!(spaces, 5 * 4);
    assert_eq!(marks, 3 * 4);
    assert_eq!(colors, 3);
}

#[test]
fn fresh_state_has_empty_boards() {
    let st = RenderState::new();
    for x in 0..10usize {
        for y in 0..25usize {
            assert_eq!(st.old_board.get(x, y), None);
            assert_eq!(st.current_board.get(x, y), None);
        }
    }
}

#[test]
fn game_started_clears_and_draws_chrome() {
    let mut st = RenderState::new();
    assert!(!st.started);
    let (bytes, actions) = st.render_event(GameEvent::GameStarted);
    assert!(st.started);
    assert!(actions.is_empty());
    assert!(bytes.starts_with(b"\x00\x1b[2J\x1b[1;32m/"));
    let text = String::from_utf8_lossy(&bytes);
    assert!(text.contains("Lines: 0"));
    assert!(text.contains("Level: 1"));
}

#[test]
fn game_over_marks_session_done() {
    let mut st = RenderState::new();
    let (ops, actions) = st.handle_event(GameEvent::GameOver);
    assert!(st.done);
    assert!(ops.is_empty());
    assert!(actions.is_empty());
}

#[test]
fn board_update_only_caches_snapshot() {
    let mut st = RenderState::new();
    let mut b = Board::new();
    b.set(0, 0, Some(ShapeKind::Square));
    let (ops, _) = st.handle_event(GameEvent::BoardUpdate(b));
    assert!(ops.is_empty());
    assert_eq!(st.current_board.get(0, 0), Some(ShapeKind::Square));
}

#[test]
fn next_shape_remembers_label_anchor() {
    let mut st = RenderState::new();
    let (ops, _) = st.handle_event(GameEvent::NextShape(ShapeKind::Square));
    // First time: nothing to clear before the glyphs.
    assert!(matches!(ops[0], TermOp::Goto(_, _)));
    // Square is 4 rows tall; the label sits at row 12 - 4 - 2 = 6, col 46.
    let np = st.next_pos.unwrap();
    assert_eq!((np.row, np.col), (6, 46));
    assert_eq!(st.next_shape, ShapeKind::Square);

    // A second event first blanks the old label with eleven spaces.
    let (ops, _) = st.handle_event(GameEvent::NextShape(ShapeKind::Eye));
    assert!(matches!(ops[0], TermOp::Goto(6, 46)));
    let leading_spaces =
        ops[1..].iter().take_while(|op| matches!(op, TermOp::Put(b' '))).count();
    assert_eq!(leading_spaces, 11);
    // Eye Up is 8 rows tall; its label sits at row 2.
    let np = st.next_pos.unwrap();
    assert_eq!((np.row, np.col), (2, 46));
}

#[test]
fn held_shape_swap_erases_previous_held_and_falling_glyph() {
    let mut st = RenderState::new();
    let (_, _) = st.handle_event(GameEvent::ShapePosition(
        ShapeKind::Zee,
        None,
        Orientation::Up,
        None,
        Point::new(4, 18),
    ));
    let (ops, _) = st.handle_event(GameEvent::HeldShape(ShapeKind::Zee));
    assert_eq!(st.old_held_shape, Some(ShapeKind::Zee));
    // No previous held glyph: the only blanks erase the falling glyph.
    let spaces = ops.iter().filter(|op| matches!(op, TermOp::Put(b' '))).count();
    assert_eq!(spaces, 16);

    let (ops, _) = st.handle_event(GameEvent::HeldShape(ShapeKind::Tee));
    assert_eq!(st.old_held_shape, Some(ShapeKind::Tee));
    // Now the old held glyph (16 cells) and the falling glyph (16 cells,
    // still remembered) are both erased.
    let spaces = ops.iter().filter(|op| matches!(op, TermOp::Put(b' '))).count();
    assert_eq!(spaces, 32);
}

#[test]
fn end_game_command_terminates_session() {
    let mut st = RenderState::new();
    st.apply_command(Command::MoveLeft);
    assert!(!st.done);
    st.apply_command(Command::EndGame);
    assert!(st.done);
}

#[test]
fn chrome_frame_rows_are_numbered() {
    let bytes = encode_ops(&chrome_ops());
    let text = String::from_utf8_lossy(&bytes);
    assert!(text.starts_with("\x1b[1;32m/----------------------------------------\\\r\n"));
    assert!(text.contains("\x1b[1;32m|2\r\n"));
    assert!(text.contains("\x1b[1;32m|49\r\n"));
    assert!(text.ends_with("\\----------------------------------------/\r\n\x1b[0;0m"));
}

#[test]
fn score_panel_bytes() {
    let bytes = encode_ops(&score_ops(42));
    assert_eq!(bytes, b"\x1b[13;46HLines: 42".to_vec());
}

#[test]
fn title_and_help_screens() {
    let title = encode_ops(&title_ops());
    assert!(title.starts_with(b"\x00\x1b[2J"));
    assert!(String::from_utf8_lossy(&title).contains("TETRIX TELNET EDITION (c) 2021"));
    let help = encode_ops(&help_ops());
    let text = String::from_utf8_lossy(&help);
    assert!(text.contains("'s' to start the game!"));
    assert!(text.contains("[press any key to continue]"));
}

#[test]
fn empty_board_renders_no_fill_ops() {
    let mut st = RenderState::new();
    let (ops, _) = st.handle_event(GameEvent::LineCompleted(0, Board::new()));
    assert!(ops.is_empty());
}
