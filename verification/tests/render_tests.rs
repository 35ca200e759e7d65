use tetterm::glyph::{shape_color, shape_rep, single_rep};
use tetterm::render::{clear_shape_ops, draw_shape_ops};
use tetterm::shape::{map_point, Orientation, Point, ShapeKind};
use tetterm::term::{encode_ops, TermOp};

#[test]
fn map_point_formula() {
    let t = map_point(Point::new(0, 24));
    assert_eq!((t.col, t.row), (2, 2));
    let t = map_point(Point::new(5, 20));
    assert_eq!((t.col, t.row), (22, 10));
    let t = map_point(Point::new(9, 0));
    assert_eq!((t.col, t.row), (38, 50));
}

#[test]
fn map_point_is_injective_on_the_board() {
    let mut seen = std::collections::HashSet::new();
    for x in 0..10usize {
        for y in 0..25usize {
            let t = map_point(Point::new(x, y));
            assert!(seen.insert((t.col, t.row)), "collision at ({x},{y})");
        }
    }
}

#[test]
fn glyph_table_eye_up() {
    let r = shape_rep(ShapeKind::Eye, Orientation::Up);
    assert_eq!(r.bytes, b"* ** ** ** ** ** ** ** *".to_vec());
    assert_eq!(r.width, 3);
    assert_eq!(r.color_code, "[1;31m");
}

#[test]
fn glyph_table_square_is_orientation_invariant() {
    let up = shape_rep(ShapeKind::Square, Orientation::Up);
    for o in [Orientation::Down, Orientation::Left, Orientation::Right] {
        let r = shape_rep(ShapeKind::Square, o);
        assert_eq!(r.bytes, up.bytes);
        assert_eq!(r.width, up.width);
        assert_eq!(r.color_code, up.color_code);
    }
    assert_eq!(up.bytes, b"* * * ** * * ** * * ** * * *".to_vec());
}

#[test]
fn every_glyph_has_sixteen_marks() {
    let shapes = [
        ShapeKind::Eye,
        ShapeKind::El,
        ShapeKind::ElInv,
        ShapeKind::Zee,
        ShapeKind::ZeeInv,
        ShapeKind::Square,
        ShapeKind::Tee,
    ];
    let orients = [Orientation::Up, Orientation::Down, Orientation::Left, Orientation::Right];
    for s in shapes {
        for o in orients {
            let r = shape_rep(s, o);
            let marks = r.bytes.iter().filter(|b| **b == b'*').count();
            assert_eq!(marks, 16, "{s:?} {o:?}");
            assert!(r.width > 0);
            // Every bitmap is complete rows of `width` cells.
            assert_eq!(r.bytes.len() % r.width, 0, "{s:?} {o:?}");
        }
    }
}

#[test]
fn tee_right_is_six_complete_rows() {
    let r = shape_rep(ShapeKind::Tee, Orientation::Right);
    assert_eq!(r.width, 7);
    assert_eq!(r.bytes.len(), 42);
    assert_eq!(r.height(), 6);
    assert_eq!(&r.bytes[35..], b"* *    ");
}

#[test]
fn single_cell_rep_shape() {
    let r = single_rep();
    assert_eq!(r.bytes, b"* ** *".to_vec());
    assert_eq!(r.width, 3);
}

#[test]
fn shape_colors_match_their_glyphs() {
    for s in [
        ShapeKind::Eye,
        ShapeKind::El,
        ShapeKind::ElInv,
        ShapeKind::Zee,
        ShapeKind::ZeeInv,
        ShapeKind::Square,
        ShapeKind::Tee,
    ] {
        assert_eq!(shape_color(s), shape_rep(s, Orientation::Up).color_code);
    }
}

fn count_puts_of(ops: &[TermOp], ch: u8) -> usize {
    ops.iter().filter(|op| matches!(op, TermOp::Put(b) if *b == ch)).count()
}

#[test]
fn draw_emits_one_mark_per_filled_cell_and_nothing_else() {
    let rep = shape_rep(ShapeKind::El, Orientation::Up);
    let ops = draw_shape_ops(&rep, Point::new(5, 20), None);
    assert_eq!(count_puts_of(&ops, b'*'), 16);
    let all_puts = ops.iter().filter(|op| matches!(op, TermOp::Put(_))).count();
    assert_eq!(all_puts, 16);
    let fwds = ops.iter().filter(|op| matches!(op, TermOp::Fwd)).count();
    assert_eq!(fwds, 42 - 16);
}

#[test]
fn erase_blanks_exactly_the_drawn_cells() {
    let rep = shape_rep(ShapeKind::El, Orientation::Up);
    let draw = draw_shape_ops(&rep, Point::new(5, 20), None);
    let erase = clear_shape_ops(&rep, Point::new(5, 20));
    assert_eq!(count_puts_of(&erase, b' '), 16);
    // Both traversals start from the same height-adjusted anchor.
    match (&draw[0], &erase[0]) {
        (TermOp::Goto(dr, dc), TermOp::Goto(er, ec)) => {
            assert_eq!((dr, dc), (er, ec));
            // map(5,20) = (col 22, row 10); El Up is 6 rows tall.
            assert_eq!((*dr, *dc), (4, 22));
        },
        other => panic!("unexpected leading ops: {other:?}"),
    }
}

#[test]
fn goto_encodes_cursor_position_sequence() {
    let bytes = encode_ops(&vec![TermOp::Goto(13, 46)]);
    assert_eq!(bytes, b"\x1b[13;46H".to_vec());
}

#[test]
fn fwd_clear_and_color_encodings() {
    assert_eq!(encode_ops(&vec![TermOp::Fwd]), b"\x1b[1C".to_vec());
    assert_eq!(encode_ops(&vec![TermOp::Clear]), b"\x00\x1b[2J".to_vec());
    assert_eq!(encode_ops(&vec![TermOp::Sgr("[1;31m")]), b"\x1b[[1;31m".to_vec());
    assert_eq!(encode_ops(&vec![TermOp::Sgr("1;32m")]), b"\x1b[1;32m".to_vec());
}

#[test]
fn drawn_glyph_bytes_start_with_position_and_color() {
    let rep = shape_rep(ShapeKind::Eye, Orientation::Up);
    let ops = draw_shape_ops(&rep, Point::new(5, 20), None);
    let bytes = encode_ops(&ops);
    // Eye Up is 8 rows tall: row 10 - 8 = 2, col 22; color tag follows.
    assert!(bytes.starts_with(b"\x1b[2;22H\x1b[[1;31m"));
}
