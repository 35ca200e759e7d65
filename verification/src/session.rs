//! Per-session render state and the event-to-render step function.
//!
//! The surrounding connection loop drains engine events each tick and feeds
//! every one to [`RenderState::handle_event`], which returns the terminal
//! operations to write and any notifications owed back to the engine. The
//! state kept here is exactly what diff rendering needs: the last settled
//! board, the latest snapshot, the previously drawn next/held glyphs and
//! their anchors, and the most recently drawn falling shape.

use vstd::prelude::*;
use crate::board::Board;
use crate::glyph::{lemma_glyph_bounds, shape_rep, spec_shape_rep};
use crate::input::Command;
use crate::panel::{
    chrome_ops,
    clr_ops,
    level_ops,
    score_ops,
    spec_chrome_ops,
    spec_clr_ops,
    spec_level_ops,
    spec_score_ops,
    PANEL_COL,
};
use crate::render::{
    clear_fill_ops,
    clear_shape_ops,
    draw_fill_ops,
    draw_shape_ops,
    fits,
    spec_clear_shape_ops,
    spec_draw_shape_ops,
    spec_fill_ops,
};
use crate::shape::{spec_term_row, Orientation, Point, ShapeKind, TerminalPoint};
use crate::term::{encode, encode_ops, TermOp};

verus! {

/// Logical anchor where the held-shape glyph is drawn.
pub open spec fn held_anchor() -> Point {
    Point { x: 11, y: 12 }
}

/// Logical anchor where the next-shape glyph is drawn.
pub open spec fn next_anchor() -> Point {
    Point { x: 11, y: 19 }
}

/// An output event consumed from the game engine.
#[derive(Debug)]
pub enum GameEvent {
    GameStarted,
    GameOver,
    BoardUpdate(Board),
    ShapeLocked(ShapeKind, Board),
    LineCompleted(u32, Board),
    ScoreUpdate(u32),
    NextShape(ShapeKind),
    HeldShape(ShapeKind),
    ShapePosition(ShapeKind, Option<Orientation>, Orientation, Option<Point>, Point),
}

/// A notification owed back to the engine after rendering an event.
#[derive(Clone, Copy, PartialEq, Eq, Structural, Debug)]
pub enum EngineAction {
    SetLevel(u8),
}

/// All per-session state the diff renderer keeps.
#[derive(Debug)]
pub struct RenderState {
    /// Last settled board: the baseline a line-completion diff erases.
    pub old_board: Board,
    /// Latest authoritative snapshot, cached but not directly drawn.
    pub current_board: Board,
    /// The game has started (chrome is on screen).
    pub started: bool,
    /// A terminating event or command has been seen.
    pub done: bool,
    /// Current level, derived from the score.
    pub level: u8,
    /// The shape last drawn in the next-shape panel.
    pub next_shape: ShapeKind,
    /// The shape last drawn in the held-shape panel, if any.
    pub old_held_shape: Option<ShapeKind>,
    /// Terminal position of the next-shape label last written, if any.
    pub next_pos: Option<TerminalPoint>,
    /// Kind of the most recently drawn falling shape.
    pub latest_shape: Option<ShapeKind>,
    /// Orientation it was drawn with.
    pub latest_orientation: Option<Orientation>,
    /// Anchor it was drawn at.
    pub latest_position: Option<Point>,
}

impl RenderState {
    /// Boards held by the state are always well formed.
    pub open spec fn inv(self) -> bool {
        self.old_board.wf() && self.current_board.wf()
    }

    /// What an incoming event must satisfy: boards are well formed, a
    /// falling-shape erase names the orientation it was drawn with, and
    /// every glyph involved fits on the screen at its anchor.
    pub open spec fn event_wf(self, evt: GameEvent) -> bool {
        match evt {
            GameEvent::BoardUpdate(b) => b.wf(),
            GameEvent::ShapeLocked(_, b) => b.wf(),
            GameEvent::LineCompleted(_, b) => b.wf(),
            GameEvent::HeldShape(_) => match (
                self.latest_shape,
                self.latest_orientation,
                self.latest_position,
            ) {
                (Some(ls), Some(lo), Some(lp)) => fits(spec_shape_rep(ls, lo), lp),
                (None, _, _) => true,
                _ => false,
            },
            GameEvent::ShapePosition(sh, fo, o, from, to) => fits(spec_shape_rep(sh, o), to)
                && (match (from, fo) {
                (Some(fp), Some(fov)) => fits(spec_shape_rep(sh, fov), fp),
                (Some(_), None) => false,
                _ => true,
            }),
            _ => true,
        }
    }

    /// Fresh state for a new session: empty boards, nothing drawn yet.
    pub fn new() -> (st: RenderState)
        ensures
            st.inv(),
            forall|x: int, y: int|
                0 <= x < crate::shape::BOARD_WIDTH && 0 <= y < crate::shape::BOARD_HEIGHT
                    ==> #[trigger] st.old_board.cell(x, y) is None,
            forall|x: int, y: int|
                0 <= x < crate::shape::BOARD_WIDTH && 0 <= y < crate::shape::BOARD_HEIGHT
                    ==> #[trigger] st.current_board.cell(x, y) is None,
            !st.started,
            !st.done,
            st.level == 0,
            st.next_shape == ShapeKind::El,
            st.old_held_shape is None,
            st.next_pos is None,
            st.latest_shape is None,
            st.latest_orientation is None,
            st.latest_position is None,
    {
        RenderState {
            old_board: Board::new(),
            current_board: Board::new(),
            started: false,
            done: false,
            level: 0,
            next_shape: ShapeKind::El,
            old_held_shape: None,
            next_pos: None,
            latest_shape: None,
            latest_orientation: None,
            latest_position: None,
        }
    }
}

/// The terminal operations an event renders to, given the state before it.
pub open spec fn spec_event_ops(st: RenderState, evt: GameEvent) -> Seq<TermOp> {
    match evt {
        GameEvent::GameStarted => seq![TermOp::Clear] + spec_chrome_ops() + seq![
            TermOp::Goto(2, PANEL_COL),
        ] + spec_score_ops(0) + spec_level_ops(st.level),
        GameEvent::GameOver => Seq::empty(),
        GameEvent::BoardUpdate(_) => Seq::empty(),
        GameEvent::ShapeLocked(_, _) => Seq::empty(),
        GameEvent::LineCompleted(_, b) => spec_fill_ops(st.old_board, 0, true) + spec_fill_ops(
            b,
            0,
            false,
        ),
        GameEvent::ScoreUpdate(score) => spec_score_ops(score) + (
        if (score / 10) as u8 != st.level {
            spec_level_ops((score / 10) as u8)
        } else {
            Seq::empty()
        }),
        GameEvent::NextShape(sh) => {
            let old_m = spec_shape_rep(st.next_shape, Orientation::Up);
            let new_m = spec_shape_rep(sh, Orientation::Up);
            (match st.next_pos {
                Some(np) => seq![TermOp::Goto(np.row, np.col)] + spec_clr_ops(11),
                None => Seq::empty(),
            }) + spec_clear_shape_ops(old_m, next_anchor()) + spec_draw_shape_ops(
                new_m,
                next_anchor(),
                new_m.color,
            ) + seq![
                TermOp::Goto(((spec_term_row(next_anchor()) - new_m.height() - 2) as usize), PANEL_COL),
                TermOp::Text("Next shape"),
            ]
        },
        GameEvent::HeldShape(sh) => {
            let new_m = spec_shape_rep(sh, Orientation::Up);
            (match st.old_held_shape {
                Some(o) => spec_clear_shape_ops(spec_shape_rep(o, Orientation::Up), held_anchor()),
                None => Seq::empty(),
            }) + spec_draw_shape_ops(new_m, held_anchor(), new_m.color) + seq![
                TermOp::Goto(27, PANEL_COL),
                TermOp::Text("Held Shape"),
            ] + (match (st.latest_shape, st.latest_orientation, st.latest_position) {
                (Some(ls), Some(lo), Some(lp)) => spec_clear_shape_ops(spec_shape_rep(ls, lo), lp),
                _ => Seq::empty(),
            })
        },
        GameEvent::ShapePosition(sh, fo, o, from, to) => (match (from, fo) {
            (Some(fp), Some(fov)) => spec_clear_shape_ops(spec_shape_rep(sh, fov), fp),
            _ => Seq::empty(),
        }) + spec_draw_shape_ops(spec_shape_rep(sh, o), to, spec_shape_rep(sh, o).color),
    }
}

/// The engine notifications an event produces: exactly one `SetLevel` when
/// a score update crosses a level boundary, nothing otherwise.
pub open spec fn spec_event_actions(st: RenderState, evt: GameEvent) -> Seq<EngineAction> {
    match evt {
        GameEvent::ScoreUpdate(score) => if (score / 10) as u8 != st.level {
            seq![EngineAction::SetLevel((score / 10) as u8)]
        } else {
            Seq::empty()
        },
        _ => Seq::empty(),
    }
}

/// How the state after an event relates to the state before it.
pub open spec fn spec_event_state(pre: RenderState, post: RenderState, evt: GameEvent) -> bool {
    let boards_same = post.old_board == pre.old_board && post.current_board == pre.current_board;
    let panels_same = post.next_shape == pre.next_shape && post.old_held_shape
        == pre.old_held_shape && post.next_pos == pre.next_pos;
    let latest_same = post.latest_shape == pre.latest_shape && post.latest_orientation
        == pre.latest_orientation && post.latest_position == pre.latest_position;
    let flags_same = post.started == pre.started && post.done == pre.done && post.level
        == pre.level;
    match evt {
        GameEvent::GameStarted => boards_same && panels_same && latest_same && post.started
            && post.done == pre.done && post.level == pre.level,
        GameEvent::GameOver => boards_same && panels_same && latest_same && post.started
            == pre.started && post.done && post.level == pre.level,
        GameEvent::BoardUpdate(b) => post.current_board == b && post.old_board == pre.old_board
            && panels_same && latest_same && flags_same,
        GameEvent::ShapeLocked(_, b) => post.old_board == b && post.current_board
            == pre.current_board && panels_same && latest_same && flags_same,
        GameEvent::LineCompleted(_, _) => boards_same && panels_same && latest_same && flags_same,
        GameEvent::ScoreUpdate(score) => boards_same && panels_same && latest_same && post.started
            == pre.started && post.done == pre.done && post.level == (score / 10) as u8,
        GameEvent::NextShape(sh) => boards_same && latest_same && flags_same && post.next_shape
            == sh && post.old_held_shape == pre.old_held_shape && post.next_pos == (Some(
            TerminalPoint {
                col: PANEL_COL,
                row: ((spec_term_row(next_anchor()) - spec_shape_rep(sh, Orientation::Up).height()
                    - 2) as usize),
            },
        )),
        GameEvent::HeldShape(sh) => boards_same && latest_same && flags_same && post.next_shape
            == pre.next_shape && post.next_pos == pre.next_pos && post.old_held_shape == Some(sh),
        GameEvent::ShapePosition(sh, _, o, _, to) => boards_same && panels_same && flags_same
            && post.latest_shape == Some(sh) && post.latest_orientation == Some(o)
            && post.latest_position == Some(to),
    }
}

impl RenderState {
    /// Consume one engine event: update the diff-rendering state and return
    /// the terminal operations to write and the engine notifications owed.
    pub fn handle_event(&mut self, evt: GameEvent) -> (r: (Vec<TermOp>, Vec<EngineAction>))
        requires
            old(self).inv(),
            old(self).event_wf(evt),
        ensures
            final(self).inv(),
            spec_event_state(*old(self), *final(self), evt),
            r.0@ == spec_event_ops(*old(self), evt),
            r.1@ == spec_event_actions(*old(self), evt),
    {
        match evt {
            GameEvent::GameStarted => {
                let ops = self.ev_game_started();
                (ops, Vec::new())
            },
            GameEvent::GameOver => {
                self.done = true;
                (Vec::new(), Vec::new())
            },
            GameEvent::BoardUpdate(b) => {
                self.current_board = b;
                (Vec::new(), Vec::new())
            },
            GameEvent::ShapeLocked(_, b) => {
                self.old_board = b;
                (Vec::new(), Vec::new())
            },
            GameEvent::LineCompleted(_, b) => {
                let ops = self.ev_line_completed(b);
                (ops, Vec::new())
            },
            GameEvent::ScoreUpdate(score) => self.ev_score_update(score),
            GameEvent::NextShape(sh) => {
                let ops = self.ev_next_shape(sh);
                (ops, Vec::new())
            },
            GameEvent::HeldShape(sh) => {
                let ops = self.ev_held_shape(sh);
                (ops, Vec::new())
            },
            GameEvent::ShapePosition(sh, fo, o, from, to) => {
                let ops = self.ev_shape_position(sh, fo, o, from, to);
                (ops, Vec::new())
            },
        }
    }

    fn ev_game_started(&mut self) -> (ops: Vec<TermOp>)
        requires
            old(self).inv(),
        ensures
            final(self).inv(),
            spec_event_state(*old(self), *final(self), GameEvent::GameStarted),
            ops@ == spec_event_ops(*old(self), GameEvent::GameStarted),
    {
        let ghost pre = *self;
        let mut ops: Vec<TermOp> = Vec::new();
        self.started = true;
        ops.push(TermOp::Clear);
        let mut chrome = chrome_ops();
        ops.append(&mut chrome);
        ops.push(TermOp::Goto(2, PANEL_COL));
        let mut sc = score_ops(0);
        ops.append(&mut sc);
        let mut lv = level_ops(self.level);
        ops.append(&mut lv);
        assert(ops@ =~= spec_event_ops(pre, GameEvent::GameStarted));
        ops
    }

    fn ev_line_completed(&mut self, b: Board) -> (ops: Vec<TermOp>)
        requires
            old(self).inv(),
            b.wf(),
        ensures
            final(self).inv(),
            *final(self) == *old(self),
            ops@ == spec_fill_ops(old(self).old_board, 0, true) + spec_fill_ops(b, 0, false),
    {
        let ghost pre = *self;
        let mut ops: Vec<TermOp> = Vec::new();
        let mut cf = clear_fill_ops(&self.old_board);
        ops.append(&mut cf);
        let mut df = draw_fill_ops(&b);
        ops.append(&mut df);
        assert(ops@ =~= spec_fill_ops(pre.old_board, 0, true) + spec_fill_ops(b, 0, false));
        ops
    }

    fn ev_score_update(&mut self, score: u32) -> (r: (Vec<TermOp>, Vec<EngineAction>))
        requires
            old(self).inv(),
        ensures
            final(self).inv(),
            spec_event_state(*old(self), *final(self), GameEvent::ScoreUpdate(score)),
            r.0@ == spec_event_ops(*old(self), GameEvent::ScoreUpdate(score)),
            r.1@ == spec_event_actions(*old(self), GameEvent::ScoreUpdate(score)),
    {
        let ghost pre = *self;
        let mut ops: Vec<TermOp> = Vec::new();
        let mut actions: Vec<EngineAction> = Vec::new();
        let mut sc = score_ops(score);
        ops.append(&mut sc);
        let lvl = (score / 10) as u8;
        if lvl != self.level {
            self.level = lvl;
            actions.push(EngineAction::SetLevel(lvl));
            let mut lv = level_ops(lvl);
            ops.append(&mut lv);
        }
        assert(ops@ =~= spec_event_ops(pre, GameEvent::ScoreUpdate(score)));
        assert(actions@ =~= spec_event_actions(pre, GameEvent::ScoreUpdate(score)));
        (ops, actions)
    }

    #[verifier::rlimit(100)]
    fn ev_next_shape(&mut self, sh: ShapeKind) -> (ops: Vec<TermOp>)
        requires
            old(self).inv(),
        ensures
            final(self).inv(),
            spec_event_state(*old(self), *final(self), GameEvent::NextShape(sh)),
            ops@ == spec_event_ops(*old(self), GameEvent::NextShape(sh)),
    {
        let ghost pre = *self;
        proof {
            lemma_glyph_bounds(pre.next_shape, Orientation::Up);
            lemma_glyph_bounds(sh, Orientation::Up);
        }
        let mut ops: Vec<TermOp> = Vec::new();
        let p = Point::new(11, 19);
        match self.next_pos {
            None => {},
            Some(np) => {
                ops.push(TermOp::Goto(np.row, np.col));
                let mut cl = clr_ops(11);
                ops.append(&mut cl);
            },
        }
        let old_rep = shape_rep(self.next_shape, Orientation::Up);
        let new_rep = shape_rep(sh, Orientation::Up);
        let h = new_rep.height();
        let mut cs = clear_shape_ops(&old_rep, p);
        ops.append(&mut cs);
        let mut ds = draw_shape_ops(&new_rep, p, None);
        ops.append(&mut ds);
        let t = crate::shape::map_point(p);
        let label_row = t.row - h - 2;
        ops.push(TermOp::Goto(label_row, PANEL_COL));
        ops.push(TermOp::Text("Next shape"));
        self.next_pos = Some(TerminalPoint { col: PANEL_COL, row: label_row });
        self.next_shape = sh;
        assert(ops@ =~= spec_event_ops(pre, GameEvent::NextShape(sh)));
        ops
    }

    #[verifier::rlimit(100)]
    fn ev_held_shape(&mut self, sh: ShapeKind) -> (ops: Vec<TermOp>)
        requires
            old(self).inv(),
            old(self).event_wf(GameEvent::HeldShape(sh)),
        ensures
            final(self).inv(),
            spec_event_state(*old(self), *final(self), GameEvent::HeldShape(sh)),
            ops@ == spec_event_ops(*old(self), GameEvent::HeldShape(sh)),
    {
        let ghost pre = *self;
        proof {
            lemma_glyph_bounds(sh, Orientation::Up);
        }
        let mut ops: Vec<TermOp> = Vec::new();
        let p = Point::new(11, 12);
        match self.old_held_shape {
            Some(o) => {
                proof {
                    lemma_glyph_bounds(o, Orientation::Up);
                }
                let orep = shape_rep(o, Orientation::Up);
                let mut cs = clear_shape_ops(&orep, p);
                ops.append(&mut cs);
            },
            None => {},
        }
        let new_rep = shape_rep(sh, Orientation::Up);
        let mut ds = draw_shape_ops(&new_rep, p, None);
        ops.append(&mut ds);
        ops.push(TermOp::Goto(27, PANEL_COL));
        ops.push(TermOp::Text("Held Shape"));
        self.old_held_shape = Some(sh);
        match self.latest_shape {
            Some(ls) => {
                let lo = match self.latest_orientation {
                    Some(lo) => lo,
                    None => Orientation::Up,
                };
                let lp = match self.latest_position {
                    Some(lp) => lp,
                    None => Point::new(0, 0),
                };
                let lrep = shape_rep(ls, lo);
                let mut cs = clear_shape_ops(&lrep, lp);
                ops.append(&mut cs);
            },
            None => {},
        }
        assert(ops@ =~= spec_event_ops(pre, GameEvent::HeldShape(sh)));
        ops
    }

    fn ev_shape_position(
        &mut self,
        sh: ShapeKind,
        fo: Option<Orientation>,
        o: Orientation,
        from: Option<Point>,
        to: Point,
    ) -> (ops: Vec<TermOp>)
        requires
            old(self).inv(),
            old(self).event_wf(GameEvent::ShapePosition(sh, fo, o, from, to)),
        ensures
            final(self).inv(),
            spec_event_state(
                *old(self),
                *final(self),
                GameEvent::ShapePosition(sh, fo, o, from, to),
            ),
            ops@ == spec_event_ops(*old(self), GameEvent::ShapePosition(sh, fo, o, from, to)),
    {
        let ghost pre = *self;
        let mut ops: Vec<TermOp> = Vec::new();
        let rep = shape_rep(sh, o);
        match from {
            Some(fp) => {
                let fov = match fo {
                    Some(fov) => fov,
                    None => Orientation::Up,
                };
                let frep = shape_rep(sh, fov);
                let mut cs = clear_shape_ops(&frep, fp);
                ops.append(&mut cs);
            },
            None => {},
        }
        let mut ds = draw_shape_ops(&rep, to, None);
        ops.append(&mut ds);
        self.latest_shape = Some(sh);
        self.latest_orientation = Some(o);
        self.latest_position = Some(to);
        assert(ops@ =~= spec_event_ops(pre, GameEvent::ShapePosition(sh, fo, o, from, to)));
        ops
    }

    /// Consume one engine event and return the encoded ANSI byte stream to
    /// write, along with the engine notifications owed.
    pub fn render_event(&mut self, evt: GameEvent) -> (r: (Vec<u8>, Vec<EngineAction>))
        requires
            old(self).inv(),
            old(self).event_wf(evt),
        ensures
            final(self).inv(),
            spec_event_state(*old(self), *final(self), evt),
            r.0@ == encode(spec_event_ops(*old(self), evt)),
            r.1@ == spec_event_actions(*old(self), evt),
    {
        let (ops, actions) = self.handle_event(evt);
        let bytes = encode_ops(&ops);
        (bytes, actions)
    }

    /// Note a command resolved from the input stream: `EndGame` marks the
    /// session terminated, every other command leaves the state unchanged.
    pub fn apply_command(&mut self, c: Command)
        ensures
            final(self).done == (old(self).done || c == Command::EndGame),
            final(self).old_board == old(self).old_board,
            final(self).current_board == old(self).current_board,
            final(self).started == old(self).started,
            final(self).level == old(self).level,
            final(self).next_shape == old(self).next_shape,
            final(self).old_held_shape == old(self).old_held_shape,
            final(self).next_pos == old(self).next_pos,
            final(self).latest_shape == old(self).latest_shape,
            final(self).latest_orientation == old(self).latest_orientation,
            final(self).latest_position == old(self).latest_position,
    {
        match c {
            Command::EndGame => {
                self.done = true;
            },
            _ => {},
        }
    }
}

/// Level derivation: a score update always leaves the level at the score
/// divided by ten (truncated into the level's byte range, as the engine's
/// level notification carries a byte; scores below 2560 are unaffected by
/// the truncation), and it notifies the engine exactly once — with that
/// level — when and only when the level changed.
pub proof fn lemma_level_derivation(st: RenderState, post: RenderState, score: u32)
    requires
        spec_event_state(st, post, GameEvent::ScoreUpdate(score)),
    ensures
        post.level == (score / 10) as u8,
        score < 2560 ==> post.level == score / 10,
        post.level != st.level ==> spec_event_actions(st, GameEvent::ScoreUpdate(score))
            =~= seq![EngineAction::SetLevel(post.level)],
        post.level == st.level ==> spec_event_actions(st, GameEvent::ScoreUpdate(score))
            =~= Seq::<EngineAction>::empty(),
        spec_event_ops(st, GameEvent::ScoreUpdate(score)) == spec_score_ops(score) + (
        if post.level != st.level {
            spec_level_ops(post.level)
        } else {
            Seq::<TermOp>::empty()
        }),
{
    assert(score < 2560 ==> (score / 10) as u8 == score / 10) by (bit_vector);
}

} // verus!
