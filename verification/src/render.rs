//! The diff renderer for glyphs and board fills.
//!
//! Drawing a glyph walks its bitmap row-major from the mapped,
//! height-adjusted anchor: a filled cell emits the mark character, a blank
//! cell emits a cursor-forward so untouched terminal cells are never
//! overwritten. Erasing makes the identical traversal but writes a blank
//! over each filled cell. This file also proves the two central rendering
//! facts: drawing touches exactly the bitmap's filled cells (diff
//! minimality), and draw-then-erase restores an initially blank region.

use vstd::prelude::*;
use crate::board::Board;
use crate::glyph::{
    lemma_glyph_bounds,
    shape_rep,
    single_rep,
    spec_shape_color,
    spec_shape_rep,
    spec_single_rep,
    GlyphModel,
    ShapeRep,
};
use crate::shape::{
    maps_in_range,
    spec_term_col,
    spec_term_row,
    Orientation,
    Point,
    ShapeKind,
    BOARD_HEIGHT,
    BOARD_WIDTH,
};
use crate::term::{
    apply_op,
    apply_ops,
    lemma_apply_ops_concat,
    lemma_apply_ops_singleton,
    Term,
    TermOp,
    BLANK,
    MARK,
};

verus! {

use vstd::arithmetic::div_mod::{
    lemma_fundamental_div_mod,
    lemma_fundamental_div_mod_converse,
    lemma_div_is_ordered,
};

/// A glyph fits at an anchor when the anchor maps onto the terminal and the
/// glyph's height does not reach above the top of the screen.
pub open spec fn fits(m: GlyphModel, p: Point) -> bool {
    maps_in_range(p) && m.height() <= spec_term_row(p)
}

/// Terminal cell written for bitmap index `j` of a glyph whose first row
/// starts at `(row0, col0)`.
pub open spec fn glyph_cell(row0: int, col0: int, w: int, j: int) -> (int, int) {
    (row0 + j / w, col0 + j % w)
}

/// The traversal ops for bitmap indices `i` onward: mark cells emit
/// `Put(ch)`, blank cells emit `Fwd`, and each completed row repositions the
/// cursor to the start of the next row.
pub open spec fn spec_cells_ops(
    cells: Seq<u8>,
    w: int,
    row0: int,
    col0: usize,
    i: int,
    ch: u8,
) -> Seq<TermOp>
    decreases cells.len() - i,
{
    if i < 0 || i >= cells.len() {
        Seq::empty()
    } else {
        (if cells[i] == MARK {
            seq![TermOp::Put(ch)]
        } else {
            seq![TermOp::Fwd]
        }) + (if (i + 1) % w == 0 {
            seq![TermOp::Goto(((row0 + (i + 1) / w) as usize), col0)]
        } else {
            Seq::empty()
        }) + spec_cells_ops(cells, w, row0, col0, i + 1, ch)
    }
}

/// All the ops that draw a glyph at anchor `p` with color tag `sgr`:
/// position at the height-adjusted anchor, emit the color, walk the bitmap.
pub open spec fn spec_draw_shape_ops(m: GlyphModel, p: Point, sgr: &'static str) -> Seq<TermOp> {
    let row0 = spec_term_row(p) - m.height();
    let col0 = spec_term_col(p) as usize;
    seq![TermOp::Goto(row0 as usize, col0), TermOp::Sgr(sgr)] + spec_cells_ops(
        m.bytes,
        m.width,
        row0,
        col0,
        0,
        MARK,
    )
}

/// All the ops that erase a glyph previously drawn at anchor `p`: the same
/// traversal, writing a blank over each mark cell, with no color tag.
pub open spec fn spec_clear_shape_ops(m: GlyphModel, p: Point) -> Seq<TermOp> {
    let row0 = spec_term_row(p) - m.height();
    let col0 = spec_term_col(p) as usize;
    seq![TermOp::Goto(row0 as usize, col0)] + spec_cells_ops(m.bytes, m.width, row0, col0, 0, BLANK)
}

/// How the bitmap index splits across a row boundary.
proof fn lemma_next_index(i: int, w: int)
    requires
        0 < w,
        0 <= i,
    ensures
        i % w + 1 == w ==> (i + 1) % w == 0 && (i + 1) / w == i / w + 1,
        i % w + 1 < w ==> (i + 1) % w == i % w + 1 && (i + 1) / w == i / w,
{
    lemma_fundamental_div_mod(i, w);
    if i % w + 1 == w {
        assert(i + 1 == (i / w + 1) * w + 0) by (nonlinear_arith)
            requires
                i == w * (i / w) + i % w && i % w + 1 == w,
        ;
        lemma_fundamental_div_mod_converse(i + 1, w, i / w + 1, 0);
    } else {
        assert(i + 1 == (i / w) * w + (i % w + 1)) by (nonlinear_arith)
            requires
                i == w * (i / w) + i % w,
        ;
        lemma_fundamental_div_mod_converse(i + 1, w, i / w, i % w + 1);
    }
}

/// Append the bitmap traversal ops for the whole of `bytes`, with rows of
/// `width` starting at `(row0, col0)`, writing `ch` for each mark cell.
fn push_cells_ops(
    ops: &mut Vec<TermOp>,
    bytes: &Vec<u8>,
    width: usize,
    row0: usize,
    col0: usize,
    ch: u8,
)
    requires
        0 < width,
        row0 + bytes@.len() as int / width as int <= usize::MAX,
    ensures
        final(ops)@ == old(ops)@ + spec_cells_ops(
            bytes@,
            width as int,
            row0 as int,
            col0,
            0,
            ch,
        ),
{
    let ghost total = old(ops)@ + spec_cells_ops(bytes@, width as int, row0 as int, col0, 0, ch);
    let mut idx: usize = 0;
    let mut i: usize = 0;
    let mut row: usize = row0;
    while idx < bytes.len()
        invariant
            0 < width,
            row0 + bytes@.len() as int / width as int <= usize::MAX,
            idx <= bytes@.len(),
            i == idx as int % width as int,
            row == row0 + idx as int / width as int,
            ops@ + spec_cells_ops(bytes@, width as int, row0 as int, col0, idx as int, ch)
                == total,
        decreases bytes@.len() - idx,
    {
        let ghost w = width as int;
        let ghost before = ops@;
        let ghost suffix = spec_cells_ops(bytes@, w, row0 as int, col0, idx as int, ch);
        let b = bytes[idx];
        if b == MARK {
            ops.push(TermOp::Put(ch));
        } else {
            ops.push(TermOp::Fwd);
        }
        proof {
            lemma_next_index(idx as int, w);
            lemma_div_is_ordered(idx + 1, bytes@.len() as int, w);
        }
        i = i + 1;
        if i == width {
            i = 0;
            row = row + 1;
            ops.push(TermOp::Goto(row, col0));
        }
        proof {
            let head = (if bytes@[idx as int] == MARK {
                seq![TermOp::Put(ch)]
            } else {
                seq![TermOp::Fwd]
            }) + (if (idx as int + 1) % w == 0 {
                seq![TermOp::Goto(((row0 + (idx as int + 1) / w) as usize), col0)]
            } else {
                Seq::<TermOp>::empty()
            });
            assert(suffix == head + spec_cells_ops(bytes@, w, row0 as int, col0, idx as int + 1, ch));
            assert(ops@ =~= before + head);
            assert(ops@ + spec_cells_ops(bytes@, w, row0 as int, col0, idx as int + 1, ch) =~= before
                + suffix);
        }
        idx = idx + 1;
    }
    assert(spec_cells_ops(bytes@, width as int, row0 as int, col0, idx as int, ch)
        =~= Seq::<TermOp>::empty());
    assert(ops@ =~= total);
}

/// The grid after writing `ch` over every mark cell of the bitmap from
/// index `i` onward; blank bitmap cells leave the grid untouched.
pub open spec fn grid_after(
    g: Map<(int, int), u8>,
    cells: Seq<u8>,
    w: int,
    row0: int,
    col0: int,
    i: int,
    ch: u8,
) -> Map<(int, int), u8>
    decreases cells.len() - i,
{
    if i < 0 || i >= cells.len() {
        g
    } else {
        grid_after(
            if cells[i] == MARK {
                g.insert(glyph_cell(row0, col0, w, i), ch)
            } else {
                g
            },
            cells,
            w,
            row0,
            col0,
            i + 1,
            ch,
        )
    }
}

/// Terminal cell `q` is written by some mark cell of the bitmap at or after
/// index `i`.
pub open spec fn touched(
    cells: Seq<u8>,
    w: int,
    row0: int,
    col0: int,
    i: int,
    q: (int, int),
) -> bool {
    exists|j: int|
        i <= j < cells.len() && cells[j] == MARK && q == glyph_cell(row0, col0, w, j)
}

/// What the bitmap traversal does to the whole terminal: the cursor ends
/// just past the last bitmap row, and the grid gains `ch` at exactly the
/// mark cells.
proof fn lemma_cells_ops_sem(
    t: Term,
    cells: Seq<u8>,
    w: int,
    row0: int,
    col0: usize,
    i: int,
    ch: u8,
)
    requires
        0 < w,
        0 <= i <= cells.len(),
        0 <= row0,
        row0 + cells.len() as int / w <= usize::MAX,
        t.row == row0 + i / w,
        t.col == col0 + i % w,
    ensures
        apply_ops(t, spec_cells_ops(cells, w, row0, col0, i, ch)) == (Term {
            row: row0 + cells.len() as int / w,
            col: col0 + cells.len() as int % w,
            grid: grid_after(t.grid, cells, w, row0, col0 as int, i, ch),
        }),
    decreases cells.len() - i,
{
    if i == cells.len() {
        assert(spec_cells_ops(cells, w, row0, col0, i, ch) =~= Seq::<TermOp>::empty());
        assert(grid_after(t.grid, cells, w, row0, col0 as int, i, ch) == t.grid);
        assert(apply_ops(t, Seq::empty()) == t);
    } else {
        lemma_next_index(i, w);
        lemma_div_is_ordered(i + 1, cells.len() as int, w);
        let a = if cells[i] == MARK {
            seq![TermOp::Put(ch)]
        } else {
            seq![TermOp::Fwd]
        };
        let b = if (i + 1) % w == 0 {
            seq![TermOp::Goto(((row0 + (i + 1) / w) as usize), col0)]
        } else {
            Seq::<TermOp>::empty()
        };
        let rest = spec_cells_ops(cells, w, row0, col0, i + 1, ch);
        assert(spec_cells_ops(cells, w, row0, col0, i, ch) == a + b + rest);
        lemma_apply_ops_concat(t, a + b, rest);
        lemma_apply_ops_concat(t, a, b);
        assert(apply_ops(t, a + b) == apply_ops(apply_ops(t, a), b));
        lemma_apply_ops_singleton(t, a[0]);
        assert(a =~= seq![a[0]]);
        let t1 = apply_op(t, a[0]);
        let t2 = if (i + 1) % w == 0 {
            apply_op(t1, b[0])
        } else {
            t1
        };
        if (i + 1) % w == 0 {
            lemma_apply_ops_singleton(t1, b[0]);
            assert(b =~= seq![b[0]]);
            assert(((row0 + (i + 1) / w) as usize) as int == row0 + (i + 1) / w);
        }
        assert(apply_ops(t, a + b) == t2);
        assert(t2.row == row0 + (i + 1) / w);
        assert(t2.col == col0 + (i + 1) % w);
        assert(t2.grid == (if cells[i] == MARK {
            t.grid.insert(glyph_cell(row0, col0 as int, w, i), ch)
        } else {
            t.grid
        }));
        lemma_cells_ops_sem(t2, cells, w, row0, col0, i + 1, ch);
        assert(grid_after(t.grid, cells, w, row0, col0 as int, i, ch) == grid_after(
            t2.grid,
            cells,
            w,
            row0,
            col0 as int,
            i + 1,
            ch,
        ));
    }
}

/// Pointwise description of `grid_after`: a touched cell holds `ch`, every
/// other cell is exactly as before.
proof fn lemma_grid_after_lookup(
    g: Map<(int, int), u8>,
    cells: Seq<u8>,
    w: int,
    row0: int,
    col0: int,
    i: int,
    ch: u8,
    q: (int, int),
)
    requires
        0 < w,
        0 <= i <= cells.len(),
    ensures
        grid_after(g, cells, w, row0, col0, i, ch).dom().contains(q) == (g.dom().contains(q)
            || touched(cells, w, row0, col0, i, q)),
        touched(cells, w, row0, col0, i, q) ==> grid_after(g, cells, w, row0, col0, i, ch)[q]
            == ch,
        !touched(cells, w, row0, col0, i, q) && g.dom().contains(q) ==> grid_after(
            g,
            cells,
            w,
            row0,
            col0,
            i,
            ch,
        )[q] == g[q],
    decreases cells.len() - i,
{
    if i == cells.len() {
        assert(!touched(cells, w, row0, col0, i, q));
    } else {
        let g1 = if cells[i] == MARK {
            g.insert(glyph_cell(row0, col0, w, i), ch)
        } else {
            g
        };
        lemma_grid_after_lookup(g1, cells, w, row0, col0, i + 1, ch, q);
        assert(grid_after(g, cells, w, row0, col0, i, ch) == grid_after(
            g1,
            cells,
            w,
            row0,
            col0,
            i + 1,
            ch,
        ));
        if touched(cells, w, row0, col0, i + 1, q) {
            let j = choose|j: int|
                i + 1 <= j < cells.len() && cells[j] == MARK && q == glyph_cell(row0, col0, w, j);
            assert(i <= j < cells.len() && cells[j] == MARK && q == glyph_cell(row0, col0, w, j));
            assert(touched(cells, w, row0, col0, i, q));
        } else if cells[i] == MARK && q == glyph_cell(row0, col0, w, i) {
            assert(touched(cells, w, row0, col0, i, q));
            assert(g1.dom().contains(q));
            assert(g1[q] == ch);
        } else {
            if touched(cells, w, row0, col0, i, q) {
                let j = choose|j: int|
                    i <= j < cells.len() && cells[j] == MARK && q == glyph_cell(row0, col0, w, j);
                if j == i {
                    assert(false);
                } else {
                    assert(i + 1 <= j < cells.len() && cells[j] == MARK && q == glyph_cell(
                        row0,
                        col0,
                        w,
                        j,
                    ));
                    assert(touched(cells, w, row0, col0, i + 1, q));
                }
            }
            assert(touched(cells, w, row0, col0, i, q) == touched(cells, w, row0, col0, i + 1, q));
        }
    }
}

/// Terminal cell written by mark cell `j` of the glyph drawn at anchor `p`.
pub open spec fn glyph_screen_cell(m: GlyphModel, p: Point, j: int) -> (int, int) {
    glyph_cell(spec_term_row(p) - m.height(), spec_term_col(p), m.width, j)
}

/// Draw/erase round-trip: erasing a glyph straight after drawing it, on a
/// region whose mark cells were all blank, restores the terminal grid
/// exactly; neighboring content is never disturbed.
pub proof fn lemma_draw_erase_round_trip(t: Term, m: GlyphModel, p: Point, sgr: &'static str)
    requires
        m.wf(),
        fits(m, p),
        forall|j: int|
            0 <= j < m.bytes.len() && m.bytes[j] == MARK ==> t.grid.dom().contains(
                #[trigger] glyph_screen_cell(m, p, j),
            ) && t.grid[glyph_screen_cell(m, p, j)] == BLANK,
    ensures
        apply_ops(apply_ops(t, spec_draw_shape_ops(m, p, sgr)), spec_clear_shape_ops(m, p)).grid
            == t.grid,
{
    let w = m.width;
    let cells = m.bytes;
    let row0 = spec_term_row(p) - m.height();
    let col0 = spec_term_col(p) as usize;
    assert(col0 as int == spec_term_col(p));
    assert(0 <= row0);
    assert(row0 + cells.len() as int / w == spec_term_row(p));
    assert(0int / w == 0 && 0int % w == 0) by (nonlinear_arith)
        requires
            0 < w,
    ;

    let pre = seq![TermOp::Goto(row0 as usize, col0), TermOp::Sgr(sgr)];
    let dcells = spec_cells_ops(cells, w, row0, col0, 0, MARK);
    assert(spec_draw_shape_ops(m, p, sgr) == pre + dcells);
    lemma_apply_ops_concat(t, pre, dcells);
    assert(pre =~= seq![pre[0]] + seq![pre[1]]);
    lemma_apply_ops_concat(t, seq![pre[0]], seq![pre[1]]);
    lemma_apply_ops_singleton(t, pre[0]);
    let ta = apply_op(t, pre[0]);
    lemma_apply_ops_singleton(ta, pre[1]);
    let t1 = apply_op(ta, pre[1]);
    assert((row0 as usize) as int == row0);
    assert(t1.row == row0 && t1.col == col0 as int && t1.grid == t.grid);
    lemma_cells_ops_sem(t1, cells, w, row0, col0, 0, MARK);
    let t2 = apply_ops(t, spec_draw_shape_ops(m, p, sgr));
    let g1 = grid_after(t.grid, cells, w, row0, col0 as int, 0, MARK);
    assert(t2.grid == g1);

    let pre2 = seq![TermOp::Goto(row0 as usize, col0)];
    let ecells = spec_cells_ops(cells, w, row0, col0, 0, BLANK);
    assert(spec_clear_shape_ops(m, p) == pre2 + ecells);
    lemma_apply_ops_concat(t2, pre2, ecells);
    lemma_apply_ops_singleton(t2, pre2[0]);
    let t3 = apply_op(t2, pre2[0]);
    assert(t3.row == row0 && t3.col == col0 as int && t3.grid == g1);
    lemma_cells_ops_sem(t3, cells, w, row0, col0, 0, BLANK);
    let g2 = grid_after(g1, cells, w, row0, col0 as int, 0, BLANK);
    assert(apply_ops(apply_ops(t, spec_draw_shape_ops(m, p, sgr)), spec_clear_shape_ops(m, p)).grid
        == g2);

    assert forall|q: (int, int)| #[trigger] t.grid.dom().contains(q) implies g2.dom().contains(q)
        && g2[q] == t.grid[q] by {
        lemma_grid_after_lookup(t.grid, cells, w, row0, col0 as int, 0, MARK, q);
        lemma_grid_after_lookup(g1, cells, w, row0, col0 as int, 0, BLANK, q);
        if touched(cells, w, row0, col0 as int, 0, q) {
            let j = choose|j: int|
                0 <= j < cells.len() && cells[j] == MARK && q == glyph_cell(row0, col0 as int, w, j);
            assert(glyph_screen_cell(m, p, j) == q);
            assert(t.grid.dom().contains(q) && t.grid[q] == BLANK);
            assert(g2[q] == BLANK);
        }
    }
    assert forall|q: (int, int)| #[trigger] g2.dom().contains(q) implies t.grid.dom().contains(
        q,
    ) by {
        lemma_grid_after_lookup(t.grid, cells, w, row0, col0 as int, 0, MARK, q);
        lemma_grid_after_lookup(g1, cells, w, row0, col0 as int, 0, BLANK, q);
        if touched(cells, w, row0, col0 as int, 0, q) {
            let j = choose|j: int|
                0 <= j < cells.len() && cells[j] == MARK && q == glyph_cell(row0, col0 as int, w, j);
            assert(glyph_screen_cell(m, p, j) == q);
            assert(t.grid.dom().contains(q));
        }
    }
    assert(g2 =~= t.grid);
}

/// Number of `Put` operations in an op sequence.
pub open spec fn count_puts(ops: Seq<TermOp>) -> int
    decreases ops.len(),
{
    if ops.len() == 0 {
        0
    } else {
        (if ops[0] is Put {
            1int
        } else {
            0int
        }) + count_puts(ops.drop_first())
    }
}

/// Number of mark cells of a bitmap from index `i` onward.
pub open spec fn count_marks(cells: Seq<u8>, i: int) -> int
    decreases cells.len() - i,
{
    if i < 0 || i >= cells.len() {
        0
    } else {
        (if cells[i] == MARK {
            1int
        } else {
            0int
        }) + count_marks(cells, i + 1)
    }
}

proof fn lemma_count_puts_concat(a: Seq<TermOp>, b: Seq<TermOp>)
    ensures
        count_puts(a + b) == count_puts(a) + count_puts(b),
    decreases a.len(),
{
    if a.len() == 0 {
        assert(a + b =~= b);
    } else {
        assert((a + b).drop_first() =~= a.drop_first() + b);
        lemma_count_puts_concat(a.drop_first(), b);
        assert(count_puts(a + b) == count_puts(a) + count_puts(b));
    }
}

proof fn lemma_cells_ops_puts(cells: Seq<u8>, w: int, row0: int, col0: usize, i: int, ch: u8)
    requires
        0 < w,
        0 <= i <= cells.len(),
    ensures
        count_puts(spec_cells_ops(cells, w, row0, col0, i, ch)) == count_marks(cells, i),
        forall|k: int|
            0 <= k < spec_cells_ops(cells, w, row0, col0, i, ch).len() ==> (
            #[trigger] spec_cells_ops(cells, w, row0, col0, i, ch)[k] matches TermOp::Put(b)
                ==> b == ch),
    decreases cells.len() - i,
{
    if i == cells.len() {
    } else {
        let a = if cells[i] == MARK {
            seq![TermOp::Put(ch)]
        } else {
            seq![TermOp::Fwd]
        };
        let b = if (i + 1) % w == 0 {
            seq![TermOp::Goto(((row0 + (i + 1) / w) as usize), col0)]
        } else {
            Seq::<TermOp>::empty()
        };
        let rest = spec_cells_ops(cells, w, row0, col0, i + 1, ch);
        assert(spec_cells_ops(cells, w, row0, col0, i, ch) == a + b + rest);
        lemma_cells_ops_puts(cells, w, row0, col0, i + 1, ch);
        lemma_count_puts_concat(a + b, rest);
        lemma_count_puts_concat(a, b);
        reveal_with_fuel(count_puts, 3);
        assert(count_puts(a) == (if cells[i] == MARK {
            1int
        } else {
            0int
        }));
        assert(count_puts(b) == 0);
        assert forall|k: int|
            0 <= k < (a + b + rest).len() implies (#[trigger] (a + b + rest)[k]
                matches TermOp::Put(bb) ==> bb == ch) by {
            if k >= (a + b).len() {
                assert((a + b + rest)[k] == rest[k - (a + b).len()]);
            } else if k >= a.len() {
                assert((a + b + rest)[k] == b[k - a.len()]);
            } else {
                assert((a + b + rest)[k] == a[k]);
            }
        }
    }
}

/// Diff minimality: drawing a glyph emits exactly one character per mark
/// cell of the bitmap — the mark character — and writes nothing at all for
/// the bitmap's blank cells.
pub proof fn lemma_draw_diff_minimal(m: GlyphModel, p: Point, sgr: &'static str)
    requires
        m.wf(),
        fits(m, p),
    ensures
        count_puts(spec_draw_shape_ops(m, p, sgr)) == count_marks(m.bytes, 0),
        forall|k: int|
            0 <= k < spec_draw_shape_ops(m, p, sgr).len() ==> (#[trigger] spec_draw_shape_ops(
                m,
                p,
                sgr,
            )[k] matches TermOp::Put(b) ==> b == MARK),
{
    let row0 = spec_term_row(p) - m.height();
    let col0 = spec_term_col(p) as usize;
    let pre = seq![TermOp::Goto(row0 as usize, col0), TermOp::Sgr(sgr)];
    let dcells = spec_cells_ops(m.bytes, m.width, row0, col0, 0, MARK);
    assert(spec_draw_shape_ops(m, p, sgr) == pre + dcells);
    lemma_cells_ops_puts(m.bytes, m.width, row0, col0, 0, MARK);
    lemma_count_puts_concat(pre, dcells);
    reveal_with_fuel(count_puts, 3);
    assert(count_puts(pre) == 0);
    assert forall|k: int|
        0 <= k < (pre + dcells).len() implies (#[trigger] (pre + dcells)[k] matches TermOp::Put(b)
            ==> b == MARK) by {
        if k >= pre.len() {
            assert((pre + dcells)[k] == dcells[k - pre.len()]);
        } else {
            assert((pre + dcells)[k] == pre[k]);
        }
    }
}

/// Runtime test of the fit condition that the drawing contracts require of
/// a shape at an anchor, for callers outside verified code to check before
/// handing an anchor in.
pub fn fits_check(s: ShapeKind, o: Orientation, p: Point) -> (r: bool)
    ensures
        r == fits(spec_shape_rep(s, o), p),
{
    proof {
        lemma_glyph_bounds(s, o);
    }
    if p.y > BOARD_HEIGHT - 1 {
        return false;
    }
    if p.x > (usize::MAX - 2) / 4 {
        proof {
            assert(!(2 + 4 * p.x <= usize::MAX)) by (nonlinear_arith)
                requires
                    p.x > (usize::MAX - 2) / 4,
            ;
        }
        return false;
    }
    proof {
        assert(2 + 4 * p.x <= usize::MAX) by (nonlinear_arith)
            requires
                p.x <= (usize::MAX - 2) / 4,
        ;
    }
    let rep = shape_rep(s, o);
    let h = rep.height();
    h <= 2 + 2 * (BOARD_HEIGHT - 1 - p.y)
}

/// Emit the ops that draw glyph `rep` at anchor `p`. A color override takes
/// precedence over the glyph's own color tag.
pub fn draw_shape_ops(rep: &ShapeRep, p: Point, color: Option<&'static str>) -> (ops: Vec<TermOp>)
    requires
        rep@.wf(),
        fits(rep@, p),
    ensures
        ops@ == spec_draw_shape_ops(
            rep@,
            p,
            (match color {
                Some(c) => c,
                None => rep.color_code,
            }),
        ),
{
    let t = crate::shape::map_point(p);
    let height = rep.height();
    let row0 = t.row - height;
    let cc = match color {
        Some(code) => code,
        None => rep.color_code,
    };
    let mut ops: Vec<TermOp> = Vec::new();
    ops.push(TermOp::Goto(row0, t.col));
    ops.push(TermOp::Sgr(cc));
    assert(ops@ =~= seq![TermOp::Goto(row0, t.col), TermOp::Sgr(cc)]);
    push_cells_ops(&mut ops, &rep.bytes, rep.width, row0, t.col, MARK);
    ops
}

/// Ops that fill or clear every occupied cell of a board snapshot, walking
/// cells bottom row first, left to right; `k` is the linear cell index
/// `y * BOARD_WIDTH + x`. Filling draws the single-cell bitmap in the
/// occupant's color; clearing erases the same bitmap.
pub open spec fn spec_fill_ops(b: Board, k: int, erase: bool) -> Seq<TermOp>
    decreases (BOARD_HEIGHT * BOARD_WIDTH) as int - k,
{
    if k < 0 || k >= (BOARD_HEIGHT * BOARD_WIDTH) as int {
        Seq::empty()
    } else {
        let y = k / (BOARD_WIDTH as int);
        let x = k % (BOARD_WIDTH as int);
        (match b.cell(x, y) {
            Some(sk) => if erase {
                spec_clear_shape_ops(spec_single_rep(), Point { x: x as usize, y: y as usize })
            } else {
                spec_draw_shape_ops(
                    spec_single_rep(),
                    Point { x: x as usize, y: y as usize },
                    spec_shape_color(sk),
                )
            },
            None => Seq::empty(),
        }) + spec_fill_ops(b, k + 1, erase)
    }
}

/// Walk every board cell and emit the fill or clear ops for each occupied
/// one.
fn fill_ops(b: &Board, erase: bool) -> (ops: Vec<TermOp>)
    requires
        b.wf(),
    ensures
        ops@ == spec_fill_ops(*b, 0, erase),
{
    let single = single_rep();
    proof {
        lemma_glyph_bounds(crate::shape::ShapeKind::Eye, crate::shape::Orientation::Up);
    }
    let ghost total = spec_fill_ops(*b, 0, erase);
    let mut ops: Vec<TermOp> = Vec::new();
    let mut y: usize = 0;
    while y < BOARD_HEIGHT
        invariant
            b.wf(),
            y <= BOARD_HEIGHT,
            single@ == spec_single_rep(),
            spec_single_rep().wf(),
            spec_single_rep().height() == 2,
            ops@ + spec_fill_ops(*b, (y * BOARD_WIDTH) as int, erase) == total,
        decreases BOARD_HEIGHT - y,
    {
        let mut x: usize = 0;
        while x < BOARD_WIDTH
            invariant
                b.wf(),
                y < BOARD_HEIGHT,
                x <= BOARD_WIDTH,
                single@ == spec_single_rep(),
                spec_single_rep().wf(),
                spec_single_rep().height() == 2,
                ops@ + spec_fill_ops(*b, (y * BOARD_WIDTH + x) as int, erase) == total,
            decreases BOARD_WIDTH - x,
        {
            let ghost k = (y * BOARD_WIDTH + x) as int;
            proof {
                lemma_fundamental_div_mod_converse(k, BOARD_WIDTH as int, y as int, x as int);
                assert(k / (BOARD_WIDTH as int) == y as int && k % (BOARD_WIDTH as int)
                    == x as int);
            }
            let ghost before = ops@;
            let ghost head = (match b.cell(x as int, y as int) {
                Some(sk) => if erase {
                    spec_clear_shape_ops(
                        spec_single_rep(),
                        Point { x: x as usize, y: y as usize },
                    )
                } else {
                    spec_draw_shape_ops(
                        spec_single_rep(),
                        Point { x: x as usize, y: y as usize },
                        spec_shape_color(sk),
                    )
                },
                None => Seq::<TermOp>::empty(),
            });
            assert(spec_fill_ops(*b, k, erase) == head + spec_fill_ops(*b, k + 1, erase));
            match b.get(x, y) {
                Some(sk) => {
                    let p = Point::new(x, y);
                    assert(fits(spec_single_rep(), p));
                    let mut d = if erase {
                        clear_shape_ops(&single, p)
                    } else {
                        draw_shape_ops(&single, p, Some(crate::glyph::shape_color(sk)))
                    };
                    ops.append(&mut d);
                },
                None => {},
            }
            assert(ops@ =~= before + head);
            assert(ops@ + spec_fill_ops(*b, k + 1, erase) =~= before + spec_fill_ops(*b, k, erase));
            x = x + 1;
        }
        y = y + 1;
    }
    assert(spec_fill_ops(*b, (y * BOARD_WIDTH) as int, erase) =~= Seq::<TermOp>::empty());
    assert(ops@ =~= total);
    ops
}

/// Draw every occupied cell of a board snapshot, each in its occupant
/// shape's color. Used for bulk redraws after a line collapse.
pub fn draw_fill_ops(b: &Board) -> (ops: Vec<TermOp>)
    requires
        b.wf(),
    ensures
        ops@ == spec_fill_ops(*b, 0, false),
{
    fill_ops(b, false)
}

/// Erase every occupied cell of a board snapshot.
pub fn clear_fill_ops(b: &Board) -> (ops: Vec<TermOp>)
    requires
        b.wf(),
    ensures
        ops@ == spec_fill_ops(*b, 0, true),
{
    fill_ops(b, true)
}

/// Emit the ops that erase glyph `rep` previously drawn at anchor `p`.
pub fn clear_shape_ops(rep: &ShapeRep, p: Point) -> (ops: Vec<TermOp>)
    requires
        rep@.wf(),
        fits(rep@, p),
    ensures
        ops@ == spec_clear_shape_ops(rep@, p),
{
    let t = crate::shape::map_point(p);
    let height = rep.height();
    let row0 = t.row - height;
    let mut ops: Vec<TermOp> = Vec::new();
    ops.push(TermOp::Goto(row0, t.col));
    assert(ops@ =~= seq![TermOp::Goto(row0, t.col)]);
    push_cells_ops(&mut ops, &rep.bytes, rep.width, row0, t.col, BLANK);
    ops
}

} // verus!
