//! The glyph table: one fixed ASCII-art bitmap per (shape kind, orientation)
//! pair, plus the per-shape display color. Looked up, never mutated.
//!
//! A glyph's `bytes` walk the bitmap row-major: a `*` byte is a filled cell,
//! anything else is a blank cell that the renderer skips over. `width` is the
//! number of characters per bitmap row.

use vstd::prelude::*;
use crate::shape::{Orientation, ShapeKind};

verus! {

use vstd::string::StringSliceAdditionalSpecFns;
use vstd::string::is_ascii;

/// Mathematical content of a glyph: its bitmap bytes, its row width, and
/// the characters of its color tag.
pub ghost struct GlyphModel {
    pub bytes: Seq<u8>,
    pub width: int,
    pub color: &'static str,
}

/// A rectangular ASCII-art bitmap for one (shape, orientation) pair.
#[derive(Debug)]
pub struct ShapeRep {
    pub bytes: Vec<u8>,
    pub width: usize,
    pub color_code: &'static str,
}

impl View for ShapeRep {
    type V = GlyphModel;

    open spec fn view(&self) -> GlyphModel {
        GlyphModel { bytes: self.bytes@, width: self.width as int, color: self.color_code }
    }
}

impl GlyphModel {
    /// Rows of the bitmap. Every glyph in the table is a whole number of
    /// rows of `width` bytes, so the division is exact there.
    pub open spec fn height(self) -> int {
        self.bytes.len() as int / self.width
    }

    pub open spec fn wf(self) -> bool {
        0 < self.width
    }
}

impl ShapeRep {
    pub fn height(&self) -> (h: usize)
        requires
            self@.wf(),
        ensures
            h == self@.height(),
    {
        self.bytes.len() / self.width
    }
}

/// The fixed bitmap and color for each (shape, orientation) pair. Shapes
/// with rotational symmetry reuse one bitmap for the symmetric orientations.
pub open spec fn spec_shape_rep(s: ShapeKind, o: Orientation) -> GlyphModel {
    match s {
        ShapeKind::Eye => match o {
            Orientation::Up | Orientation::Down => (GlyphModel {
                bytes: "* ** ** ** ** ** ** ** *".spec_bytes(),
                width: 3,
                color: "[1;31m",
            }),
            Orientation::Left | Orientation::Right => (GlyphModel {
                bytes: "* * * * * * * ** * * * * * * *".spec_bytes(),
                width: 15,
                color: "[1;31m",
            }),
        },
        ShapeKind::El => match o {
            Orientation::Up => (GlyphModel {
                bytes: "* *    * *    * *    * *    * * * ** * * *".spec_bytes(),
                width: 7,
                color: "[1; 34m",
            }),
            Orientation::Right => (GlyphModel {
                bytes: "* * * * * ** * * * * ** *        * *        ".spec_bytes(),
                width: 11,
                color: "[1; 34m",
            }),
            Orientation::Down => (GlyphModel {
                bytes: "* * * ** * * *    * *    * *    * *    * *".spec_bytes(),
                width: 7,
                color: "[1; 34m",
            }),
            Orientation::Left => (GlyphModel {
                bytes: "        * *        * ** * * * * ** * * * * *".spec_bytes(),
                width: 11,
                color: "[1; 34m",
            }),
        },
        ShapeKind::ElInv => match o {
            Orientation::Up => (GlyphModel {
                bytes: "    * *    * *    * *    * ** * * ** * * *".spec_bytes(),
                width: 7,
                color: "[1; 35m",
            }),
            Orientation::Left => (GlyphModel {
                bytes: "* * * * * ** * * * * *        * *        * *".spec_bytes(),
                width: 11,
                color: "[1; 35m",
            }),
            Orientation::Down => (GlyphModel {
                bytes: "* * * ** * * ** *    * *    * *    * *    ".spec_bytes(),
                width: 7,
                color: "[1; 35m",
            }),
            Orientation::Right => (GlyphModel {
                bytes: "* *        * *        * * * * * ** * * * * *".spec_bytes(),
                width: 11,
                color: "[1; 35m",
            }),
        },
        ShapeKind::Zee => match o {
            Orientation::Up | Orientation::Down => (GlyphModel {
                bytes: "    * *    * ** * * ** * * ** *    * *    ".spec_bytes(),
                width: 7,
                color: "[1; 36m",
            }),
            Orientation::Left | Orientation::Right => (GlyphModel {
                bytes: "* * * *    * * * *        * * * *    * * * *".spec_bytes(),
                width: 11,
                color: "[1; 36m",
            }),
        },
        ShapeKind::ZeeInv => match o {
            Orientation::Left | Orientation::Right => (GlyphModel {
                bytes: "    * * * *    * * * ** * * *    * * * *    ".spec_bytes(),
                width: 11,
                color: "[1; 37m",
            }),
            Orientation::Up | Orientation::Down => (GlyphModel {
                bytes: "* *    * *    * * * ** * * *    * *    * *".spec_bytes(),
                width: 7,
                color: "[1; 37m",
            }),
        },
        ShapeKind::Square => (GlyphModel {
            bytes: "* * * ** * * ** * * ** * * *".spec_bytes(),
            width: 7,
            color: "[1; 33m",
        }),
        ShapeKind::Tee => match o {
            Orientation::Down => (GlyphModel {
                bytes: "* * * * * ** * * * * *    * *        * *    ".spec_bytes(),
                width: 11,
                color: "[0; 34m",
            }),
            Orientation::Left => (GlyphModel {
                bytes: "    * *    * ** * * ** * * *    * *    * *".spec_bytes(),
                width: 7,
                color: "[0; 34m",
            }),
            Orientation::Up => (GlyphModel {
                bytes: "    * *        * *    * * * * * ** * * * * *".spec_bytes(),
                width: 11,
                color: "[0; 34m",
            }),
            Orientation::Right => (GlyphModel {
                bytes: "* *    * *    * * * ** * * ** *    * *    ".spec_bytes(),
                width: 7,
                color: "[0; 34m",
            }),
        },
    }
}

/// Build a glyph from its pattern literal, row width, and color tag.
fn glyph(pat: &'static str, width: usize, color: &'static str) -> (r: ShapeRep)
    ensures
        r.bytes@ == pat.spec_bytes(),
        r.width == width,
        r.color_code == color,
{
    ShapeRep { bytes: pat.as_bytes_vec(), width, color_code: color }
}

/// Look up the glyph for a (shape, orientation) pair. Total: every pair has
/// a fixed entry.
pub fn shape_rep(s: ShapeKind, o: Orientation) -> (r: ShapeRep)
    ensures
        r@ == spec_shape_rep(s, o),
{
    match s {
        ShapeKind::Eye => match o {
            Orientation::Up | Orientation::Down => glyph(
                "* ** ** ** ** ** ** ** *",
                3,
                "[1;31m",
            ),
            Orientation::Left | Orientation::Right => glyph(
                "* * * * * * * ** * * * * * * *",
                15,
                "[1;31m",
            ),
        },
        ShapeKind::El => match o {
            Orientation::Up => glyph("* *    * *    * *    * *    * * * ** * * *", 7, "[1; 34m"),
            Orientation::Right => glyph(
                "* * * * * ** * * * * ** *        * *        ",
                11,
                "[1; 34m",
            ),
            Orientation::Down => glyph("* * * ** * * *    * *    * *    * *    * *", 7, "[1; 34m"),
            Orientation::Left => glyph(
                "        * *        * ** * * * * ** * * * * *",
                11,
                "[1; 34m",
            ),
        },
        ShapeKind::ElInv => match o {
            Orientation::Up => glyph("    * *    * *    * *    * ** * * ** * * *", 7, "[1; 35m"),
            Orientation::Left => glyph(
                "* * * * * ** * * * * *        * *        * *",
                11,
                "[1; 35m",
            ),
            Orientation::Down => glyph("* * * ** * * ** *    * *    * *    * *    ", 7, "[1; 35m"),
            Orientation::Right => glyph(
                "* *        * *        * * * * * ** * * * * *",
                11,
                "[1; 35m",
            ),
        },
        ShapeKind::Zee => match o {
            Orientation::Up | Orientation::Down => glyph(
                "    * *    * ** * * ** * * ** *    * *    ",
                7,
                "[1; 36m",
            ),
            Orientation::Left | Orientation::Right => glyph(
                "* * * *    * * * *        * * * *    * * * *",
                11,
                "[1; 36m",
            ),
        },
        ShapeKind::ZeeInv => match o {
            Orientation::Left | Orientation::Right => glyph(
                "    * * * *    * * * ** * * *    * * * *    ",
                11,
                "[1; 37m",
            ),
            Orientation::Up | Orientation::Down => glyph(
                "* *    * *    * * * ** * * *    * *    * *",
                7,
                "[1; 37m",
            ),
        },
        ShapeKind::Square => glyph("* * * ** * * ** * * ** * * *", 7, "[1; 33m"),
        ShapeKind::Tee => match o {
            Orientation::Down => glyph(
                "* * * * * ** * * * * *    * *        * *    ",
                11,
                "[0; 34m",
            ),
            Orientation::Left => glyph("    * *    * ** * * ** * * *    * *    * *", 7, "[0; 34m"),
            Orientation::Up => glyph(
                "    * *        * *    * * * * * ** * * * * *",
                11,
                "[0; 34m",
            ),
            Orientation::Right => glyph("* *    * *    * * * ** * * ** *    * *    ", 7, "[0; 34m"),
        },
    }
}

/// The bitmap of a single board cell, used to fill or clear individual
/// settled cells. Its own color tag is neutral: fill drawing always passes
/// the occupant shape's color explicitly.
pub open spec fn spec_single_rep() -> GlyphModel {
    GlyphModel { bytes: "* ** *".spec_bytes(), width: 3, color: "[0;0m" }
}

pub fn single_rep() -> (r: ShapeRep)
    ensures
        r@ == spec_single_rep(),
{
    glyph("* ** *", 3, "[0;0m")
}

/// The display color tag for a shape kind, as used for settled board cells.
pub open spec fn spec_shape_color(s: ShapeKind) -> &'static str {
    spec_shape_rep(s, Orientation::Up).color
}

pub fn shape_color(s: ShapeKind) -> (c: &'static str)
    ensures
        c == spec_shape_color(s),
{
    match s {
        ShapeKind::Eye => "[1;31m",
        ShapeKind::El => "[1; 34m",
        ShapeKind::ElInv => "[1; 35m",
        ShapeKind::Zee => "[1; 36m",
        ShapeKind::ZeeInv => "[1; 37m",
        ShapeKind::Square => "[1; 33m",
        ShapeKind::Tee => "[0; 34m",
    }
}

#[verifier::rlimit(100)]
proof fn lemma_eye_bounds(o: Orientation)
    ensures
        spec_shape_rep(ShapeKind::Eye, o).wf(),
        spec_shape_rep(ShapeKind::Eye, o).width <= 15,
        spec_shape_rep(ShapeKind::Eye, o).bytes.len() <= 44,
        1 <= spec_shape_rep(ShapeKind::Eye, o).height() <= 8,
        spec_shape_rep(ShapeKind::Eye, o).bytes.len() as int % spec_shape_rep(ShapeKind::Eye, o).width
            == 0,
{
    broadcast use vstd::string::is_ascii_spec_bytes;

    match o {
        Orientation::Up | Orientation::Down => {
            reveal_strlit("* ** ** ** ** ** ** ** *");
            assert(is_ascii("* ** ** ** ** ** ** ** *"));
            assert("* ** ** ** ** ** ** ** *".spec_bytes().len() == 24);
        },
        Orientation::Left | Orientation::Right => {
            reveal_strlit("* * * * * * * ** * * * * * * *");
            assert(is_ascii("* * * * * * * ** * * * * * * *"));
            assert("* * * * * * * ** * * * * * * *".spec_bytes().len() == 30);
        },
    }
}

#[verifier::rlimit(100)]
proof fn lemma_el_bounds(o: Orientation)
    ensures
        spec_shape_rep(ShapeKind::El, o).wf(),
        spec_shape_rep(ShapeKind::El, o).width <= 15,
        spec_shape_rep(ShapeKind::El, o).bytes.len() <= 44,
        1 <= spec_shape_rep(ShapeKind::El, o).height() <= 8,
        spec_shape_rep(ShapeKind::El, o).bytes.len() as int % spec_shape_rep(ShapeKind::El, o).width
            == 0,
{
    broadcast use vstd::string::is_ascii_spec_bytes;

    match o {
        Orientation::Up => {
            reveal_strlit("* *    * *    * *    * *    * * * ** * * *");
            assert(is_ascii("* *    * *    * *    * *    * * * ** * * *"));
            assert("* *    * *    * *    * *    * * * ** * * *".spec_bytes().len() == 42);
        },
        Orientation::Right => {
            reveal_strlit("* * * * * ** * * * * ** *        * *        ");
            assert(is_ascii("* * * * * ** * * * * ** *        * *        "));
            assert("* * * * * ** * * * * ** *        * *        ".spec_bytes().len() == 44);
        },
        Orientation::Down => {
            reveal_strlit("* * * ** * * *    * *    * *    * *    * *");
            assert(is_ascii("* * * ** * * *    * *    * *    * *    * *"));
            assert("* * * ** * * *    * *    * *    * *    * *".spec_bytes().len() == 42);
        },
        Orientation::Left => {
            reveal_strlit("        * *        * ** * * * * ** * * * * *");
            assert(is_ascii("        * *        * ** * * * * ** * * * * *"));
            assert("        * *        * ** * * * * ** * * * * *".spec_bytes().len() == 44);
        },
    }
}

#[verifier::rlimit(100)]
proof fn lemma_elinv_bounds(o: Orientation)
    ensures
        spec_shape_rep(ShapeKind::ElInv, o).wf(),
        spec_shape_rep(ShapeKind::ElInv, o).width <= 15,
        spec_shape_rep(ShapeKind::ElInv, o).bytes.len() <= 44,
        1 <= spec_shape_rep(ShapeKind::ElInv, o).height() <= 8,
        spec_shape_rep(ShapeKind::ElInv, o).bytes.len() as int % spec_shape_rep(ShapeKind::ElInv, o).width
            == 0,
{
    broadcast use vstd::string::is_ascii_spec_bytes;

    match o {
        Orientation::Up => {
            reveal_strlit("    * *    * *    * *    * ** * * ** * * *");
            assert(is_ascii("    * *    * *    * *    * ** * * ** * * *"));
            assert("    * *    * *    * *    * ** * * ** * * *".spec_bytes().len() == 42);
        },
        Orientation::Left => {
            reveal_strlit("* * * * * ** * * * * *        * *        * *");
            assert(is_ascii("* * * * * ** * * * * *        * *        * *"));
            assert("* * * * * ** * * * * *        * *        * *".spec_bytes().len() == 44);
        },
        Orientation::Down => {
            reveal_strlit("* * * ** * * ** *    * *    * *    * *    ");
            assert(is_ascii("* * * ** * * ** *    * *    * *    * *    "));
            assert("* * * ** * * ** *    * *    * *    * *    ".spec_bytes().len() == 42);
        },
        Orientation::Right => {
            reveal_strlit("* *        * *        * * * * * ** * * * * *");
            assert(is_ascii("* *        * *        * * * * * ** * * * * *"));
            assert("* *        * *        * * * * * ** * * * * *".spec_bytes().len() == 44);
        },
    }
}

#[verifier::rlimit(100)]
proof fn lemma_zee_bounds(o: Orientation)
    ensures
        spec_shape_rep(ShapeKind::Zee, o).wf(),
        spec_shape_rep(ShapeKind::Zee, o).width <= 15,
        spec_shape_rep(ShapeKind::Zee, o).bytes.len() <= 44,
        1 <= spec_shape_rep(ShapeKind::Zee, o).height() <= 8,
        spec_shape_rep(ShapeKind::Zee, o).bytes.len() as int % spec_shape_rep(ShapeKind::Zee, o).width
            == 0,
{
    broadcast use vstd::string::is_ascii_spec_bytes;

    match o {
        Orientation::Up | Orientation::Down => {
            reveal_strlit("    * *    * ** * * ** * * ** *    * *    ");
            assert(is_ascii("    * *    * ** * * ** * * ** *    * *    "));
            assert("    * *    * ** * * ** * * ** *    * *    ".spec_bytes().len() == 42);
        },
        Orientation::Left | Orientation::Right => {
            reveal_strlit("* * * *    * * * *        * * * *    * * * *");
            assert(is_ascii("* * * *    * * * *        * * * *    * * * *"));
            assert("* * * *    * * * *        * * * *    * * * *".spec_bytes().len() == 44);
        },
    }
}

#[verifier::rlimit(100)]
proof fn lemma_zeeinv_bounds(o: Orientation)
    ensures
        spec_shape_rep(ShapeKind::ZeeInv, o).wf(),
        spec_shape_rep(ShapeKind::ZeeInv, o).width <= 15,
        spec_shape_rep(ShapeKind::ZeeInv, o).bytes.len() <= 44,
        1 <= spec_shape_rep(ShapeKind::ZeeInv, o).height() <= 8,
        spec_shape_rep(ShapeKind::ZeeInv, o).bytes.len() as int % spec_shape_rep(ShapeKind::ZeeInv, o).width
            == 0,
{
    broadcast use vstd::string::is_ascii_spec_bytes;

    match o {
        Orientation::Left | Orientation::Right => {
            reveal_strlit("    * * * *    * * * ** * * *    * * * *    ");
            assert(is_ascii("    * * * *    * * * ** * * *    * * * *    "));
            assert("    * * * *    * * * ** * * *    * * * *    ".spec_bytes().len() == 44);
        },
        Orientation::Up | Orientation::Down => {
            reveal_strlit("* *    * *    * * * ** * * *    * *    * *");
            assert(is_ascii("* *    * *    * * * ** * * *    * *    * *"));
            assert("* *    * *    * * * ** * * *    * *    * *".spec_bytes().len() == 42);
        },
    }
}

#[verifier::rlimit(100)]
proof fn lemma_square_bounds(o: Orientation)
    ensures
        spec_shape_rep(ShapeKind::Square, o).wf(),
        spec_shape_rep(ShapeKind::Square, o).width <= 15,
        spec_shape_rep(ShapeKind::Square, o).bytes.len() <= 44,
        1 <= spec_shape_rep(ShapeKind::Square, o).height() <= 8,
        spec_shape_rep(ShapeKind::Square, o).bytes.len() as int % spec_shape_rep(ShapeKind::Square, o).width
            == 0,
{
    broadcast use vstd::string::is_ascii_spec_bytes;

    reveal_strlit("* * * ** * * ** * * ** * * *");
    assert(is_ascii("* * * ** * * ** * * ** * * *"));
    assert("* * * ** * * ** * * ** * * *".spec_bytes().len() == 28);
}

#[verifier::rlimit(100)]
proof fn lemma_tee_bounds(o: Orientation)
    ensures
        spec_shape_rep(ShapeKind::Tee, o).wf(),
        spec_shape_rep(ShapeKind::Tee, o).width <= 15,
        spec_shape_rep(ShapeKind::Tee, o).bytes.len() <= 44,
        1 <= spec_shape_rep(ShapeKind::Tee, o).height() <= 8,
        spec_shape_rep(ShapeKind::Tee, o).bytes.len() as int % spec_shape_rep(ShapeKind::Tee, o).width
            == 0,
{
    broadcast use vstd::string::is_ascii_spec_bytes;

    match o {
        Orientation::Down => {
            reveal_strlit("* * * * * ** * * * * *    * *        * *    ");
            assert(is_ascii("* * * * * ** * * * * *    * *        * *    "));
            assert("* * * * * ** * * * * *    * *        * *    ".spec_bytes().len() == 44);
        },
        Orientation::Left => {
            reveal_strlit("    * *    * ** * * ** * * *    * *    * *");
            assert(is_ascii("    * *    * ** * * ** * * *    * *    * *"));
            assert("    * *    * ** * * ** * * *    * *    * *".spec_bytes().len() == 42);
        },
        Orientation::Up => {
            reveal_strlit("    * *        * *    * * * * * ** * * * * *");
            assert(is_ascii("    * *        * *    * * * * * ** * * * * *"));
            assert("    * *        * *    * * * * * ** * * * * *".spec_bytes().len() == 44);
        },
        Orientation::Right => {
            reveal_strlit("* *    * *    * * * ** * * ** *    * *    ");
            assert(is_ascii("* *    * *    * * * ** * * ** *    * *    "));
            assert("* *    * *    * * * ** * * ** *    * *    ".spec_bytes().len() == 42);
        },
    }
}

/// Every glyph in the table is well formed and small: a positive row width
/// of at most fifteen characters, at most 44 bitmap bytes, and a height
/// between one and eight terminal rows. The single-cell bitmap is two rows
/// of width three.
pub proof fn lemma_glyph_bounds(s: ShapeKind, o: Orientation)
    ensures
        spec_shape_rep(s, o).wf(),
        spec_shape_rep(s, o).width <= 15,
        spec_shape_rep(s, o).bytes.len() <= 44,
        1 <= spec_shape_rep(s, o).height() <= 8,
        spec_shape_rep(s, o).bytes.len() as int % spec_shape_rep(s, o).width == 0,
        spec_single_rep().wf(),
        spec_single_rep().height() == 2,
        spec_single_rep().bytes.len() as int % spec_single_rep().width == 0,
{
    broadcast use vstd::string::is_ascii_spec_bytes;

    reveal_strlit("* ** *");
    assert(is_ascii("* ** *"));
    assert("* ** *".spec_bytes().len() == 6);
    match s {
        ShapeKind::Eye => lemma_eye_bounds(o),
        ShapeKind::El => lemma_el_bounds(o),
        ShapeKind::ElInv => lemma_elinv_bounds(o),
        ShapeKind::Zee => lemma_zee_bounds(o),
        ShapeKind::ZeeInv => lemma_zeeinv_bounds(o),
        ShapeKind::Square => lemma_square_bounds(o),
        ShapeKind::Tee => lemma_tee_bounds(o),
    }
}

} // verus!
