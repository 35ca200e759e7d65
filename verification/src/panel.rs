//! Fixed UI chrome and the score/level/next/held panel fields: the board
//! frame, the title and help screens, and the numeric panel overwrites.
//!
//! The panels live at fixed terminal coordinates; a numeric field is simply
//! overwritten in place, so a value that shrinks in width leaves its
//! trailing stale digits on screen until the next wider write.

use vstd::prelude::*;
use crate::term::{put_run, push_dec_ops, spec_dec, TermOp, BLANK};

verus! {

/// Row of the "Lines:" (score) panel field.
pub const SCORE_ROW: usize = 13;

/// Row of the "Level:" panel field.
pub const LEVEL_ROW: usize = 15;

/// Column where the right-hand panel fields start.
pub const PANEL_COL: usize = 46;

/// `amt` spaces written at the cursor, blanking a previously written label.
pub open spec fn spec_clr_ops(amt: int) -> Seq<TermOp> {
    Seq::new(amt as nat, |i: int| TermOp::Put(BLANK))
}

/// Emit `amt` spaces.
pub fn clr_ops(amt: usize) -> (ops: Vec<TermOp>)
    ensures
        ops@ == spec_clr_ops(amt as int),
{
    let mut ops: Vec<TermOp> = Vec::new();
    let mut i: usize = 0;
    while i < amt
        invariant
            i <= amt,
            ops@ == spec_clr_ops(i as int),
        decreases amt - i,
    {
        ops.push(TermOp::Put(BLANK));
        assert(ops@ =~= spec_clr_ops(i + 1));
        i = i + 1;
    }
    ops
}

/// The score panel: position at the fixed field and overwrite it with
/// `Lines: <score>`.
pub open spec fn spec_score_ops(score: u32) -> Seq<TermOp> {
    seq![TermOp::Goto(SCORE_ROW, PANEL_COL), TermOp::Text("Lines: ")] + put_run(
        spec_dec(score as nat),
    )
}

pub fn score_ops(score: u32) -> (ops: Vec<TermOp>)
    ensures
        ops@ == spec_score_ops(score),
{
    let mut ops: Vec<TermOp> = Vec::new();
    ops.push(TermOp::Goto(SCORE_ROW, PANEL_COL));
    ops.push(TermOp::Text("Lines: "));
    assert(ops@ =~= seq![TermOp::Goto(SCORE_ROW, PANEL_COL), TermOp::Text("Lines: ")]);
    push_dec_ops(&mut ops, score as usize);
    ops
}

/// The level panel: position at the fixed field and overwrite it with
/// `Level: <level + 1>` — levels are displayed one-based.
pub open spec fn spec_level_ops(level: u8) -> Seq<TermOp> {
    seq![TermOp::Goto(LEVEL_ROW, PANEL_COL), TermOp::Text("Level: ")] + put_run(
        spec_dec((level + 1) as nat),
    )
}

pub fn level_ops(level: u8) -> (ops: Vec<TermOp>)
    ensures
        ops@ == spec_level_ops(level),
{
    let mut ops: Vec<TermOp> = Vec::new();
    ops.push(TermOp::Goto(LEVEL_ROW, PANEL_COL));
    ops.push(TermOp::Text("Level: "));
    assert(ops@ =~= seq![TermOp::Goto(LEVEL_ROW, PANEL_COL), TermOp::Text("Level: ")]);
    let shown = level as usize + 1;
    push_dec_ops(&mut ops, shown);
    ops
}

/// One interior frame row: colored side borders around a 40-column black
/// field, followed by the row's terminal line number.
pub open spec fn spec_chrome_row_ops(i: int) -> Seq<TermOp> {
    seq![
        TermOp::Text("|"),
        TermOp::Sgr("0;40m"),
        TermOp::Text("                                        "),
        TermOp::Sgr("1;32m"),
        TermOp::Text("|"),
    ] + put_run(spec_dec((i + 2) as nat)) + seq![TermOp::Cr, TermOp::Lf]
}

/// The interior frame rows from `i` onward (48 in all).
pub open spec fn spec_chrome_rows(i: int) -> Seq<TermOp>
    decreases 48 - i,
{
    if i < 0 || i >= 48 {
        Seq::empty()
    } else {
        spec_chrome_row_ops(i) + spec_chrome_rows(i + 1)
    }
}

/// The whole static frame: top border, 48 numbered interior rows, bottom
/// border, and a final attribute reset.
pub open spec fn spec_chrome_ops() -> Seq<TermOp> {
    seq![
        TermOp::Sgr("1;32m"),
        TermOp::Text("/----------------------------------------\\"),
        TermOp::Cr,
        TermOp::Lf,
    ] + spec_chrome_rows(0) + seq![
        TermOp::Text("\\----------------------------------------/"),
        TermOp::Cr,
        TermOp::Lf,
        TermOp::Sgr("0;0m"),
    ]
}

/// Emit the static board frame, drawn once per game start.
pub fn chrome_ops() -> (ops: Vec<TermOp>)
    ensures
        ops@ == spec_chrome_ops(),
{
    let mut ops: Vec<TermOp> = Vec::new();
    ops.push(TermOp::Sgr("1;32m"));
    ops.push(TermOp::Text("/----------------------------------------\\"));
    ops.push(TermOp::Cr);
    ops.push(TermOp::Lf);
    let ghost top = seq![
        TermOp::Sgr("1;32m"),
        TermOp::Text("/----------------------------------------\\"),
        TermOp::Cr,
        TermOp::Lf,
    ];
    assert(ops@ =~= top);
    let mut i: usize = 0;
    while i < 48
        invariant
            i <= 48,
            ops@ + spec_chrome_rows(i as int) == top + spec_chrome_rows(0),
        decreases 48 - i,
    {
        let ghost before = ops@;
        assert(spec_chrome_rows(i as int) == spec_chrome_row_ops(i as int) + spec_chrome_rows(
            i as int + 1,
        ));
        ops.push(TermOp::Text("|"));
        ops.push(TermOp::Sgr("0;40m"));
        ops.push(TermOp::Text("                                        "));
        ops.push(TermOp::Sgr("1;32m"));
        ops.push(TermOp::Text("|"));
        let ghost labeled = before + seq![
            TermOp::Text("|"),
            TermOp::Sgr("0;40m"),
            TermOp::Text("                                        "),
            TermOp::Sgr("1;32m"),
            TermOp::Text("|"),
        ];
        assert(ops@ =~= labeled);
        push_dec_ops(&mut ops, i + 2);
        ops.push(TermOp::Cr);
        ops.push(TermOp::Lf);
        assert(ops@ =~= before + spec_chrome_row_ops(i as int));
        assert(ops@ + spec_chrome_rows(i as int + 1) =~= before + spec_chrome_rows(i as int));
        i = i + 1;
    }
    assert(spec_chrome_rows(48) =~= Seq::<TermOp>::empty());
    ops.push(TermOp::Text("\\----------------------------------------/"));
    ops.push(TermOp::Cr);
    ops.push(TermOp::Lf);
    ops.push(TermOp::Sgr("0;0m"));
    assert(ops@ =~= spec_chrome_ops());
    ops
}

/// The title screen: clear and show the banner and key hints.
pub open spec fn spec_title_ops() -> Seq<TermOp> {
    seq![
        TermOp::Clear,
        TermOp::Text("TETRIX TELNET EDITION (c) 2021"),
        TermOp::Cr,
        TermOp::Lf,
        TermOp::Text("('h' for help, 's' to start)"),
        TermOp::Cr,
        TermOp::Lf,
    ]
}

pub fn title_ops() -> (ops: Vec<TermOp>)
    ensures
        ops@ == spec_title_ops(),
{
    let mut ops: Vec<TermOp> = Vec::new();
    ops.push(TermOp::Clear);
    ops.push(TermOp::Text("TETRIX TELNET EDITION (c) 2021"));
    ops.push(TermOp::Cr);
    ops.push(TermOp::Lf);
    ops.push(TermOp::Text("('h' for help, 's' to start)"));
    ops.push(TermOp::Cr);
    ops.push(TermOp::Lf);
    assert(ops@ =~= spec_title_ops());
    ops
}

/// The help screen: clear and show the key bindings, ending with a prompt
/// to press any key (the caller waits for that key and then redraws the
/// title).
pub open spec fn spec_help_ops() -> Seq<TermOp> {
    seq![
        TermOp::Clear,
        TermOp::Text("'i' and 'j' to move shapes; 'z' and 'x' rotate"),
        TermOp::Cr,
        TermOp::Lf,
        TermOp::Text("'k' to drop; 'q' will quit.  have fun!!!"),
        TermOp::Cr,
        TermOp::Lf,
        TermOp::Text("'s' to start the game!"),
        TermOp::Cr,
        TermOp::Lf,
        TermOp::Text("[press any key to continue]"),
        TermOp::Cr,
        TermOp::Lf,
    ]
}

pub fn help_ops() -> (ops: Vec<TermOp>)
    ensures
        ops@ == spec_help_ops(),
{
    let mut ops: Vec<TermOp> = Vec::new();
    ops.push(TermOp::Clear);
    ops.push(TermOp::Text("'i' and 'j' to move shapes; 'z' and 'x' rotate"));
    ops.push(TermOp::Cr);
    ops.push(TermOp::Lf);
    ops.push(TermOp::Text("'k' to drop; 'q' will quit.  have fun!!!"));
    ops.push(TermOp::Cr);
    ops.push(TermOp::Lf);
    ops.push(TermOp::Text("'s' to start the game!"));
    ops.push(TermOp::Cr);
    ops.push(TermOp::Lf);
    ops.push(TermOp::Text("[press any key to continue]"));
    ops.push(TermOp::Cr);
    ops.push(TermOp::Lf);
    assert(ops@ =~= spec_help_ops());
    ops
}

} // verus!
