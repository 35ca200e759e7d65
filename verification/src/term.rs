//! Terminal operations and their wire encoding.
//!
//! Every renderer in this crate produces a sequence of [`TermOp`]s; the
//! verified [`encode_ops`] turns them into the exact ANSI byte stream the
//! remote terminal consumes. A spec-level semantics ([`Term`], [`apply_ops`])
//! says what each operation does to a model of the terminal's character grid,
//! which is what the draw/erase correctness lemmas are stated over.

use vstd::prelude::*;

verus! {

use vstd::string::StringSliceAdditionalSpecFns;

/// The escape byte that introduces every ANSI control sequence.
pub const ESC: u8 = 0x1B;

/// `[`, the control sequence introducer's second byte.
pub const LBRACKET: u8 = 0x5B;

/// The character drawn for a filled glyph cell.
pub const MARK: u8 = 0x2A;

/// The character drawn to blank a previously filled glyph cell.
pub const BLANK: u8 = 0x20;

/// One abstract terminal operation.
#[derive(Debug)]
pub enum TermOp {
    /// Position the cursor at `(row, col)`, both 1-based (`ESC [ row ; col H`).
    Goto(usize, usize),
    /// Move the cursor one column right without writing (`ESC [ 1 C`).
    Fwd,
    /// Write one character at the cursor and advance one column.
    Put(u8),
    /// Write an ASCII label at the cursor, advancing one column per byte.
    Text(&'static str),
    /// Emit a color/attribute tag: `ESC [` followed by the tag's own bytes.
    /// Does not move the cursor or change the grid.
    Sgr(&'static str),
    /// Carriage return: cursor to column 1.
    Cr,
    /// Line feed: cursor one row down.
    Lf,
    /// Clear the whole screen (`NUL ESC [ 2 J`); the cursor stays put.
    Clear,
}

/// Decimal digit bytes of `n`, most significant first.
pub open spec fn spec_dec(n: nat) -> Seq<u8>
    decreases n,
{
    if n < 10 {
        seq![(0x30 + n) as u8]
    } else {
        spec_dec(n / 10) + seq![(0x30 + n % 10) as u8]
    }
}


/// The exact byte encoding of one terminal operation.
pub open spec fn encode_op(op: TermOp) -> Seq<u8> {
    match op {
        TermOp::Goto(row, col) => seq![ESC, LBRACKET] + spec_dec(row as nat) + seq![0x3Bu8]
            + spec_dec(col as nat) + seq![0x48u8],
        TermOp::Fwd => seq![ESC, LBRACKET, 0x31u8, 0x43u8],
        TermOp::Put(b) => seq![b],
        TermOp::Text(s) => s.spec_bytes(),
        TermOp::Sgr(s) => seq![ESC, LBRACKET] + s.spec_bytes(),
        TermOp::Cr => seq![0x0Du8],
        TermOp::Lf => seq![0x0Au8],
        TermOp::Clear => seq![0x00u8, ESC, LBRACKET, 0x32u8, 0x4Au8],
    }
}

/// Byte encoding of a whole operation sequence, in order.
pub open spec fn encode(ops: Seq<TermOp>) -> Seq<u8>
    decreases ops.len(),
{
    if ops.len() == 0 {
        Seq::empty()
    } else {
        encode_op(ops[0]) + encode(ops.drop_first())
    }
}

pub proof fn lemma_encode_push(ops: Seq<TermOp>, op: TermOp)
    ensures
        encode(ops.push(op)) == encode(ops) + encode_op(op),
    decreases ops.len(),
{
    if ops.len() == 0 {
        reveal_with_fuel(encode, 2);
        assert(ops.push(op).drop_first() =~= Seq::empty());
        assert(ops.push(op)[0] == op);
        assert(encode(ops.push(op)) =~= encode_op(op));
        assert(encode(ops) + encode_op(op) =~= encode_op(op));
    } else {
        assert(ops.push(op).drop_first() =~= ops.drop_first().push(op));
        lemma_encode_push(ops.drop_first(), op);
        assert(encode(ops.push(op)) =~= encode(ops) + encode_op(op));
    }
}

/// Append the decimal digits of `n` to `out`.
pub fn push_dec(out: &mut Vec<u8>, n: usize)
    ensures
        final(out)@ == old(out)@ + spec_dec(n as nat),
    decreases n,
{
    if n < 10 {
        out.push(0x30 + n as u8);
    } else {
        let q = n / 10;
        let r = n % 10;
        push_dec(out, q);
        out.push(0x30 + r as u8);
        assert(out@ =~= old(out)@ + spec_dec(n as nat));
    }
}

/// One `Put` per byte of `s`, in order: how a run of literal characters
/// (such as the digits of a number) stands in an op sequence.
pub open spec fn put_run(s: Seq<u8>) -> Seq<TermOp> {
    Seq::new(s.len(), |i: int| TermOp::Put(s[i]))
}

/// Append one `Put` per decimal digit of `n`.
pub fn push_dec_ops(ops: &mut Vec<TermOp>, n: usize)
    ensures
        final(ops)@ == old(ops)@ + put_run(spec_dec(n as nat)),
    decreases n,
{
    if n < 10 {
        ops.push(TermOp::Put(0x30 + n as u8));
        assert(ops@ =~= old(ops)@ + put_run(spec_dec(n as nat)));
    } else {
        let q = n / 10;
        let r = n % 10;
        push_dec_ops(ops, q);
        ops.push(TermOp::Put(0x30 + r as u8));
        assert(ops@ =~= old(ops)@ + put_run(spec_dec(n as nat)));
    }
}

/// Append the bytes of `s` to `out`.
pub fn push_str_bytes(out: &mut Vec<u8>, s: &str)
    ensures
        final(out)@ == old(out)@ + s.spec_bytes(),
{
    let bs = s.as_bytes();
    let mut i: usize = 0;
    while i < bs.len()
        invariant
            bs@ == s.spec_bytes(),
            i <= bs.len(),
            out@ == old(out)@ + s.spec_bytes().take(i as int),
        decreases bs.len() - i,
    {
        out.push(bs[i]);
        assert(out@ =~= old(out)@ + s.spec_bytes().take(i + 1));
        i = i + 1;
    }
    assert(s.spec_bytes().take(bs@.len() as int) =~= s.spec_bytes());
}

/// Model of a terminal: cursor position and the character grid, both in
/// 1-based (row, col) coordinates. Cells never written keep whatever the
/// grid held before.
pub ghost struct Term {
    pub row: int,
    pub col: int,
    pub grid: Map<(int, int), u8>,
}

/// Write the bytes of `s` left to right starting at `(row, col)`.
pub open spec fn write_run(g: Map<(int, int), u8>, row: int, col: int, s: Seq<u8>) -> Map<
    (int, int),
    u8,
>
    decreases s.len(),
{
    if s.len() == 0 {
        g
    } else {
        write_run(g.insert((row, col), s[0]), row, col + 1, s.drop_first())
    }
}

/// What one operation does to the terminal model.
pub open spec fn apply_op(t: Term, op: TermOp) -> Term {
    match op {
        TermOp::Goto(r, c) => Term { row: r as int, col: c as int, grid: t.grid },
        TermOp::Fwd => Term { row: t.row, col: t.col + 1, grid: t.grid },
        TermOp::Put(b) => Term {
            row: t.row,
            col: t.col + 1,
            grid: t.grid.insert((t.row, t.col), b),
        },
        TermOp::Text(s) => Term {
            row: t.row,
            col: t.col + s.spec_bytes().len(),
            grid: write_run(t.grid, t.row, t.col, s.spec_bytes()),
        },
        TermOp::Sgr(_) => t,
        TermOp::Cr => Term { row: t.row, col: 1, grid: t.grid },
        TermOp::Lf => Term { row: t.row + 1, col: t.col, grid: t.grid },
        TermOp::Clear => Term {
            row: t.row,
            col: t.col,
            grid: Map::new(|p: (int, int)| true, |p: (int, int)| BLANK),
        },
    }
}

/// What a whole operation sequence does to the terminal model.
pub open spec fn apply_ops(t: Term, ops: Seq<TermOp>) -> Term
    decreases ops.len(),
{
    if ops.len() == 0 {
        t
    } else {
        apply_ops(apply_op(t, ops[0]), ops.drop_first())
    }
}

pub proof fn lemma_apply_ops_singleton(t: Term, op: TermOp)
    ensures
        apply_ops(t, seq![op]) == apply_op(t, op),
{
    reveal_with_fuel(apply_ops, 2);
    assert(seq![op].drop_first() =~= Seq::<TermOp>::empty());
    assert(seq![op][0] == op);
}

pub proof fn lemma_apply_ops_concat(t: Term, a: Seq<TermOp>, b: Seq<TermOp>)
    ensures
        apply_ops(t, a + b) == apply_ops(apply_ops(t, a), b),
    decreases a.len(),
{
    if a.len() == 0 {
        assert(a + b =~= b);
    } else {
        assert((a + b).drop_first() =~= a.drop_first() + b);
        lemma_apply_ops_concat(apply_op(t, a[0]), a.drop_first(), b);
    }
}

/// Encode a sequence of terminal operations into the exact ANSI byte stream.
pub fn encode_ops(ops: &Vec<TermOp>) -> (r: Vec<u8>)
    ensures
        r@ == encode(ops@),
{
    let mut out: Vec<u8> = Vec::new();
    let mut i: usize = 0;
    while i < ops.len()
        invariant
            i <= ops.len(),
            out@ == encode(ops@.take(i as int)),
        decreases ops.len() - i,
    {
        let ghost prefix = ops@.take(i as int);
        proof {
            assert(ops@.take(i + 1) =~= prefix.push(ops@[i as int]));
            lemma_encode_push(prefix, ops@[i as int]);
        }
        match &ops[i] {
            TermOp::Goto(row, col) => {
                out.push(ESC);
                out.push(LBRACKET);
                push_dec(&mut out, *row);
                out.push(0x3B);
                push_dec(&mut out, *col);
                out.push(0x48);
            },
            TermOp::Fwd => {
                out.push(ESC);
                out.push(LBRACKET);
                out.push(0x31);
                out.push(0x43);
            },
            TermOp::Put(b) => {
                out.push(*b);
            },
            TermOp::Text(s) => {
                push_str_bytes(&mut out, s);
            },
            TermOp::Sgr(s) => {
                out.push(ESC);
                out.push(LBRACKET);
                push_str_bytes(&mut out, s);
            },
            TermOp::Cr => {
                out.push(0x0D);
            },
            TermOp::Lf => {
                out.push(0x0A);
            },
            TermOp::Clear => {
                out.push(0x00);
                out.push(ESC);
                out.push(LBRACKET);
                out.push(0x32);
                out.push(0x4A);
            },
        }
        assert(out@ =~= encode(ops@.take(i + 1)));
        i = i + 1;
    }
    assert(ops@.take(ops@.len() as int) =~= ops@);
    out
}

} // verus!
