//! The input protocol parser: a three-state machine over raw bytes that
//! resolves single-byte commands and multi-byte arrow-key escape sequences
//! into a small semantic command alphabet.
//!
//! A malformed escape continuation is silently discarded; an unmapped byte
//! produces no command; either returns the parser to `Idle`.

use vstd::prelude::*;

verus! {

/// Parser state: outside any escape sequence, after the escape byte, or
/// after `ESC [` awaiting the final byte of an arrow-key sequence.
#[derive(Clone, Copy, PartialEq, Eq, Structural, Debug)]
pub enum InputState {
    Idle,
    AwaitBracket,
    AwaitFinal,
}

/// The semantic command alphabet a session can produce.
#[derive(Clone, Copy, PartialEq, Eq, Structural, Debug)]
pub enum Command {
    MoveLeft,
    MoveRight,
    Drop,
    Hold,
    RotateCw,
    RotateCcw,
    StartGame,
    EndGame,
    ShowHelp,
    DebugReport,
}

/// What one input byte does to the parser: the next state and the command
/// resolved, if any. `started` gates the keys that are only live before the
/// game starts (`h` for help, `s` to start). Byte 0 is what a non-blocking
/// read hands back when no data arrived; it produces nothing.
pub open spec fn spec_input_step(st: InputState, byte: u8, started: bool) -> (
    InputState,
    Option<Command>,
) {
    match st {
        InputState::Idle => {
            if byte == 0x1B {
                (InputState::AwaitBracket, None)
            } else if byte == 0x68 {
                (InputState::Idle, if !started { Some(Command::ShowHelp) } else { None })
            } else if byte == 0x6A {
                (InputState::Idle, Some(Command::MoveLeft))
            } else if byte == 0x6B {
                (InputState::Idle, Some(Command::Drop))
            } else if byte == 0x6C {
                (InputState::Idle, Some(Command::MoveRight))
            } else if byte == 0x75 {
                (InputState::Idle, Some(Command::Hold))
            } else if byte == 0x7A {
                (InputState::Idle, Some(Command::RotateCcw))
            } else if byte == 0x78 {
                (InputState::Idle, Some(Command::RotateCw))
            } else if byte == 0x73 {
                (InputState::Idle, if !started { Some(Command::StartGame) } else { None })
            } else if byte == 0x72 {
                (InputState::Idle, Some(Command::DebugReport))
            } else if byte == 0x71 {
                (InputState::Idle, Some(Command::EndGame))
            } else {
                (InputState::Idle, None)
            }
        },
        InputState::AwaitBracket => {
            if byte == 0x5B {
                (InputState::AwaitFinal, None)
            } else {
                (InputState::Idle, None)
            }
        },
        InputState::AwaitFinal => {
            if byte == 0x44 {
                (InputState::Idle, Some(Command::MoveLeft))
            } else if byte == 0x43 {
                (InputState::Idle, Some(Command::MoveRight))
            } else if byte == 0x42 {
                (InputState::Idle, Some(Command::Drop))
            } else {
                (InputState::Idle, None)
            }
        },
    }
}

/// Feed one byte to the parser.
pub fn input_step(st: InputState, byte: u8, started: bool) -> (r: (InputState, Option<Command>))
    ensures
        r == spec_input_step(st, byte, started),
{
    match st {
        InputState::Idle => {
            if byte == 0x1B {
                (InputState::AwaitBracket, None)
            } else if byte == 0x68u8 {
                (InputState::Idle, if !started { Some(Command::ShowHelp) } else { None })
            } else if byte == 0x6Au8 {
                (InputState::Idle, Some(Command::MoveLeft))
            } else if byte == 0x6Bu8 {
                (InputState::Idle, Some(Command::Drop))
            } else if byte == 0x6Cu8 {
                (InputState::Idle, Some(Command::MoveRight))
            } else if byte == 0x75u8 {
                (InputState::Idle, Some(Command::Hold))
            } else if byte == 0x7Au8 {
                (InputState::Idle, Some(Command::RotateCcw))
            } else if byte == 0x78u8 {
                (InputState::Idle, Some(Command::RotateCw))
            } else if byte == 0x73u8 {
                (InputState::Idle, if !started { Some(Command::StartGame) } else { None })
            } else if byte == 0x72u8 {
                (InputState::Idle, Some(Command::DebugReport))
            } else if byte == 0x71u8 {
                (InputState::Idle, Some(Command::EndGame))
            } else {
                (InputState::Idle, None)
            }
        },
        InputState::AwaitBracket => {
            if byte == 0x5Bu8 {
                (InputState::AwaitFinal, None)
            } else {
                (InputState::Idle, None)
            }
        },
        InputState::AwaitFinal => {
            if byte == 0x44u8 {
                (InputState::Idle, Some(Command::MoveLeft))
            } else if byte == 0x43u8 {
                (InputState::Idle, Some(Command::MoveRight))
            } else if byte == 0x42u8 {
                (InputState::Idle, Some(Command::Drop))
            } else {
                (InputState::Idle, None)
            }
        },
    }
}

/// Whether a byte seen in the idle state belongs to the protocol: the
/// escape byte, one of the mapped command keys, or the zero byte a
/// non-blocking read hands back when no data arrived. Any other byte is an
/// unknown command byte: it produces no command, and the session logs and
/// drops it.
pub open spec fn spec_known_idle_byte(byte: u8) -> bool {
    byte == 0 || byte == 0x1B || byte == 0x68 || byte == 0x6A || byte == 0x6B || byte == 0x6C
        || byte == 0x75 || byte == 0x7A || byte == 0x78 || byte == 0x73 || byte == 0x72 || byte
        == 0x71
}

pub fn known_idle_byte(byte: u8) -> (r: bool)
    ensures
        r == spec_known_idle_byte(byte),
{
    byte == 0 || byte == 0x1B || byte == 0x68 || byte == 0x6A || byte == 0x6B || byte == 0x6C
        || byte == 0x75 || byte == 0x7A || byte == 0x78 || byte == 0x73 || byte == 0x72 || byte
        == 0x71
}

/// The commands a byte sequence resolves to, starting from state `st`.
pub open spec fn spec_feed(st: InputState, bytes: Seq<u8>, started: bool) -> (
    InputState,
    Seq<Command>,
)
    decreases bytes.len(),
{
    if bytes.len() == 0 {
        (st, Seq::empty())
    } else {
        let (st1, cmd) = spec_input_step(st, bytes[0], started);
        let (st2, rest) = spec_feed(st1, bytes.drop_first(), started);
        (
            st2,
            (match cmd {
                Some(c) => seq![c] + rest,
                None => rest,
            }),
        )
    }
}

/// Feed a whole byte sequence to the parser and collect every resolved
/// command in order.
pub fn feed_bytes(st: InputState, bytes: &Vec<u8>, started: bool) -> (r: (
    InputState,
    Vec<Command>,
))
    ensures
        (r.0, r.1@) == spec_feed(st, bytes@, started),
{
    let mut cur = st;
    let mut cmds: Vec<Command> = Vec::new();
    let mut i: usize = 0;
    assert(bytes@.skip(0) =~= bytes@);
    assert(Seq::<Command>::empty() + spec_feed(st, bytes@, started).1 =~= spec_feed(
        st,
        bytes@,
        started,
    ).1);
    while i < bytes.len()
        invariant
            i <= bytes@.len(),
            spec_feed(st, bytes@, started).0 == spec_feed(cur, bytes@.skip(i as int), started).0,
            spec_feed(st, bytes@, started).1 == cmds@ + spec_feed(
                cur,
                bytes@.skip(i as int),
                started,
            ).1,
        decreases bytes@.len() - i,
    {
        let (next, cmd) = input_step(cur, bytes[i], started);
        proof {
            assert(bytes@.skip(i as int).drop_first() =~= bytes@.skip(i as int + 1));
            assert(bytes@.skip(i as int)[0] == bytes@[i as int]);
        }
        match cmd {
            Some(c) => {
                cmds.push(c);
            },
            None => {},
        }
        proof {
            let (fs, fc) = spec_feed(next, bytes@.skip(i as int + 1), started);
            assert(cmds@ + fc =~= spec_feed(st, bytes@, started).1);
        }
        cur = next;
        i = i + 1;
    }
    assert(bytes@.skip(bytes@.len() as int) =~= Seq::<u8>::empty());
    assert(cmds@ + Seq::<Command>::empty() =~= cmds@);
    (cur, cmds)
}

} // verus!
