use tetterm::input::{feed_bytes, input_step, known_idle_byte, Command, InputState};

#[test]
fn arrow_left_sequence_yields_one_move_left() {
    let (st, cmds) = feed_bytes(InputState::Idle, &vec![0x1B, b'[', b'D'], false);
    assert_eq!(cmds, vec![Command::MoveLeft]);
    assert_eq!(st, InputState::Idle);
}

#[test]
fn arrow_right_and_down_sequences() {
    let (st, cmds) = feed_bytes(InputState::Idle, &vec![0x1B, b'[', b'C', 0x1B, b'[', b'B'], true);
    assert_eq!(cmds, vec![Command::MoveRight, Command::Drop]);
    assert_eq!(st, InputState::Idle);
}

#[test]
fn plain_j_yields_one_move_left() {
    let (st, cmds) = feed_bytes(InputState::Idle, &vec![b'j'], false);
    assert_eq!(cmds, vec![Command::MoveLeft]);
    assert_eq!(st, InputState::Idle);
}

#[test]
fn bad_escape_continuation_yields_nothing() {
    let (st, cmds) = feed_bytes(InputState::Idle, &vec![0x1B, b'Z'], false);
    assert!(cmds.is_empty());
    assert_eq!(st, InputState::Idle);
}

#[test]
fn unknown_final_byte_is_dropped() {
    let (st, cmds) = feed_bytes(InputState::Idle, &vec![0x1B, b'[', b'A'], false);
    assert!(cmds.is_empty());
    assert_eq!(st, InputState::Idle);
}

#[test]
fn single_byte_keymap() {
    let cases = [
        (b'j', Some(Command::MoveLeft)),
        (b'l', Some(Command::MoveRight)),
        (b'k', Some(Command::Drop)),
        (b'u', Some(Command::Hold)),
        (b'z', Some(Command::RotateCcw)),
        (b'x', Some(Command::RotateCw)),
        (b'r', Some(Command::DebugReport)),
        (b'q', Some(Command::EndGame)),
        (0u8, None),
        (b'w', None),
    ];
    for (byte, expect) in cases {
        let (st, cmd) = input_step(InputState::Idle, byte, true);
        assert_eq!(cmd, expect, "byte {byte}");
        assert_eq!(st, InputState::Idle);
    }
}

#[test]
fn help_and_start_only_before_game_starts() {
    assert_eq!(input_step(InputState::Idle, b'h', false).1, Some(Command::ShowHelp));
    assert_eq!(input_step(InputState::Idle, b'h', true).1, None);
    assert_eq!(input_step(InputState::Idle, b's', false).1, Some(Command::StartGame));
    assert_eq!(input_step(InputState::Idle, b's', true).1, None);
}

#[test]
fn escape_byte_enters_await_bracket() {
    let (st, cmd) = input_step(InputState::Idle, 0x1B, false);
    assert_eq!(st, InputState::AwaitBracket);
    assert_eq!(cmd, None);
    let (st2, cmd2) = input_step(st, b'[', false);
    assert_eq!(st2, InputState::AwaitFinal);
    assert_eq!(cmd2, None);
}

#[test]
fn known_idle_bytes_are_the_protocol_bytes() {
    for byte in [0u8, 0x1B, b'h', b'j', b'k', b'l', b'u', b'z', b'x', b's', b'r', b'q'] {
        assert!(known_idle_byte(byte), "byte {byte}");
    }
    for byte in [b'w', b'A', b'1', b' ', 0xFF] {
        assert!(!known_idle_byte(byte), "byte {byte}");
    }
}
