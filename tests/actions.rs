use controller_server::actions::{Action, Button, DecodeError, DeltaCoordinates, Key, TerminalCommand};
use controller_server::dispatch::{decode_frame, ConnectionStatus};

#[test]
fn actions_decode_key() {
    let mut key_backspace: &[u8] = &[0u8, 0u8];
    let mut key_vol_mute: &[u8] = &[0u8, 1u8];
    let mut key_vol_down: &[u8] = &[0u8, 2u8];
    let mut key_vol_up: &[u8] = &[0u8, 3u8];
    let mut key_pause: &[u8] = &[0u8, 4u8];
    let mut key_play: &[u8] = &[0u8, 5u8];
    let mut key_enter: &[u8] = &[0u8, 6u8];

    assert!(matches!(Action::decode(&mut key_backspace), Ok(Action::KeyPress(Key::Backspace))));
    assert!(matches!(Action::decode(&mut key_vol_mute), Ok(Action::KeyPress(Key::VolumeMute))));
    assert!(matches!(Action::decode(&mut key_vol_down), Ok(Action::KeyPress(Key::VolumeDown))));
    assert!(matches!(Action::decode(&mut key_vol_up), Ok(Action::KeyPress(Key::VolumeUp))));
    assert!(matches!(Action::decode(&mut key_pause), Ok(Action::KeyPress(Key::Pause))));
    assert!(matches!(Action::decode(&mut key_play), Ok(Action::KeyPress(Key::Play))));
    assert!(matches!(Action::decode(&mut key_enter), Ok(Action::KeyPress(Key::Enter))));
}

#[test]
fn actions_decode_text() {
    let mut text_a_lower: &[u8] = &[1u8, 'a' as u8];
    let mut text_v_upper: &[u8] = &[1u8, 'V' as u8];

    assert!(matches!(Action::decode(&mut text_a_lower), Ok(Action::Text('a'))));
    assert!(matches!(Action::decode(&mut text_v_upper), Ok(Action::Text('V'))));
}

#[test]
fn actions_decode_scroll() {
    let mut scroll1: &[u8] = &[2u8, 2u8];
    let mut scroll2: &[u8] = &[2u8, (-5i8) as u8];

    assert!(matches!(Action::decode(&mut scroll1), Ok(Action::Scroll(2))));
    assert!(matches!(Action::decode(&mut scroll2), Ok(Action::Scroll(-5))));
}

#[test]
fn actions_mouse_move() {
    let mut mouse_move: &[u8] = &[3u8, 2u8, (-8i8) as u8];

    assert!(matches!(
        Action::decode(&mut mouse_move),
        Ok(Action::MouseMove(DeltaCoordinates { x: 2, y: -8 }))
    ));
}

#[test]
fn actions_mouse_button() {
    let mut mouse_btn: &[u8] = &[4u8, 0u8];
    assert!(matches!(Action::decode(&mut mouse_btn), Ok(Action::MouseClick(Button::Left))));
}

#[test]
fn mouse_sensitivity() {
    // Tags 5 and 6 are the disconnect and shutdown actions on the wire.
    let mut sense_down: &[u8] = &[5u8];
    let mut sense_up: &[u8] = &[6u8];

    assert!(matches!(Action::decode(&mut sense_down), Ok(Action::Disconnect)));
    assert!(matches!(Action::decode(&mut sense_up), Ok(Action::Shutdown)));
}

#[test]
fn actions_disconnect() {
    let mut disconnect: &[u8] = &[5u8];
    assert!(matches!(Action::decode(&mut disconnect), Ok(Action::Disconnect)));
}

#[test]
fn actions_terminal_command_open_firefox() {
    let mut firefox_command: Vec<u8> = vec![7u8];
    let utf8_bytes: &[u8] = "firefox".as_bytes();
    firefox_command.push(utf8_bytes.len() as u8);
    firefox_command.append(&mut utf8_bytes.to_owned());
    let mut bytes = firefox_command.as_slice();

    if let Ok(Action::TerminalCommand(TerminalCommand { command })) = Action::decode(&mut bytes) {
        assert_eq!(command, "firefox");
        assert_eq!(bytes.len(), 0);
    } else {
        panic!("Expected TerminalCommand but got something else.");
    }
}

#[test]
fn decode_single_key_press_moves_cursor_to_end() {
    let input: &[u8] = &[0x00, 0x06];
    let mut cursor = input;
    assert_eq!(Action::decode(&mut cursor), Ok(Action::KeyPress(Key::Enter)));
    assert_eq!(cursor.len(), 0);
}

#[test]
fn decode_packed_frame_in_order() {
    let input: &[u8] = &[0x00, 0x00, 0x02, 0x02, 0x03, 0x02, 0xF8];
    let mut cursor = input;
    assert_eq!(Action::decode(&mut cursor), Ok(Action::KeyPress(Key::Backspace)));
    assert_eq!(cursor.len(), 5);
    assert_eq!(Action::decode(&mut cursor), Ok(Action::Scroll(2)));
    assert_eq!(cursor.len(), 3);
    assert_eq!(
        Action::decode(&mut cursor),
        Ok(Action::MouseMove(DeltaCoordinates { x: 2, y: -8 }))
    );
    assert_eq!(cursor.len(), 0);
}

#[test]
fn decode_terminal_command_literal_bytes() {
    let input: &[u8] = &[0x07, 0x07, b'f', b'i', b'r', b'e', b'f', b'o', b'x'];
    let mut cursor = input;
    assert_eq!(
        Action::decode(&mut cursor),
        Ok(Action::TerminalCommand(TerminalCommand { command: "firefox".to_string() }))
    );
    assert!(cursor.is_empty());
}

#[test]
fn decode_mouse_down_and_up() {
    let mut down: &[u8] = &[8u8, 0u8];
    let mut up: &[u8] = &[9u8, 0u8];
    assert_eq!(Action::decode(&mut down), Ok(Action::MouseDown(Button::Left)));
    assert_eq!(Action::decode(&mut up), Ok(Action::MouseUp(Button::Left)));
}

#[test]
fn decode_unknown_key_is_no_op() {
    let mut unknown: &[u8] = &[0u8, 200u8];
    assert_eq!(Action::decode(&mut unknown), Ok(Action::KeyPress(Key::NoOp)));
    let mut brightness: &[u8] = &[0u8, 11u8];
    assert_eq!(Action::decode(&mut brightness), Ok(Action::KeyPress(Key::BrightnessDown)));
}

#[test]
fn decode_errors_leave_cursor_in_place() {
    let unknown_tag: &[u8] = &[10u8, 1u8];
    let mut cursor = unknown_tag;
    assert_eq!(Action::decode(&mut cursor), Err(DecodeError::UnknownTag(10)));
    assert_eq!(cursor.len(), 2);

    let mut empty: &[u8] = &[];
    assert_eq!(Action::decode(&mut empty), Err(DecodeError::Truncated));

    let mut short_move: &[u8] = &[3u8, 1u8];
    assert_eq!(Action::decode(&mut short_move), Err(DecodeError::Truncated));
    assert_eq!(short_move.len(), 2);

    let mut short_command: &[u8] = &[7u8, 5u8, b'l', b's'];
    assert_eq!(Action::decode(&mut short_command), Err(DecodeError::Truncated));

    let mut bad_utf8: &[u8] = &[7u8, 2u8, 0xC3, 0x28];
    assert_eq!(Action::decode(&mut bad_utf8), Err(DecodeError::InvalidUtf8));

    let mut non_ascii_text: &[u8] = &[1u8, 0xE9];
    assert_eq!(Action::decode(&mut non_ascii_text), Err(DecodeError::InvalidUtf8));

    let mut bad_button: &[u8] = &[4u8, 3u8];
    assert_eq!(Action::decode(&mut bad_button), Err(DecodeError::UnknownButton(3)));
}

#[test]
fn decode_multibyte_command() {
    let word = "café ls";
    let bytes = word.as_bytes();
    let mut input: Vec<u8> = vec![7u8, bytes.len() as u8];
    input.extend_from_slice(bytes);
    let mut cursor = input.as_slice();
    assert_eq!(
        Action::decode(&mut cursor),
        Ok(Action::TerminalCommand(TerminalCommand { command: word.to_string() }))
    );
    assert!(cursor.is_empty());
}

#[test]
fn encode_gives_wire_bytes() {
    assert_eq!(Action::KeyPress(Key::Enter).encode(), vec![0u8, 6u8]);
    assert_eq!(Action::KeyPress(Key::NoOp).encode(), vec![0u8, 255u8]);
    assert_eq!(Action::Text('V').encode(), vec![1u8, 86u8]);
    assert_eq!(Action::Scroll(-5).encode(), vec![2u8, 0xFB]);
    assert_eq!(
        Action::MouseMove(DeltaCoordinates { x: 2, y: -8 }).encode(),
        vec![3u8, 2u8, 0xF8]
    );
    assert_eq!(Action::MouseClick(Button::Left).encode(), vec![4u8, 0u8]);
    assert_eq!(Action::Disconnect.encode(), vec![5u8]);
    assert_eq!(Action::Shutdown.encode(), vec![6u8]);
    assert_eq!(
        Action::TerminalCommand(TerminalCommand { command: "ls".to_string() }).encode(),
        vec![7u8, 2u8, b'l', b's']
    );
    assert_eq!(Action::MouseDown(Button::Left).encode(), vec![8u8, 0u8]);
    assert_eq!(Action::MouseUp(Button::Left).encode(), vec![9u8, 0u8]);
}

fn sample_actions() -> Vec<Action> {
    vec![
        Action::KeyPress(Key::PreviousTab),
        Action::Text('z'),
        Action::Scroll(-128),
        Action::MouseMove(DeltaCoordinates { x: 127, y: -1 }),
        Action::MouseClick(Button::Left),
        Action::Disconnect,
        Action::Shutdown,
        Action::TerminalCommand(TerminalCommand { command: "echo hé".to_string() }),
        Action::MouseDown(Button::Left),
        Action::MouseUp(Button::Left),
    ]
}

#[test]
fn encode_then_decode_gives_each_action_back() {
    for action in sample_actions() {
        let bytes = action.encode();
        let mut cursor = bytes.as_slice();
        assert_eq!(Action::decode(&mut cursor), Ok(action.clone()));
        assert!(cursor.is_empty());
    }
}

#[test]
fn decoding_a_stream_drains_it_in_order() {
    let actions = sample_actions();
    let mut stream: Vec<u8> = Vec::new();
    for action in &actions {
        stream.extend(action.encode());
    }
    let mut cursor = stream.as_slice();
    let mut decoded: Vec<Action> = Vec::new();
    while !cursor.is_empty() {
        decoded.push(Action::decode(&mut cursor).unwrap());
    }
    assert_eq!(decoded, actions);
}

#[test]
fn disconnect_short_circuits_frame() {
    let plan = decode_frame(&[0x05, 0x00, 0x00]);
    assert_eq!(plan.status, Ok(ConnectionStatus::Disconnected));
    assert!(plan.actions.is_empty());
}

#[test]
fn frame_with_actions_before_disconnect() {
    let plan = decode_frame(&[0x02, 0x01, 0x05, 0x00, 0x00]);
    assert_eq!(plan.status, Ok(ConnectionStatus::Disconnected));
    assert_eq!(plan.actions, vec![Action::Scroll(1)]);
}

#[test]
fn frame_stops_at_decode_error() {
    let plan = decode_frame(&[0x02, 0x01, 0x0C]);
    assert_eq!(plan.status, Err(DecodeError::UnknownTag(12)));
    assert_eq!(plan.actions, vec![Action::Scroll(1)]);
}

#[test]
fn empty_frame_keeps_connection() {
    let plan = decode_frame(&[]);
    assert_eq!(plan.status, Ok(ConnectionStatus::Connected));
    assert!(plan.actions.is_empty());
}

#[test]
fn device_parse_several_commands_at_once() {
    let commands: &[u8] = &[0u8, 0u8, 2u8, 2u8, 3u8, 2u8, (-8i8) as u8];
    let plan = decode_frame(commands);
    assert_eq!(plan.status, Ok(ConnectionStatus::Connected));
    assert_eq!(
        plan.actions,
        vec![
            Action::KeyPress(Key::Backspace),
            Action::Scroll(2),
            Action::MouseMove(DeltaCoordinates { x: 2, y: -8 }),
        ]
    );
}

#[test]
fn mobile_controller_parse_several_commands_at_once() {
    let commands: &[u8] = &[0u8, 0u8, 2u8, 2u8, 3u8, 2u8, (-8i8) as u8];
    let plan = decode_frame(commands);
    assert_eq!(plan.status, Ok(ConnectionStatus::Connected));
    assert_eq!(plan.actions.len(), 3);
}
