//! Binary framing of input actions.
//!
//! Every action starts with a one-byte tag followed by a payload whose size
//! the tag decides; a frame is a plain concatenation of actions.
use vstd::prelude::*;
use vstd::utf8::{decode_utf8, encode_utf8, valid_utf8};

verus! {

/// Abstract keys that a controller can press.
#[derive(Debug, Clone, Copy, PartialEq, Eq, Hash, Structural)]
pub enum Key {
    Backspace,
    VolumeMute,
    VolumeDown,
    VolumeUp,
    Pause,
    Play,
    Enter,
    Fullscreen,
    CloseTab,
    NextTab,
    PreviousTab,
    BrightnessDown,
    /// Stands for every code that names no key: it has no effect on the host.
    NoOp,
}

/// The code that stands for every unknown key on the wire.
pub const NO_OP_KEY_CODE: u8 = 255;

/// The key that a code on the wire names; unknown codes give `Key::NoOp`.
pub open spec fn key_from_code(b: u8) -> Key {
    if b == 0 {
        Key::Backspace
    } else if b == 1 {
        Key::VolumeMute
    } else if b == 2 {
        Key::VolumeDown
    } else if b == 3 {
        Key::VolumeUp
    } else if b == 4 {
        Key::Pause
    } else if b == 5 {
        Key::Play
    } else if b == 6 {
        Key::Enter
    } else if b == 7 {
        Key::Fullscreen
    } else if b == 8 {
        Key::CloseTab
    } else if b == 9 {
        Key::NextTab
    } else if b == 10 {
        Key::PreviousTab
    } else if b == 11 {
        Key::BrightnessDown
    } else {
        Key::NoOp
    }
}

/// The code that a key is written as.
pub open spec fn key_code(k: Key) -> u8 {
    match k {
        Key::Backspace => 0,
        Key::VolumeMute => 1,
        Key::VolumeDown => 2,
        Key::VolumeUp => 3,
        Key::Pause => 4,
        Key::Play => 5,
        Key::Enter => 6,
        Key::Fullscreen => 7,
        Key::CloseTab => 8,
        Key::NextTab => 9,
        Key::PreviousTab => 10,
        Key::BrightnessDown => 11,
        Key::NoOp => NO_OP_KEY_CODE,
    }
}

impl Key {
    /// Reads a key code; an unknown code gives the no-op key.
    pub fn from_code(b: u8) -> (r: Key)
        ensures
            r == key_from_code(b),
    {
        match b {
            0 => Key::Backspace,
            1 => Key::VolumeMute,
            2 => Key::VolumeDown,
            3 => Key::VolumeUp,
            4 => Key::Pause,
            5 => Key::Play,
            6 => Key::Enter,
            7 => Key::Fullscreen,
            8 => Key::CloseTab,
            9 => Key::NextTab,
            10 => Key::PreviousTab,
            11 => Key::BrightnessDown,
            _ => Key::NoOp,
        }
    }

    /// The code this key is written as.
    pub fn code(&self) -> (r: u8)
        ensures
            r == key_code(*self),
    {
        match self {
            Key::Backspace => 0,
            Key::VolumeMute => 1,
            Key::VolumeDown => 2,
            Key::VolumeUp => 3,
            Key::Pause => 4,
            Key::Play => 5,
            Key::Enter => 6,
            Key::Fullscreen => 7,
            Key::CloseTab => 8,
            Key::NextTab => 9,
            Key::PreviousTab => 10,
            Key::BrightnessDown => 11,
            Key::NoOp => NO_OP_KEY_CODE,
        }
    }
}

/// Mouse buttons.
#[derive(Debug, Clone, Copy, PartialEq, Eq, Hash, Structural)]
pub enum Button {
    Left,
}

/// The button that a code names, if any.
pub open spec fn button_from_code(b: u8) -> Option<Button> {
    if b == 0 {
        Some(Button::Left)
    } else {
        None
    }
}

/// The code that a button is written as.
pub open spec fn button_code(b: Button) -> u8 {
    match b {
        Button::Left => 0,
    }
}

impl Button {
    /// Reads a button code.
    pub fn from_code(b: u8) -> (r: Option<Button>)
        ensures
            r == button_from_code(b),
    {
        if b == 0 {
            Some(Button::Left)
        } else {
            None
        }
    }

    /// The code this button is written as.
    pub fn code(&self) -> (r: u8)
        ensures
            r == button_code(*self),
    {
        match self {
            Button::Left => 0,
        }
    }
}


/// How far the mouse moved on each axis since the last report.
#[derive(Debug, Clone, Copy, PartialEq, Eq, Hash, Structural)]
pub struct DeltaCoordinates {
    pub x: i8,
    pub y: i8,
}

/// A command line to run in a shell on the host.
#[derive(Debug, Clone, PartialEq, Eq, Hash)]
pub struct TerminalCommand {
    pub command: String,
}

/// The tag that opens each action on the wire.
#[derive(Debug, Clone, Copy, PartialEq, Eq, Structural)]
pub enum ActionType {
    KeyPress,
    Text,
    Scroll,
    MouseMove,
    MouseClick,
    Disconnect,
    Shutdown,
    TerminalCommand,
    MouseDown,
    MouseUp,
}

/// The action type that a tag byte names, if any.
pub open spec fn action_type_of(t: u8) -> Option<ActionType> {
    if t == 0 {
        Some(ActionType::KeyPress)
    } else if t == 1 {
        Some(ActionType::Text)
    } else if t == 2 {
        Some(ActionType::Scroll)
    } else if t == 3 {
        Some(ActionType::MouseMove)
    } else if t == 4 {
        Some(ActionType::MouseClick)
    } else if t == 5 {
        Some(ActionType::Disconnect)
    } else if t == 6 {
        Some(ActionType::Shutdown)
    } else if t == 7 {
        Some(ActionType::TerminalCommand)
    } else if t == 8 {
        Some(ActionType::MouseDown)
    } else if t == 9 {
        Some(ActionType::MouseUp)
    } else {
        None
    }
}

impl ActionType {
    /// Reads a tag byte.
    pub fn from_u8(action_type: u8) -> (r: Option<Self>)
        ensures
            r == action_type_of(action_type),
    {
        match action_type {
            0 => Some(ActionType::KeyPress),
            1 => Some(ActionType::Text),
            2 => Some(ActionType::Scroll),
            3 => Some(ActionType::MouseMove),
            4 => Some(ActionType::MouseClick),
            5 => Some(ActionType::Disconnect),
            6 => Some(ActionType::Shutdown),
            7 => Some(ActionType::TerminalCommand),
            8 => Some(ActionType::MouseDown),
            9 => Some(ActionType::MouseUp),
            _ => None,
        }
    }
}

/// One unit of input decoded from the wire.
#[derive(Debug, Clone, PartialEq, Eq)]
pub enum Action {
    KeyPress(Key),
    Text(char),
    Scroll(i8),
    MouseMove(DeltaCoordinates),
    MouseClick(Button),
    Disconnect,
    Shutdown,
    TerminalCommand(TerminalCommand),
    MouseDown(Button),
    MouseUp(Button),
}

/// The mathematical value of an action: a terminal command is its characters.
pub enum ActionModel {
    KeyPress(Key),
    Text(char),
    Scroll(i8),
    MouseMove(DeltaCoordinates),
    MouseClick(Button),
    Disconnect,
    Shutdown,
    TerminalCommand(Seq<char>),
    MouseDown(Button),
    MouseUp(Button),
}

impl View for Action {
    type V = ActionModel;

    open spec fn view(&self) -> ActionModel {
        match self {
            Action::KeyPress(k) => ActionModel::KeyPress(*k),
            Action::Text(c) => ActionModel::Text(*c),
            Action::Scroll(d) => ActionModel::Scroll(*d),
            Action::MouseMove(c) => ActionModel::MouseMove(*c),
            Action::MouseClick(b) => ActionModel::MouseClick(*b),
            Action::Disconnect => ActionModel::Disconnect,
            Action::Shutdown => ActionModel::Shutdown,
            Action::TerminalCommand(t) => ActionModel::TerminalCommand(t.command@),
            Action::MouseDown(b) => ActionModel::MouseDown(*b),
            Action::MouseUp(b) => ActionModel::MouseUp(*b),
        }
    }
}

/// Why a frame could not be decoded.
#[derive(Debug, Clone, Copy, PartialEq, Eq, Structural)]
pub enum DecodeError {
    /// The tag byte names no action.
    UnknownTag(u8),
    /// The input ends before the payload that the tag announces.
    Truncated,
    /// A text payload is not ASCII, or a command is not UTF-8.
    InvalidUtf8,
    /// The button code names no button.
    UnknownButton(u8),
}

/// The byte that carries a signed delta.
pub open spec fn delta_byte(d: i8) -> u8 {
    d as u8
}

/// The signed delta that a byte carries.
pub open spec fn delta_of(b: u8) -> i8 {
    b as i8
}

/// The button action that tag `t` builds around `b`.
pub open spec fn button_action(t: ActionType, b: Button) -> ActionModel {
    match t {
        ActionType::MouseDown => ActionModel::MouseDown(b),
        ActionType::MouseUp => ActionModel::MouseUp(b),
        _ => ActionModel::MouseClick(b),
    }
}

/// Reads the button payload of a click, press or release.
pub open spec fn parse_button(s: Seq<u8>, t: ActionType) -> Result<(ActionModel, nat), DecodeError> {
    if s.len() < 2 {
        Err(DecodeError::Truncated)
    } else {
        match button_from_code(s[1]) {
            Some(b) => Ok((button_action(t, b), 2)),
            None => Err(DecodeError::UnknownButton(s[1])),
        }
    }
}

/// Decodes the first action of `s`: the action and the number of bytes it
/// takes, or why it cannot be read.
pub open spec fn parse_action(s: Seq<u8>) -> Result<(ActionModel, nat), DecodeError> {
    if s.len() == 0 {
        Err(DecodeError::Truncated)
    } else {
        match action_type_of(s[0]) {
            None => Err(DecodeError::UnknownTag(s[0])),
            Some(ActionType::KeyPress) => if s.len() < 2 {
                Err(DecodeError::Truncated)
            } else {
                Ok((ActionModel::KeyPress(key_from_code(s[1])), 2))
            },
            Some(ActionType::Text) => if s.len() < 2 {
                Err(DecodeError::Truncated)
            } else if s[1] >= 128 {
                Err(DecodeError::InvalidUtf8)
            } else {
                Ok((ActionModel::Text(s[1] as char), 2))
            },
            Some(ActionType::Scroll) => if s.len() < 2 {
                Err(DecodeError::Truncated)
            } else {
                Ok((ActionModel::Scroll(delta_of(s[1])), 2))
            },
            Some(ActionType::MouseMove) => if s.len() < 3 {
                Err(DecodeError::Truncated)
            } else {
                Ok((ActionModel::MouseMove(DeltaCoordinates { x: delta_of(s[1]), y: delta_of(s[2]) }), 3))
            },
            Some(ActionType::MouseClick) => parse_button(s, ActionType::MouseClick),
            Some(ActionType::Disconnect) => Ok((ActionModel::Disconnect, 1)),
            Some(ActionType::Shutdown) => Ok((ActionModel::Shutdown, 1)),
            Some(ActionType::TerminalCommand) => if s.len() < 2 {
                Err(DecodeError::Truncated)
            } else if s.len() < 2 + s[1] {
                Err(DecodeError::Truncated)
            } else if !valid_utf8(s.subrange(2, 2 + s[1])) {
                Err(DecodeError::InvalidUtf8)
            } else {
                Ok((ActionModel::TerminalCommand(decode_utf8(s.subrange(2, 2 + s[1]))), (2 + s[1]) as nat))
            },
            Some(ActionType::MouseDown) => parse_button(s, ActionType::MouseDown),
            Some(ActionType::MouseUp) => parse_button(s, ActionType::MouseUp),
        }
    }
}

/// What `decode` owes: on success the action and the rest of the input, on
/// failure the error of `parse_action` and the input untouched.
pub open spec fn decode_outcome(input: Seq<u8>, r: Result<Action, DecodeError>, rest: Seq<u8>) -> bool {
    match parse_action(input) {
        Ok((m, n)) => match r {
            Ok(a) => a@ == m && rest == input.subrange(n as int, input.len() as int),
            Err(_) => false,
        },
        Err(e) => r == Err::<Action, DecodeError>(e) && rest == input,
    }
}

/// Relies on std::str::from_utf8: it accepts exactly the valid UTF-8 byte
/// sequences, and the string it gives holds the characters they encode.
#[verifier::external_body]
fn utf8_to_string(b: &[u8]) -> (r: Option<String>)
    ensures
        r.is_some() <==> valid_utf8(b@),
        r matches Some(s) ==> s@ == decode_utf8(b@),
{
    match std::str::from_utf8(b) {
        Ok(s) => Some(s.to_string()),
        Err(_) => None,
    }
}


/// Whether an action can be written on the wire: a text character must be
/// ASCII and a command must fit in 255 bytes.
pub open spec fn encodable(a: ActionModel) -> bool {
    match a {
        ActionModel::Text(c) => (c as u32) < 128,
        ActionModel::TerminalCommand(cmd) => encode_utf8(cmd).len() <= 255,
        _ => true,
    }
}

/// The bytes that an action is written as.
pub open spec fn encode_action(a: ActionModel) -> Seq<u8> {
    match a {
        ActionModel::KeyPress(k) => seq![0u8, key_code(k)],
        ActionModel::Text(c) => seq![1u8, (c as u32) as u8],
        ActionModel::Scroll(d) => seq![2u8, delta_byte(d)],
        ActionModel::MouseMove(c) => seq![3u8, delta_byte(c.x), delta_byte(c.y)],
        ActionModel::MouseClick(b) => seq![4u8, button_code(b)],
        ActionModel::Disconnect => seq![5u8],
        ActionModel::Shutdown => seq![6u8],
        ActionModel::TerminalCommand(cmd) => seq![7u8, encode_utf8(cmd).len() as u8] + encode_utf8(cmd),
        ActionModel::MouseDown(b) => seq![8u8, button_code(b)],
        ActionModel::MouseUp(b) => seq![9u8, button_code(b)],
    }
}

/// The bytes of a sequence of actions written one after the other.
pub open spec fn encode_all(actions: Seq<ActionModel>) -> Seq<u8>
    decreases actions.len(),
{
    if actions.len() == 0 {
        Seq::empty()
    } else {
        encode_action(actions[0]) + encode_all(actions.drop_first())
    }
}

/// Decodes actions from the front of `s` until nothing is left.
pub open spec fn parse_all(s: Seq<u8>) -> Result<Seq<ActionModel>, DecodeError>
    decreases s.len(),
{
    if s.len() == 0 {
        Ok(Seq::empty())
    } else {
        match parse_action(s) {
            Err(e) => Err(e),
            Ok((a, n)) => if 0 < n <= s.len() {
                match parse_all(s.subrange(n as int, s.len() as int)) {
                    Ok(tail) => Ok(seq![a] + tail),
                    Err(e) => Err(e),
                }
            } else {
                Err(DecodeError::Truncated)
            },
        }
    }
}

/// A decoded action takes at least one byte and no more than the input holds.
pub proof fn lemma_parse_length(s: Seq<u8>)
    ensures
        parse_action(s) matches Ok((_, n)) ==> 0 < n <= s.len(),
{
}

/// A signed delta survives the trip through its byte.
pub proof fn lemma_delta_round_trip(d: i8)
    ensures
        delta_of(delta_byte(d)) == d,
{
    assert(((d as u8) as i8) == d) by (bit_vector);
}

/// Decoding the bytes of an encodable action, whatever follows them, gives
/// back the action and consumes exactly its bytes.
pub proof fn lemma_decode_encode(a: ActionModel, rest: Seq<u8>)
    requires
        encodable(a),
    ensures
        parse_action(encode_action(a) + rest) == Ok::<(ActionModel, nat), DecodeError>((a, encode_action(a).len())),
{
    let s = encode_action(a) + rest;
    match a {
        ActionModel::KeyPress(k) => {
            assert(s[1] == key_code(k));
            assert(key_from_code(key_code(k)) == k);
        },
        ActionModel::Text(c) => {
            let u = c as u32;
            assert(s[1] == u as u8);
            assert((u as u8) as u32 == u);
            vstd::utf8::char_u32_cast(c, u);
        },
        ActionModel::Scroll(d) => {
            lemma_delta_round_trip(d);
            assert(s[1] == delta_byte(d));
        },
        ActionModel::MouseMove(c) => {
            lemma_delta_round_trip(c.x);
            lemma_delta_round_trip(c.y);
            assert(s[1] == delta_byte(c.x));
            assert(s[2] == delta_byte(c.y));
        },
        ActionModel::TerminalCommand(cmd) => {
            let body = encode_utf8(cmd);
            assert(s[1] == body.len() as u8);
            assert(s.subrange(2, 2 + body.len() as int) =~= body);
            vstd::utf8::encode_utf8_valid_utf8(cmd);
            vstd::utf8::encode_utf8_decode_utf8(cmd);
        },
        ActionModel::MouseClick(b) => {
            assert(s[1] == button_code(b));
        },
        ActionModel::MouseDown(b) => {
            assert(s[1] == button_code(b));
        },
        ActionModel::MouseUp(b) => {
            assert(s[1] == button_code(b));
        },
        _ => {},
    }
}

/// Decoding the concatenated bytes of encodable actions drains the buffer
/// and gives back every action, in order.
pub proof fn lemma_decode_stream(actions: Seq<ActionModel>)
    requires
        forall|i: int| 0 <= i < actions.len() ==> encodable(#[trigger] actions[i]),
    ensures
        parse_all(encode_all(actions)) == Ok::<Seq<ActionModel>, DecodeError>(actions),
    decreases actions.len(),
{
    if actions.len() > 0 {
        let head = encode_action(actions[0]);
        let tail = encode_all(actions.drop_first());
        let s = encode_all(actions);
        assert(s == head + tail);
        assert(encodable(actions[0]));
        lemma_decode_encode(actions[0], tail);
        assert(head.len() > 0);
        assert(s.subrange(head.len() as int, s.len() as int) =~= tail);
        assert forall|i: int| 0 <= i < actions.drop_first().len() implies encodable(
            #[trigger] actions.drop_first()[i],
        ) by {
            assert(actions.drop_first()[i] == actions[i + 1]);
        }
        lemma_decode_stream(actions.drop_first());
        assert(seq![actions[0]] + actions.drop_first() =~= actions);
    } else {
        assert(actions =~= Seq::<ActionModel>::empty());
    }
}

/// Appends a byte slice to a vector.
pub(crate) fn extend_bytes(out: &mut Vec<u8>, b: &[u8])
    ensures
        final(out)@ == old(out)@ + b@,
{
    let mut i: usize = 0;
    while i < b.len()
        invariant
            i <= b@.len(),
            out@ == old(out)@ + b@.subrange(0, i as int),
        decreases b@.len() - i,
    {
        out.push(b[i]);
        i += 1;
        assert(b@.subrange(0, i as int) =~= b@.subrange(0, i - 1 as int).push(b@[i - 1]));
    }
    assert(b@.subrange(0, b@.len() as int) =~= b@);
}

impl Action {
    /// Reads a button payload at `s[1]` into a click, press or release.
    fn decode_button(s: &[u8], t: ActionType) -> (r: Result<(Action, usize), DecodeError>)
        requires
            t == ActionType::MouseClick || t == ActionType::MouseDown || t == ActionType::MouseUp,
            s@.len() >= 1,
        ensures
            match parse_button(s@, t) {
                Ok((m, n)) => r matches Ok((a, k)) && a@ == m && k == n,
                Err(e) => r == Err::<(Action, usize), DecodeError>(e),
            },
    {
        if s.len() < 2 {
            return Err(DecodeError::Truncated);
        }
        match Button::from_code(s[1]) {
            Some(b) => {
                let a = match t {
                    ActionType::MouseClick => Action::MouseClick(b),
                    ActionType::MouseDown => Action::MouseDown(b),
                    _ => Action::MouseUp(b),
                };
                Ok((a, 2))
            },
            None => Err(DecodeError::UnknownButton(s[1])),
        }
    }

    /// Decodes the first action of `s` and the number of bytes it takes.
    fn decode_prefix(s: &[u8]) -> (r: Result<(Action, usize), DecodeError>)
        ensures
            match parse_action(s@) {
                Ok((m, n)) => r matches Ok((a, k)) && a@ == m && k == n,
                Err(e) => r == Err::<(Action, usize), DecodeError>(e),
            },
    {
        if s.len() == 0 {
            return Err(DecodeError::Truncated);
        }
        let tag = s[0];
        match ActionType::from_u8(tag) {
            None => Err(DecodeError::UnknownTag(tag)),
            Some(ActionType::KeyPress) => {
                if s.len() < 2 {
                    return Err(DecodeError::Truncated);
                }
                Ok((Action::KeyPress(Key::from_code(s[1])), 2))
            },
            Some(ActionType::Text) => {
                if s.len() < 2 {
                    return Err(DecodeError::Truncated);
                }
                let b = s[1];
                if b >= 128 {
                    return Err(DecodeError::InvalidUtf8);
                }
                Ok((Action::Text(b as char), 2))
            },
            Some(ActionType::Scroll) => {
                if s.len() < 2 {
                    return Err(DecodeError::Truncated);
                }
                Ok((Action::Scroll(s[1] as i8), 2))
            },
            Some(ActionType::MouseMove) => {
                if s.len() < 3 {
                    return Err(DecodeError::Truncated);
                }
                Ok((Action::MouseMove(DeltaCoordinates { x: s[1] as i8, y: s[2] as i8 }), 3))
            },
            Some(ActionType::Disconnect) => Ok((Action::Disconnect, 1)),
            Some(ActionType::Shutdown) => Ok((Action::Shutdown, 1)),
            Some(ActionType::TerminalCommand) => {
                if s.len() < 2 {
                    return Err(DecodeError::Truncated);
                }
                let size = s[1] as usize;
                if s.len() - 2 < size {
                    return Err(DecodeError::Truncated);
                }
                let body = &s[2..2 + size];
                match utf8_to_string(body) {
                    Some(command) => Ok((Action::TerminalCommand(TerminalCommand { command }), 2 + size)),
                    None => Err(DecodeError::InvalidUtf8),
                }
            },
            Some(t) => Self::decode_button(s, t),
        }
    }

    /// Writes this action on the wire.
    pub fn encode(&self) -> (r: Vec<u8>)
        requires
            encodable(self@),
        ensures
            r@ == encode_action(self@),
    {
        let mut out: Vec<u8> = Vec::new();
        match self {
            Action::KeyPress(k) => {
                out.push(0);
                out.push(k.code());
            },
            Action::Text(c) => {
                out.push(1);
                out.push(*c as u8);
            },
            Action::Scroll(d) => {
                out.push(2);
                out.push(*d as u8);
            },
            Action::MouseMove(c) => {
                out.push(3);
                out.push(c.x as u8);
                out.push(c.y as u8);
            },
            Action::MouseClick(b) => {
                out.push(4);
                out.push(b.code());
            },
            Action::Disconnect => {
                out.push(5);
            },
            Action::Shutdown => {
                out.push(6);
            },
            Action::TerminalCommand(t) => {
                let body = t.command.as_str().as_bytes();
                out.push(7);
                out.push(body.len() as u8);
                extend_bytes(&mut out, body);
            },
            Action::MouseDown(b) => {
                out.push(8);
                out.push(b.code());
            },
            Action::MouseUp(b) => {
                out.push(9);
                out.push(b.code());
            },
        }
        assert(out@ =~= encode_action(self@));
        out
    }

    /// Decodes the action at the front of `encoded` and moves `encoded` past
    /// it. On an error `encoded` is left as it was.
    pub fn decode(encoded: &mut &[u8]) -> (r: Result<Action, DecodeError>)
        ensures
            decode_outcome(old(encoded)@, r, final(encoded)@),
    {
        let bytes: &[u8] = *encoded;
        match Self::decode_prefix(bytes) {
            Ok((a, n)) => {
                let (_, rest) = bytes.split_at(n);
                *encoded = rest;
                Ok(a)
            },
            Err(e) => Err(e),
        }
    }
}

} // verus!
