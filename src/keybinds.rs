//! The read-only mapping from abstract keys and buttons to host input
//! symbols: single keys, or ordered combinations such as Ctrl+Shift+Tab.
use crate::actions::{Button, Key};
use vstd::prelude::*;

verus! {

/// A key of the host's input backend.
#[derive(Debug, Clone, Copy, PartialEq, Eq, Hash, Structural)]
pub enum OsKey {
    Backspace,
    VolumeMute,
    VolumeDown,
    VolumeUp,
    MediaStop,
    MediaPlayPause,
    Return,
    F11,
    Control,
    Shift,
    Tab,
    Unicode(char),
}

/// A mouse button of the host's input backend.
#[derive(Debug, Clone, Copy, PartialEq, Eq, Hash, Structural)]
pub enum OsButton {
    Left,
}

/// The number of abstract keys, the no-op key included.
pub const KEY_COUNT: usize = 13;

/// Where a key's combination is stored.
pub open spec fn key_slot(k: Key) -> int {
    match k {
        Key::Backspace => 0,
        Key::VolumeMute => 1,
        Key::VolumeDown => 2,
        Key::VolumeUp => 3,
        Key::Pause => 4,
        Key::Play => 5,
        Key::Enter => 6,
        Key::Fullscreen => 7,
        Key::CloseTab => 8,
        Key::NextTab => 9,
        Key::PreviousTab => 10,
        Key::BrightnessDown => 11,
        Key::NoOp => 12,
    }
}

/// The host keys that an abstract key stands for, pressed in this order; an
/// empty combination means that the key has no mapping on this host.
pub open spec fn key_binding(k: Key) -> Seq<OsKey> {
    match k {
        Key::Backspace => seq![OsKey::Backspace],
        Key::VolumeMute => seq![OsKey::VolumeMute],
        Key::VolumeDown => seq![OsKey::VolumeDown],
        Key::VolumeUp => seq![OsKey::VolumeUp],
        Key::Pause => seq![OsKey::MediaStop],
        Key::Play => seq![OsKey::MediaPlayPause],
        Key::Enter => seq![OsKey::Return],
        Key::Fullscreen => seq![OsKey::F11],
        Key::CloseTab => seq![OsKey::Control, OsKey::Unicode('w')],
        Key::NextTab => seq![OsKey::Control, OsKey::Tab],
        Key::PreviousTab => seq![OsKey::Control, OsKey::Shift, OsKey::Tab],
        Key::BrightnessDown => Seq::empty(),
        Key::NoOp => Seq::empty(),
    }
}

/// The host button that an abstract button stands for.
pub open spec fn button_binding(b: Button) -> Option<OsButton> {
    match b {
        Button::Left => Some(OsButton::Left),
    }
}

/// The key and button tables, built once at startup.
pub struct KeyBindings {
    key_bindings: Vec<Vec<OsKey>>,
}

fn slot_of(k: &Key) -> (r: usize)
    ensures
        r as int == key_slot(*k),
{
    match k {
        Key::Backspace => 0,
        Key::VolumeMute => 1,
        Key::VolumeDown => 2,
        Key::VolumeUp => 3,
        Key::Pause => 4,
        Key::Play => 5,
        Key::Enter => 6,
        Key::Fullscreen => 7,
        Key::CloseTab => 8,
        Key::NextTab => 9,
        Key::PreviousTab => 10,
        Key::BrightnessDown => 11,
        Key::NoOp => 12,
    }
}

fn copy_keys(v: &Vec<OsKey>) -> (r: Vec<OsKey>)
    ensures
        r@ == v@,
{
    let mut out: Vec<OsKey> = Vec::new();
    let mut i: usize = 0;
    while i < v.len()
        invariant
            i <= v@.len(),
            out@ == v@.subrange(0, i as int),
        decreases v@.len() - i,
    {
        out.push(v[i]);
        i += 1;
        assert(out@ =~= v@.subrange(0, i as int));
    }
    assert(v@.subrange(0, v@.len() as int) =~= v@);
    out
}

impl KeyBindings {
    /// The tables hold exactly the bindings of `key_binding`.
    pub closed spec fn wf(&self) -> bool {
        &&& self.key_bindings@.len() == KEY_COUNT
        &&& forall|k: Key| #[trigger] self.key_bindings@[key_slot(k)]@ == key_binding(k)
    }

    /// Builds the tables.
    pub fn new() -> (r: Self)
        ensures
            r.wf(),
    {
        let key_bindings: Vec<Vec<OsKey>> = vec![
            vec![OsKey::Backspace],
            vec![OsKey::VolumeMute],
            vec![OsKey::VolumeDown],
            vec![OsKey::VolumeUp],
            vec![OsKey::MediaStop],
            vec![OsKey::MediaPlayPause],
            vec![OsKey::Return],
            vec![OsKey::F11],
            vec![OsKey::Control, OsKey::Unicode('w')],
            vec![OsKey::Control, OsKey::Tab],
            vec![OsKey::Control, OsKey::Shift, OsKey::Tab],
            Vec::new(),
            Vec::new(),
        ];
        let r = KeyBindings { key_bindings };
        assert forall|k: Key| #[trigger] r.key_bindings@[key_slot(k)]@ == key_binding(k) by {
            match k {
                Key::CloseTab => assert(r.key_bindings@[8]@ =~= seq![OsKey::Control, OsKey::Unicode('w')]),
                Key::NextTab => assert(r.key_bindings@[9]@ =~= seq![OsKey::Control, OsKey::Tab]),
                Key::PreviousTab => assert(r.key_bindings@[10]@ =~= seq![OsKey::Control, OsKey::Shift, OsKey::Tab]),
                Key::BrightnessDown => assert(r.key_bindings@[11]@ =~= Seq::<OsKey>::empty()),
                Key::NoOp => assert(r.key_bindings@[12]@ =~= Seq::<OsKey>::empty()),
                _ => {},
            }
        }
        r
    }

    /// The host keys of `key`, or `None` where it has no mapping.
    pub fn translate_to_os_key(&self, key: &Key) -> (r: Option<Vec<OsKey>>)
        requires
            self.wf(),
        ensures
            key_binding(*key).len() == 0 ==> r is None,
            key_binding(*key).len() > 0 ==> (r matches Some(v) && v@ == key_binding(*key)),
    {
        let combo = &self.key_bindings[slot_of(key)];
        assert(combo@ == key_binding(*key));
        if combo.len() == 0 {
            None
        } else {
            Some(copy_keys(combo))
        }
    }

    /// The host button of `button`, or `None` where it has no mapping.
    pub fn translate_to_os_button(&self, button: &Button) -> (r: Option<OsButton>)
        ensures
            r == button_binding(*button),
    {
        match button {
            Button::Left => Some(OsButton::Left),
        }
    }
}

} // verus!
