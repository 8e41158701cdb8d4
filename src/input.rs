//! What the host input backend is asked to do for each action: key presses
//! and releases, clicks, pointer motion, scrolling and typed text.
use crate::actions::{Action, ActionModel, Button};
use crate::keybinds::{button_binding, key_binding, KeyBindings, OsButton, OsKey};
use vstd::prelude::*;

verus! {

/// How a key or a button is driven.
#[derive(Debug, Clone, Copy, PartialEq, Eq, Structural)]
pub enum Direction {
    Press,
    Release,
    /// A press followed by a release.
    Click,
}

/// One request to the host input backend.
#[derive(Debug, Clone, Copy, PartialEq, Eq, Structural)]
pub enum InputOp {
    /// Moves the pointer relative to where it is.
    MoveMouse { dx: i32, dy: i32 },
    /// Turns the vertical wheel.
    Scroll(i32),
    Key(OsKey, Direction),
    Button(OsButton, Direction),
    /// Types one character.
    Text(char),
}

/// Pointer and wheel settings of a device.
#[derive(Debug, Clone, Copy, PartialEq, Eq, Structural)]
pub struct MotionSettings {
    pub move_x_sense: u8,
    pub move_y_sense: u8,
    pub wheel_sense: u8,
    pub move_delay: u32,
}

/// Pressing every key of a combination in order, then releasing them in
/// reverse order.
pub open spec fn combo_ops(c: Seq<OsKey>) -> Seq<InputOp> {
    Seq::new(c.len(), |i: int| InputOp::Key(c[i], Direction::Press)) + Seq::new(
        c.len(),
        |i: int| InputOp::Key(c[c.len() - 1 - i], Direction::Release),
    )
}

/// Driving the host button of `b`, if it has one.
pub open spec fn button_ops(b: Button, d: Direction) -> Seq<InputOp> {
    match button_binding(b) {
        Some(o) => seq![InputOp::Button(o, d)],
        None => Seq::empty(),
    }
}

/// What the backend is asked to do for an action. A disconnect, a shutdown
/// and a terminal command ask nothing of it.
pub open spec fn action_ops(m: MotionSettings, a: ActionModel) -> Seq<InputOp> {
    match a {
        ActionModel::KeyPress(k) => combo_ops(key_binding(k)),
        ActionModel::Text(c) => seq![InputOp::Text(c)],
        ActionModel::Scroll(d) => seq![InputOp::Scroll(d as i32)],
        ActionModel::MouseMove(c) => seq![
            InputOp::MoveMouse {
                dx: (m.move_x_sense * c.x) as i32,
                dy: (m.move_y_sense * c.y) as i32,
            },
        ],
        ActionModel::MouseClick(b) => button_ops(b, Direction::Click),
        ActionModel::MouseDown(b) => button_ops(b, Direction::Press),
        ActionModel::MouseUp(b) => button_ops(b, Direction::Release),
        _ => Seq::empty(),
    }
}

/// The sensitivity after adding `delta`: never below 1 nor above 255.
pub open spec fn adjusted_sense(sense: u8, delta: i8) -> u8 {
    let v = sense + delta;
    if v < 1 {
        1
    } else if v > 255 {
        255
    } else {
        v as u8
    }
}

/// Turns actions into backend requests through the key bindings.
pub struct InputMapper {
    pub bindings: KeyBindings,
    pub motion: MotionSettings,
}

fn combo_to_ops(c: &Vec<OsKey>) -> (r: Vec<InputOp>)
    ensures
        r@ == combo_ops(c@),
{
    let mut out: Vec<InputOp> = Vec::new();
    let mut i: usize = 0;
    while i < c.len()
        invariant
            i <= c@.len(),
            out@ == Seq::new(i as nat, |j: int| InputOp::Key(c@[j], Direction::Press)),
        decreases c@.len() - i,
    {
        out.push(InputOp::Key(c[i], Direction::Press));
        i += 1;
        assert(out@ =~= Seq::new(i as nat, |j: int| InputOp::Key(c@[j], Direction::Press)));
    }
    let ghost presses = out@;
    let mut j: usize = c.len();
    while j > 0
        invariant
            j <= c@.len(),
            presses == Seq::new(c@.len(), |k: int| InputOp::Key(c@[k], Direction::Press)),
            out@ == presses + Seq::new(
                (c@.len() - j) as nat,
                |k: int| InputOp::Key(c@[c@.len() - 1 - k], Direction::Release),
            ),
        decreases j,
    {
        j -= 1;
        out.push(InputOp::Key(c[j], Direction::Release));
        assert(out@ =~= presses + Seq::new(
            (c@.len() - j) as nat,
            |k: int| InputOp::Key(c@[c@.len() - 1 - k], Direction::Release),
        ));
    }
    assert(out@ =~= combo_ops(c@));
    out
}

/// A sensitivity times a delta fits in an `i32`.
proof fn lemma_scaled_delta_fits(sense: u8, d: i8)
    ensures
        -32768 <= sense * d <= 32640,
{
    let a = sense as int;
    let b = d as int;
    assert(-32768 <= a * b <= 32640) by (nonlinear_arith)
        requires
            0 <= a <= 255,
            -128 <= b <= 127,
    ;
}

impl InputMapper {
    /// The mapper holds the startup key bindings.
    pub closed spec fn wf(&self) -> bool {
        self.bindings.wf()
    }

    pub fn new(move_x_sense: u8, move_y_sense: u8, wheel_sense: u8, move_delay: u32) -> (r: Self)
        ensures
            r.wf(),
            r.motion == (MotionSettings { move_x_sense, move_y_sense, wheel_sense, move_delay }),
    {
        InputMapper {
            bindings: KeyBindings::new(),
            motion: MotionSettings { move_x_sense, move_y_sense, wheel_sense, move_delay },
        }
    }

    /// The backend requests for one action.
    pub fn plan(&self, action: &Action) -> (r: Vec<InputOp>)
        requires
            self.wf(),
        ensures
            r@ == action_ops(self.motion, action@),
    {
        match action {
            Action::KeyPress(k) => match self.bindings.translate_to_os_key(k) {
                Some(combo) => combo_to_ops(&combo),
                None => {
                    let r: Vec<InputOp> = Vec::new();
                    assert(r@ =~= combo_ops(key_binding(*k)));
                    r
                },
            },
            Action::Text(c) => vec![InputOp::Text(*c)],
            Action::Scroll(d) => vec![InputOp::Scroll(*d as i32)],
            Action::MouseMove(c) => {
                proof {
                    lemma_scaled_delta_fits(self.motion.move_x_sense, c.x);
                    lemma_scaled_delta_fits(self.motion.move_y_sense, c.y);
                }
                let dx = self.motion.move_x_sense as i32 * c.x as i32;
                let dy = self.motion.move_y_sense as i32 * c.y as i32;
                vec![InputOp::MoveMouse { dx, dy }]
            },
            Action::MouseClick(b) => self.button(b, Direction::Click),
            Action::MouseDown(b) => self.button(b, Direction::Press),
            Action::MouseUp(b) => self.button(b, Direction::Release),
            _ => Vec::new(),
        }
    }

    fn button(&self, b: &Button, d: Direction) -> (r: Vec<InputOp>)
        ensures
            r@ == button_ops(*b, d),
    {
        match self.bindings.translate_to_os_button(b) {
            Some(o) => vec![InputOp::Button(o, d)],
            None => Vec::new(),
        }
    }

    /// Adds `delta` to the pointer sensitivity of both axes, keeping it
    /// between 1 and 255.
    pub fn add_sensitivity(&mut self, sensitivity_delta: i8)
        requires
            old(self).wf(),
        ensures
            final(self).wf(),
            final(self).motion == (MotionSettings {
                move_x_sense: adjusted_sense(old(self).motion.move_x_sense, sensitivity_delta),
                move_y_sense: adjusted_sense(old(self).motion.move_x_sense, sensitivity_delta),
                ..old(self).motion
            }),
    {
        let v: i16 = self.motion.move_x_sense as i16 + sensitivity_delta as i16;
        let sense: u8 = if v < 1 {
            1
        } else if v > 255 {
            255
        } else {
            v as u8
        };
        self.motion.move_x_sense = sense;
        self.motion.move_y_sense = sense;
    }
}

} // verus!
