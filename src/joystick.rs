use vstd::prelude::*;

verus! {

/// The last joystick sample: two analog axes and the push button.
#[derive(Clone, Copy, Debug, PartialEq, Eq, Structural)]
pub struct Joystick {
    pub x: u16,
    pub y: u16,
    pub pressed: bool,
}

impl Joystick {
    /// A joystick at the origin with the button up.
    pub fn init() -> (r: Self)
        ensures
            r == (Joystick { x: 0, y: 0, pressed: false }),
    {
        Joystick { x: 0, y: 0, pressed: false }
    }

    /// Replaces the sample with a new one; nothing of the old one is kept.
    pub fn update(&mut self, x: u16, y: u16, pressed: bool)
        ensures
            *final(self) == (Joystick { x, y, pressed }),
    {
        self.x = x;
        self.y = y;
        self.pressed = pressed;
    }
}

} // verus!
