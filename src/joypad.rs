use vstd::prelude::*;

verus! {

#[derive(Copy, Clone, Debug, PartialEq, Eq, Structural)]
pub enum Mode {
    Pad,
    Buttons,
    Unselected,
}

/// The eight inputs: four directions on the pad, four buttons.
#[derive(Copy, Clone, Debug, PartialEq, Eq, Structural)]
pub enum JoyKey {
    Right,
    Left,
    Up,
    Down,
    A,
    B,
    Select,
    Start,
}

/// Input state: one bit per input, 0 while it is held.
#[derive(Copy, Clone, Debug)]
pub struct Joypad {
    pub pad: u8,
    pub buttons: u8,
    pub mode: Mode,
    pub interrupt: bool,
}

/// Whether the key is a button (rather than a direction), and its bit.
pub open spec fn key_bit(k: JoyKey) -> (bool, u8) {
    match k {
        JoyKey::Right => (false, 0b0001u8),
        JoyKey::Left => (false, 0b0010u8),
        JoyKey::Up => (false, 0b0100u8),
        JoyKey::Down => (false, 0b1000u8),
        JoyKey::A => (true, 0b0001u8),
        JoyKey::B => (true, 0b0010u8),
        JoyKey::Select => (true, 0b0100u8),
        JoyKey::Start => (true, 0b1000u8),
    }
}

/// Pad and button bits after `keys` went down (`pressed`) or up.
pub open spec fn apply_keys(pad: u8, buttons: u8, keys: Seq<JoyKey>, pressed: bool) -> (u8, u8)
    decreases keys.len(),
{
    if keys.len() == 0 {
        (pad, buttons)
    } else {
        let (p, b) = apply_keys(pad, buttons, keys.drop_last(), pressed);
        let (is_button, bit) = key_bit(keys.last());
        let change = |v: u8|
            if pressed {
                v & !bit
            } else {
                v | bit
            };
        if is_button {
            (p, change(b))
        } else {
            (change(p), b)
        }
    }
}

/// Selection made by a write of `value` to the joypad register.
pub open spec fn select_mode(value: u8) -> Mode {
    if value & 0x30 == 0x30 {
        Mode::Unselected
    } else if (value >> 5) & 1 == 0 {
        Mode::Buttons
    } else {
        Mode::Pad
    }
}

/// Value read from the joypad register in a given selection mode.
pub open spec fn joypad_value(j: Joypad) -> u8 {
    match j.mode {
        Mode::Pad => (0xC0u8 + 0x10u8) as u8 | j.pad,
        Mode::Buttons => (0xC0u8 + 0x20u8) as u8 | j.buttons,
        Mode::Unselected => (0xC0u8 + 0x30u8) as u8 | 0xFu8,
    }
}

impl Joypad {
    pub fn new() -> (r: Joypad)
        ensures
            r.pad == 0xF && r.buttons == 0xF && r.mode == Mode::Unselected && !r.interrupt,
    {
        Joypad { pad: 0xF, buttons: 0xF, mode: Mode::Unselected, interrupt: false }
    }

    /// Takes the pending joypad signal: returns it and clears it.
    pub fn is_interrupt(&mut self) -> (r: bool)
        ensures
            r == old(self).interrupt,
            *final(self) == (Joypad { interrupt: false, ..*old(self) }),
    {
        let r = self.interrupt;
        self.interrupt = false;
        r
    }

    /// Selects the pad or the buttons (bit 4 or bit 5 clear), or neither.
    pub fn set_joypad(&mut self, value: u8)
        ensures
            final(self).pad == old(self).pad && final(self).buttons == old(self).buttons,
            final(self).interrupt == old(self).interrupt,
            final(self).mode == select_mode(value),
    {
        if (value >> 4) & 1 == 0 {
            self.mode = Mode::Pad;
        }
        if (value >> 5) & 1 == 0 {
            self.mode = Mode::Buttons;
        }
        if value & 0x30 == 0x30 {
            self.mode = Mode::Unselected;
        }
        proof {
            if value & 0x30 != 0x30 && (value >> 5) & 1 != 0 {
                assert((value >> 4) & 1 == 0) by (bit_vector)
                    requires
                        value & 0x30 != 0x30,
                        (value >> 5) & 1 != 0,
                ;
            }
        }
    }

    pub fn get_joypad(&self) -> (r: u8)
        ensures
            r == joypad_value(*self),
    {
        let retval = 0xC0 + self.get_mode();
        match self.mode {
            Mode::Pad => retval | self.pad,
            Mode::Buttons => retval | self.buttons,
            Mode::Unselected => retval | 0xF,
        }
    }

    fn get_mode(&self) -> (r: u8)
        ensures
            r == match self.mode {
                Mode::Pad => 0x10u8,
                Mode::Buttons => 0x20u8,
                Mode::Unselected => 0x30u8,
            },
    {
        match self.mode {
            Mode::Pad => 0x10,
            Mode::Buttons => 0x20,
            Mode::Unselected => 0x30,
        }
    }

    /// Applies the inputs that went down, then those that went up, since the
    /// last frame; an input going down raises the joypad signal.
    pub fn update(&mut self, pressed: &[JoyKey], released: &[JoyKey])
        ensures
            ({
                let (p1, b1) = apply_keys(old(self).pad, old(self).buttons, pressed@, true);
                let (p2, b2) = apply_keys(p1, b1, released@, false);
                &&& final(self).pad == p2
                &&& final(self).buttons == b2
                &&& final(self).mode == old(self).mode
                &&& final(self).interrupt == (old(self).interrupt || (old(self).pad & 0xF) > p2 || (
                old(self).buttons & 0xF) > b2)
            }),
    {
        let before_pad = self.pad & 0xF;
        let before_buttons = self.buttons & 0xF;
        self.apply(pressed, true);
        self.apply(released, false);
        if before_pad > self.pad || before_buttons > self.buttons {
            self.interrupt = true;
        }
    }

    fn apply(&mut self, keys: &[JoyKey], pressed: bool)
        ensures
            (final(self).pad, final(self).buttons) == apply_keys(
                old(self).pad,
                old(self).buttons,
                keys@,
                pressed,
            ),
            final(self).mode == old(self).mode,
            final(self).interrupt == old(self).interrupt,
    {
        let mut i: usize = 0;
        while i < keys.len()
            invariant
                i <= keys.len(),
                (self.pad, self.buttons) == apply_keys(
                    old(self).pad,
                    old(self).buttons,
                    keys@.subrange(0, i as int),
                    pressed,
                ),
                self.mode == old(self).mode,
                self.interrupt == old(self).interrupt,
            decreases keys.len() - i,
        {
            let key = keys[i];
            proof {
                assert(keys@.subrange(0, i + 1).drop_last() =~= keys@.subrange(0, i as int));
            }
            let (is_button, bit): (bool, u8) = match key {
                JoyKey::Right => (false, 0b0001),
                JoyKey::Left => (false, 0b0010),
                JoyKey::Up => (false, 0b0100),
                JoyKey::Down => (false, 0b1000),
                JoyKey::A => (true, 0b0001),
                JoyKey::B => (true, 0b0010),
                JoyKey::Select => (true, 0b0100),
                JoyKey::Start => (true, 0b1000),
            };
            if is_button {
                if pressed {
                    self.buttons = self.buttons & !bit;
                } else {
                    self.buttons = self.buttons | bit;
                }
            } else {
                if pressed {
                    self.pad = self.pad & !bit;
                } else {
                    self.pad = self.pad | bit;
                }
            }
            i = i + 1;
        }
        proof {
            assert(keys@.subrange(0, keys@.len() as int) =~= keys@);
        }
    }
}

} // verus!
