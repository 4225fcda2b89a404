//! The sixteen-key hexadecimal keypad.

use vstd::prelude::*;

verus! {

/// Number of keys on the keypad.
pub const KEY_COUNT: u8 = 16;

/// A key of the host's keyboard, as far as the keypad layout cares: the
/// sixteen keys that stand for keypad keys, and `Other` for the rest.
#[derive(Clone, Copy, Debug, PartialEq, Eq)]
pub enum KeyCode {
    Key1,
    Key2,
    Key3,
    Key4,
    Q,
    W,
    E,
    R,
    A,
    S,
    D,
    F,
    Z,
    X,
    C,
    V,
    Other,
}

/// One event of the host's keyboard: which key, if the host could tell, and
/// whether it went down or up.
#[derive(Clone, Copy, Debug, PartialEq, Eq)]
pub struct KeyboardInput {
    pub virtual_keycode: Option<KeyCode>,
    pub pressed: bool,
}

/// The keypad key that a key of the host's keyboard stands for.
///
/// The keypad's four rows lie on the four rows of the left of a QWERTY
/// keyboard:
///
/// ```text
/// |1|2|3|C|        |1|2|3|4|
/// |4|5|6|D|  <---  |Q|W|E|R|
/// |7|8|9|E|        |A|S|D|F|
/// |A|0|B|F|        |Z|X|C|V|
/// ```
pub open spec fn keypad_key(code: KeyCode) -> Option<u8> {
    match code {
        KeyCode::X => Some(0x0u8),
        KeyCode::Key1 => Some(0x1u8),
        KeyCode::Key2 => Some(0x2u8),
        KeyCode::Key3 => Some(0x3u8),
        KeyCode::Q => Some(0x4u8),
        KeyCode::W => Some(0x5u8),
        KeyCode::E => Some(0x6u8),
        KeyCode::A => Some(0x7u8),
        KeyCode::S => Some(0x8u8),
        KeyCode::D => Some(0x9u8),
        KeyCode::Z => Some(0xAu8),
        KeyCode::C => Some(0xBu8),
        KeyCode::Key4 => Some(0xCu8),
        KeyCode::R => Some(0xDu8),
        KeyCode::F => Some(0xEu8),
        KeyCode::V => Some(0xFu8),
        KeyCode::Other => None,
    }
}

impl KeyCode {
    /// The keypad key that this key stands for, if it stands for one.
    pub fn hex_key(self) -> (key: Option<u8>)
        ensures
            key == keypad_key(self),
            key matches Some(k) ==> k < 16,
    {
        match self {
            KeyCode::X => Some(0x0),
            KeyCode::Key1 => Some(0x1),
            KeyCode::Key2 => Some(0x2),
            KeyCode::Key3 => Some(0x3),
            KeyCode::Q => Some(0x4),
            KeyCode::W => Some(0x5),
            KeyCode::E => Some(0x6),
            KeyCode::A => Some(0x7),
            KeyCode::S => Some(0x8),
            KeyCode::D => Some(0x9),
            KeyCode::Z => Some(0xA),
            KeyCode::C => Some(0xB),
            KeyCode::Key4 => Some(0xC),
            KeyCode::R => Some(0xD),
            KeyCode::F => Some(0xE),
            KeyCode::V => Some(0xF),
            KeyCode::Other => None,
        }
    }
}

/// The keypad as its contracts see it.
pub ghost struct KeypadState {
    /// For each of the sixteen keys, whether it is down.
    pub keys: Seq<bool>,
    /// The key that went up most recently since the last tick, until
    /// something takes it.
    pub released: Option<u8>,
}

impl KeypadState {
    /// The keypad after the event that `key` went down (`pressed`) or up.
    /// A key that the keypad does not have changes nothing. A key that was
    /// down and goes up is remembered as released.
    pub open spec fn after_event(self, key: u8, pressed: bool) -> KeypadState {
        if key < 16 {
            KeypadState {
                keys: self.keys.update(key as int, pressed),
                released: if self.keys[key as int] && !pressed {
                    Some(key)
                } else {
                    self.released
                },
            }
        } else {
            self
        }
    }

    /// The keypad after an event of the host's keyboard. A key that stands
    /// for no keypad key, or that the host could not name, changes nothing.
    pub open spec fn after_input(self, input: KeyboardInput) -> KeypadState {
        match input.virtual_keycode {
            Some(code) => match keypad_key(code) {
                Some(key) => self.after_event(key, input.pressed),
                None => self,
            },
            None => self,
        }
    }

    /// The keypad with the released key forgotten.
    pub open spec fn settled(self) -> KeypadState {
        KeypadState { released: None, ..self }
    }
}

/// Sixteen keys, each down or up, and the memory of the key that was let go
/// of last.
///
/// ```text
/// |1|2|3|C|
/// |4|5|6|D|
/// |7|8|9|E|
/// |A|0|B|F|
/// ```
pub struct Keyboard {
    keys: [bool; 16],
    released: Option<u8>,
}

impl View for Keyboard {
    type V = KeypadState;

    closed spec fn view(&self) -> KeypadState {
        KeypadState { keys: self.keys@, released: self.released }
    }
}

impl Keyboard {
    #[verifier::type_invariant]
    spec fn released_is_a_key(&self) -> bool {
        self.released matches Some(key) ==> key < 16
    }

    /// There are always sixteen keys.
    pub proof fn lemma_sixteen(&self)
        ensures
            self@.keys.len() == 16,
    {
    }

    /// All keys up, none released.
    pub fn new() -> (keyboard: Self)
        ensures
            keyboard@.keys == Seq::new(16, |k: int| false),
            keyboard@.released == None::<u8>,
    {
        let keyboard = Self { keys: [false; 16], released: None };
        assert(keyboard@.keys =~= Seq::new(16, |k: int| false));
        keyboard
    }

    /// Takes in the event that keypad key `key` went down (`pressed`) or up.
    /// A key that the keypad does not have is ignored.
    pub fn process_input(&mut self, key: u8, pressed: bool)
        ensures
            final(self)@ == old(self)@.after_event(key, pressed),
    {
        proof {
            use_type_invariant(&*self);
        }
        if key < KEY_COUNT {
            if self.keys[key as usize] && !pressed {
                self.released = Some(key);
            }
            self.keys[key as usize] = pressed;
        }
    }

    /// Takes in an event of the host's keyboard: the key is mapped onto the
    /// keypad and the keypad key goes down or up. A key that stands for no
    /// keypad key, or that the host could not name, is ignored.
    pub fn process_keyboard_input(&mut self, input: KeyboardInput)
        ensures
            final(self)@ == old(self)@.after_input(input),
    {
        if let Some(keycode) = input.virtual_keycode {
            if let Some(key) = keycode.hex_key() {
                self.process_input(key, input.pressed);
            }
        }
    }

    /// Whether `key` is down. A key that the keypad does not have is never
    /// down.
    pub fn is_pressed(&self, key: u8) -> (pressed: bool)
        ensures
            pressed == (key < 16 && self@.keys[key as int]),
    {
        if key > 0xF {
            return false;
        }
        self.keys[key as usize]
    }

    /// The lowest key that is down, if any is.
    pub fn find_pressed_key(&self) -> (found: Option<u8>)
        ensures
            found matches Some(key) ==> key < 16 && self@.keys[key as int] && forall|k: int|
                0 <= k < key ==> !self@.keys[k],
            found is None ==> forall|k: int| 0 <= k < 16 ==> !self@.keys[k],
    {
        let mut key: u8 = 0;
        while key < 16
            invariant
                key <= 16,
                forall|k: int| 0 <= k < key ==> !self@.keys[k],
            decreases 16 - key,
        {
            if self.is_pressed(key) {
                return Some(key);
            }
            key += 1;
        }
        None
    }

    /// Hands out the key that was released since the last tick, and forgets
    /// it: each release is handed out once.
    pub fn just_released(&mut self) -> (key: Option<u8>)
        ensures
            key == old(self)@.released,
            key matches Some(k) ==> k < 16,
            final(self)@ == old(self)@.settled(),
    {
        proof {
            use_type_invariant(&*self);
        }
        let key = self.released;
        self.released = None;
        key
    }

    /// One tick: a release that nothing took is forgotten.
    pub fn update(&mut self)
        ensures
            final(self)@ == old(self)@.settled(),
    {
        proof {
            use_type_invariant(&*self);
        }
        self.released = None;
    }
}

} // verus!
