//! The keypad: which physical key enters which of the sixteen key symbols,
//! the snapshot of held symbols that instructions query, and the events that
//! an input source reports.

use vstd::prelude::*;

verus! {

/// Number of key symbols of the keypad.
pub const KEY_COUNT: u8 = 16;

/// A physical key that the machine reacts to. Every key that it does not
/// react to is `Other`.
#[derive(Clone, Copy, Debug, PartialEq, Eq)]
pub enum Key {
    Num0,
    Num1,
    Num2,
    Num3,
    Num4,
    Num5,
    Num6,
    Num7,
    Num8,
    Num9,
    Kp0,
    Kp1,
    Kp2,
    Kp3,
    Kp4,
    Kp5,
    Kp6,
    Kp7,
    Kp8,
    Kp9,
    A,
    B,
    C,
    D,
    E,
    F,
    R,
    LShift,
    RShift,
    Other,
}

/// The key symbol that a physical key enters: the digit keys of the main
/// block and of the number pad enter their digit, the letters `A` to `F`
/// enter ten to fifteen, and no other key enters anything.
pub open spec fn symbol_of(key: Key) -> Option<u8> {
    match key {
        Key::Num0 | Key::Kp0 => Some(0x0u8),
        Key::Num1 | Key::Kp1 => Some(0x1u8),
        Key::Num2 | Key::Kp2 => Some(0x2u8),
        Key::Num3 | Key::Kp3 => Some(0x3u8),
        Key::Num4 | Key::Kp4 => Some(0x4u8),
        Key::Num5 | Key::Kp5 => Some(0x5u8),
        Key::Num6 | Key::Kp6 => Some(0x6u8),
        Key::Num7 | Key::Kp7 => Some(0x7u8),
        Key::Num8 | Key::Kp8 => Some(0x8u8),
        Key::Num9 | Key::Kp9 => Some(0x9u8),
        Key::A => Some(0xau8),
        Key::B => Some(0xbu8),
        Key::C => Some(0xcu8),
        Key::D => Some(0xdu8),
        Key::E => Some(0xeu8),
        Key::F => Some(0xfu8),
        Key::R | Key::LShift | Key::RShift | Key::Other => None,
    }
}

/// The key symbol that a physical key enters, if it enters one.
pub fn symbol(key: Key) -> (entered: Option<u8>)
    ensures
        entered == symbol_of(key),
        entered matches Some(s) ==> s < KEY_COUNT,
{
    match key {
        Key::Num0 | Key::Kp0 => Some(0x0),
        Key::Num1 | Key::Kp1 => Some(0x1),
        Key::Num2 | Key::Kp2 => Some(0x2),
        Key::Num3 | Key::Kp3 => Some(0x3),
        Key::Num4 | Key::Kp4 => Some(0x4),
        Key::Num5 | Key::Kp5 => Some(0x5),
        Key::Num6 | Key::Kp6 => Some(0x6),
        Key::Num7 | Key::Kp7 => Some(0x7),
        Key::Num8 | Key::Kp8 => Some(0x8),
        Key::Num9 | Key::Kp9 => Some(0x9),
        Key::A => Some(0xa),
        Key::B => Some(0xb),
        Key::C => Some(0xc),
        Key::D => Some(0xd),
        Key::E => Some(0xe),
        Key::F => Some(0xf),
        Key::R | Key::LShift | Key::RShift | Key::Other => None,
    }
}

/// Whether one of `pressed` enters `symbol`.
pub open spec fn enters(pressed: Seq<Key>, symbol: u8) -> bool {
    exists|k: int| 0 <= k < pressed.len() && symbol_of(#[trigger] pressed[k]) == Some(symbol)
}

/// The restart chord: `R` held together with either shift key.
pub open spec fn is_restart_chord(pressed: Seq<Key>) -> bool {
    pressed.contains(Key::R) && (pressed.contains(Key::LShift) || pressed.contains(Key::RShift))
}

/// Whether the keys in `pressed` form the restart chord.
pub fn restart_chord(pressed: &[Key]) -> (chord: bool)
    ensures
        chord == is_restart_chord(pressed@),
{
    let mut r = false;
    let mut lshift = false;
    let mut rshift = false;
    let mut k: usize = 0;
    while k < pressed.len()
        invariant
            k <= pressed@.len(),
            r == pressed@.take(k as int).contains(Key::R),
            lshift == pressed@.take(k as int).contains(Key::LShift),
            rshift == pressed@.take(k as int).contains(Key::RShift),
        decreases pressed@.len() - k,
    {
        proof {
            let head = pressed@.take(k as int);
            let more = pressed@.take(k + 1);
            assert forall|key: Key|
                more.contains(key) == (head.contains(key) || key == pressed@[k as int]) by {
                if key == pressed@[k as int] {
                    assert(more[k as int] == key);
                }
            }
        }
        match pressed[k] {
            Key::R => {
                r = true;
            },
            Key::LShift => {
                lshift = true;
            },
            Key::RShift => {
                rshift = true;
            },
            _ => {},
        }
        k += 1;
    }
    assert(pressed@.take(k as int) == pressed@);
    r && (lshift || rshift)
}

/// Whether `symbol` is held in a snapshot of the keypad. No symbol beyond
/// fifteen is ever held.
pub open spec fn held(keys: Seq<bool>, symbol: u8) -> bool {
    symbol < KEY_COUNT && keys[symbol as int]
}

/// A snapshot of the keypad: for each of the sixteen key symbols, whether it
/// is held.
pub struct Keypad {
    held: [bool; 16],
}

impl View for Keypad {
    type V = Seq<bool>;

    closed spec fn view(&self) -> Seq<bool> {
        self.held@
    }
}

impl Keypad {
    /// A keypad with no key held.
    pub fn new() -> (keypad: Keypad)
        ensures
            keypad@ == Seq::new(16, |s: int| false),
    {
        Keypad { held: [false; 16] }
    }

    /// The keypad as it stands when exactly the keys in `pressed` are down.
    pub fn from_keys(pressed: &[Key]) -> (keypad: Keypad)
        ensures
            keypad@.len() == KEY_COUNT,
            forall|s: u8| s < KEY_COUNT ==> keypad@[s as int] == enters(pressed@, s),
    {
        let mut keypad = Keypad::new();
        let mut k: usize = 0;
        while k < pressed.len()
            invariant
                k <= pressed@.len(),
                keypad.held@.len() == 16,
                forall|s: u8|
                    s < KEY_COUNT ==> keypad.held@[s as int] == enters(pressed@.take(k as int), s),
            decreases pressed@.len() - k,
        {
            let ghost head = pressed@.take(k as int);
            let ghost more = pressed@.take(k + 1);
            let entered = symbol(pressed[k]);
            match entered {
                Some(s) => {
                    keypad.held[s as usize] = true;
                },
                None => {},
            }
            proof {
                assert forall|s: u8| s < KEY_COUNT implies keypad.held@[s as int] == enters(
                    more,
                    s,
                ) by {
                    if entered == Some(s) {
                        assert(symbol_of(more[k as int]) == Some(s));
                    }
                }
            }
            k += 1;
        }
        assert(pressed@.take(k as int) == pressed@);
        keypad
    }

    /// Marks `symbol` as held; a symbol beyond fifteen is ignored.
    pub fn press(&mut self, symbol: u8)
        ensures
            final(self)@ == if symbol < KEY_COUNT {
                old(self)@.update(symbol as int, true)
            } else {
                old(self)@
            },
    {
        if symbol < KEY_COUNT {
            self.held[symbol as usize] = true;
        }
    }

    /// Marks `symbol` as released; a symbol beyond fifteen is ignored.
    pub fn release(&mut self, symbol: u8)
        ensures
            final(self)@ == if symbol < KEY_COUNT {
                old(self)@.update(symbol as int, false)
            } else {
                old(self)@
            },
    {
        if symbol < KEY_COUNT {
            self.held[symbol as usize] = false;
        }
    }

    /// Whether `symbol` is held.
    pub fn is_held(&self, symbol: u8) -> (down: bool)
        ensures
            down == held(self@, symbol),
    {
        symbol < KEY_COUNT && self.held[symbol as usize]
    }
}

/// What an input source reports.
#[derive(Clone, Copy, Debug, PartialEq, Eq)]
pub enum Event {
    /// The user asked for the machine to stop.
    Quit,
    /// A key went down, with the state of the two shift keys at that moment.
    KeyDown { key: Key, lshift: bool, rshift: bool },
    /// Anything else, or nothing at all.
    Other,
}

} // verus!
