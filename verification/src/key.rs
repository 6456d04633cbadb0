//! Logical keyboard keys, independent of any windowing backend, with the
//! mapping between keys and the printable ASCII bytes they produce on a
//! standard layout.
use vstd::prelude::*;

verus! {

#[derive(PartialEq, Eq, Hash, Debug, Clone, Copy, Structural)]
pub enum Key {
    Num0,
    Num1,
    Num2,
    Num3,
    Num4,
    Num5,
    Num6,
    Num7,
    Num8,
    Num9,
    A,
    B,
    C,
    D,
    E,
    F,
    G,
    H,
    I,
    J,
    K,
    L,
    M,
    N,
    O,
    P,
    Q,
    R,
    S,
    T,
    U,
    V,
    W,
    X,
    Y,
    Z,
    Space,
    Minus,
    Equals,
    Grave,
    Tab,
    CapsLock,
    LeftBracket,
    RightBracket,
    Backslash,
    Semicolon,
    Apostrophe,
    Comma,
    Period,
    Slash,
    Alt,
    Control,
    Shift,
    Meta,
    ArrowUp,
    ArrowDown,
    ArrowLeft,
    ArrowRight,
    Backspace,
    Escape,
    Enter,
    Insert,
    Delete,
    Home,
    End,
    PageUp,
    PageDown,
    F1,
    F2,
    F3,
    F4,
    F5,
    F6,
    F7,
    F8,
    F9,
    F10,
    F11,
    F12,
}

/// The key a printable ASCII byte maps to, if any: digits, lower-case
/// letters and the unshifted punctuation of a US layout.
pub open spec fn spec_key_from_char(char: u8) -> Option<Key> {
    match char {
        48u8 => Some(Key::Num0),
        49u8 => Some(Key::Num1),
        50u8 => Some(Key::Num2),
        51u8 => Some(Key::Num3),
        52u8 => Some(Key::Num4),
        53u8 => Some(Key::Num5),
        54u8 => Some(Key::Num6),
        55u8 => Some(Key::Num7),
        56u8 => Some(Key::Num8),
        57u8 => Some(Key::Num9),
        97u8 => Some(Key::A),
        98u8 => Some(Key::B),
        99u8 => Some(Key::C),
        100u8 => Some(Key::D),
        101u8 => Some(Key::E),
        102u8 => Some(Key::F),
        103u8 => Some(Key::G),
        104u8 => Some(Key::H),
        105u8 => Some(Key::I),
        106u8 => Some(Key::J),
        107u8 => Some(Key::K),
        108u8 => Some(Key::L),
        109u8 => Some(Key::M),
        110u8 => Some(Key::N),
        111u8 => Some(Key::O),
        112u8 => Some(Key::P),
        113u8 => Some(Key::Q),
        114u8 => Some(Key::R),
        115u8 => Some(Key::S),
        116u8 => Some(Key::T),
        117u8 => Some(Key::U),
        118u8 => Some(Key::V),
        119u8 => Some(Key::W),
        120u8 => Some(Key::X),
        121u8 => Some(Key::Y),
        122u8 => Some(Key::Z),
        45u8 => Some(Key::Minus),
        61u8 => Some(Key::Equals),
        91u8 => Some(Key::LeftBracket),
        93u8 => Some(Key::RightBracket),
        92u8 => Some(Key::Backslash),
        59u8 => Some(Key::Semicolon),
        39u8 => Some(Key::Apostrophe),
        44u8 => Some(Key::Comma),
        46u8 => Some(Key::Period),
        47u8 => Some(Key::Slash),
        _ => None,
    }
}

/// The printable ASCII byte a key produces, if any.
pub open spec fn spec_key_to_char(key: Key) -> Option<u8> {
    match key {
        Key::Num0 => Some(48u8),
        Key::Num1 => Some(49u8),
        Key::Num2 => Some(50u8),
        Key::Num3 => Some(51u8),
        Key::Num4 => Some(52u8),
        Key::Num5 => Some(53u8),
        Key::Num6 => Some(54u8),
        Key::Num7 => Some(55u8),
        Key::Num8 => Some(56u8),
        Key::Num9 => Some(57u8),
        Key::A => Some(97u8),
        Key::B => Some(98u8),
        Key::C => Some(99u8),
        Key::D => Some(100u8),
        Key::E => Some(101u8),
        Key::F => Some(102u8),
        Key::G => Some(103u8),
        Key::H => Some(104u8),
        Key::I => Some(105u8),
        Key::J => Some(106u8),
        Key::K => Some(107u8),
        Key::L => Some(108u8),
        Key::M => Some(109u8),
        Key::N => Some(110u8),
        Key::O => Some(111u8),
        Key::P => Some(112u8),
        Key::Q => Some(113u8),
        Key::R => Some(114u8),
        Key::S => Some(115u8),
        Key::T => Some(116u8),
        Key::U => Some(117u8),
        Key::V => Some(118u8),
        Key::W => Some(119u8),
        Key::X => Some(120u8),
        Key::Y => Some(121u8),
        Key::Z => Some(122u8),
        Key::Minus => Some(45u8),
        Key::Equals => Some(61u8),
        Key::LeftBracket => Some(91u8),
        Key::RightBracket => Some(93u8),
        Key::Backslash => Some(92u8),
        Key::Semicolon => Some(59u8),
        Key::Apostrophe => Some(39u8),
        Key::Comma => Some(44u8),
        Key::Period => Some(46u8),
        Key::Slash => Some(47u8),
        _ => None,
    }
}

impl Key {
    pub fn from_char(char: u8) -> (r: Option<Self>)
        ensures
            r == spec_key_from_char(char),
    {
        match char {
            48u8 => Some(Key::Num0),
            49u8 => Some(Key::Num1),
            50u8 => Some(Key::Num2),
            51u8 => Some(Key::Num3),
            52u8 => Some(Key::Num4),
            53u8 => Some(Key::Num5),
            54u8 => Some(Key::Num6),
            55u8 => Some(Key::Num7),
            56u8 => Some(Key::Num8),
            57u8 => Some(Key::Num9),
            97u8 => Some(Key::A),
            98u8 => Some(Key::B),
            99u8 => Some(Key::C),
            100u8 => Some(Key::D),
            101u8 => Some(Key::E),
            102u8 => Some(Key::F),
            103u8 => Some(Key::G),
            104u8 => Some(Key::H),
            105u8 => Some(Key::I),
            106u8 => Some(Key::J),
            107u8 => Some(Key::K),
            108u8 => Some(Key::L),
            109u8 => Some(Key::M),
            110u8 => Some(Key::N),
            111u8 => Some(Key::O),
            112u8 => Some(Key::P),
            113u8 => Some(Key::Q),
            114u8 => Some(Key::R),
            115u8 => Some(Key::S),
            116u8 => Some(Key::T),
            117u8 => Some(Key::U),
            118u8 => Some(Key::V),
            119u8 => Some(Key::W),
            120u8 => Some(Key::X),
            121u8 => Some(Key::Y),
            122u8 => Some(Key::Z),
            45u8 => Some(Key::Minus),
            61u8 => Some(Key::Equals),
            91u8 => Some(Key::LeftBracket),
            93u8 => Some(Key::RightBracket),
            92u8 => Some(Key::Backslash),
            59u8 => Some(Key::Semicolon),
            39u8 => Some(Key::Apostrophe),
            44u8 => Some(Key::Comma),
            46u8 => Some(Key::Period),
            47u8 => Some(Key::Slash),
            _ => None,
        }
    }

    pub fn to_char(self) -> (r: Option<u8>)
        ensures
            r == spec_key_to_char(self),
    {
        match self {
            Key::Num0 => Some(48u8),
            Key::Num1 => Some(49u8),
            Key::Num2 => Some(50u8),
            Key::Num3 => Some(51u8),
            Key::Num4 => Some(52u8),
            Key::Num5 => Some(53u8),
            Key::Num6 => Some(54u8),
            Key::Num7 => Some(55u8),
            Key::Num8 => Some(56u8),
            Key::Num9 => Some(57u8),
            Key::A => Some(97u8),
            Key::B => Some(98u8),
            Key::C => Some(99u8),
            Key::D => Some(100u8),
            Key::E => Some(101u8),
            Key::F => Some(102u8),
            Key::G => Some(103u8),
            Key::H => Some(104u8),
            Key::I => Some(105u8),
            Key::J => Some(106u8),
            Key::K => Some(107u8),
            Key::L => Some(108u8),
            Key::M => Some(109u8),
            Key::N => Some(110u8),
            Key::O => Some(111u8),
            Key::P => Some(112u8),
            Key::Q => Some(113u8),
            Key::R => Some(114u8),
            Key::S => Some(115u8),
            Key::T => Some(116u8),
            Key::U => Some(117u8),
            Key::V => Some(118u8),
            Key::W => Some(119u8),
            Key::X => Some(120u8),
            Key::Y => Some(121u8),
            Key::Z => Some(122u8),
            Key::Minus => Some(45u8),
            Key::Equals => Some(61u8),
            Key::LeftBracket => Some(91u8),
            Key::RightBracket => Some(93u8),
            Key::Backslash => Some(92u8),
            Key::Semicolon => Some(59u8),
            Key::Apostrophe => Some(39u8),
            Key::Comma => Some(44u8),
            Key::Period => Some(46u8),
            Key::Slash => Some(47u8),
            _ => None,
        }
    }
}

/// Every byte that maps to a key maps back to the same byte.
pub proof fn lemma_key_char_round_trip(char: u8)
    requires
        spec_key_from_char(char) is Some,
    ensures
        spec_key_to_char(spec_key_from_char(char).unwrap()) == Some(char),
{
}

/// Every key that prints a byte is found again from that byte.
pub proof fn lemma_char_key_round_trip(key: Key)
    requires
        spec_key_to_char(key) is Some,
    ensures
        spec_key_from_char(spec_key_to_char(key).unwrap()) == Some(key),
{
}

} // verus!
