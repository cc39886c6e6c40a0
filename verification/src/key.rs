use vstd::prelude::*;

verus! {

/// Identifies one key of a keyboard by its symbolic name, independent of layout
/// and of the windowing system that reports it. Left and right variants of the
/// modifier keys are distinct keys.
#[derive(Clone, Copy, Debug, PartialEq, Eq, Hash, Structural)]
pub enum Key {
    Key1,
    Key2,
    Key3,
    Key4,
    Key5,
    Key6,
    Key7,
    Key8,
    Key9,
    Key0,
    A,
    B,
    C,
    D,
    E,
    F,
    G,
    H,
    I,
    J,
    K,
    L,
    M,
    N,
    O,
    P,
    Q,
    R,
    S,
    T,
    U,
    V,
    W,
    X,
    Y,
    Z,
    Escape,
    F1,
    F2,
    F3,
    F4,
    F5,
    F6,
    F7,
    F8,
    F9,
    F10,
    F11,
    F12,
    F13,
    F14,
    F15,
    F16,
    F17,
    F18,
    F19,
    F20,
    F21,
    F22,
    F23,
    F24,
    Snapshot,
    Scroll,
    Pause,
    Insert,
    Home,
    Delete,
    End,
    PageDown,
    PageUp,
    Left,
    Up,
    Right,
    Down,
    Back,
    Return,
    Space,
    Compose,
    Caret,
    Numlock,
    Numpad0,
    Numpad1,
    Numpad2,
    Numpad3,
    Numpad4,
    Numpad5,
    Numpad6,
    Numpad7,
    Numpad8,
    Numpad9,
    NumpadAdd,
    NumpadDivide,
    NumpadDecimal,
    NumpadComma,
    NumpadEnter,
    NumpadEquals,
    NumpadMultiply,
    NumpadSubtract,
    AbntC1,
    AbntC2,
    Apostrophe,
    Apps,
    Asterisk,
    At,
    Ax,
    Backslash,
    Calculator,
    Capital,
    Colon,
    Comma,
    Convert,
    Equals,
    Grave,
    Kana,
    Kanji,
    LAlt,
    LBracket,
    LControl,
    LShift,
    LWin,
    Mail,
    MediaSelect,
    MediaStop,
    Minus,
    Mute,
    MyComputer,
    NavigateForward,
    NavigateBackward,
    NextTrack,
    NoConvert,
    OEM102,
    Period,
    PlayPause,
    Plus,
    Power,
    PrevTrack,
    RAlt,
    RBracket,
    RControl,
    RShift,
    RWin,
    Semicolon,
    Slash,
    Sleep,
    Stop,
    Sysrq,
    Tab,
    Underline,
    Unlabeled,
    VolumeDown,
    VolumeUp,
    Wake,
    WebBack,
    WebFavorites,
    WebForward,
    WebHome,
    WebRefresh,
    WebSearch,
    WebStop,
    Yen,
    Copy,
    Paste,
    Cut,
}

impl Key {
    /// The position of the key in the declaration above: a number that no two
    /// keys share.
    pub open spec fn spec_code(self) -> u32 {
        match self {
            Key::Key1 => 0u32,
            Key::Key2 => 1u32,
            Key::Key3 => 2u32,
            Key::Key4 => 3u32,
            Key::Key5 => 4u32,
            Key::Key6 => 5u32,
            Key::Key7 => 6u32,
            Key::Key8 => 7u32,
            Key::Key9 => 8u32,
            Key::Key0 => 9u32,
            Key::A => 10u32,
            Key::B => 11u32,
            Key::C => 12u32,
            Key::D => 13u32,
            Key::E => 14u32,
            Key::F => 15u32,
            Key::G => 16u32,
            Key::H => 17u32,
            Key::I => 18u32,
            Key::J => 19u32,
            Key::K => 20u32,
            Key::L => 21u32,
            Key::M => 22u32,
            Key::N => 23u32,
            Key::O => 24u32,
            Key::P => 25u32,
            Key::Q => 26u32,
            Key::R => 27u32,
            Key::S => 28u32,
            Key::T => 29u32,
            Key::U => 30u32,
            Key::V => 31u32,
            Key::W => 32u32,
            Key::X => 33u32,
            Key::Y => 34u32,
            Key::Z => 35u32,
            Key::Escape => 36u32,
            Key::F1 => 37u32,
            Key::F2 => 38u32,
            Key::F3 => 39u32,
            Key::F4 => 40u32,
            Key::F5 => 41u32,
            Key::F6 => 42u32,
            Key::F7 => 43u32,
            Key::F8 => 44u32,
            Key::F9 => 45u32,
            Key::F10 => 46u32,
            Key::F11 => 47u32,
            Key::F12 => 48u32,
            Key::F13 => 49u32,
            Key::F14 => 50u32,
            Key::F15 => 51u32,
            Key::F16 => 52u32,
            Key::F17 => 53u32,
            Key::F18 => 54u32,
            Key::F19 => 55u32,
            Key::F20 => 56u32,
            Key::F21 => 57u32,
            Key::F22 => 58u32,
            Key::F23 => 59u32,
            Key::F24 => 60u32,
            Key::Snapshot => 61u32,
            Key::Scroll => 62u32,
            Key::Pause => 63u32,
            Key::Insert => 64u32,
            Key::Home => 65u32,
            Key::Delete => 66u32,
            Key::End => 67u32,
            Key::PageDown => 68u32,
            Key::PageUp => 69u32,
            Key::Left => 70u32,
            Key::Up => 71u32,
            Key::Right => 72u32,
            Key::Down => 73u32,
            Key::Back => 74u32,
            Key::Return => 75u32,
            Key::Space => 76u32,
            Key::Compose => 77u32,
            Key::Caret => 78u32,
            Key::Numlock => 79u32,
            Key::Numpad0 => 80u32,
            Key::Numpad1 => 81u32,
            Key::Numpad2 => 82u32,
            Key::Numpad3 => 83u32,
            Key::Numpad4 => 84u32,
            Key::Numpad5 => 85u32,
            Key::Numpad6 => 86u32,
            Key::Numpad7 => 87u32,
            Key::Numpad8 => 88u32,
            Key::Numpad9 => 89u32,
            Key::NumpadAdd => 90u32,
            Key::NumpadDivide => 91u32,
            Key::NumpadDecimal => 92u32,
            Key::NumpadComma => 93u32,
            Key::NumpadEnter => 94u32,
            Key::NumpadEquals => 95u32,
            Key::NumpadMultiply => 96u32,
            Key::NumpadSubtract => 97u32,
            Key::AbntC1 => 98u32,
            Key::AbntC2 => 99u32,
            Key::Apostrophe => 100u32,
            Key::Apps => 101u32,
            Key::Asterisk => 102u32,
            Key::At => 103u32,
            Key::Ax => 104u32,
            Key::Backslash => 105u32,
            Key::Calculator => 106u32,
            Key::Capital => 107u32,
            Key::Colon => 108u32,
            Key::Comma => 109u32,
            Key::Convert => 110u32,
            Key::Equals => 111u32,
            Key::Grave => 112u32,
            Key::Kana => 113u32,
            Key::Kanji => 114u32,
            Key::LAlt => 115u32,
            Key::LBracket => 116u32,
            Key::LControl => 117u32,
            Key::LShift => 118u32,
            Key::LWin => 119u32,
            Key::Mail => 120u32,
            Key::MediaSelect => 121u32,
            Key::MediaStop => 122u32,
            Key::Minus => 123u32,
            Key::Mute => 124u32,
            Key::MyComputer => 125u32,
            Key::NavigateForward => 126u32,
            Key::NavigateBackward => 127u32,
            Key::NextTrack => 128u32,
            Key::NoConvert => 129u32,
            Key::OEM102 => 130u32,
            Key::Period => 131u32,
            Key::PlayPause => 132u32,
            Key::Plus => 133u32,
            Key::Power => 134u32,
            Key::PrevTrack => 135u32,
            Key::RAlt => 136u32,
            Key::RBracket => 137u32,
            Key::RControl => 138u32,
            Key::RShift => 139u32,
            Key::RWin => 140u32,
            Key::Semicolon => 141u32,
            Key::Slash => 142u32,
            Key::Sleep => 143u32,
            Key::Stop => 144u32,
            Key::Sysrq => 145u32,
            Key::Tab => 146u32,
            Key::Underline => 147u32,
            Key::Unlabeled => 148u32,
            Key::VolumeDown => 149u32,
            Key::VolumeUp => 150u32,
            Key::Wake => 151u32,
            Key::WebBack => 152u32,
            Key::WebFavorites => 153u32,
            Key::WebForward => 154u32,
            Key::WebHome => 155u32,
            Key::WebRefresh => 156u32,
            Key::WebSearch => 157u32,
            Key::WebStop => 158u32,
            Key::Yen => 159u32,
            Key::Copy => 160u32,
            Key::Paste => 161u32,
            Key::Cut => 162u32,
        }
    }

    /// The number under which the tracker files this key.
    pub fn code(self) -> (c: u32)
        ensures
            c == self.spec_code(),
    {
        match self {
            Key::Key1 => 0u32,
            Key::Key2 => 1u32,
            Key::Key3 => 2u32,
            Key::Key4 => 3u32,
            Key::Key5 => 4u32,
            Key::Key6 => 5u32,
            Key::Key7 => 6u32,
            Key::Key8 => 7u32,
            Key::Key9 => 8u32,
            Key::Key0 => 9u32,
            Key::A => 10u32,
            Key::B => 11u32,
            Key::C => 12u32,
            Key::D => 13u32,
            Key::E => 14u32,
            Key::F => 15u32,
            Key::G => 16u32,
            Key::H => 17u32,
            Key::I => 18u32,
            Key::J => 19u32,
            Key::K => 20u32,
            Key::L => 21u32,
            Key::M => 22u32,
            Key::N => 23u32,
            Key::O => 24u32,
            Key::P => 25u32,
            Key::Q => 26u32,
            Key::R => 27u32,
            Key::S => 28u32,
            Key::T => 29u32,
            Key::U => 30u32,
            Key::V => 31u32,
            Key::W => 32u32,
            Key::X => 33u32,
            Key::Y => 34u32,
            Key::Z => 35u32,
            Key::Escape => 36u32,
            Key::F1 => 37u32,
            Key::F2 => 38u32,
            Key::F3 => 39u32,
            Key::F4 => 40u32,
            Key::F5 => 41u32,
            Key::F6 => 42u32,
            Key::F7 => 43u32,
            Key::F8 => 44u32,
            Key::F9 => 45u32,
            Key::F10 => 46u32,
            Key::F11 => 47u32,
            Key::F12 => 48u32,
            Key::F13 => 49u32,
            Key::F14 => 50u32,
            Key::F15 => 51u32,
            Key::F16 => 52u32,
            Key::F17 => 53u32,
            Key::F18 => 54u32,
            Key::F19 => 55u32,
            Key::F20 => 56u32,
            Key::F21 => 57u32,
            Key::F22 => 58u32,
            Key::F23 => 59u32,
            Key::F24 => 60u32,
            Key::Snapshot => 61u32,
            Key::Scroll => 62u32,
            Key::Pause => 63u32,
            Key::Insert => 64u32,
            Key::Home => 65u32,
            Key::Delete => 66u32,
            Key::End => 67u32,
            Key::PageDown => 68u32,
            Key::PageUp => 69u32,
            Key::Left => 70u32,
            Key::Up => 71u32,
            Key::Right => 72u32,
            Key::Down => 73u32,
            Key::Back => 74u32,
            Key::Return => 75u32,
            Key::Space => 76u32,
            Key::Compose => 77u32,
            Key::Caret => 78u32,
            Key::Numlock => 79u32,
            Key::Numpad0 => 80u32,
            Key::Numpad1 => 81u32,
            Key::Numpad2 => 82u32,
            Key::Numpad3 => 83u32,
            Key::Numpad4 => 84u32,
            Key::Numpad5 => 85u32,
            Key::Numpad6 => 86u32,
            Key::Numpad7 => 87u32,
            Key::Numpad8 => 88u32,
            Key::Numpad9 => 89u32,
            Key::NumpadAdd => 90u32,
            Key::NumpadDivide => 91u32,
            Key::NumpadDecimal => 92u32,
            Key::NumpadComma => 93u32,
            Key::NumpadEnter => 94u32,
            Key::NumpadEquals => 95u32,
            Key::NumpadMultiply => 96u32,
            Key::NumpadSubtract => 97u32,
            Key::AbntC1 => 98u32,
            Key::AbntC2 => 99u32,
            Key::Apostrophe => 100u32,
            Key::Apps => 101u32,
            Key::Asterisk => 102u32,
            Key::At => 103u32,
            Key::Ax => 104u32,
            Key::Backslash => 105u32,
            Key::Calculator => 106u32,
            Key::Capital => 107u32,
            Key::Colon => 108u32,
            Key::Comma => 109u32,
            Key::Convert => 110u32,
            Key::Equals => 111u32,
            Key::Grave => 112u32,
            Key::Kana => 113u32,
            Key::Kanji => 114u32,
            Key::LAlt => 115u32,
            Key::LBracket => 116u32,
            Key::LControl => 117u32,
            Key::LShift => 118u32,
            Key::LWin => 119u32,
            Key::Mail => 120u32,
            Key::MediaSelect => 121u32,
            Key::MediaStop => 122u32,
            Key::Minus => 123u32,
            Key::Mute => 124u32,
            Key::MyComputer => 125u32,
            Key::NavigateForward => 126u32,
            Key::NavigateBackward => 127u32,
            Key::NextTrack => 128u32,
            Key::NoConvert => 129u32,
            Key::OEM102 => 130u32,
            Key::Period => 131u32,
            Key::PlayPause => 132u32,
            Key::Plus => 133u32,
            Key::Power => 134u32,
            Key::PrevTrack => 135u32,
            Key::RAlt => 136u32,
            Key::RBracket => 137u32,
            Key::RControl => 138u32,
            Key::RShift => 139u32,
            Key::RWin => 140u32,
            Key::Semicolon => 141u32,
            Key::Slash => 142u32,
            Key::Sleep => 143u32,
            Key::Stop => 144u32,
            Key::Sysrq => 145u32,
            Key::Tab => 146u32,
            Key::Underline => 147u32,
            Key::Unlabeled => 148u32,
            Key::VolumeDown => 149u32,
            Key::VolumeUp => 150u32,
            Key::Wake => 151u32,
            Key::WebBack => 152u32,
            Key::WebFavorites => 153u32,
            Key::WebForward => 154u32,
            Key::WebHome => 155u32,
            Key::WebRefresh => 156u32,
            Key::WebSearch => 157u32,
            Key::WebStop => 158u32,
            Key::Yen => 159u32,
            Key::Copy => 160u32,
            Key::Paste => 161u32,
            Key::Cut => 162u32,
        }
    }

    /// Distinct keys have distinct codes.
    pub proof fn lemma_code_injective(a: Key, b: Key)
        requires
            a.spec_code() == b.spec_code(),
        ensures
            a == b,
    {
    }
}

} // verus!
