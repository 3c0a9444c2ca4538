use vstd::prelude::*;

verus! {

/// A point in screen space, in whole pixels from the top-left corner.
#[derive(Clone, Copy, Debug, PartialEq, Eq, Structural)]
pub struct Position {
    pub x: i32,
    pub y: i32,
}

/// A target size for an image, in whole pixels.
#[derive(Clone, Copy, Debug, PartialEq, Eq, Structural)]
pub struct Size {
    pub width: u32,
    pub height: u32,
}

/// An RGBA color with one byte per channel (255 is full intensity).
#[derive(Clone, Copy, Debug, PartialEq, Eq, Structural)]
pub struct GameColor {
    pub r: u8,
    pub g: u8,
    pub b: u8,
    pub a: u8,
}

/// Draw `text` with its baseline origin at `position`, `size` pixels tall.
#[derive(Clone, Debug)]
pub struct TextCommand {
    pub text: String,
    pub position: Position,
    pub size: u16,
    pub color: GameColor,
}

/// Draw the image stored at `filename`, scaled to `size` when one is given.
#[derive(Clone, Debug)]
pub struct ImageCommand {
    pub filename: String,
    pub position: Position,
    pub size: Option<Size>,
}

/// Draw a straight segment from `first` to `second`.
#[derive(Clone, Copy, Debug, PartialEq, Eq, Structural)]
pub struct DrawLineCommand {
    pub first: Position,
    pub second: Position,
    pub thickness: u32,
    pub color: GameColor,
}

/// One drawing instruction emitted by a guest for one tick.
#[derive(Clone, Debug)]
pub enum RenderCommand {
    Text(TextCommand),
    Image(ImageCommand),
    Line(DrawLineCommand),
}

/// The mathematical value of a render command: strings seen as character sequences.
pub enum CommandView {
    Text { text: Seq<char>, position: Position, size: u16, color: GameColor },
    Image { filename: Seq<char>, position: Position, size: Option<Size> },
    Line(DrawLineCommand),
}

impl View for RenderCommand {
    type V = CommandView;

    open spec fn view(&self) -> CommandView {
        match self {
            RenderCommand::Text(t) => CommandView::Text {
                text: t.text@,
                position: t.position,
                size: t.size,
                color: t.color,
            },
            RenderCommand::Image(i) => CommandView::Image {
                filename: i.filename@,
                position: i.position,
                size: i.size,
            },
            RenderCommand::Line(l) => CommandView::Line(*l),
        }
    }
}

/// The views of a sequence of commands, in the same order.
pub open spec fn commands_view(cs: Seq<RenderCommand>) -> Seq<CommandView> {
    cs.map_values(|c: RenderCommand| c@)
}

/// The state of one pointer button during a tick.
#[derive(Clone, Copy, Debug, PartialEq, Eq, Structural)]
pub struct ClickInfo {
    pub pressed: bool,
    pub released: bool,
    pub down: bool,
}

/// The pointer's position and its three buttons during a tick.
#[derive(Clone, Copy, Debug, PartialEq, Eq, Structural)]
pub struct MouseInfo {
    pub position: Position,
    pub left: ClickInfo,
    pub right: ClickInfo,
    pub middle: ClickInfo,
}

/// The keys pressed, released and held during a tick.
#[derive(Clone, Debug)]
pub struct KeyboardInfo {
    pub pressed: Vec<Key>,
    pub released: Vec<Key>,
    pub down: Vec<Key>,
}

/// The fixed key space of the input snapshot.
#[derive(Clone, Copy, Debug, PartialEq, Eq, Structural)]
pub enum Key {
    Space,
    Apostrophe,
    Comma,
    Minus,
    Period,
    Slash,
    KeyZero,
    KeyOne,
    KeyTwo,
    KeyThree,
    KeyFour,
    KeyFive,
    KeySix,
    KeySeven,
    KeyEight,
    KeyNine,
    Semicolon,
    Equal,
    A,
    B,
    C,
    D,
    E,
    F,
    G,
    H,
    I,
    J,
    K,
    L,
    M,
    N,
    O,
    P,
    Q,
    R,
    S,
    T,
    U,
    V,
    W,
    X,
    Y,
    Z,
    LeftBracket,
    Backslash,
    RightBracket,
    GraveAccent,
    WorldOne,
    WorldTwo,
    Escape,
    Enter,
    Tab,
    Backspace,
    Insert,
    Delete,
    Right,
    Left,
    Down,
    Up,
    PageUp,
    PageDown,
    Home,
    End,
    CapsLock,
    ScrollLock,
    NumLock,
    PrintScreen,
    Pause,
    F1,
    F2,
    F3,
    F4,
    F5,
    F6,
    F7,
    F8,
    F9,
    F10,
    F11,
    F12,
    F13,
    F14,
    F15,
    F16,
    F17,
    F18,
    F19,
    F20,
    F21,
    F22,
    F23,
    F24,
    F25,
    Kp0,
    Kp1,
    Kp2,
    Kp3,
    Kp4,
    Kp5,
    Kp6,
    Kp7,
    Kp8,
    Kp9,
    KpDecimal,
    KpDivide,
    KpMultiply,
    KpSubtract,
    KpAdd,
    KpEnter,
    KpEqual,
    LeftShift,
    LeftControl,
    LeftAlt,
    LeftSuper,
    RightShift,
    RightControl,
    RightAlt,
    RightSuper,
    Menu,
    Unknown,
}

/// The name of a key, as it is shown to users.
pub open spec fn key_name(k: Key) -> Seq<char> {
    match k {
        Key::Space => "Space"@,
        Key::Apostrophe => "Apostrophe"@,
        Key::Comma => "Comma"@,
        Key::Minus => "Minus"@,
        Key::Period => "Period"@,
        Key::Slash => "Slash"@,
        Key::KeyZero => "KeyZero"@,
        Key::KeyOne => "KeyOne"@,
        Key::KeyTwo => "KeyTwo"@,
        Key::KeyThree => "KeyThree"@,
        Key::KeyFour => "KeyFour"@,
        Key::KeyFive => "KeyFive"@,
        Key::KeySix => "KeySix"@,
        Key::KeySeven => "KeySeven"@,
        Key::KeyEight => "KeyEight"@,
        Key::KeyNine => "KeyNine"@,
        Key::Semicolon => "Semicolon"@,
        Key::Equal => "Equal"@,
        Key::A => "A"@,
        Key::B => "B"@,
        Key::C => "C"@,
        Key::D => "D"@,
        Key::E => "E"@,
        Key::F => "F"@,
        Key::G => "G"@,
        Key::H => "H"@,
        Key::I => "I"@,
        Key::J => "J"@,
        Key::K => "K"@,
        Key::L => "L"@,
        Key::M => "M"@,
        Key::N => "N"@,
        Key::O => "O"@,
        Key::P => "P"@,
        Key::Q => "Q"@,
        Key::R => "R"@,
        Key::S => "S"@,
        Key::T => "T"@,
        Key::U => "U"@,
        Key::V => "V"@,
        Key::W => "W"@,
        Key::X => "X"@,
        Key::Y => "Y"@,
        Key::Z => "Z"@,
        Key::LeftBracket => "LeftBracket"@,
        Key::Backslash => "Backslash"@,
        Key::RightBracket => "RightBracket"@,
        Key::GraveAccent => "GraveAccent"@,
        Key::WorldOne => "WorldOne"@,
        Key::WorldTwo => "WorldTwo"@,
        Key::Escape => "Escape"@,
        Key::Enter => "Enter"@,
        Key::Tab => "Tab"@,
        Key::Backspace => "Backspace"@,
        Key::Insert => "Insert"@,
        Key::Delete => "Delete"@,
        Key::Right => "Right"@,
        Key::Left => "Left"@,
        Key::Down => "Down"@,
        Key::Up => "Up"@,
        Key::PageUp => "PageUp"@,
        Key::PageDown => "PageDown"@,
        Key::Home => "Home"@,
        Key::End => "End"@,
        Key::CapsLock => "CapsLock"@,
        Key::ScrollLock => "ScrollLock"@,
        Key::NumLock => "NumLock"@,
        Key::PrintScreen => "PrintScreen"@,
        Key::Pause => "Pause"@,
        Key::F1 => "F1"@,
        Key::F2 => "F2"@,
        Key::F3 => "F3"@,
        Key::F4 => "F4"@,
        Key::F5 => "F5"@,
        Key::F6 => "F6"@,
        Key::F7 => "F7"@,
        Key::F8 => "F8"@,
        Key::F9 => "F9"@,
        Key::F10 => "F10"@,
        Key::F11 => "F11"@,
        Key::F12 => "F12"@,
        Key::F13 => "F13"@,
        Key::F14 => "F14"@,
        Key::F15 => "F15"@,
        Key::F16 => "F16"@,
        Key::F17 => "F17"@,
        Key::F18 => "F18"@,
        Key::F19 => "F19"@,
        Key::F20 => "F20"@,
        Key::F21 => "F21"@,
        Key::F22 => "F22"@,
        Key::F23 => "F23"@,
        Key::F24 => "F24"@,
        Key::F25 => "F25"@,
        Key::Kp0 => "Kp0"@,
        Key::Kp1 => "Kp1"@,
        Key::Kp2 => "Kp2"@,
        Key::Kp3 => "Kp3"@,
        Key::Kp4 => "Kp4"@,
        Key::Kp5 => "Kp5"@,
        Key::Kp6 => "Kp6"@,
        Key::Kp7 => "Kp7"@,
        Key::Kp8 => "Kp8"@,
        Key::Kp9 => "Kp9"@,
        Key::KpDecimal => "KpDecimal"@,
        Key::KpDivide => "KpDivide"@,
        Key::KpMultiply => "KpMultiply"@,
        Key::KpSubtract => "KpSubtract"@,
        Key::KpAdd => "KpAdd"@,
        Key::KpEnter => "KpEnter"@,
        Key::KpEqual => "KpEqual"@,
        Key::LeftShift => "LeftShift"@,
        Key::LeftControl => "LeftControl"@,
        Key::LeftAlt => "LeftAlt"@,
        Key::LeftSuper => "LeftSuper"@,
        Key::RightShift => "RightShift"@,
        Key::RightControl => "RightControl"@,
        Key::RightAlt => "RightAlt"@,
        Key::RightSuper => "RightSuper"@,
        Key::Menu => "Menu"@,
        Key::Unknown => "Unknown"@,
    }
}

/// The name of a key's case in the guest interface: its name in kebab case.
pub open spec fn key_interface_name(k: Key) -> Seq<char> {
    match k {
        Key::Space => "space"@,
        Key::Apostrophe => "apostrophe"@,
        Key::Comma => "comma"@,
        Key::Minus => "minus"@,
        Key::Period => "period"@,
        Key::Slash => "slash"@,
        Key::KeyZero => "key-zero"@,
        Key::KeyOne => "key-one"@,
        Key::KeyTwo => "key-two"@,
        Key::KeyThree => "key-three"@,
        Key::KeyFour => "key-four"@,
        Key::KeyFive => "key-five"@,
        Key::KeySix => "key-six"@,
        Key::KeySeven => "key-seven"@,
        Key::KeyEight => "key-eight"@,
        Key::KeyNine => "key-nine"@,
        Key::Semicolon => "semicolon"@,
        Key::Equal => "equal"@,
        Key::A => "a"@,
        Key::B => "b"@,
        Key::C => "c"@,
        Key::D => "d"@,
        Key::E => "e"@,
        Key::F => "f"@,
        Key::G => "g"@,
        Key::H => "h"@,
        Key::I => "i"@,
        Key::J => "j"@,
        Key::K => "k"@,
        Key::L => "l"@,
        Key::M => "m"@,
        Key::N => "n"@,
        Key::O => "o"@,
        Key::P => "p"@,
        Key::Q => "q"@,
        Key::R => "r"@,
        Key::S => "s"@,
        Key::T => "t"@,
        Key::U => "u"@,
        Key::V => "v"@,
        Key::W => "w"@,
        Key::X => "x"@,
        Key::Y => "y"@,
        Key::Z => "z"@,
        Key::LeftBracket => "left-bracket"@,
        Key::Backslash => "backslash"@,
        Key::RightBracket => "right-bracket"@,
        Key::GraveAccent => "grave-accent"@,
        Key::WorldOne => "world-one"@,
        Key::WorldTwo => "world-two"@,
        Key::Escape => "escape"@,
        Key::Enter => "enter"@,
        Key::Tab => "tab"@,
        Key::Backspace => "backspace"@,
        Key::Insert => "insert"@,
        Key::Delete => "delete"@,
        Key::Right => "right"@,
        Key::Left => "left"@,
        Key::Down => "down"@,
        Key::Up => "up"@,
        Key::PageUp => "page-up"@,
        Key::PageDown => "page-down"@,
        Key::Home => "home"@,
        Key::End => "end"@,
        Key::CapsLock => "caps-lock"@,
        Key::ScrollLock => "scroll-lock"@,
        Key::NumLock => "num-lock"@,
        Key::PrintScreen => "print-screen"@,
        Key::Pause => "pause"@,
        Key::F1 => "f1"@,
        Key::F2 => "f2"@,
        Key::F3 => "f3"@,
        Key::F4 => "f4"@,
        Key::F5 => "f5"@,
        Key::F6 => "f6"@,
        Key::F7 => "f7"@,
        Key::F8 => "f8"@,
        Key::F9 => "f9"@,
        Key::F10 => "f10"@,
        Key::F11 => "f11"@,
        Key::F12 => "f12"@,
        Key::F13 => "f13"@,
        Key::F14 => "f14"@,
        Key::F15 => "f15"@,
        Key::F16 => "f16"@,
        Key::F17 => "f17"@,
        Key::F18 => "f18"@,
        Key::F19 => "f19"@,
        Key::F20 => "f20"@,
        Key::F21 => "f21"@,
        Key::F22 => "f22"@,
        Key::F23 => "f23"@,
        Key::F24 => "f24"@,
        Key::F25 => "f25"@,
        Key::Kp0 => "kp0"@,
        Key::Kp1 => "kp1"@,
        Key::Kp2 => "kp2"@,
        Key::Kp3 => "kp3"@,
        Key::Kp4 => "kp4"@,
        Key::Kp5 => "kp5"@,
        Key::Kp6 => "kp6"@,
        Key::Kp7 => "kp7"@,
        Key::Kp8 => "kp8"@,
        Key::Kp9 => "kp9"@,
        Key::KpDecimal => "kp-decimal"@,
        Key::KpDivide => "kp-divide"@,
        Key::KpMultiply => "kp-multiply"@,
        Key::KpSubtract => "kp-subtract"@,
        Key::KpAdd => "kp-add"@,
        Key::KpEnter => "kp-enter"@,
        Key::KpEqual => "kp-equal"@,
        Key::LeftShift => "left-shift"@,
        Key::LeftControl => "left-control"@,
        Key::LeftAlt => "left-alt"@,
        Key::LeftSuper => "left-super"@,
        Key::RightShift => "right-shift"@,
        Key::RightControl => "right-control"@,
        Key::RightAlt => "right-alt"@,
        Key::RightSuper => "right-super"@,
        Key::Menu => "menu"@,
        Key::Unknown => "unknown"@,
    }
}

impl Key {
    /// The key's name.
    pub fn name(&self) -> (r: &'static str)
        ensures
            r@ == key_name(*self),
    {
        match self {
            Key::Space => "Space",
            Key::Apostrophe => "Apostrophe",
            Key::Comma => "Comma",
            Key::Minus => "Minus",
            Key::Period => "Period",
            Key::Slash => "Slash",
            Key::KeyZero => "KeyZero",
            Key::KeyOne => "KeyOne",
            Key::KeyTwo => "KeyTwo",
            Key::KeyThree => "KeyThree",
            Key::KeyFour => "KeyFour",
            Key::KeyFive => "KeyFive",
            Key::KeySix => "KeySix",
            Key::KeySeven => "KeySeven",
            Key::KeyEight => "KeyEight",
            Key::KeyNine => "KeyNine",
            Key::Semicolon => "Semicolon",
            Key::Equal => "Equal",
            Key::A => "A",
            Key::B => "B",
            Key::C => "C",
            Key::D => "D",
            Key::E => "E",
            Key::F => "F",
            Key::G => "G",
            Key::H => "H",
            Key::I => "I",
            Key::J => "J",
            Key::K => "K",
            Key::L => "L",
            Key::M => "M",
            Key::N => "N",
            Key::O => "O",
            Key::P => "P",
            Key::Q => "Q",
            Key::R => "R",
            Key::S => "S",
            Key::T => "T",
            Key::U => "U",
            Key::V => "V",
            Key::W => "W",
            Key::X => "X",
            Key::Y => "Y",
            Key::Z => "Z",
            Key::LeftBracket => "LeftBracket",
            Key::Backslash => "Backslash",
            Key::RightBracket => "RightBracket",
            Key::GraveAccent => "GraveAccent",
            Key::WorldOne => "WorldOne",
            Key::WorldTwo => "WorldTwo",
            Key::Escape => "Escape",
            Key::Enter => "Enter",
            Key::Tab => "Tab",
            Key::Backspace => "Backspace",
            Key::Insert => "Insert",
            Key::Delete => "Delete",
            Key::Right => "Right",
            Key::Left => "Left",
            Key::Down => "Down",
            Key::Up => "Up",
            Key::PageUp => "PageUp",
            Key::PageDown => "PageDown",
            Key::Home => "Home",
            Key::End => "End",
            Key::CapsLock => "CapsLock",
            Key::ScrollLock => "ScrollLock",
            Key::NumLock => "NumLock",
            Key::PrintScreen => "PrintScreen",
            Key::Pause => "Pause",
            Key::F1 => "F1",
            Key::F2 => "F2",
            Key::F3 => "F3",
            Key::F4 => "F4",
            Key::F5 => "F5",
            Key::F6 => "F6",
            Key::F7 => "F7",
            Key::F8 => "F8",
            Key::F9 => "F9",
            Key::F10 => "F10",
            Key::F11 => "F11",
            Key::F12 => "F12",
            Key::F13 => "F13",
            Key::F14 => "F14",
            Key::F15 => "F15",
            Key::F16 => "F16",
            Key::F17 => "F17",
            Key::F18 => "F18",
            Key::F19 => "F19",
            Key::F20 => "F20",
            Key::F21 => "F21",
            Key::F22 => "F22",
            Key::F23 => "F23",
            Key::F24 => "F24",
            Key::F25 => "F25",
            Key::Kp0 => "Kp0",
            Key::Kp1 => "Kp1",
            Key::Kp2 => "Kp2",
            Key::Kp3 => "Kp3",
            Key::Kp4 => "Kp4",
            Key::Kp5 => "Kp5",
            Key::Kp6 => "Kp6",
            Key::Kp7 => "Kp7",
            Key::Kp8 => "Kp8",
            Key::Kp9 => "Kp9",
            Key::KpDecimal => "KpDecimal",
            Key::KpDivide => "KpDivide",
            Key::KpMultiply => "KpMultiply",
            Key::KpSubtract => "KpSubtract",
            Key::KpAdd => "KpAdd",
            Key::KpEnter => "KpEnter",
            Key::KpEqual => "KpEqual",
            Key::LeftShift => "LeftShift",
            Key::LeftControl => "LeftControl",
            Key::LeftAlt => "LeftAlt",
            Key::LeftSuper => "LeftSuper",
            Key::RightShift => "RightShift",
            Key::RightControl => "RightControl",
            Key::RightAlt => "RightAlt",
            Key::RightSuper => "RightSuper",
            Key::Menu => "Menu",
            Key::Unknown => "Unknown",
        }
    }

    /// The name of the key's case in the guest interface.
    pub fn interface_name(&self) -> (r: &'static str)
        ensures
            r@ == key_interface_name(*self),
    {
        match self {
            Key::Space => "space",
            Key::Apostrophe => "apostrophe",
            Key::Comma => "comma",
            Key::Minus => "minus",
            Key::Period => "period",
            Key::Slash => "slash",
            Key::KeyZero => "key-zero",
            Key::KeyOne => "key-one",
            Key::KeyTwo => "key-two",
            Key::KeyThree => "key-three",
            Key::KeyFour => "key-four",
            Key::KeyFive => "key-five",
            Key::KeySix => "key-six",
            Key::KeySeven => "key-seven",
            Key::KeyEight => "key-eight",
            Key::KeyNine => "key-nine",
            Key::Semicolon => "semicolon",
            Key::Equal => "equal",
            Key::A => "a",
            Key::B => "b",
            Key::C => "c",
            Key::D => "d",
            Key::E => "e",
            Key::F => "f",
            Key::G => "g",
            Key::H => "h",
            Key::I => "i",
            Key::J => "j",
            Key::K => "k",
            Key::L => "l",
            Key::M => "m",
            Key::N => "n",
            Key::O => "o",
            Key::P => "p",
            Key::Q => "q",
            Key::R => "r",
            Key::S => "s",
            Key::T => "t",
            Key::U => "u",
            Key::V => "v",
            Key::W => "w",
            Key::X => "x",
            Key::Y => "y",
            Key::Z => "z",
            Key::LeftBracket => "left-bracket",
            Key::Backslash => "backslash",
            Key::RightBracket => "right-bracket",
            Key::GraveAccent => "grave-accent",
            Key::WorldOne => "world-one",
            Key::WorldTwo => "world-two",
            Key::Escape => "escape",
            Key::Enter => "enter",
            Key::Tab => "tab",
            Key::Backspace => "backspace",
            Key::Insert => "insert",
            Key::Delete => "delete",
            Key::Right => "right",
            Key::Left => "left",
            Key::Down => "down",
            Key::Up => "up",
            Key::PageUp => "page-up",
            Key::PageDown => "page-down",
            Key::Home => "home",
            Key::End => "end",
            Key::CapsLock => "caps-lock",
            Key::ScrollLock => "scroll-lock",
            Key::NumLock => "num-lock",
            Key::PrintScreen => "print-screen",
            Key::Pause => "pause",
            Key::F1 => "f1",
            Key::F2 => "f2",
            Key::F3 => "f3",
            Key::F4 => "f4",
            Key::F5 => "f5",
            Key::F6 => "f6",
            Key::F7 => "f7",
            Key::F8 => "f8",
            Key::F9 => "f9",
            Key::F10 => "f10",
            Key::F11 => "f11",
            Key::F12 => "f12",
            Key::F13 => "f13",
            Key::F14 => "f14",
            Key::F15 => "f15",
            Key::F16 => "f16",
            Key::F17 => "f17",
            Key::F18 => "f18",
            Key::F19 => "f19",
            Key::F20 => "f20",
            Key::F21 => "f21",
            Key::F22 => "f22",
            Key::F23 => "f23",
            Key::F24 => "f24",
            Key::F25 => "f25",
            Key::Kp0 => "kp0",
            Key::Kp1 => "kp1",
            Key::Kp2 => "kp2",
            Key::Kp3 => "kp3",
            Key::Kp4 => "kp4",
            Key::Kp5 => "kp5",
            Key::Kp6 => "kp6",
            Key::Kp7 => "kp7",
            Key::Kp8 => "kp8",
            Key::Kp9 => "kp9",
            Key::KpDecimal => "kp-decimal",
            Key::KpDivide => "kp-divide",
            Key::KpMultiply => "kp-multiply",
            Key::KpSubtract => "kp-subtract",
            Key::KpAdd => "kp-add",
            Key::KpEnter => "kp-enter",
            Key::KpEqual => "kp-equal",
            Key::LeftShift => "left-shift",
            Key::LeftControl => "left-control",
            Key::LeftAlt => "left-alt",
            Key::LeftSuper => "left-super",
            Key::RightShift => "right-shift",
            Key::RightControl => "right-control",
            Key::RightAlt => "right-alt",
            Key::RightSuper => "right-super",
            Key::Menu => "menu",
            Key::Unknown => "unknown",
        }
    }
}

} // verus!
