//! The messages of the terminal, and the envelope that an event of the
//! terminal makes.

use crate::msg::{Message, Msg, Payload};
use crate::seal::Seal;
use crossterm::event::KeyCode;
use vstd::prelude::*;

verus! {

/// crossterm's `KeyCode`: the key of a key event. The library hands it on and
/// never looks into it.
#[verifier::external_type_specification]
#[verifier::external_body]
pub struct ExKeyCode(KeyCode);

/// Whether all bits of `flag` are set in `bits`.
pub open spec fn has_flag(bits: u8, flag: u8) -> bool {
    bits & flag == flag
}

/// The shift key, as a bit of the modifiers of a [`Key`] or a [`Mouse`].
pub const SHIFT: u8 = 0b0000_0001;

/// The control key, as a bit of the modifiers.
pub const CONTROL: u8 = 0b0000_0010;

/// The alt key, as a bit of the modifiers.
pub const ALT: u8 = 0b0000_0100;

/// The super key, as a bit of the modifiers.
pub const SUPER: u8 = 0b0000_1000;

/// The hyper key, as a bit of the modifiers.
pub const HYPER: u8 = 0b0001_0000;

/// The meta key, as a bit of the modifiers.
pub const META: u8 = 0b0010_0000;

/// A key of the keypad, as a bit of the state of a [`Key`].
pub const KEYPAD: u8 = 0b0000_0001;

/// Caps lock, as a bit of the state.
pub const CAPS_LOCK: u8 = 0b0000_0010;

/// Num lock, as a bit of the state.
pub const NUM_LOCK: u8 = 0b0000_0100;

/// Whether all bits of `flag` are set in `bits`.
fn holds(bits: u8, flag: u8) -> (r: bool)
    ensures
        r == has_flag(bits, flag),
{
    bits & flag == flag
}

/// What happened to a key.
#[derive(Clone, Copy, Debug, PartialEq, Eq)]
pub enum KeyKind {
    Press,
    Repeat,
    Release,
}

/// A message keyboard input.
#[derive(Clone, Copy, Debug)]
pub struct Key {
    /// The key that emitted this message.
    pub code: KeyCode,
    modifiers: u8,
    kind: KeyKind,
    state: u8,
}

/// What a [`Key`] holds: the key, the modifier keys that were held (as bits),
/// what happened to the key, and the state of the keyboard (as bits).
pub ghost struct KeyView {
    pub code: KeyCode,
    pub modifiers: u8,
    pub kind: KeyKind,
    pub state: u8,
}

impl View for Key {
    type V = KeyView;

    closed spec fn view(&self) -> KeyView {
        KeyView { code: self.code, modifiers: self.modifiers, kind: self.kind, state: self.state }
    }
}

impl Message for Key {
    open spec fn payload(&self, seal: Seal) -> Payload {
        Payload::Key(self@)
    }
}

impl Key {
    /// A key with the given contents.
    pub proof fn with_view(view: KeyView) -> (key: Key)
        ensures
            key@ == view,
    {
        Key { code: view.code, modifiers: view.modifiers, kind: view.kind, state: view.state }
    }

    /// Two keys with the same contents are the same.
    pub proof fn view_tells_value(a: Key, b: Key)
        ensures
            a@ == b@ ==> a == b,
    {
    }

    /// A key message, from the key, the modifier bits, what happened to the key
    /// and the state bits.
    pub fn new(code: KeyCode, modifiers: u8, kind: KeyKind, state: u8) -> (key: Self)
        ensures
            key@ == (KeyView { code, modifiers, kind, state }),
    {
        Self { code, modifiers, kind, state }
    }

    /// Was this key pressed down
    pub fn is_press(&self) -> (r: bool)
        ensures
            r == (self@.kind is Press),
    {
        matches!(self.kind, KeyKind::Press)
    }

    /// Was this key released
    pub fn is_release(&self) -> (r: bool)
        ensures
            r == (self@.kind is Release),
    {
        matches!(self.kind, KeyKind::Release)
    }

    /// Is this key being held
    pub fn is_repeat(&self) -> (r: bool)
        ensures
            r == (self@.kind is Repeat),
    {
        matches!(self.kind, KeyKind::Repeat)
    }

    /// Was shift also being pressed
    pub fn with_shift(&self) -> (r: bool)
        ensures
            r == has_flag(self@.modifiers, SHIFT),
    {
        holds(self.modifiers, SHIFT)
    }

    /// Was control/ctrl also being pressed
    pub fn with_control(&self) -> (r: bool)
        ensures
            r == has_flag(self@.modifiers, CONTROL),
    {
        holds(self.modifiers, CONTROL)
    }

    /// Was alt also being pressed
    pub fn with_alt(&self) -> (r: bool)
        ensures
            r == has_flag(self@.modifiers, ALT),
    {
        holds(self.modifiers, ALT)
    }

    /// Was super also being pressed
    pub fn with_super(&self) -> (r: bool)
        ensures
            r == has_flag(self@.modifiers, SUPER),
    {
        holds(self.modifiers, SUPER)
    }

    /// Was hyper also being pressed
    pub fn with_hyper(&self) -> (r: bool)
        ensures
            r == has_flag(self@.modifiers, HYPER),
    {
        holds(self.modifiers, HYPER)
    }

    /// Was meta also being pressed
    pub fn with_meta(&self) -> (r: bool)
        ensures
            r == has_flag(self@.modifiers, META),
    {
        holds(self.modifiers, META)
    }

    /// Is the key in the keypad part of the keyboard
    pub fn from_keypad(&self) -> (r: bool)
        ensures
            r == has_flag(self@.state, KEYPAD),
    {
        holds(self.state, KEYPAD)
    }

    /// Was caps-lock active
    pub fn with_capslock(&self) -> (r: bool)
        ensures
            r == has_flag(self@.state, CAPS_LOCK),
    {
        holds(self.state, CAPS_LOCK)
    }

    /// Was num-lock active
    pub fn with_numlock(&self) -> (r: bool)
        ensures
            r == has_flag(self@.state, NUM_LOCK),
    {
        holds(self.state, NUM_LOCK)
    }
}

/// A button of the mouse.
#[derive(Clone, Copy, Debug, PartialEq, Eq)]
pub enum MouseButton {
    Left,
    Right,
    Middle,
}

/// What the mouse did.
#[derive(Clone, Copy, Debug, PartialEq, Eq)]
pub enum MouseKind {
    /// The button was pressed.
    Down(MouseButton),
    /// The button was released.
    Up(MouseButton),
    /// The pointer moved while the button was held.
    Drag(MouseButton),
    /// The pointer moved with no button held.
    Moved,
    /// The wheel was scrolled towards the user.
    ScrollDown,
    /// The wheel was scrolled away from the user.
    ScrollUp,
    /// The wheel was scrolled left.
    ScrollLeft,
    /// The wheel was scrolled right.
    ScrollRight,
}

/// The button that a mouse event is about, if it is about one.
pub open spec fn button(kind: MouseKind) -> Option<MouseButton> {
    match kind {
        MouseKind::Down(b) => Some(b),
        MouseKind::Up(b) => Some(b),
        MouseKind::Drag(b) => Some(b),
        _ => None,
    }
}

/// Whether a mouse event is a turn of the wheel.
pub open spec fn is_wheel(kind: MouseKind) -> bool {
    kind is ScrollDown || kind is ScrollUp || kind is ScrollLeft || kind is ScrollRight
}

/// A message for mouse input.
#[derive(Clone, Copy, Debug)]
pub struct Mouse {
    kind: MouseKind,
    modifiers: u8,
    /// The column the pointer was over.
    pub column: u16,
    /// The row the pointer was over.
    pub row: u16,
}

/// What a [`Mouse`] holds: what the mouse did, the modifier keys that were held
/// (as bits), and where the pointer was.
pub ghost struct MouseView {
    pub kind: MouseKind,
    pub modifiers: u8,
    pub column: u16,
    pub row: u16,
}

impl View for Mouse {
    type V = MouseView;

    closed spec fn view(&self) -> MouseView {
        MouseView {
            kind: self.kind,
            modifiers: self.modifiers,
            column: self.column,
            row: self.row,
        }
    }
}

impl Message for Mouse {
    open spec fn payload(&self, seal: Seal) -> Payload {
        Payload::Mouse(self@)
    }
}

impl Mouse {
    /// A mouse message with the given contents.
    pub proof fn with_view(view: MouseView) -> (mouse: Mouse)
        ensures
            mouse@ == view,
    {
        Mouse { kind: view.kind, modifiers: view.modifiers, column: view.column, row: view.row }
    }

    /// Two mouse messages with the same contents are the same.
    pub proof fn view_tells_value(a: Mouse, b: Mouse)
        ensures
            a@ == b@ ==> a == b,
    {
    }

    /// A mouse message, from what the mouse did, the modifier bits, and the
    /// column and row of the pointer.
    pub fn new(kind: MouseKind, modifiers: u8, column: u16, row: u16) -> (mouse: Self)
        ensures
            mouse@ == (MouseView { kind, modifiers, column, row }),
    {
        Self { kind, modifiers, column, row }
    }

    /// Was this message emitted by the left mouse button.
    pub fn is_left(&self) -> (r: bool)
        ensures
            r == (button(self@.kind) == Some(MouseButton::Left)),
    {
        matches!(
            self.kind,
            MouseKind::Down(MouseButton::Left) | MouseKind::Up(MouseButton::Left) | MouseKind::Drag(
                MouseButton::Left
            )
        )
    }

    /// Was this message emitted by the right mouse button.
    pub fn is_right(&self) -> (r: bool)
        ensures
            r == (button(self@.kind) == Some(MouseButton::Right)),
    {
        matches!(
            self.kind,
            MouseKind::Down(MouseButton::Right) | MouseKind::Up(MouseButton::Right)
                | MouseKind::Drag(MouseButton::Right)
        )
    }

    /// Was this message emitted by the middle mouse button.
    pub fn is_middle(&self) -> (r: bool)
        ensures
            r == (button(self@.kind) == Some(MouseButton::Middle)),
    {
        matches!(
            self.kind,
            MouseKind::Down(MouseButton::Middle) | MouseKind::Up(MouseButton::Middle)
                | MouseKind::Drag(MouseButton::Middle)
        )
    }

    /// Was this message emitted by the scroll wheel.
    pub fn is_scroll(&self) -> (r: bool)
        ensures
            r == is_wheel(self@.kind),
    {
        matches!(
            self.kind,
            MouseKind::ScrollUp | MouseKind::ScrollDown | MouseKind::ScrollLeft
                | MouseKind::ScrollRight
        )
    }

    /// Was this button pressed down
    pub fn is_press(&self) -> (r: bool)
        ensures
            r == (self@.kind is Down),
    {
        matches!(self.kind, MouseKind::Down(_))
    }

    /// Was this button released
    pub fn is_release(&self) -> (r: bool)
        ensures
            r == (self@.kind is Up),
    {
        matches!(self.kind, MouseKind::Up(_))
    }

    /// Was this button held while moved
    pub fn is_drag(&self) -> (r: bool)
        ensures
            r == (self@.kind is Drag),
    {
        matches!(self.kind, MouseKind::Drag(_))
    }

    /// Was the mouse moved
    pub fn is_move(&self) -> (r: bool)
        ensures
            r == (self@.kind is Moved),
    {
        matches!(self.kind, MouseKind::Moved)
    }

    /// Was the wheel scrolled away from the user
    pub fn is_scroll_up(&self) -> (r: bool)
        ensures
            r == (self@.kind is ScrollUp),
    {
        matches!(self.kind, MouseKind::ScrollUp)
    }

    /// Was the wheel scrolled towards the user
    pub fn is_scroll_down(&self) -> (r: bool)
        ensures
            r == (self@.kind is ScrollDown),
    {
        matches!(self.kind, MouseKind::ScrollDown)
    }

    /// Was the wheel scrolled left
    pub fn is_scroll_left(&self) -> (r: bool)
        ensures
            r == (self@.kind is ScrollLeft),
    {
        matches!(self.kind, MouseKind::ScrollLeft)
    }

    /// Was the wheel scrolled right
    pub fn is_scroll_right(&self) -> (r: bool)
        ensures
            r == (self@.kind is ScrollRight),
    {
        matches!(self.kind, MouseKind::ScrollRight)
    }

    /// Was shift also being pressed
    pub fn with_shift(&self) -> (r: bool)
        ensures
            r == has_flag(self@.modifiers, SHIFT),
    {
        holds(self.modifiers, SHIFT)
    }

    /// Was control/ctrl also being pressed
    pub fn with_control(&self) -> (r: bool)
        ensures
            r == has_flag(self@.modifiers, CONTROL),
    {
        holds(self.modifiers, CONTROL)
    }

    /// Was alt also being pressed
    pub fn with_alt(&self) -> (r: bool)
        ensures
            r == has_flag(self@.modifiers, ALT),
    {
        holds(self.modifiers, ALT)
    }

    /// Was super also being pressed
    pub fn with_super(&self) -> (r: bool)
        ensures
            r == has_flag(self@.modifiers, SUPER),
    {
        holds(self.modifiers, SUPER)
    }

    /// Was hyper also being pressed
    pub fn with_hyper(&self) -> (r: bool)
        ensures
            r == has_flag(self@.modifiers, HYPER),
    {
        holds(self.modifiers, HYPER)
    }

    /// Was meta also being pressed
    pub fn with_meta(&self) -> (r: bool)
        ensures
            r == has_flag(self@.modifiers, META),
    {
        holds(self.modifiers, META)
    }
}

/// A message for terminal focus.
#[derive(Clone, Copy, Debug, PartialEq, Eq)]
pub enum Focus {
    /// The app is now in focus.
    Gained,
    /// The app is now out of focus.
    Lost,
}

impl Message for Focus {
    open spec fn payload(&self, seal: Seal) -> Payload {
        Payload::Focus(*self)
    }
}

/// A message for user pasting from clipboard.
pub struct Paste(pub String);

impl Message for Paste {
    open spec fn payload(&self, seal: Seal) -> Payload {
        Payload::Paste(self.0@)
    }
}

/// A message for terminal window resizing.
#[derive(Clone, Copy, Debug, PartialEq, Eq)]
pub struct Resize {
    /// The number of columns available.
    pub width: u16,
    /// The number of rows available.
    pub height: u16,
}

impl Message for Resize {
    open spec fn payload(&self, seal: Seal) -> Payload {
        Payload::Resize(*self)
    }
}

/// One event of the terminal, as the terminal backend reports it.
pub enum TerminalEvent {
    /// The terminal gained the focus.
    FocusGained,
    /// The terminal lost the focus.
    FocusLost,
    /// A key was used.
    Key(Key),
    /// The mouse was used.
    Mouse(Mouse),
    /// A text was pasted.
    Paste(String),
    /// The terminal has the new size: columns, rows.
    Resize(u16, u16),
}

/// The payload of the one envelope that an event makes, or `None` where the
/// event makes none: a pasted text where pastes are left out.
pub open spec fn delivered(event: TerminalEvent, pastes: bool) -> Option<Payload> {
    match event {
        TerminalEvent::FocusGained => Some(Payload::Focus(Focus::Gained)),
        TerminalEvent::FocusLost => Some(Payload::Focus(Focus::Lost)),
        TerminalEvent::Key(key) => Some(Payload::Key(key@)),
        TerminalEvent::Mouse(mouse) => Some(Payload::Mouse(mouse@)),
        TerminalEvent::Paste(text) => if pastes {
            Some(Payload::Paste(text@))
        } else {
            None
        },
        TerminalEvent::Resize(width, height) => Some(Payload::Resize(Resize { width, height })),
    }
}

impl TerminalEvent {
    /// The envelope that goes to the app for this event. With `pastes` off, a
    /// pasted text is dropped.
    pub fn into_msg(self, pastes: bool) -> (envelope: Option<Msg>)
        ensures
            match envelope {
                Some(msg) => delivered(self, pastes) == Some(msg@),
                None => delivered(self, pastes) is None,
            },
    {
        match self {
            TerminalEvent::FocusGained => Some(Msg::new(Focus::Gained)),
            TerminalEvent::FocusLost => Some(Msg::new(Focus::Lost)),
            TerminalEvent::Key(key) => Some(Msg::new(key)),
            TerminalEvent::Mouse(mouse) => Some(Msg::new(mouse)),
            TerminalEvent::Paste(text) => if pastes {
                Some(Msg::new(Paste(text)))
            } else {
                None
            },
            TerminalEvent::Resize(width, height) => Some(Msg::new(Resize { width, height })),
        }
    }
}

} // verus!
