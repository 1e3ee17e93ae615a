//! Keys, modifier keys and the interaction status of a text box.
use vstd::prelude::*;

verus! {

/// A named key that the text box reacts to; every other named key is
/// `Other`.
#[derive(Debug, Clone, Copy, PartialEq, Eq, Structural)]
pub enum Named {
    Enter,
    Backspace,
    Delete,
    Escape,
    ArrowLeft,
    ArrowRight,
    ArrowUp,
    ArrowDown,
    Home,
    End,
    PageUp,
    PageDown,
    Other,
}

/// A key on the keyboard.
#[derive(Debug, Clone, PartialEq, Eq)]
pub enum Key {
    /// A key with a name, such as Enter or an arrow key.
    Named(Named),
    /// A key that produces a character, as the layout maps it.
    Character(String),
    /// A key that the platform could not identify.
    Unidentified,
}

/// The modifier keys held during a key press.
#[derive(Debug, Clone, Copy, PartialEq, Eq, Default, Structural)]
pub struct Modifiers {
    pub shift: bool,
    pub control: bool,
    pub alt: bool,
    /// The "windows" key on Windows, "command" on macOS, "super" on Linux.
    pub logo: bool,
}

/// The interaction status of a text box.
#[derive(Debug, Clone, Copy, PartialEq, Eq, Structural)]
pub enum Status {
    /// The text box can be interacted with.
    Active,
    /// The pointer is over the text box.
    Hovered,
    /// The text box is being edited.
    Focused,
    /// The text box cannot be interacted with.
    Disabled,
}

/// Whether the command key is held on a platform: the logo key on macOS,
/// control elsewhere.
pub open spec fn command_on(m: Modifiers, macos: bool) -> bool {
    if macos {
        m.logo
    } else {
        m.control
    }
}

/// Whether the macOS command key is held on a platform: the logo key on
/// macOS, never elsewhere.
pub open spec fn macos_command_on(m: Modifiers, macos: bool) -> bool {
    macos && m.logo
}

/// Whether the key that widens motions is held on a platform: alt on macOS,
/// control elsewhere.
pub open spec fn jump_on(m: Modifiers, macos: bool) -> bool {
    if macos {
        m.alt
    } else {
        m.control
    }
}

/// The command, macOS command and jump keys as a platform reads them.
pub open spec fn platform_keys_on(m: Modifiers, macos: bool) -> (bool, bool, bool) {
    (command_on(m, macos), macos_command_on(m, macos), jump_on(m, macos))
}

/// Relies on iced's `Modifiers::command`, `Modifiers::macos_command` and
/// `Modifiers::jump`, which all read the modifiers as the platform that the
/// crate is built for does: macOS, or any other.
#[verifier::external_body]
pub(crate) fn platform_keys(m: &Modifiers) -> (r: (bool, bool, bool))
    ensures
        r == platform_keys_on(*m, false) || r == platform_keys_on(*m, true),
{
    let mut keys = iced_graphics::core::keyboard::Modifiers::empty();
    keys.set(iced_graphics::core::keyboard::Modifiers::CTRL, m.control);
    keys.set(iced_graphics::core::keyboard::Modifiers::ALT, m.alt);
    keys.set(iced_graphics::core::keyboard::Modifiers::LOGO, m.logo);
    (keys.command(), keys.macos_command(), keys.jump())
}

impl Modifiers {
    /// Whether the platform's command key is held (control, or the logo key
    /// on macOS).
    pub fn command(&self) -> (r: bool)
        ensures
            r == command_on(*self, false) || r == command_on(*self, true),
    {
        platform_keys(self).0
    }

    /// Whether the command key of macOS is held; never true elsewhere.
    pub fn macos_command(&self) -> (r: bool)
        ensures
            r == macos_command_on(*self, false) || r == macos_command_on(*self, true),
    {
        platform_keys(self).1
    }

    /// Whether the key that widens motions is held (control, or alt on
    /// macOS).
    pub fn jump(&self) -> (r: bool)
        ensures
            r == jump_on(*self, false) || r == jump_on(*self, true),
    {
        platform_keys(self).2
    }
}

} // verus!
