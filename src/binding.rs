//! Key bindings: what a key press asks of a focused text box.
use vstd::prelude::*;

use crate::keyboard::{
    command_on, jump_on, macos_command_on, platform_keys, Key, Modifiers, Named, Status,
};

verus! {

/// A movement of the cursor: iced's editor motion.
pub type CursorMotion = iced_graphics::core::text::editor::Motion;

#[verifier::external_type_specification]
pub struct ExMotion(iced_graphics::core::text::editor::Motion);

/// The wider form of a motion: by word instead of by character, to the ends
/// of the document instead of the ends of the line.
pub open spec fn widened(m: CursorMotion) -> CursorMotion {
    match m {
        CursorMotion::Left => CursorMotion::WordLeft,
        CursorMotion::Right => CursorMotion::WordRight,
        CursorMotion::Home => CursorMotion::DocumentStart,
        CursorMotion::End => CursorMotion::DocumentEnd,
        _ => m,
    }
}

/// Relies on iced's `Motion::widen`: it widens left, right, home and end,
/// and keeps every other motion.
pub assume_specification[ iced_graphics::core::text::editor::Motion::widen ](
    m: iced_graphics::core::text::editor::Motion,
) -> (r: iced_graphics::core::text::editor::Motion)
    ensures
        r == widened(m),
;

/// The motion that a navigation key asks for.
pub open spec fn motion_of(key: Named) -> Option<CursorMotion> {
    match key {
        Named::ArrowLeft => Some(CursorMotion::Left),
        Named::ArrowRight => Some(CursorMotion::Right),
        Named::ArrowUp => Some(CursorMotion::Up),
        Named::ArrowDown => Some(CursorMotion::Down),
        Named::Home => Some(CursorMotion::Home),
        Named::End => Some(CursorMotion::End),
        Named::PageUp => Some(CursorMotion::PageUp),
        Named::PageDown => Some(CursorMotion::PageDown),
        _ => None,
    }
}

/// The motion that a navigation key asks for, if it is one.
pub fn motion(key: Named) -> (r: Option<CursorMotion>)
    ensures
        r == motion_of(key),
{
    match key {
        Named::ArrowLeft => Some(CursorMotion::Left),
        Named::ArrowRight => Some(CursorMotion::Right),
        Named::ArrowUp => Some(CursorMotion::Up),
        Named::ArrowDown => Some(CursorMotion::Down),
        Named::Home => Some(CursorMotion::Home),
        Named::End => Some(CursorMotion::End),
        Named::PageUp => Some(CursorMotion::PageUp),
        Named::PageDown => Some(CursorMotion::PageDown),
        _ => None,
    }
}

/// Whether a character is a control code (general category Cc).
pub open spec fn is_control_char(c: char) -> bool {
    (c as u32) <= 0x1f || (0x7f <= (c as u32) && (c as u32) <= 0x9f)
}

/// Whether a character is a control code (general category Cc).
pub fn is_control(c: char) -> (r: bool)
    ensures
        r == is_control_char(c),
{
    let code = c as u32;
    code <= 0x1f || (0x7f <= code && code <= 0x9f)
}

/// The first character of `s` that is not a control code.
pub open spec fn first_printable(s: Seq<char>) -> Option<char>
    decreases s.len(),
{
    if s.len() == 0 {
        None
    } else if is_control_char(s[0]) {
        first_printable(s.drop_first())
    } else {
        Some(s[0])
    }
}

/// The first character of `s` that is not a control code, if any.
pub fn first_printable_char(s: &str) -> (r: Option<char>)
    ensures
        r == first_printable(s@),
{
    let n = s.unicode_len();
    let mut i: usize = 0;
    assert(s@.skip(0) =~= s@);
    while i < n
        invariant
            n == s@.len(),
            i <= n,
            first_printable(s@) == first_printable(s@.skip(i as int)),
        decreases n - i,
    {
        let c = s.get_char(i);
        assert(s@.skip(i as int)[0] == c);
        assert(s@.skip(i as int).drop_first() =~= s@.skip(i + 1));
        if !is_control(c) {
            return Some(c);
        }
        i = i + 1;
    }
    assert(s@.skip(i as int).len() == 0);
    None
}

/// Whether `s` is exactly the one character `c`.
pub open spec fn is_single(s: Seq<char>, c: char) -> bool {
    s.len() == 1 && s[0] == c
}

/// Whether `s` is exactly the one character `c`.
pub fn is_single_char(s: &str, c: char) -> (r: bool)
    ensures
        r == is_single(s@, c),
{
    s.unicode_len() == 1 && s.get_char(0) == c
}

/// A key press, as the text box sees it.
#[derive(Debug, Clone, PartialEq, Eq)]
pub struct KeyPress {
    /// The key pressed.
    pub key: Key,
    /// The modifier keys held.
    pub modifiers: Modifiers,
    /// The text that the key press produced.
    pub text: Option<String>,
    /// The status of the text box.
    pub status: Status,
}

/// What a key press asks of a text box.
#[derive(Debug, PartialEq)]
pub enum Binding<Message> {
    /// Leave editing.
    Unfocus,
    /// Submit the text.
    Submit,
    /// Copy the selection.
    Copy,
    /// Cut the selection.
    Cut,
    /// Paste the clipboard's contents.
    Paste,
    /// Move the cursor.
    Move(CursorMotion),
    /// Extend the selection.
    Select(CursorMotion),
    /// Select the word at the cursor.
    SelectWord,
    /// Select the line at the cursor.
    SelectLine,
    /// Select the whole text.
    SelectAll,
    /// Insert a character.
    Insert(char),
    /// Break the line.
    Enter,
    /// Delete the previous character.
    Backspace,
    /// Delete the next character.
    Delete,
    /// Several bindings, applied in order.
    Sequence(Vec<Self>),
    /// Produce the given message.
    Custom(Message),
}

/// The motion a navigation key asks for once the modifiers are applied: the
/// macOS command key turns left and right into home and end, then the jump
/// key widens the motion.
pub open spec fn modified_motion(m: CursorMotion, macos_command: bool, jump: bool) -> CursorMotion {
    let m1 = if macos_command {
        match m {
            CursorMotion::Left => CursorMotion::Home,
            CursorMotion::Right => CursorMotion::End,
            _ => m,
        }
    } else {
        m
    };
    if jump {
        widened(m1)
    } else {
        m1
    }
}

/// Whether a key press is the character key `c` with the command key held.
pub open spec fn is_command_char(kp: KeyPress, c: char, command: bool) -> bool {
    command && (kp.key matches Key::Character(s) && is_single(s@, c))
}

/// The binding a key press resolves to, given what the platform makes of its
/// modifiers: the command key, the macOS command key and the jump key.
/// Bindings come only while the text box is focused.
pub open spec fn binding_of<Message>(
    kp: KeyPress,
    command: bool,
    macos_command: bool,
    jump: bool,
) -> Option<Binding<Message>> {
    if kp.status != Status::Focused {
        None
    } else if kp.key == Key::Named(Named::Enter) {
        Some(Binding::Enter)
    } else if kp.key == Key::Named(Named::Backspace) {
        Some(Binding::Backspace)
    } else if kp.key == Key::Named(Named::Delete) && (kp.text is None || is_single(
        kp.text->0@,
        '\u{7f}',
    )) {
        Some(Binding::Delete)
    } else if kp.key == Key::Named(Named::Escape) {
        Some(Binding::Unfocus)
    } else if is_command_char(kp, 'c', command) {
        Some(Binding::Copy)
    } else if is_command_char(kp, 'x', command) {
        Some(Binding::Cut)
    } else if is_command_char(kp, 'v', command) && !kp.modifiers.alt {
        Some(Binding::Paste)
    } else if is_command_char(kp, 'a', command) {
        Some(Binding::SelectAll)
    } else if kp.text is Some {
        match first_printable(kp.text->0@) {
            Some(c) => Some(Binding::Insert(c)),
            None => None,
        }
    } else if kp.key matches Key::Named(n) && motion_of(n) is Some {
        let m = modified_motion(motion_of(kp.key->Named_0)->0, macos_command, jump);
        if kp.modifiers.shift {
            Some(Binding::Select(m))
        } else {
            Some(Binding::Move(m))
        }
    } else {
        None
    }
}

/// The binding a key press resolves to on a platform, macOS or any other.
pub open spec fn platform_binding<Message>(kp: KeyPress, macos: bool) -> Option<Binding<Message>> {
    binding_of::<Message>(
        kp,
        command_on(kp.modifiers, macos),
        macos_command_on(kp.modifiers, macos),
        jump_on(kp.modifiers, macos),
    )
}

/// Whether `b` is the binding that the default key bindings give for `kp` on
/// the platform the crate is built for, macOS or any other.
pub open spec fn default_binding<Message>(kp: KeyPress, b: Option<Binding<Message>>) -> bool {
    b == platform_binding::<Message>(kp, false) || b == platform_binding::<Message>(kp, true)
}

/// Whether `key` is the named key `n`.
fn is_named(key: &Key, n: Named) -> (r: bool)
    ensures
        r == (*key == Key::Named(n)),
{
    match key {
        Key::Named(k) => *k == n,
        _ => false,
    }
}

/// Whether `key` is the character key `c`.
fn is_character(key: &Key, c: char) -> (r: bool)
    ensures
        r == (key matches Key::Character(s) && is_single(s@, c)),
{
    match key {
        Key::Character(s) => is_single_char(s.as_str(), c),
        _ => false,
    }
}

impl<Message> Binding<Message> {
    /// Resolves a key press, given what the platform makes of its modifiers.
    pub fn resolve(event: KeyPress, command: bool, macos_command: bool, jump: bool) -> (r: Option<
        Self,
    >)
        ensures
            r == binding_of::<Message>(event, command, macos_command, jump),
    {
        if event.status != Status::Focused {
            return None;
        }
        let key = &event.key;
        if is_named(key, Named::Enter) {
            Some(Binding::Enter)
        } else if is_named(key, Named::Backspace) {
            Some(Binding::Backspace)
        } else if is_named(key, Named::Delete) && (match &event.text {
            None => true,
            Some(t) => is_single_char(t.as_str(), '\u{7f}'),
        }) {
            Some(Binding::Delete)
        } else if is_named(key, Named::Escape) {
            Some(Binding::Unfocus)
        } else if command && is_character(key, 'c') {
            Some(Binding::Copy)
        } else if command && is_character(key, 'x') {
            Some(Binding::Cut)
        } else if command && is_character(key, 'v') && !event.modifiers.alt {
            Some(Binding::Paste)
        } else if command && is_character(key, 'a') {
            Some(Binding::SelectAll)
        } else {
            match &event.text {
                Some(t) => match first_printable_char(t.as_str()) {
                    Some(c) => Some(Binding::Insert(c)),
                    None => None,
                },
                None => match key {
                    Key::Named(n) => match motion(*n) {
                        Some(m) => {
                            let m1 = if macos_command {
                                match m {
                                    CursorMotion::Left => CursorMotion::Home,
                                    CursorMotion::Right => CursorMotion::End,
                                    _ => m,
                                }
                            } else {
                                m
                            };
                            let m2 = if jump {
                                m1.widen()
                            } else {
                                m1
                            };
                            if event.modifiers.shift {
                                Some(Binding::Select(m2))
                            } else {
                                Some(Binding::Move(m2))
                            }
                        },
                        None => None,
                    },
                    _ => None,
                },
            }
        }
    }

    /// The default binding of a key press, as the platform reads its
    /// modifiers.
    pub fn from_key_press(event: KeyPress) -> (r: Option<Self>)
        ensures
            default_binding::<Message>(event, r),
    {
        let (command, macos_command, jump) = platform_keys(&event.modifiers);
        Self::resolve(event, command, macos_command, jump)
    }
}

/// The default key bindings on a platform. Nothing resolves unless the box
/// is being edited. While it is: Enter, Backspace and Escape give Enter,
/// Backspace and Unfocus, and Delete without text gives Delete; with the
/// platform's command key, `c`, `x`, `v` (without alt) and `a` give Copy,
/// Cut, Paste and SelectAll (so control and `c` copy on any platform but
/// macOS); another character key with text inserts the text's first
/// printable character; and a navigation key without text moves, or
/// selects with shift, by its motion as the platform's macOS command and
/// jump keys modify it.
pub proof fn default_bindings_on_a_platform<Message>(kp: KeyPress, macos: bool)
    ensures
        ({
            let r = platform_binding::<Message>(kp, macos);
            let m = kp.modifiers;
            let command = command_on(m, macos);
            let focused = kp.status == Status::Focused;
            &&& !focused ==> r is None
            &&& focused && kp.key == Key::Named(Named::Enter) ==> r == Some(
                Binding::<Message>::Enter,
            )
            &&& focused && kp.key == Key::Named(Named::Backspace) ==> r == Some(
                Binding::<Message>::Backspace,
            )
            &&& focused && kp.key == Key::Named(Named::Escape) ==> r == Some(
                Binding::<Message>::Unfocus,
            )
            &&& focused && kp.key == Key::Named(Named::Delete) && kp.text is None ==> r == Some(
                Binding::<Message>::Delete,
            )
            &&& focused && command && (kp.key matches Key::Character(s) && is_single(s@, 'c'))
                ==> r == Some(Binding::<Message>::Copy)
            &&& focused && !macos && m.control && (kp.key matches Key::Character(s) && is_single(
                s@,
                'c',
            )) ==> r == Some(Binding::<Message>::Copy)
            &&& focused && command && (kp.key matches Key::Character(s) && is_single(s@, 'x'))
                ==> r == Some(Binding::<Message>::Cut)
            &&& focused && command && !m.alt && (kp.key matches Key::Character(s) && is_single(
                s@,
                'v',
            )) ==> r == Some(Binding::<Message>::Paste)
            &&& focused && command && (kp.key matches Key::Character(s) && is_single(s@, 'a'))
                ==> r == Some(Binding::<Message>::SelectAll)
            &&& focused && !command && kp.key is Character && kp.text is Some ==> r
                == match first_printable(kp.text->0@) {
                Some(c) => Some(Binding::<Message>::Insert(c)),
                None => None,
            }
            &&& focused && kp.text is None && (kp.key matches Key::Named(n) && motion_of(n) is Some)
                ==> {
                let mo = modified_motion(
                    motion_of(kp.key->Named_0)->0,
                    macos_command_on(m, macos),
                    jump_on(m, macos),
                );
                r == Some(
                    if m.shift {
                        Binding::<Message>::Select(mo)
                    } else {
                        Binding::<Message>::Move(mo)
                    },
                )
            }
        }),
{
}

} // verus!
