//! Input events of a text box and the updates they ask for.
use vstd::prelude::*;

use crate::binding::{default_binding, Binding, KeyPress};
use crate::keyboard::{Key, Modifiers, Status};
use crate::state::State;

verus! {

#[verifier::external_type_specification]
#[verifier::external_body]
#[verifier::reject_recursive_types(T)]
pub struct ExPoint<T>(iced_graphics::core::Point<T>);

#[verifier::external_type_specification]
#[verifier::external_body]
pub struct ExClick(iced_graphics::core::mouse::Click);

/// The kind of a mouse click.
#[derive(Debug, Clone, Copy, PartialEq, Eq, Structural)]
pub enum ClickKind {
    Single,
    Double,
    Triple,
}

/// Relies on iced's `mouse::Click::new`, which counts a left click at
/// `position` as single, double or triple from the click before it and the
/// time between them.
#[verifier::external_body]
pub(crate) fn left_click(
    position: iced_graphics::core::Point,
    previous: Option<iced_graphics::core::mouse::Click>,
) -> (r: iced_graphics::core::mouse::Click) {
    iced_graphics::core::mouse::Click::new(
        position,
        iced_graphics::core::mouse::Button::Left,
        previous,
    )
}

/// Relies on iced's `mouse::Click::kind`.
#[verifier::external_body]
pub(crate) fn click_kind(click: &iced_graphics::core::mouse::Click) -> (r: ClickKind) {
    match click.kind() {
        iced_graphics::core::mouse::click::Kind::Single => ClickKind::Single,
        iced_graphics::core::mouse::click::Kind::Double => ClickKind::Double,
        iced_graphics::core::mouse::click::Kind::Triple => ClickKind::Triple,
    }
}

/// How far a wheel turned, in thousandths of a line or of a pixel.
#[derive(Debug, Clone, Copy, PartialEq, Eq, Structural)]
pub enum ScrollDelta {
    /// Thousandths of a line.
    Lines { y: i32 },
    /// Thousandths of a pixel.
    Pixels { y: i32 },
}

/// An input event of a text box. Positions are in the box's content area,
/// and present only while the pointer is over the box.
#[derive(Debug, PartialEq)]
pub enum Event {
    /// The left mouse button went down.
    LeftPressed { position: Option<iced_graphics::core::Point> },
    /// The left mouse button went up.
    LeftReleased,
    /// The pointer moved.
    CursorMoved { position: Option<iced_graphics::core::Point> },
    /// A wheel turned; `over` tells whether the pointer is over the box.
    WheelScrolled { delta: ScrollDelta, over: bool },
    /// A key went down.
    KeyPressed { key: Key, modifiers: Modifiers, text: Option<String> },
    /// The window lost the focus.
    WindowUnfocused,
    /// The window gained the focus.
    WindowFocused,
    /// The window is being redrawn at the given time, in milliseconds.
    RedrawRequested { at: u64 },
    /// Anything else.
    Other,
}

/// What an input event asks of a text box.
#[derive(Debug)]
pub enum Update<Message> {
    /// A left click in the box, at the given position.
    Click { click: iced_graphics::core::mouse::Click, position: iced_graphics::core::Point },
    /// A drag to the given position.
    Drag(iced_graphics::core::Point),
    /// The left button went up.
    Release,
    /// Scroll by the given thousandths of a line.
    Scroll(i64),
    /// A key binding.
    Binding(Binding<Message>),
}

/// Thousandths of a line that a wheel turn scrolls. A turn by lines scrolls
/// four times as far, at least one line, against the turn; a turn by pixels
/// scrolls one line per four pixels, against the turn.
pub open spec fn scroll_amount(delta: ScrollDelta) -> int {
    match delta {
        ScrollDelta::Lines { y } => if y == 0 {
            0
        } else if y > 0 {
            -(if 4 * y > 1000 { 4 * y } else { 1000 })
        } else {
            if -4 * y > 1000 { -4 * y } else { 1000 }
        },
        ScrollDelta::Pixels { y } => if y >= 0 {
            -(y / 4)
        } else {
            (-y) / 4
        },
    }
}

/// Thousandths of a line that a wheel turn scrolls.
pub fn scroll_lines(delta: ScrollDelta) -> (r: i64)
    ensures
        r == scroll_amount(delta),
{
    match delta {
        ScrollDelta::Lines { y } => {
            let y = y as i64;
            if y == 0 {
                0
            } else if y > 0 {
                -(if 4 * y > 1000 { 4 * y } else { 1000 })
            } else {
                if -4 * y > 1000 { -4 * y } else { 1000 }
            }
        },
        ScrollDelta::Pixels { y } => {
            let y = y as i64;
            if y >= 0 {
                -(y / 4)
            } else {
                (-y) / 4
            }
        },
    }
}

/// The key press that a text box sees: focused while it has a focus
/// record, else active.
pub open spec fn key_press_of(
    key: Key,
    modifiers: Modifiers,
    text: Option<String>,
    focused: bool,
) -> KeyPress {
    KeyPress {
        key,
        modifiers,
        text,
        status: if focused {
            Status::Focused
        } else {
            Status::Active
        },
    }
}

/// The update of a key binding, if there is one.
pub open spec fn binding_update<Message>(b: Option<Binding<Message>>) -> Option<Update<Message>> {
    match b {
        Some(b) => Some(Update::Binding(b)),
        None => None,
    }
}

impl<Message> Update<Message> {
    /// The update that an input event asks for, if any. Key presses go to
    /// `key_binding` where one is given, else to the default bindings.
    pub fn from_event<F>(event: Event, state: &State, key_binding: Option<&F>) -> (r: Option<
        Self,
    >) where F: Fn(KeyPress) -> Option<Binding<Message>>
        requires
            key_binding matches Some(f) ==> forall|kp: KeyPress| #[trigger] f.requires((kp,)),
        ensures
            match event {
                Event::LeftPressed { position } => if position is Some {
                    r matches Some(Update::Click { position: at, .. }) && at == position->0
                } else if state.focus is Some {
                    r == Some(Update::<Message>::Binding(Binding::Unfocus))
                } else {
                    r is None
                },
                Event::LeftReleased => r == Some(Update::<Message>::Release),
                Event::CursorMoved { position } => r == if state.drag_click == Some(
                    ClickKind::Single,
                ) && position is Some {
                    Some(Update::<Message>::Drag(position->0))
                } else {
                    None
                },
                Event::WheelScrolled { delta, over } => r == if over {
                    Some(Update::<Message>::Scroll(scroll_amount(delta) as i64))
                } else {
                    None
                },
                Event::KeyPressed { key, modifiers, text } => {
                    let kp = key_press_of(key, modifiers, text, state.focus is Some);
                    exists|b: Option<Binding<Message>>|
                        {
                            &&& match key_binding {
                                Some(f) => f.ensures((kp,), b),
                                None => default_binding(kp, b),
                            }
                            &&& r == binding_update(b)
                        }
                },
                _ => r is None,
            },
    {
        match event {
            Event::LeftPressed { position } => match position {
                Some(position) => {
                    let click = left_click(position, state.last_click);
                    Some(Update::Click { click, position })
                },
                None => if state.focus.is_some() {
                    Some(Update::Binding(Binding::Unfocus))
                } else {
                    None
                },
            },
            Event::LeftReleased => Some(Update::Release),
            Event::CursorMoved { position } => match state.drag_click {
                Some(ClickKind::Single) => match position {
                    Some(position) => Some(Update::Drag(position)),
                    None => None,
                },
                _ => None,
            },
            Event::WheelScrolled { delta, over } => if over {
                Some(Update::Scroll(scroll_lines(delta)))
            } else {
                None
            },
            Event::KeyPressed { key, modifiers, text } => {
                let status = if state.focus.is_some() {
                    Status::Focused
                } else {
                    Status::Active
                };
                let key_press = KeyPress { key, modifiers, text, status };
                let ghost kp = key_press;
                let b = match key_binding {
                    Some(f) => f(key_press),
                    None => Binding::from_key_press(key_press),
                };
                let ghost resolved = b;
                let r = match b {
                    Some(b) => Some(Update::Binding(b)),
                    None => None,
                };
                proof {
                    assert(match key_binding {
                        Some(f) => f.ensures((kp,), resolved),
                        None => default_binding(kp, resolved),
                    });
                    assert(r == binding_update(resolved));
                }
                r
            },
            _ => None,
        }
    }
}

/// Whether a key binding pastes, itself or within a sequence.
pub open spec fn binding_pastes<Message>(b: Binding<Message>) -> bool
    decreases b,
{
    match b {
        Binding::Paste => true,
        Binding::Sequence(v) => sequence_pastes(v@),
        _ => false,
    }
}

/// Whether any of some key bindings pastes.
pub open spec fn sequence_pastes<Message>(bs: Seq<Binding<Message>>) -> bool
    decreases bs,
{
    if bs.len() == 0 {
        false
    } else {
        binding_pastes(bs[0]) || sequence_pastes(bs.subrange(1, bs.len() as int))
    }
}

/// Whether any binding of `bs` pastes.
proof fn lemma_sequence_pastes<Message>(bs: Seq<Binding<Message>>)
    ensures
        sequence_pastes(bs) <==> exists|i: int|
            0 <= i < bs.len() && #[trigger] binding_pastes(bs[i]),
    decreases bs.len(),
{
    if bs.len() > 0 {
        let tail = bs.subrange(1, bs.len() as int);
        lemma_sequence_pastes(tail);
        if binding_pastes(bs[0]) {
            assert(0 <= 0 < bs.len() && binding_pastes(bs[0]));
        }
        if sequence_pastes(tail) {
            let j = choose|j: int| 0 <= j < tail.len() && #[trigger] binding_pastes(tail[j]);
            assert(bs[j + 1] == tail[j]);
            assert(0 <= j + 1 < bs.len() && binding_pastes(bs[j + 1]));
        }
        if exists|i: int| 0 <= i < bs.len() && #[trigger] binding_pastes(bs[i]) {
            let i = choose|i: int| 0 <= i < bs.len() && #[trigger] binding_pastes(bs[i]);
            if i > 0 {
                assert(tail[i - 1] == bs[i]);
                assert(sequence_pastes(tail));
            }
            assert(sequence_pastes(bs));
        }
    }
}

impl<Message> Binding<Message> {
    /// Whether the binding pastes, itself or within a sequence.
    pub fn pastes(&self) -> (r: bool)
        ensures
            r == binding_pastes(*self),
        decreases *self,
    {
        match self {
            Binding::Paste => true,
            Binding::Sequence(bindings) => {
                let ghost all = bindings@;
                proof {
                    lemma_sequence_pastes(all);
                }
                let mut i: usize = 0;
                while i < bindings.len()
                    invariant
                        *self == Binding::Sequence::<Message>(*bindings),
                        all == bindings@,
                        i <= all.len(),
                        forall|j: int| 0 <= j < i ==> !#[trigger] binding_pastes(all[j]),
                        sequence_pastes(all) <==> exists|j: int|
                            0 <= j < all.len() && #[trigger] binding_pastes(all[j]),
                    decreases all.len() - i,
                {
                    assert(decreases_to!(*self => self->Sequence_0));
                    assert(decreases_to!(self->Sequence_0 => self->Sequence_0@));
                    assert(decreases_to!(self->Sequence_0@ => self->Sequence_0@[i as int]));
                    if bindings[i].pastes() {
                        return true;
                    }
                    i = i + 1;
                }
                false
            },
            _ => false,
        }
    }
}

impl<Message> Update<Message> {
    /// Whether applying the update may read the clipboard: only a key
    /// binding that pastes does.
    pub fn reads_clipboard(&self) -> (r: bool)
        ensures
            r == (*self matches Update::Binding(b) && binding_pastes(b)),
    {
        match self {
            Update::Binding(b) => b.pastes(),
            _ => false,
        }
    }
}

} // verus!
