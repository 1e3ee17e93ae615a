//! The interaction state of a text box and what each update does to it.
use vstd::prelude::*;


use crate::binding::{Binding, CursorMotion};
use crate::content::Content;
use crate::focus::{elapsed_ms, millis_to_boundary, Focus};
use crate::update::{
    click_kind, scroll_amount, ClickKind, Event, ScrollDelta, Update,
};

verus! {

/// Thousandths of a line in one line.
pub const LINE: i64 = 1000;

/// What a text box asks its application to do with the content.
#[derive(Debug, PartialEq)]
pub enum Request {
    Click(iced_graphics::core::Point),
    Drag(iced_graphics::core::Point),
    Scroll { lines: i32 },
    SelectWord,
    SelectLine,
    SelectAll,
    Move(CursorMotion),
    Select(CursorMotion),
    Insert(char),
    Paste(String),
    Enter,
    Backspace,
    Delete,
}

/// A request, with its text as characters.
pub ghost enum RequestView {
    Click(iced_graphics::core::Point),
    Drag(iced_graphics::core::Point),
    Scroll { lines: i32 },
    SelectWord,
    SelectLine,
    SelectAll,
    Move(CursorMotion),
    Select(CursorMotion),
    Insert(char),
    Paste(Seq<char>),
    Enter,
    Backspace,
    Delete,
}

impl View for Request {
    type V = RequestView;

    open spec fn view(&self) -> RequestView {
        match self {
            Request::Click(p) => RequestView::Click(*p),
            Request::Drag(p) => RequestView::Drag(*p),
            Request::Scroll { lines } => RequestView::Scroll { lines: *lines },
            Request::SelectWord => RequestView::SelectWord,
            Request::SelectLine => RequestView::SelectLine,
            Request::SelectAll => RequestView::SelectAll,
            Request::Move(m) => RequestView::Move(*m),
            Request::Select(m) => RequestView::Select(*m),
            Request::Insert(c) => RequestView::Insert(*c),
            Request::Paste(s) => RequestView::Paste(s@),
            Request::Enter => RequestView::Enter,
            Request::Backspace => RequestView::Backspace,
            Request::Delete => RequestView::Delete,
        }
    }
}

/// Something a text box asks of its host, in the order asked.
#[derive(Debug, PartialEq)]
pub enum Effect<Message> {
    /// Publish the application's message for this request.
    Request(Request),
    /// Publish this message.
    Publish(Message),
    /// Publish the message for submitting, if there is one.
    Submit,
    /// Publish the message for leaving the box, if there is one.
    Blur,
    /// Stop the event from reaching other widgets.
    CaptureEvent,
    /// Redraw soon.
    RequestRedraw,
    /// Redraw at the given time, in milliseconds.
    RedrawAt(u64),
    /// Lay the widgets out again.
    InvalidateLayout,
    /// Put this text on the clipboard.
    WriteClipboard(String),
}

/// An effect, with its text as characters.
pub ghost enum EffectView<Message> {
    Request(RequestView),
    Publish(Message),
    Submit,
    Blur,
    CaptureEvent,
    RequestRedraw,
    RedrawAt(u64),
    InvalidateLayout,
    WriteClipboard(Seq<char>),
}

impl<Message> View for Effect<Message> {
    type V = EffectView<Message>;

    open spec fn view(&self) -> EffectView<Message> {
        match self {
            Effect::Request(r) => EffectView::Request(r@),
            Effect::Publish(m) => EffectView::Publish(*m),
            Effect::Submit => EffectView::Submit,
            Effect::Blur => EffectView::Blur,
            Effect::CaptureEvent => EffectView::CaptureEvent,
            Effect::RequestRedraw => EffectView::RequestRedraw,
            Effect::RedrawAt(t) => EffectView::RedrawAt(*t),
            Effect::InvalidateLayout => EffectView::InvalidateLayout,
            Effect::WriteClipboard(s) => EffectView::WriteClipboard(s@),
        }
    }
}

/// The views of a sequence of effects.
pub open spec fn effects_view<Message>(v: Seq<Effect<Message>>) -> Seq<EffectView<Message>> {
    v.map_values(|e: Effect<Message>| e@)
}

/// The characters of an optional text.
pub open spec fn text_view(t: Option<String>) -> Option<Seq<char>> {
    match t {
        Some(s) => Some(s@),
        None => None,
    }
}

/// The interaction state of a text box.
#[derive(Debug)]
pub struct State {
    /// Present while the box is being edited.
    pub focus: Option<Focus>,
    /// The last click that may start a double or triple click.
    pub last_click: Option<iced_graphics::core::mouse::Click>,
    /// The kind of the click that a drag extends, until the button goes up.
    pub drag_click: Option<ClickKind>,
    /// Thousandths of a line scrolled but not yet asked for.
    pub partial_scroll: i64,
}

impl State {
    /// The state is well formed: the scrolling carried is a fraction of a
    /// line, in `[0, 1)`.
    pub open spec fn wf(&self) -> bool {
        0 <= self.partial_scroll < LINE
    }
}

/// A state with a fresh focus record at `now`.
pub open spec fn refocused(s: State, now: u64) -> State {
    State { focus: Some(Focus { updated_at: now, now, is_window_focused: true }), ..s }
}

/// `a + b`, or the largest `u64` where that overflows.
pub open spec fn saturating_add(a: u64, b: nat) -> u64 {
    if a + b <= u64::MAX {
        (a + b) as u64
    } else {
        u64::MAX
    }
}

/// What a window event does to the focus record, at time `now`. While the
/// window is unfocused the caret stays hidden; when the window regains the
/// focus the blink cycle restarts; each redraw advances the record's time
/// and asks for the next redraw at the next blink boundary.
pub open spec fn window_outcome<Message>(s: State, event: Event, now: u64) -> (
    State,
    Seq<EffectView<Message>>,
) {
    match (event, s.focus) {
        (Event::WindowUnfocused, Some(f)) => (
            State { focus: Some(Focus { is_window_focused: false, ..f }), ..s },
            seq![],
        ),
        (Event::WindowFocused, Some(f)) => (
            State { focus: Some(Focus { is_window_focused: true, updated_at: now, ..f }), ..s },
            seq![EffectView::RequestRedraw, EffectView::InvalidateLayout],
        ),
        (Event::RedrawRequested { at }, Some(f)) => if f.is_window_focused {
            (
                State { focus: Some(Focus { now: at, ..f }), ..s },
                seq![
                    EffectView::RedrawAt(
                        saturating_add(at, millis_to_boundary(elapsed_ms(f.updated_at, at))),
                    ),
                ],
            )
        } else {
            (s, seq![])
        },
        _ => (s, seq![]),
    }
}

/// What a click of the given kind at `position` does. A single click places
/// the cursor while editing. A double click selects a word while editing,
/// and otherwise starts editing at the click. A triple click selects all
/// while editing, and otherwise starts editing at the click; it is not
/// remembered for counting.
pub open spec fn click_outcome<Message>(
    s: State,
    click: iced_graphics::core::mouse::Click,
    kind: ClickKind,
    position: iced_graphics::core::Point,
    now: u64,
) -> (State, Seq<EffectView<Message>>) {
    let focused = s.focus is Some;
    match kind {
        ClickKind::Single => {
            let s1 = State { last_click: Some(click), drag_click: Some(ClickKind::Single), ..s };
            if focused {
                (
                    s1,
                    seq![
                        EffectView::CaptureEvent,
                        EffectView::Request(RequestView::Click(position)),
                        EffectView::RequestRedraw,
                    ],
                )
            } else {
                (s1, seq![])
            }
        },
        ClickKind::Double => {
            let s1 = State { last_click: Some(click), drag_click: Some(ClickKind::Double), ..s };
            if focused {
                (
                    s1,
                    seq![
                        EffectView::Request(RequestView::SelectWord),
                        EffectView::CaptureEvent,
                        EffectView::RequestRedraw,
                    ],
                )
            } else {
                (
                    refocused(s1, now),
                    seq![
                        EffectView::InvalidateLayout,
                        EffectView::Request(RequestView::Click(position)),
                        EffectView::CaptureEvent,
                    ],
                )
            }
        },
        ClickKind::Triple => {
            if focused {
                (
                    s,
                    seq![
                        EffectView::Request(RequestView::SelectAll),
                        EffectView::CaptureEvent,
                        EffectView::RequestRedraw,
                    ],
                )
            } else {
                (
                    refocused(s, now),
                    seq![
                        EffectView::InvalidateLayout,
                        EffectView::Request(RequestView::Click(position)),
                        EffectView::CaptureEvent,
                    ],
                )
            }
        },
    }
}

/// `a` brought into the range of `i32`.
pub open spec fn clamp_i32(a: int) -> int {
    if a > i32::MAX {
        i32::MAX as int
    } else if a < i32::MIN {
        i32::MIN as int
    } else {
        a
    }
}

/// The whole lines that a scroll of `total` thousandths asks for: the total
/// rounded down to a whole line.
pub open spec fn whole_lines(total: int) -> int {
    total / (LINE as int)
}

/// What scrolling by `lines` thousandths of a line does: unless the content
/// cannot scroll, the carried fraction is added, the whole lines (rounded
/// down) are asked for and the fraction left, in `[0, 1)` line, is carried
/// on.
pub open spec fn scroll_outcome<Message>(s: State, lines: i64, scrollable: bool) -> (
    State,
    Seq<EffectView<Message>>,
) {
    if !scrollable {
        (s, seq![])
    } else {
        let total = lines + s.partial_scroll;
        let whole = whole_lines(total);
        (
            State { partial_scroll: (total - whole * LINE) as i64, ..s },
            seq![EffectView::Request(RequestView::Scroll { lines: clamp_i32(whole) as i32 })],
        )
    }
}

/// The state, effects and clipboard after some key bindings.
pub ghost struct Outcome<Message> {
    pub state: State,
    pub effects: Seq<EffectView<Message>>,
    pub clipboard: Option<Seq<char>>,
}

/// A request made only while editing, which restarts the blink cycle and
/// asks for a redraw.
pub open spec fn if_focused<Message>(s: State, r: RequestView, now: u64) -> (
    State,
    Seq<EffectView<Message>>,
) {
    if s.focus is Some {
        (refocused(s, now), seq![EffectView::Request(r), EffectView::RequestRedraw])
    } else {
        (s, seq![])
    }
}

/// An outcome from a state and its effects.
pub open spec fn outcome<Message>(
    p: (State, Seq<EffectView<Message>>),
    clipboard: Option<Seq<char>>,
) -> Outcome<Message> {
    Outcome { state: p.0, effects: p.1, clipboard }
}

/// What a key binding does, given the content's selection, the clipboard's
/// text and the time.
pub open spec fn binding_outcome<Message>(
    s: State,
    b: Binding<Message>,
    selection: Option<Seq<char>>,
    clipboard: Option<Seq<char>>,
    now: u64,
) -> Outcome<Message>
    decreases b,
{
    let unchanged = Outcome { state: s, effects: seq![], clipboard };
    match b {
        Binding::Unfocus => if s.focus is Some {
            Outcome {
                state: State { focus: None, drag_click: None, ..s },
                effects: seq![EffectView::Blur, EffectView::RequestRedraw],
                clipboard,
            }
        } else {
            unchanged
        },
        Binding::Submit => if s.focus is Some {
            Outcome {
                state: State { focus: None, drag_click: None, ..s },
                effects: seq![EffectView::Submit, EffectView::InvalidateLayout],
                clipboard,
            }
        } else {
            unchanged
        },
        Binding::Copy => match selection {
            Some(t) => Outcome {
                state: s,
                effects: seq![EffectView::WriteClipboard(t)],
                clipboard: Some(t),
            },
            None => unchanged,
        },
        Binding::Cut => match selection {
            Some(t) => {
                let p = if_focused(s, RequestView::Delete, now);
                Outcome {
                    state: p.0,
                    effects: seq![EffectView::WriteClipboard(t)] + p.1,
                    clipboard: Some(t),
                }
            },
            None => unchanged,
        },
        Binding::Paste => match clipboard {
            Some(c) => outcome(if_focused(s, RequestView::Paste(c), now), clipboard),
            None => unchanged,
        },
        Binding::Move(m) => outcome(if_focused(s, RequestView::Move(m), now), clipboard),
        Binding::Select(m) => outcome(if_focused(s, RequestView::Select(m), now), clipboard),
        Binding::SelectWord => outcome(if_focused(s, RequestView::SelectWord, now), clipboard),
        Binding::SelectLine => outcome(if_focused(s, RequestView::SelectLine, now), clipboard),
        Binding::SelectAll => outcome(if_focused(s, RequestView::SelectAll, now), clipboard),
        Binding::Insert(c) => outcome(if_focused(s, RequestView::Insert(c), now), clipboard),
        Binding::Enter => outcome(if_focused(s, RequestView::Enter, now), clipboard),
        Binding::Backspace => {
            let p = if_focused(s, RequestView::Backspace, now);
            Outcome { state: p.0, effects: p.1.push(EffectView::RequestRedraw), clipboard }
        },
        Binding::Delete => {
            let p = if_focused(s, RequestView::Delete, now);
            Outcome { state: p.0, effects: p.1.push(EffectView::RequestRedraw), clipboard }
        },
        Binding::Sequence(v) => sequence_outcome(s, v@, selection, clipboard, now),
        Binding::Custom(m) => Outcome {
            state: s,
            effects: seq![EffectView::Publish(m), EffectView::RequestRedraw],
            clipboard,
        },
    }
}

/// What key bindings do, applied in order.
pub open spec fn sequence_outcome<Message>(
    s: State,
    bs: Seq<Binding<Message>>,
    selection: Option<Seq<char>>,
    clipboard: Option<Seq<char>>,
    now: u64,
) -> Outcome<Message>
    decreases bs,
{
    if bs.len() == 0 {
        Outcome { state: s, effects: seq![], clipboard }
    } else {
        let first = binding_outcome(s, bs[0], selection, clipboard, now);
        let rest = sequence_outcome(
            first.state,
            bs.subrange(1, bs.len() as int),
            selection,
            first.clipboard,
            now,
        );
        Outcome {
            state: rest.state,
            effects: first.effects + rest.effects,
            clipboard: rest.clipboard,
        }
    }
}

/// After a key binding, a focused box restarts its blink cycle.
pub open spec fn after_binding(s: State, now: u64) -> State {
    match s.focus {
        Some(f) => State { focus: Some(Focus { updated_at: now, ..f }), ..s },
        None => s,
    }
}

/// Adds an effect at the end.
fn push_effect<Message>(effects: &mut Vec<Effect<Message>>, e: Effect<Message>)
    ensures
        effects_view(final(effects)@) == effects_view(old(effects)@).push(e@),
{
    effects.push(e);
    proof {
        assert(effects_view(final(effects)@) =~= effects_view(old(effects)@).push(e@));
    }
}

impl State {
    /// The state of a text box that is not being edited.
    pub fn new() -> (r: State)
        ensures
            r.focus is None,
            r.last_click is None,
            r.drag_click is None,
            r.partial_scroll == 0,
            r.wf(),
    {
        State { focus: None, last_click: None, drag_click: None, partial_scroll: 0 }
    }

    /// Whether the box is being edited.
    pub fn is_focused(&self) -> (r: bool)
        ensures
            r == self.focus is Some,
    {
        self.focus.is_some()
    }

    /// Starts editing, with a fresh blink cycle at `now`.
    pub fn focus(&mut self, now: u64)
        ensures
            *final(self) == refocused(*old(self), now),
    {
        self.focus = Some(Focus::now(now));
    }

    /// Stops editing, and forgets any drag in progress.
    pub fn unfocus(&mut self)
        ensures
            *final(self) == (State { focus: None, drag_click: None, ..*old(self) }),
    {
        self.focus = None;
        self.drag_click = None;
    }

    /// Handles the window events of `event` at time `now`.
    pub fn handle_window_event<Message>(&mut self, event: &Event, now: u64) -> (r: Vec<
        Effect<Message>,
    >)
        ensures
            (*final(self), effects_view(r@)) == window_outcome::<Message>(*old(self), *event, now),
    {
        let mut effects: Vec<Effect<Message>> = Vec::new();
        match event {
            Event::WindowUnfocused => {
                if let Some(focus) = &mut self.focus {
                    focus.is_window_focused = false;
                }
            },
            Event::WindowFocused => {
                if let Some(focus) = &mut self.focus {
                    focus.is_window_focused = true;
                    focus.updated_at = now;
                    push_effect(&mut effects, Effect::RequestRedraw);
                    push_effect(&mut effects, Effect::InvalidateLayout);
                }
            },
            Event::RedrawRequested { at } => {
                if let Some(focus) = &mut self.focus {
                    if focus.is_window_focused {
                        focus.now = *at;
                        let wait = focus.millis_until_blink();
                        let when = if *at <= u64::MAX - wait {
                            *at + wait
                        } else {
                            u64::MAX
                        };
                        push_effect(&mut effects, Effect::RedrawAt(when));
                    }
                }
            },
            _ => {},
        }
        proof {
            assert(effects_view(effects@) =~= window_outcome::<Message>(*old(self), *event, now).1);
        }
        effects
    }

    /// Handles a click of the given kind at `position`, at time `now`.
    pub fn on_click<Message>(
        &mut self,
        click: iced_graphics::core::mouse::Click,
        kind: ClickKind,
        position: iced_graphics::core::Point,
        now: u64,
    ) -> (r: Vec<Effect<Message>>)
        ensures
            (*final(self), effects_view(r@)) == click_outcome::<Message>(
                *old(self),
                click,
                kind,
                position,
                now,
            ),
    {
        let mut effects: Vec<Effect<Message>> = Vec::new();
        let focused = self.focus.is_some();
        match kind {
            ClickKind::Single => {
                self.last_click = Some(click);
                self.drag_click = Some(ClickKind::Single);
                if focused {
                    push_effect(&mut effects, Effect::CaptureEvent);
                    push_effect(&mut effects, Effect::Request(Request::Click(position)));
                    push_effect(&mut effects, Effect::RequestRedraw);
                }
            },
            ClickKind::Double => {
                self.last_click = Some(click);
                self.drag_click = Some(ClickKind::Double);
                if focused {
                    push_effect(&mut effects, Effect::Request(Request::SelectWord));
                    push_effect(&mut effects, Effect::CaptureEvent);
                    push_effect(&mut effects, Effect::RequestRedraw);
                } else {
                    self.focus(now);
                    push_effect(&mut effects, Effect::InvalidateLayout);
                    push_effect(&mut effects, Effect::Request(Request::Click(position)));
                    push_effect(&mut effects, Effect::CaptureEvent);
                }
            },
            ClickKind::Triple => {
                if focused {
                    push_effect(&mut effects, Effect::Request(Request::SelectAll));
                    push_effect(&mut effects, Effect::CaptureEvent);
                    push_effect(&mut effects, Effect::RequestRedraw);
                } else {
                    self.focus(now);
                    push_effect(&mut effects, Effect::InvalidateLayout);
                    push_effect(&mut effects, Effect::Request(Request::Click(position)));
                    push_effect(&mut effects, Effect::CaptureEvent);
                }
            },
        }
        proof {
            assert(effects_view(effects@) =~= click_outcome::<Message>(
                *old(self),
                click,
                kind,
                position,
                now,
            ).1);
        }
        effects
    }

    /// Scrolls by `lines` thousandths of a line, unless the content cannot
    /// scroll.
    pub fn on_scroll<Message>(&mut self, lines: i64, scrollable: bool) -> (r: Vec<
        Effect<Message>,
    >)
        requires
            old(self).wf(),
        ensures
            final(self).wf(),
            (*final(self), effects_view(r@)) == scroll_outcome::<Message>(
                *old(self),
                lines,
                scrollable,
            ),
    {
        let mut effects: Vec<Effect<Message>> = Vec::new();
        if scrollable {
            let total: i128 = lines as i128 + self.partial_scroll as i128;
            let mut whole: i128 = total / (LINE as i128);
            let mut rest: i128 = total % (LINE as i128);
            if rest < 0 {
                whole = whole - 1;
                rest = rest + LINE as i128;
            }
            assert(whole == whole_lines(total as int) && rest == total - whole * LINE)
                by (nonlinear_arith)
                requires
                    whole * 1000 + rest == total,
                    0 <= rest < 1000,
            ;
            self.partial_scroll = rest as i64;
            let emitted: i32 = if whole > i32::MAX as i128 {
                i32::MAX
            } else if whole < i32::MIN as i128 {
                i32::MIN
            } else {
                whole as i32
            };
            push_effect(&mut effects, Effect::Request(Request::Scroll { lines: emitted }));
        }
        proof {
            assert(effects_view(effects@) =~= scroll_outcome::<Message>(
                *old(self),
                lines,
                scrollable,
            ).1);
        }
        effects
    }
}

impl State {
    /// Asks for `request` only while editing, restarting the blink cycle.
    fn publish_if_focused<Message>(
        &mut self,
        request: Request,
        now: u64,
        effects: &mut Vec<Effect<Message>>,
    )
        ensures
            ({
                let p = if_focused::<Message>(*old(self), request@, now);
                &&& *final(self) == p.0
                &&& effects_view(final(effects)@) == effects_view(old(effects)@) + p.1
            }),
    {
        let ghost r = request@;
        if self.focus.is_some() {
            push_effect(effects, Effect::Request(request));
            self.focus(now);
            push_effect(effects, Effect::RequestRedraw);
        }
        proof {
            assert(effects_view(final(effects)@) =~= effects_view(old(effects)@) + if_focused::<
                Message,
            >(*old(self), r, now).1);
        }
    }

    /// Applies a key binding, with the content's selection and the
    /// clipboard's text, which copying and cutting replace.
    fn apply_binding<Message>(
        &mut self,
        binding: Binding<Message>,
        selection: &Option<String>,
        clipboard: &mut Option<String>,
        now: u64,
        effects: &mut Vec<Effect<Message>>,
    )
        ensures
            ({
                let o = binding_outcome(
                    *old(self),
                    binding,
                    text_view(*selection),
                    text_view(*old(clipboard)),
                    now,
                );
                &&& *final(self) == o.state
                &&& effects_view(final(effects)@) == effects_view(old(effects)@) + o.effects
                &&& text_view(*final(clipboard)) == o.clipboard
            }),
            final(self).partial_scroll == old(self).partial_scroll,
        decreases binding,
    {
        let ghost whole = binding;
        let ghost s0 = *self;
        let ghost e0 = effects_view(effects@);
        let ghost sel = text_view(*selection);
        let ghost clip0 = text_view(*clipboard);
        match binding {
            Binding::Unfocus => {
                if self.focus.is_some() {
                    self.unfocus();
                    push_effect(effects, Effect::Blur);
                    push_effect(effects, Effect::RequestRedraw);
                }
            },
            Binding::Submit => {
                if self.focus.is_some() {
                    push_effect(effects, Effect::Submit);
                    self.unfocus();
                    push_effect(effects, Effect::InvalidateLayout);
                }
            },
            Binding::Copy => {
                if let Some(text) = selection {
                    push_effect(effects, Effect::WriteClipboard(text.clone()));
                    *clipboard = Some(text.clone());
                }
            },
            Binding::Cut => {
                if let Some(text) = selection {
                    push_effect(effects, Effect::WriteClipboard(text.clone()));
                    *clipboard = Some(text.clone());
                    self.publish_if_focused(Request::Delete, now, effects);
                }
            },
            Binding::Paste => {
                if let Some(text) = clipboard {
                    let pasted = text.clone();
                    self.publish_if_focused(Request::Paste(pasted), now, effects);
                }
            },
            Binding::Move(m) => self.publish_if_focused(Request::Move(m), now, effects),
            Binding::Select(m) => self.publish_if_focused(Request::Select(m), now, effects),
            Binding::SelectWord => self.publish_if_focused(Request::SelectWord, now, effects),
            Binding::SelectLine => self.publish_if_focused(Request::SelectLine, now, effects),
            Binding::SelectAll => self.publish_if_focused(Request::SelectAll, now, effects),
            Binding::Insert(c) => self.publish_if_focused(Request::Insert(c), now, effects),
            Binding::Enter => self.publish_if_focused(Request::Enter, now, effects),
            Binding::Backspace => {
                self.publish_if_focused(Request::Backspace, now, effects);
                push_effect(effects, Effect::RequestRedraw);
            },
            Binding::Delete => {
                self.publish_if_focused(Request::Delete, now, effects);
                push_effect(effects, Effect::RequestRedraw);
            },
            Binding::Sequence(bindings) => {
                let ghost all = bindings@;
                let mut rest = bindings;
                let ghost mut k: int = 0;
                assert(all.subrange(0, all.len() as int) =~= all);
                while rest.len() > 0
                    invariant
                        whole == binding,
                        sel == text_view(*selection),
                        whole == Binding::Sequence::<Message>(bindings),
                        all == bindings@,
                        0 <= k <= all.len(),
                        rest@ == all.subrange(k, all.len() as int),
                        self.partial_scroll == s0.partial_scroll,
                        ({
                            let full = sequence_outcome(s0, all, sel, clip0, now);
                            let left = sequence_outcome(
                                *self,
                                rest@,
                                sel,
                                text_view(*clipboard),
                                now,
                            );
                            &&& full.state == left.state
                            &&& full.clipboard == left.clipboard
                            &&& e0 + full.effects == effects_view(effects@) + left.effects
                        }),
                    decreases rest.len(),
                {
                    let ghost before = effects_view(effects@);
                    let ghost left = rest@;
                    let next = rest.remove(0);
                    assert(next == all[k]);
                    assert(decreases_to!(whole => whole->Sequence_0));
                    assert(decreases_to!(whole->Sequence_0 => whole->Sequence_0@));
                    assert(decreases_to!(whole->Sequence_0@ => whole->Sequence_0@[k]));
                    assert(decreases_to!(whole => next));
                    let ghost first = binding_outcome(
                        *self,
                        next,
                        sel,
                        text_view(*clipboard),
                        now,
                    );
                    self.apply_binding(next, selection, clipboard, now, effects);
                    assert(left.subrange(1, left.len() as int) =~= rest@);
                    assert(all.subrange(k + 1, all.len() as int) =~= rest@);
                    assert(effects_view(effects@) == before + first.effects);
                    let ghost after = sequence_outcome(
                        *self,
                        rest@,
                        sel,
                        text_view(*clipboard),
                        now,
                    );
                    assert(before + (first.effects + after.effects) =~= effects_view(effects@)
                        + after.effects);
                    proof {
                        k = k + 1;
                    }
                }
                assert(sequence_outcome(*self, rest@, sel, text_view(*clipboard), now).effects
                    =~= seq![]);
                assert(effects_view(effects@) + seq![] =~= effects_view(effects@));
            },
            Binding::Custom(message) => {
                push_effect(effects, Effect::Publish(message));
                push_effect(effects, Effect::RequestRedraw);
            },
        }
        proof {
            let o = binding_outcome(s0, whole, sel, clip0, now);
            if !(whole is Sequence) {
                assert(effects_view(effects@) =~= e0 + o.effects);
            }
        }
    }

    /// Applies an update at time `now`. The content gives the selection to
    /// copy or cut, `clipboard` is the clipboard's text where a paste may
    /// need it, and `scrollable` tells whether the content can scroll.
    pub fn apply<Message>(
        &mut self,
        update: Update<Message>,
        content: &Content,
        clipboard: Option<String>,
        scrollable: bool,
        now: u64,
    ) -> (r: Vec<Effect<Message>>)
        requires
            old(self).wf(),
        ensures
            final(self).wf(),
            match update {
                Update::Click { click, position } => exists|kind: ClickKind|
                    (*final(self), effects_view(r@)) == #[trigger] click_outcome::<Message>(
                        *old(self),
                        click,
                        kind,
                        position,
                        now,
                    ),
                Update::Drag(p) => *final(self) == *old(self) && effects_view(r@) == seq![
                    EffectView::<Message>::CaptureEvent,
                    EffectView::Request(RequestView::Drag(p)),
                ],
                Update::Release => *final(self) == (State { drag_click: None, ..*old(self) })
                    && r@.len() == 0,
                Update::Scroll(lines) => (*final(self), effects_view(r@)) == scroll_outcome::<
                    Message,
                >(*old(self), lines, scrollable),
                Update::Binding(b) => {
                    let o = binding_outcome(
                        *old(self),
                        b,
                        content.selection_view(),
                        text_view(clipboard),
                        now,
                    );
                    &&& *final(self) == after_binding(o.state, now)
                    &&& effects_view(r@) == o.effects
                },
            },
    {
        match update {
            Update::Click { click, position } => {
                let kind = click_kind(&click);
                self.on_click(click, kind, position, now)
            },
            Update::Drag(position) => {
                let mut effects: Vec<Effect<Message>> = Vec::new();
                push_effect(&mut effects, Effect::CaptureEvent);
                push_effect(&mut effects, Effect::Request(Request::Drag(position)));
                assert(effects_view(effects@) =~= seq![
                    EffectView::<Message>::CaptureEvent,
                    EffectView::Request(RequestView::Drag(position)),
                ]);
                effects
            },
            Update::Release => {
                self.drag_click = None;
                Vec::new()
            },
            Update::Scroll(lines) => self.on_scroll(lines, scrollable),
            Update::Binding(binding) => {
                let selection = content.selection();
                assert(text_view(selection) == content.selection_view());
                let mut clipboard = clipboard;
                let mut effects: Vec<Effect<Message>> = Vec::new();
                self.apply_binding(binding, &selection, &mut clipboard, now, &mut effects);
                assert(effects_view(Seq::<Effect<Message>>::empty()) =~= seq![]);
                assert(seq![] + effects_view(effects@) =~= effects_view(effects@));
                if let Some(focus) = &mut self.focus {
                    focus.updated_at = now;
                }
                effects
            },
        }
    }
}

/// Each scroll asks for the whole lines of what was carried plus the new
/// amount, rounded down, and carries the rest on: nothing is lost, the rest
/// stays in `[0, 1)` line whatever the sign of the total, and whole lines are
/// asked for exactly when the total reaches a line or falls below zero.
pub proof fn scroll_carries_fraction<Message>(s: State, lines: i64)
    requires
        s.wf(),
        -1_000_000_000_000 <= lines <= 1_000_000_000_000,
    ensures
        ({
            let (s1, effects) = scroll_outcome::<Message>(s, lines, true);
            let total = lines + s.partial_scroll;
            let whole = whole_lines(total);
            &&& s1.wf()
            &&& clamp_i32(whole) == whole
            &&& effects == seq![
                EffectView::<Message>::Request(RequestView::Scroll { lines: whole as i32 }),
            ]
            &&& whole * LINE + s1.partial_scroll == total
            &&& 0 <= s1.partial_scroll < LINE
            &&& (whole != 0 <==> (total >= LINE || total < 0))
        }),
{
    let total = lines + s.partial_scroll;
    let whole = total / 1000;
    assert(whole * 1000 + total % 1000 == total && 0 <= total % 1000 < 1000) by (nonlinear_arith)
        requires
            whole == total / 1000,
    ;
    assert(-1_000_000_001 <= whole <= 1_000_000_001) by (nonlinear_arith)
        requires
            -1_000_000_000_000 <= total <= 1_000_000_001_000,
            whole == total / 1000,
    ;
    assert(whole != 0 <==> (total >= 1000 || total < 0)) by (nonlinear_arith)
        requires
            whole == total / 1000,
    ;
}

/// A wheel turn by lines always asks for at least one line to be scrolled:
/// it scrolls a line or more, and less than a line is ever carried.
pub proof fn line_turns_always_scroll<Message>(s: State, y: i32)
    requires
        s.wf(),
        y != 0,
    ensures
        whole_lines(scroll_amount(ScrollDelta::Lines { y }) + s.partial_scroll) != 0,
{
    let amount = scroll_amount(ScrollDelta::Lines { y }) as i64;
    scroll_carries_fraction::<Message>(s, amount);
}

/// Three clicks while editing, counted single, double and triple, place the
/// cursor, select a word, then select everything, and editing goes on.
pub proof fn clicks_while_editing<Message>(
    s: State,
    clicks: (
        iced_graphics::core::mouse::Click,
        iced_graphics::core::mouse::Click,
        iced_graphics::core::mouse::Click,
    ),
    at: iced_graphics::core::Point,
    now: u64,
)
    requires
        s.focus is Some,
    ensures
        ({
            let (s1, e1) = click_outcome::<Message>(s, clicks.0, ClickKind::Single, at, now);
            let (s2, e2) = click_outcome::<Message>(s1, clicks.1, ClickKind::Double, at, now);
            let (s3, e3) = click_outcome::<Message>(s2, clicks.2, ClickKind::Triple, at, now);
            &&& e1 == seq![
                EffectView::<Message>::CaptureEvent,
                EffectView::Request(RequestView::Click(at)),
                EffectView::RequestRedraw,
            ]
            &&& e2 == seq![
                EffectView::<Message>::Request(RequestView::SelectWord),
                EffectView::CaptureEvent,
                EffectView::RequestRedraw,
            ]
            &&& e3 == seq![
                EffectView::<Message>::Request(RequestView::SelectAll),
                EffectView::CaptureEvent,
                EffectView::RequestRedraw,
            ]
            &&& s3.focus == s.focus
        }),
{
}

/// Three clicks before editing, counted single, double and triple: the
/// single click only arms counting and dragging, the double click starts
/// editing at the click with a fresh blink cycle, and the triple click,
/// now while editing, selects everything.
pub proof fn clicks_before_editing<Message>(
    s: State,
    clicks: (
        iced_graphics::core::mouse::Click,
        iced_graphics::core::mouse::Click,
        iced_graphics::core::mouse::Click,
    ),
    at: iced_graphics::core::Point,
    now: u64,
)
    requires
        s.focus is None,
    ensures
        ({
            let (s1, e1) = click_outcome::<Message>(s, clicks.0, ClickKind::Single, at, now);
            let (s2, e2) = click_outcome::<Message>(s1, clicks.1, ClickKind::Double, at, now);
            let (s3, e3) = click_outcome::<Message>(s2, clicks.2, ClickKind::Triple, at, now);
            &&& e1 == Seq::<EffectView<Message>>::empty()
            &&& s1.focus is None
            &&& s1.drag_click == Some(ClickKind::Single)
            &&& e2 == seq![
                EffectView::<Message>::InvalidateLayout,
                EffectView::Request(RequestView::Click(at)),
                EffectView::CaptureEvent,
            ]
            &&& s2.focus == Some(Focus { updated_at: now, now, is_window_focused: true })
            &&& e3 == seq![
                EffectView::<Message>::Request(RequestView::SelectAll),
                EffectView::CaptureEvent,
                EffectView::RequestRedraw,
            ]
        }),
{
}

} // verus!
