use texty::{
    Binding, ClickKind, Content, Effect, Event, Focus, Key, KeyPress, Modifiers, CursorMotion, Named,
    Request, ScrollDelta, State, Update,
};

type Msg = &'static str;

fn focused_state(now: u64) -> State {
    let mut s = State::new();
    s.focus(now);
    s
}

fn no_resolver() -> Option<&'static fn(KeyPress) -> Option<Binding<Msg>>> {
    None
}

fn classify(event: Event, state: &State) -> Option<Update<Msg>> {
    Update::from_event(event, state, no_resolver())
}

fn apply(state: &mut State, update: Update<Msg>, content: &Content) -> Vec<Effect<Msg>> {
    state.apply(update, content, None, true, 7000)
}

#[test]
fn release_always_releases() {
    let s = State::new();
    assert!(matches!(classify(Event::LeftReleased, &s), Some(Update::Release)));
}

#[test]
fn press_outside_unfocuses_only_while_editing() {
    let s = State::new();
    assert!(classify(Event::LeftPressed { position: None }, &s).is_none());
    let s = focused_state(0);
    assert!(matches!(
        classify(Event::LeftPressed { position: None }, &s),
        Some(Update::Binding(Binding::Unfocus))
    ));
}

#[test]
fn press_inside_is_a_click() {
    let s = State::new();
    let p = iced_graphics::core::Point::new(3.0, 4.0);
    assert!(matches!(classify(Event::LeftPressed { position: Some(p) }, &s), Some(Update::Click { .. })));
}

#[test]
fn moves_drag_only_after_single_click() {
    let p = iced_graphics::core::Point::new(1.0, 2.0);
    let mut s = State::new();
    assert!(classify(Event::CursorMoved { position: Some(p) }, &s).is_none());
    s.drag_click = Some(ClickKind::Double);
    assert!(classify(Event::CursorMoved { position: Some(p) }, &s).is_none());
    s.drag_click = Some(ClickKind::Single);
    match classify(Event::CursorMoved { position: Some(p) }, &s) {
        Some(Update::Drag(q)) => assert_eq!(q, p),
        other => panic!("expected a drag, got {other:?}"),
    }
    assert!(classify(Event::CursorMoved { position: None }, &s).is_none());
}

#[test]
fn wheel_lines_are_amplified_and_reversed() {
    let s = State::new();
    let wheel = |y: i32, over: bool| Event::WheelScrolled { delta: ScrollDelta::Lines { y }, over };
    assert!(matches!(classify(wheel(100, true), &s), Some(Update::Scroll(-1000))));
    assert!(matches!(classify(wheel(-100, true), &s), Some(Update::Scroll(1000))));
    assert!(matches!(classify(wheel(2000, true), &s), Some(Update::Scroll(-8000))));
    assert!(matches!(classify(wheel(0, true), &s), Some(Update::Scroll(0))));
    assert!(classify(wheel(100, false), &s).is_none());
}

#[test]
fn wheel_pixels_scroll_a_line_per_four_pixels() {
    let s = State::new();
    let wheel = |y: i32| Event::WheelScrolled { delta: ScrollDelta::Pixels { y }, over: true };
    assert!(matches!(classify(wheel(10_000), &s), Some(Update::Scroll(-2500))));
    assert!(matches!(classify(wheel(-6_000), &s), Some(Update::Scroll(1500))));
}

#[test]
fn key_press_resolves_with_status() {
    let escape = || Event::KeyPressed {
        key: Key::Named(Named::Escape),
        modifiers: Modifiers::default(),
        text: None,
    };
    assert!(classify(escape(), &State::new()).is_none());
    assert!(matches!(
        classify(escape(), &focused_state(0)),
        Some(Update::Binding(Binding::Unfocus))
    ));
}

#[test]
fn custom_resolver_replaces_defaults() {
    let resolver = |kp: KeyPress| -> Option<Binding<Msg>> {
        match kp.key {
            Key::Named(Named::Enter) => Some(Binding::Submit),
            _ => None,
        }
    };
    let event = Event::KeyPressed {
        key: Key::Named(Named::Enter),
        modifiers: Modifiers::default(),
        text: None,
    };
    let u = Update::from_event(event, &State::new(), Some(&resolver));
    assert!(matches!(u, Some(Update::Binding(Binding::Submit))));
}

#[test]
fn window_events_are_not_updates() {
    let s = focused_state(0);
    assert!(classify(Event::WindowFocused, &s).is_none());
    assert!(classify(Event::RedrawRequested { at: 10 }, &s).is_none());
    assert!(classify(Event::Other, &s).is_none());
}

#[test]
fn three_quick_clicks_while_editing() {
    let content = Content::with_text("some words");
    let mut s = focused_state(0);
    let p = iced_graphics::core::Point::new(5.0, 5.0);
    let mut published = Vec::new();
    for _ in 0..3 {
        let u = classify(Event::LeftPressed { position: Some(p) }, &s).unwrap();
        for e in apply(&mut s, u, &content) {
            if let Effect::Request(r) = e {
                published.push(r);
            }
        }
    }
    assert_eq!(published, vec![Request::Click(p), Request::SelectWord, Request::SelectAll]);
    assert!(s.is_focused());
}

#[test]
fn three_quick_clicks_before_editing() {
    let content = Content::with_text("some words");
    let mut s = State::new();
    let p = iced_graphics::core::Point::new(5.0, 5.0);
    let u = classify(Event::LeftPressed { position: Some(p) }, &s).unwrap();
    assert_eq!(apply(&mut s, u, &content), vec![]);
    assert!(!s.is_focused());
    let u = classify(Event::LeftPressed { position: Some(p) }, &s).unwrap();
    assert_eq!(
        apply(&mut s, u, &content),
        vec![Effect::InvalidateLayout, Effect::Request(Request::Click(p)), Effect::CaptureEvent]
    );
    assert_eq!(s.focus, Some(Focus { updated_at: 7000, now: 7000, is_window_focused: true }));
    let u = classify(Event::LeftPressed { position: Some(p) }, &s).unwrap();
    assert_eq!(
        apply(&mut s, u, &content),
        vec![Effect::Request(Request::SelectAll), Effect::CaptureEvent, Effect::RequestRedraw]
    );
}

#[test]
fn click_kinds_decide_effects() {
    let p = iced_graphics::core::Point::new(1.0, 1.0);
    let click = Update::<Msg>::from_event(
        Event::LeftPressed { position: Some(p) },
        &State::new(),
        no_resolver(),
    );
    let Some(Update::Click { click, .. }) = click else { panic!("expected a click") };
    let mut s = focused_state(0);
    let e: Vec<Effect<Msg>> = s.on_click(click, ClickKind::Single, p, 50);
    assert_eq!(e, vec![Effect::CaptureEvent, Effect::Request(Request::Click(p)), Effect::RequestRedraw]);
    assert_eq!(s.drag_click, Some(ClickKind::Single));
    let mut s = State::new();
    let e: Vec<Effect<Msg>> = s.on_click(click, ClickKind::Triple, p, 50);
    assert_eq!(e, vec![Effect::InvalidateLayout, Effect::Request(Request::Click(p)), Effect::CaptureEvent]);
    assert!(s.drag_click.is_none());
    assert!(s.last_click.is_none());
}

#[test]
fn drag_and_release() {
    let content = Content::new();
    let mut s = focused_state(0);
    s.drag_click = Some(ClickKind::Single);
    let p = iced_graphics::core::Point::new(9.0, 1.0);
    assert_eq!(
        apply(&mut s, Update::Drag(p), &content),
        vec![Effect::CaptureEvent, Effect::Request(Request::Drag(p))]
    );
    assert_eq!(apply(&mut s, Update::Release, &content), vec![]);
    assert!(s.drag_click.is_none());
}

#[test]
fn line_wheel_scrolls_a_line_each_time() {
    let content = Content::new();
    let mut s = focused_state(0);
    for _ in 0..5 {
        let e = apply(&mut s, Update::Scroll(-1000), &content);
        assert_eq!(e, vec![Effect::Request(Request::Scroll { lines: -1 })]);
        assert_eq!(s.partial_scroll, 0);
    }
}

#[test]
fn small_scrolls_accumulate_to_a_line() {
    let content = Content::new();
    let mut s = State::new();
    let mut emitted = Vec::new();
    for _ in 0..4 {
        for e in apply(&mut s, Update::Scroll(300), &content) {
            if let Effect::Request(Request::Scroll { lines }) = e {
                emitted.push(lines);
            }
        }
        assert!(0 <= s.partial_scroll && s.partial_scroll < 1000);
    }
    assert_eq!(emitted, vec![0, 0, 0, 1]);
    assert_eq!(s.partial_scroll, 200);
}

#[test]
fn negative_scrolls_round_down() {
    let content = Content::new();
    let mut s = State::new();
    let e = apply(&mut s, Update::Scroll(-2500), &content);
    assert_eq!(e, vec![Effect::Request(Request::Scroll { lines: -3 })]);
    assert_eq!(s.partial_scroll, 500);
    let e = apply(&mut s, Update::Scroll(-2500), &content);
    assert_eq!(e, vec![Effect::Request(Request::Scroll { lines: -2 })]);
    assert_eq!(s.partial_scroll, 0);
}

#[test]
fn partial_line_turn_scrolls_two_lines_up() {
    let content = Content::new();
    let mut s = State::new();
    let wheel = Event::WheelScrolled { delta: ScrollDelta::Lines { y: 300 }, over: true };
    let u = classify(wheel, &s).unwrap();
    assert!(matches!(u, Update::Scroll(-1200)));
    let e = apply(&mut s, u, &content);
    assert_eq!(e, vec![Effect::Request(Request::Scroll { lines: -2 })]);
    assert_eq!(s.partial_scroll, 800);
}

#[test]
fn remainder_stays_within_a_line() {
    let content = Content::new();
    let mut s = State::new();
    let mut total: i64 = 0;
    let mut asked: i64 = 0;
    for amount in [-1200i64, 300, -50, 2500, -7, -999, 1000, -1] {
        total += amount;
        for e in apply(&mut s, Update::Scroll(amount), &content) {
            if let Effect::Request(Request::Scroll { lines }) = e {
                asked += lines as i64;
            }
        }
        assert!(0 <= s.partial_scroll && s.partial_scroll < 1000);
        assert_eq!(asked * 1000 + s.partial_scroll, total);
    }
}

#[test]
fn huge_scrolls_saturate() {
    let content = Content::new();
    let mut s = State::new();
    let e = apply(&mut s, Update::Scroll(i64::MIN), &content);
    assert_eq!(e, vec![Effect::Request(Request::Scroll { lines: i32::MIN })]);
    assert_eq!(s.partial_scroll, 192);
}

#[test]
fn unscrollable_content_ignores_wheel() {
    let content = Content::new();
    let mut s = State::new();
    let e: Vec<Effect<Msg>> = s.apply(Update::Scroll(-5000), &content, None, false, 0);
    assert_eq!(e, vec![]);
    assert_eq!(s.partial_scroll, 0);
}

#[test]
fn window_unfocus_freezes_cursor() {
    let mut s = focused_state(100);
    let e: Vec<Effect<Msg>> = s.handle_window_event(&Event::WindowUnfocused, 200);
    assert_eq!(e, vec![]);
    assert_eq!(s.focus, Some(Focus { updated_at: 100, now: 100, is_window_focused: false }));
    let e: Vec<Effect<Msg>> = s.handle_window_event(&Event::RedrawRequested { at: 900 }, 900);
    assert_eq!(e, vec![]);
    assert_eq!(s.focus.unwrap().now, 100);
}

#[test]
fn window_refocus_restarts_blink() {
    let mut s = focused_state(100);
    s.handle_window_event::<Msg>(&Event::WindowUnfocused, 150);
    let e: Vec<Effect<Msg>> = s.handle_window_event(&Event::WindowFocused, 2000);
    assert_eq!(e, vec![Effect::RequestRedraw, Effect::InvalidateLayout]);
    assert_eq!(s.focus, Some(Focus { updated_at: 2000, now: 100, is_window_focused: true }));
}

#[test]
fn redraw_schedules_next_blink() {
    let mut s = focused_state(1000);
    let e: Vec<Effect<Msg>> = s.handle_window_event(&Event::RedrawRequested { at: 1200 }, 1200);
    assert_eq!(e, vec![Effect::RedrawAt(1500)]);
    assert_eq!(s.focus.unwrap().now, 1200);
    let e: Vec<Effect<Msg>> = s.handle_window_event(&Event::RedrawRequested { at: u64::MAX }, 0);
    assert_eq!(e, vec![Effect::RedrawAt(u64::MAX)]);
}

#[test]
fn window_events_without_focus_do_nothing() {
    let mut s = State::new();
    for ev in [Event::WindowUnfocused, Event::WindowFocused, Event::RedrawRequested { at: 5 }] {
        let e: Vec<Effect<Msg>> = s.handle_window_event(&ev, 5);
        assert_eq!(e, vec![]);
        assert!(s.focus.is_none());
    }
}

#[test]
fn editing_bindings_request_while_focused() {
    let content = Content::new();
    let mut s = focused_state(0);
    let e = apply(&mut s, Update::Binding(Binding::Insert('a')), &content);
    assert_eq!(e, vec![Effect::Request(Request::Insert('a')), Effect::RequestRedraw]);
    assert_eq!(s.focus, Some(Focus { updated_at: 7000, now: 7000, is_window_focused: true }));
    let e = apply(&mut s, Update::Binding(Binding::Move(CursorMotion::Left)), &content);
    assert_eq!(e, vec![Effect::Request(Request::Move(CursorMotion::Left)), Effect::RequestRedraw]);
    let e = apply(&mut s, Update::Binding(Binding::Backspace), &content);
    assert_eq!(
        e,
        vec![Effect::Request(Request::Backspace), Effect::RequestRedraw, Effect::RequestRedraw]
    );
}

#[test]
fn editing_bindings_ignored_while_not_focused() {
    let content = Content::new();
    let mut s = State::new();
    assert_eq!(apply(&mut s, Update::Binding(Binding::Enter), &content), vec![]);
    assert_eq!(apply(&mut s, Update::Binding(Binding::Delete), &content), vec![Effect::RequestRedraw]);
    assert_eq!(apply(&mut s, Update::Binding(Binding::Unfocus), &content), vec![]);
    assert_eq!(apply(&mut s, Update::Binding(Binding::Submit), &content), vec![]);
    assert!(s.focus.is_none());
}

#[test]
fn unfocus_binding_blurs() {
    let content = Content::new();
    let mut s = focused_state(0);
    s.drag_click = Some(ClickKind::Single);
    let e = apply(&mut s, Update::Binding(Binding::Unfocus), &content);
    assert_eq!(e, vec![Effect::Blur, Effect::RequestRedraw]);
    assert!(s.focus.is_none());
    assert!(s.drag_click.is_none());
}

#[test]
fn submit_binding_submits_and_unfocuses() {
    let content = Content::new();
    let mut s = focused_state(0);
    let e = apply(&mut s, Update::Binding(Binding::Submit), &content);
    assert_eq!(e, vec![Effect::Submit, Effect::InvalidateLayout]);
    assert!(s.focus.is_none());
}

#[test]
fn copy_writes_selection() {
    let mut content = Content::with_text("hello");
    let mut s = focused_state(0);
    assert_eq!(apply(&mut s, Update::Binding(Binding::Copy), &content), vec![]);
    content.perform(iced_graphics::core::text::editor::Action::SelectAll);
    let e = apply(&mut s, Update::Binding(Binding::Copy), &content);
    assert_eq!(e, vec![Effect::WriteClipboard("hello".to_string())]);
}

#[test]
fn cut_writes_selection_and_deletes() {
    let mut content = Content::with_text("hello");
    content.perform(iced_graphics::core::text::editor::Action::SelectAll);
    let mut s = focused_state(0);
    let e = apply(&mut s, Update::Binding(Binding::Cut), &content);
    assert_eq!(
        e,
        vec![
            Effect::WriteClipboard("hello".to_string()),
            Effect::Request(Request::Delete),
            Effect::RequestRedraw,
        ]
    );
}

#[test]
fn paste_uses_clipboard_text() {
    let content = Content::new();
    let mut s = focused_state(0);
    let u = Update::Binding(Binding::Paste);
    assert!(u.reads_clipboard());
    let e: Vec<Effect<Msg>> = s.apply(u, &content, Some("zz".to_string()), true, 1);
    assert_eq!(e, vec![Effect::Request(Request::Paste("zz".to_string())), Effect::RequestRedraw]);
    let e: Vec<Effect<Msg>> = s.apply(Update::Binding(Binding::Paste), &content, None, true, 1);
    assert_eq!(e, vec![]);
}

#[test]
fn sequence_pastes_what_it_copied() {
    let mut content = Content::with_text("abc");
    content.perform(iced_graphics::core::text::editor::Action::SelectAll);
    let mut s = focused_state(0);
    let u = Update::Binding(Binding::Sequence(vec![Binding::Copy, Binding::Paste, Binding::Custom("done")]));
    assert!(u.reads_clipboard());
    let e: Vec<Effect<Msg>> = s.apply(u, &content, Some("old".to_string()), true, 3);
    assert_eq!(
        e,
        vec![
            Effect::WriteClipboard("abc".to_string()),
            Effect::Request(Request::Paste("abc".to_string())),
            Effect::RequestRedraw,
            Effect::Publish("done"),
            Effect::RequestRedraw,
        ]
    );
}

#[test]
fn sequence_stops_requests_after_unfocus() {
    let content = Content::new();
    let mut s = focused_state(0);
    let u = Update::Binding(Binding::Sequence(vec![
        Binding::Insert('a'),
        Binding::Unfocus,
        Binding::Insert('b'),
    ]));
    let e = apply(&mut s, u, &content);
    assert_eq!(
        e,
        vec![
            Effect::Request(Request::Insert('a')),
            Effect::RequestRedraw,
            Effect::Blur,
            Effect::RequestRedraw,
        ]
    );
    assert!(s.focus.is_none());
}

#[test]
fn custom_binding_publishes() {
    let content = Content::new();
    let mut s = State::new();
    let e = apply(&mut s, Update::Binding(Binding::Custom("hi")), &content);
    assert_eq!(e, vec![Effect::Publish("hi"), Effect::RequestRedraw]);
}

#[test]
fn only_pasting_reads_clipboard() {
    assert!(!Update::<Msg>::Binding(Binding::Copy).reads_clipboard());
    assert!(!Update::<Msg>::Release.reads_clipboard());
    let nested = Binding::Sequence(vec![Binding::Enter, Binding::Sequence(vec![Binding::Paste])]);
    assert!(Update::<Msg>::Binding(nested).reads_clipboard());
    assert!(!Update::<Msg>::Binding(Binding::Sequence(vec![])).reads_clipboard());
}

#[test]
fn unfocus_forgets_drag() {
    let mut s = focused_state(0);
    s.drag_click = Some(ClickKind::Single);
    s.unfocus();
    assert!(!s.is_focused());
    assert!(s.drag_click.is_none());
    let p = iced_graphics::core::Point::new(1.0, 1.0);
    assert!(classify(Event::CursorMoved { position: Some(p) }, &s).is_none());
}

#[test]
fn submit_forgets_drag() {
    let content = Content::new();
    let mut s = focused_state(0);
    s.drag_click = Some(ClickKind::Single);
    apply(&mut s, Update::Binding(Binding::Submit), &content);
    assert!(s.drag_click.is_none());
}

#[test]
fn click_update_keeps_its_position() {
    let p = iced_graphics::core::Point::new(7.0, 3.0);
    match classify(Event::LeftPressed { position: Some(p) }, &State::new()) {
        Some(Update::Click { position, .. }) => assert_eq!(position, p),
        other => panic!("expected a click, got {other:?}"),
    }
}
