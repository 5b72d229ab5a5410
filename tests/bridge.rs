use imgui_glfw_rs::{
    button_index, key_slot, native_key, Action, ImguiGLFW, InputEvent, KeyModifiers, KeyRole,
    Modifiers, MouseButton, UiInput, MOD_ALT as ALT, MOD_CONTROL as CONTROL, MOD_SHIFT as SHIFT,
    MOD_SUPER as SUPER,
};

fn no_mods() -> Modifiers {
    Modifiers { bits: 0 }
}

fn press(b: MouseButton) -> InputEvent {
    InputEvent::MouseButton(b, Action::Press, no_mods())
}

fn release(b: MouseButton) -> InputEvent {
    InputEvent::MouseButton(b, Action::Release, no_mods())
}

fn fresh() -> (ImguiGLFW, UiInput) {
    let mut input = UiInput::new();
    let bridge = ImguiGLFW::new(&mut input);
    (bridge, input)
}

#[test]
fn press_middle_release_primary() {
    let (mut bridge, mut input) = fresh();
    bridge.handle_event(&mut input, &press(MouseButton::Button1));
    bridge.handle_event(&mut input, &press(MouseButton::Button3));
    bridge.handle_event(&mut input, &release(MouseButton::Button1));
    assert_eq!(input.mouse_down, [false, false, true, false, false]);
    assert_eq!(bridge.mouse_press, [false, false, true, false, false]);
}

#[test]
fn button_follows_latest_event() {
    let (mut bridge, mut input) = fresh();
    assert_eq!(input.mouse_down, [false; 5]);
    bridge.handle_event(&mut input, &press(MouseButton::Button2));
    bridge.handle_event(&mut input, &release(MouseButton::Button2));
    bridge.handle_event(&mut input, &press(MouseButton::Button2));
    assert!(input.mouse_down[1]);
    bridge.handle_event(
        &mut input,
        &InputEvent::MouseButton(MouseButton::Button5, Action::Repeat, no_mods()),
    );
    assert_eq!(input.mouse_down, [false, true, false, false, true]);
    bridge.handle_event(&mut input, &release(MouseButton::Button2));
    assert_eq!(input.mouse_down, [false, false, false, false, true]);
}

#[test]
fn extra_buttons_fall_back_to_first_slot() {
    assert_eq!(button_index(MouseButton::Button1), 0);
    assert_eq!(button_index(MouseButton::Button4), 3);
    assert_eq!(button_index(MouseButton::Button5), 4);
    assert_eq!(button_index(MouseButton::Button6), 0);
    assert_eq!(button_index(MouseButton::Button8), 0);
    let (mut bridge, mut input) = fresh();
    bridge.handle_event(&mut input, &press(MouseButton::Button7));
    assert_eq!(input.mouse_down, [true, false, false, false, false]);
}

#[test]
fn wheel_keeps_only_last_scroll() {
    let (mut bridge, mut input) = fresh();
    assert_eq!(input.mouse_wheel, None);
    for d in [1.0f64, 2.0, -0.5] {
        bridge.handle_event(&mut input, &InputEvent::Scroll(3.0f64.to_bits(), d.to_bits()));
    }
    assert_eq!(input.mouse_wheel, Some((-0.5f64).to_bits()));
    assert_ne!(input.mouse_wheel, Some(2.5f64.to_bits()));
}

#[test]
fn cursor_is_latest_move() {
    let (mut bridge, mut input) = fresh();
    assert_eq!(input.mouse_pos, None);
    assert_eq!(bridge.cursor_pos, (0, 0));
    let moves = [(1.0f64, 2.0f64), (10.5, -3.25), (640.0, 480.0)];
    for (x, y) in moves {
        bridge.handle_event(&mut input, &InputEvent::CursorPos(x.to_bits(), y.to_bits()));
    }
    let last = (640.0f64.to_bits(), 480.0f64.to_bits());
    assert_eq!(input.mouse_pos, Some(last));
    assert_eq!(bridge.cursor_pos, last);
    bridge.handle_event(&mut input, &InputEvent::Other);
    assert_eq!(bridge.cursor_pos, last);
}

#[test]
fn modifiers_match_all_sixteen_masks() {
    let (mut bridge, mut input) = fresh();
    for bits in 0..16i32 {
        let mut mask = 0;
        if bits & 1 != 0 {
            mask |= CONTROL;
        }
        if bits & 2 != 0 {
            mask |= ALT;
        }
        if bits & 4 != 0 {
            mask |= SHIFT;
        }
        if bits & 8 != 0 {
            mask |= SUPER;
        }
        bridge.handle_event(
            &mut input,
            &InputEvent::Key(65, 30, Action::Press, Modifiers { bits: mask }),
        );
        let expected = KeyModifiers {
            ctrl: bits & 1 != 0,
            alt: bits & 2 != 0,
            shift: bits & 4 != 0,
            super_: bits & 8 != 0,
        };
        assert_eq!(input.modifiers, expected);
    }
}

#[test]
fn modifiers_ignore_other_bits() {
    let (mut bridge, mut input) = fresh();
    bridge.handle_event(
        &mut input,
        &InputEvent::Key(65, 30, Action::Press, Modifiers { bits: 0x10 | 0x20 }),
    );
    assert_eq!(
        input.modifiers,
        KeyModifiers { ctrl: false, alt: false, shift: false, super_: false }
    );
}

#[test]
fn key_press_with_control_shift() {
    let (mut bridge, mut input) = fresh();
    let x = 45;
    bridge.handle_event(
        &mut input,
        &InputEvent::Key(88, x, Action::Press, Modifiers { bits: CONTROL | SHIFT }),
    );
    assert!(input.keys_down[x as usize]);
    assert_eq!(
        input.modifiers,
        KeyModifiers { ctrl: true, alt: false, shift: true, super_: false }
    );
    bridge.handle_event(
        &mut input,
        &InputEvent::Key(88, x, Action::Repeat, Modifiers { bits: CONTROL }),
    );
    assert!(input.keys_down[x as usize]);
    bridge.handle_event(&mut input, &InputEvent::Key(88, x, Action::Release, no_mods()));
    assert!(!input.keys_down[x as usize]);
    assert_eq!(
        input.modifiers,
        KeyModifiers { ctrl: false, alt: false, shift: false, super_: false }
    );
}

#[test]
fn key_event_uses_low_byte_of_scancode() {
    let (mut bridge, mut input) = fresh();
    bridge.handle_event(&mut input, &InputEvent::Key(0, 300, Action::Press, no_mods()));
    assert!(input.keys_down[44]);
    assert_eq!(key_slot(300), 44);
    assert_eq!(key_slot(-1), 255);
    assert_eq!(key_slot(7), 7);
}

#[test]
fn characters_reach_text_input_in_order() {
    let (mut bridge, mut input) = fresh();
    bridge.handle_event(&mut input, &InputEvent::Char('H'));
    bridge.handle_event(&mut input, &InputEvent::Char('i'));
    assert_eq!(input.input_chars, vec!['H', 'i']);
}

#[test]
fn construction_registers_key_roles() {
    let (bridge, input) = fresh();
    assert_eq!(native_key(KeyRole::Tab), 258);
    assert_eq!(native_key(KeyRole::Escape), 256);
    assert_eq!(native_key(KeyRole::Z), 90);
    assert_eq!(KeyRole::Tab.index(), 0);
    assert_eq!(KeyRole::Z.index(), 18);
    assert_eq!(input.key_map[KeyRole::Tab.index()], Some(2));
    assert_eq!(input.key_map[KeyRole::LeftArrow.index()], Some(7));
    assert_eq!(input.key_map[KeyRole::End.index()], Some(13));
    assert_eq!(input.key_map[KeyRole::Escape.index()], Some(0));
    assert_eq!(input.key_map[KeyRole::A.index()], Some(65));
    assert_eq!(input.key_map[KeyRole::Z.index()], Some(90));
    assert!(input.key_map.iter().all(|k| k.is_some()));
    assert_eq!(bridge.mouse_press, [false; 5]);
    assert_eq!(bridge.last_frame, 0);
    assert!(input.input_chars.is_empty());
}

#[test]
fn other_events_change_nothing() {
    let (mut bridge, mut input) = fresh();
    bridge.handle_event(&mut input, &InputEvent::Other);
    assert_eq!(input.mouse_down, [false; 5]);
    assert_eq!(input.mouse_pos, None);
    assert_eq!(input.mouse_wheel, None);
    assert!(input.keys_down.iter().all(|k| !k));
    assert!(input.input_chars.is_empty());
}

#[test]
fn tick_reports_synthetic_delay() {
    let (mut bridge, _input) = fresh();
    assert_eq!(bridge.tick_at(1_000_000), 1_000_000);
    assert_eq!(bridge.tick_at(17_666_667), 16_666_667);
    assert_eq!(bridge.last_frame, 17_666_667);
    assert_eq!(bridge.tick_at(17_666_667), 0);
}

#[test]
fn tick_never_goes_negative() {
    let (mut bridge, _input) = fresh();
    bridge.tick_at(5_000);
    assert_eq!(bridge.tick_at(4_000), 0);
    assert_eq!(bridge.last_frame, 4_000);
    assert_eq!(bridge.tick_at(6_500), 2_500);
}

#[test]
fn update_reads_the_clock() {
    let (mut bridge, _input) = fresh();
    let first = bridge.update();
    let after_first = bridge.last_frame;
    assert_eq!(first, after_first);
    let second = bridge.update();
    assert!(bridge.last_frame >= after_first);
    assert_eq!(second, bridge.last_frame - after_first);
}

#[test]
fn modifier_intersection() {
    let m = Modifiers { bits: CONTROL | SUPER };
    assert!(m.intersects(Modifiers { bits: CONTROL }));
    assert!(m.intersects(Modifiers { bits: SUPER }));
    assert!(!m.intersects(Modifiers { bits: ALT }));
    assert!(!m.intersects(Modifiers { bits: SHIFT }));
}
