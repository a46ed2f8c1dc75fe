use pf_webos::backend::gamestream::input::{
    clamp_i16, clamp_u8, controller_type_for, mouse_button, pad_index, ClientInputEvent,
    ControllerType, InputTranslator, MouseButton, ALL_BUTTONS,
};
use pf_webos::backend::gamestream::stream::GamepadType;
use pf_webos::input::{
    InputEvent, InputKind, AXIS_LS_X, AXIS_LT, AXIS_RS_Y, BTN_A, BTN_B, BTN_X,
};
use pf_webos::keyboard::{key_event, vk_code};

fn ev(kind: InputKind, code: u32, x: i32, flags: u32) -> InputEvent {
    InputEvent { kind, code, x, y: 0, flags }
}

fn translated(t: &mut InputTranslator, e: InputEvent) -> Vec<ClientInputEvent> {
    let mut out = Vec::new();
    t.translate(&e, &mut out);
    out
}

#[test]
fn key_carries_the_gamestream_prefix() {
    let mut t = InputTranslator::new(GamepadType::XboxOne);
    let mut out = Vec::new();
    t.translate(&ev(InputKind::KeyDown, 0x41, 0, 0), &mut out);
    match out.as_slice() {
        [ClientInputEvent::Keyboard { key_code, .. }] => assert_eq!(*key_code, 0x8041),
        other => panic!("expected one keyboard event, got {other:?}"),
    }
}

#[test]
fn first_pad_event_announces_then_states() {
    let mut t = InputTranslator::new(GamepadType::XboxOne);
    let mut out = Vec::new();
    t.translate(&ev(InputKind::GamepadButton, BTN_A, 1, 0), &mut out);
    assert!(matches!(
        out.as_slice(),
        [ClientInputEvent::ControllerConnect { .. }, ClientInputEvent::ControllerState { .. }]
    ));
    out.clear();
    t.translate(&ev(InputKind::GamepadButton, BTN_B, 1, 0), &mut out);
    assert!(matches!(out.as_slice(), [ClientInputEvent::ControllerState { .. }]));
}

#[test]
fn buttons_accumulate_across_events() {
    let mut t = InputTranslator::new(GamepadType::XboxOne);
    let mut out = Vec::new();
    t.translate(&ev(InputKind::GamepadButton, BTN_A, 1, 0), &mut out);
    out.clear();
    t.translate(&ev(InputKind::GamepadButton, BTN_B, 1, 0), &mut out);
    match out.as_slice() {
        [ClientInputEvent::ControllerState { state, .. }] => {
            assert!(state.buttons & BTN_A == BTN_A);
            assert!(state.buttons & BTN_B == BTN_B);
        }
        other => panic!("expected one state event, got {other:?}"),
    }
}

#[test]
fn release_lets_go_of_its_button_alone() {
    let mut t = InputTranslator::new(GamepadType::XboxOne);
    translated(&mut t, ev(InputKind::GamepadButton, BTN_A | BTN_X, 1, 0));
    match translated(&mut t, ev(InputKind::GamepadButton, BTN_A, 0, 0)).as_slice() {
        [ClientInputEvent::ControllerState { state, .. }] => assert_eq!(state.buttons, BTN_X),
        other => panic!("expected one state event, got {other:?}"),
    }
}

#[test]
fn unknown_buttons_are_dropped() {
    let mut t = InputTranslator::new(GamepadType::XboxOne);
    match translated(&mut t, ev(InputKind::GamepadButton, 0x0080_0800, 1, 0)).as_slice() {
        [ClientInputEvent::ControllerConnect { supported_buttons, .. }, ClientInputEvent::ControllerState { state, .. }] =>
        {
            assert_eq!(*supported_buttons, ALL_BUTTONS);
            assert_eq!(state.buttons, 0);
        }
        other => panic!("expected an announced pad, got {other:?}"),
    }
}

#[test]
fn axes_are_clamped_and_kept_apart() {
    let mut t = InputTranslator::new(GamepadType::DualSense);
    translated(&mut t, ev(InputKind::GamepadAxis, AXIS_LS_X, 40_000, 1));
    translated(&mut t, ev(InputKind::GamepadAxis, AXIS_RS_Y, -40_000, 1));
    match translated(&mut t, ev(InputKind::GamepadAxis, AXIS_LT, 300, 1)).as_slice() {
        [ClientInputEvent::ControllerState { controller_number, state }] => {
            assert_eq!(*controller_number, 1);
            assert_eq!((state.ls_x, state.ls_y, state.rs_x, state.rs_y), (32767, 0, 0, -32768));
            assert_eq!((state.left_trigger, state.right_trigger), (255, 0));
        }
        other => panic!("expected one state event, got {other:?}"),
    }
}

#[test]
fn unknown_axis_sends_nothing() {
    let mut t = InputTranslator::new(GamepadType::SwitchPro);
    assert!(translated(&mut t, ev(InputKind::GamepadAxis, 99, 1, 2)).is_empty());
    // the pad is still to be announced
    match translated(&mut t, ev(InputKind::GamepadAxis, AXIS_LS_X, 1, 2)).as_slice() {
        [ClientInputEvent::ControllerConnect { controller_number, ty, .. }, ClientInputEvent::ControllerState { .. }] =>
        {
            assert_eq!(*controller_number, 2);
            assert_eq!(*ty, ControllerType::Nintendo);
        }
        other => panic!("expected an announcement and a state, got {other:?}"),
    }
}

#[test]
fn untracked_pad_is_dropped() {
    let mut t = InputTranslator::new(GamepadType::XboxOne);
    assert!(translated(&mut t, ev(InputKind::GamepadButton, BTN_A, 1, 4)).is_empty());
    assert_eq!(pad_index(3), Some(3));
    assert_eq!(pad_index(4), None);
}

#[test]
fn removed_pad_is_announced_anew() {
    let mut t = InputTranslator::new(GamepadType::XboxOne);
    translated(&mut t, ev(InputKind::GamepadButton, BTN_A, 1, 0));
    assert_eq!(
        translated(&mut t, ev(InputKind::GamepadRemove, 0, 0, 0)),
        vec![ClientInputEvent::ControllerDisconnect { controller_number: 0 }]
    );
    let out = translated(&mut t, ev(InputKind::GamepadButton, BTN_B, 1, 0));
    assert!(matches!(out[0], ClientInputEvent::ControllerConnect { .. }));
    assert!(matches!(&out[1], ClientInputEvent::ControllerState { state, .. } if state.buttons == BTN_B));
}

#[test]
fn modifiers_are_folded_from_the_keys() {
    let mut t = InputTranslator::new(GamepadType::Auto);
    translated(&mut t, ev(InputKind::KeyDown, 0xA0, 0, 0));
    match translated(&mut t, ev(InputKind::KeyDown, 0x41, 0, 0)).as_slice() {
        [ClientInputEvent::Keyboard { down, modifiers, .. }] => {
            assert!(*down);
            assert!(modifiers.shift && !modifiers.ctrl && !modifiers.alt && !modifiers.meta);
        }
        other => panic!("expected one keyboard event, got {other:?}"),
    }
    match translated(&mut t, ev(InputKind::KeyUp, 0x10, 0, 0)).as_slice() {
        [ClientInputEvent::Keyboard { down, modifiers, .. }] => {
            assert!(!*down);
            assert!(!modifiers.shift);
        }
        other => panic!("expected one keyboard event, got {other:?}"),
    }
    assert!(translated(&mut t, ev(InputKind::KeyDown, 0x141, 0, 0)).is_empty());
}

#[test]
fn mouse_events_are_repacked() {
    let mut t = InputTranslator::new(GamepadType::Auto);
    let moved = InputEvent { kind: InputKind::MouseMove, code: 0, x: 5, y: -70_000, flags: 0 };
    assert_eq!(
        translated(&mut t, moved),
        vec![ClientInputEvent::MouseMoveRelative { delta_x: 5, delta_y: -32768 }]
    );
    let at = InputEvent {
        kind: InputKind::MouseMoveAbs,
        code: 0,
        x: 100,
        y: 200,
        flags: (1920 << 16) | 1080,
    };
    assert_eq!(
        translated(&mut t, at),
        vec![ClientInputEvent::MouseMoveAbsolute {
            to_x: 100,
            to_y: 200,
            reference_width: 1920,
            reference_height: 1080,
        }]
    );
    assert!(translated(&mut t, ev(InputKind::MouseMoveAbs, 0, 1, 1080)).is_empty());
    assert_eq!(
        translated(&mut t, ev(InputKind::MouseButtonDown, 3, 0, 0)),
        vec![ClientInputEvent::MouseButton { press: true, button: MouseButton::Right }]
    );
    assert!(translated(&mut t, ev(InputKind::MouseButtonUp, 6, 0, 0)).is_empty());
    assert_eq!(
        translated(&mut t, ev(InputKind::MouseScroll, 1, 120, 0)),
        vec![ClientInputEvent::MouseScrollHorizontal { scroll_x: 120 }]
    );
    assert_eq!(
        translated(&mut t, ev(InputKind::MouseScroll, 0, -120, 0)),
        vec![ClientInputEvent::MouseScrollVertical { scroll_y: -120 }]
    );
    assert!(translated(&mut t, ev(InputKind::TouchDown, 0, 0, 0)).is_empty());
}

#[test]
fn small_conversions() {
    assert_eq!((clamp_i16(-40_000), clamp_i16(7), clamp_i16(40_000)), (-32768, 7, 32767));
    assert_eq!((clamp_u8(-1), clamp_u8(128), clamp_u8(256)), (0, 128, 255));
    assert_eq!(mouse_button(5), Some(MouseButton::X2));
    assert_eq!(mouse_button(0), None);
    assert_eq!(controller_type_for(GamepadType::Auto), ControllerType::Unknown);
    assert_eq!(controller_type_for(GamepadType::DualSenseEdge), ControllerType::PlayStation);
    assert_eq!(controller_type_for(GamepadType::DualShock4), ControllerType::PlayStation);
    assert_eq!(controller_type_for(GamepadType::XboxOne), ControllerType::Xbox);
}

#[test]
fn keys_have_their_virtual_codes() {
    for (sc, vk) in [
        (4, 0x41),
        (29, 0x5A),
        (30, 0x31),
        (39, 0x30),
        (40, 0x0D),
        (88, 0x0D),
        (58, 0x70),
        (69, 0x7B),
        (79, 0x27),
        (82, 0x26),
        (98, 0x60),
        (100, 0xE2),
        (231, 0x5C),
    ] {
        assert_eq!(vk_code(sc), Some(vk));
    }
    assert_eq!(vk_code(0), None);
    assert_eq!(vk_code(50), None);
    assert_eq!(vk_code(232), None);
}

#[test]
fn every_key_is_released_as_it_was_pressed() {
    for sc in 0..300 {
        let down = key_event(sc, true);
        let up = key_event(sc, false);
        assert_eq!(down.map(|e| e.code), up.map(|e| e.code));
        if let Some(e) = down {
            assert!(matches!(e.kind, InputKind::KeyDown));
            assert!(e.code < 0x100);
        }
    }
}
