//! Input events as a GameStream host takes them. Both sides agree on buttons, sticks,
//! triggers, mouse buttons and wheel units. Two things differ: a key carries a prefix and
//! the modifiers that are down, and a pad is sent whole on every change, after one event
//! that announces it.
use vstd::prelude::*;

use crate::backend::gamestream::stream::GamepadType;
use crate::input::{
    InputEvent, InputKind, AXIS_LS_X, AXIS_LS_Y, AXIS_LT, AXIS_RS_X, AXIS_RS_Y, AXIS_RT,
};

verus! {

/// How many pads are tracked.
pub const PADS: u32 = 4;

/// What a host expects in the high byte of a key code. The low byte is the virtual key.
pub const KEY_PREFIX: u16 = 0x8000;

/// The buttons that the protocol has: four directions, Start, Back, both stick buttons, both
/// shoulders and Home in the low half, with A, B, X and Y at its top, and four paddles, the
/// touchpad and the extra button above.
pub const ALL_BUTTONS: u32 = 0x003F_F7FF;

/// The modifier keys that are down.
#[derive(Clone, Copy, Debug, PartialEq, Eq, Structural)]
pub struct KeyModifiers {
    pub shift: bool,
    pub ctrl: bool,
    pub alt: bool,
    pub meta: bool,
}

/// The kind of controller that a host is told of.
#[derive(Clone, Copy, Debug, PartialEq, Eq, Structural)]
pub enum ControllerType {
    Unknown,
    Xbox,
    PlayStation,
    Nintendo,
}

/// A mouse button.
#[derive(Clone, Copy, Debug, PartialEq, Eq, Structural)]
pub enum MouseButton {
    Left,
    Middle,
    Right,
    X1,
    X2,
}

/// What a controller can do besides its buttons and sticks.
#[derive(Clone, Copy, Debug, PartialEq, Eq, Structural)]
pub struct ControllerCapabilities {
    pub analog_triggers: bool,
    pub rumble: bool,
}

/// The state of one pad: triggers from 0 to 255, sticks from -32768 to 32767 with up
/// positive.
#[derive(Clone, Copy, Debug, PartialEq, Eq, Structural)]
pub struct PadState {
    /// Whether the host has been told of the pad.
    pub announced: bool,
    pub buttons: u32,
    pub left_trigger: u8,
    pub right_trigger: u8,
    pub ls_x: i16,
    pub ls_y: i16,
    pub rs_x: i16,
    pub rs_y: i16,
}

/// An event for the host.
#[derive(Clone, Copy, Debug, PartialEq, Eq, Structural)]
pub enum ClientInputEvent {
    Keyboard { down: bool, key_code: u16, modifiers: KeyModifiers },
    MouseMoveRelative { delta_x: i16, delta_y: i16 },
    MouseMoveAbsolute { to_x: i16, to_y: i16, reference_width: i16, reference_height: i16 },
    MouseButton { press: bool, button: MouseButton },
    MouseScrollHorizontal { scroll_x: i16 },
    MouseScrollVertical { scroll_y: i16 },
    ControllerConnect {
        controller_number: u8,
        ty: ControllerType,
        capabilities: ControllerCapabilities,
        supported_buttons: u32,
    },
    ControllerState { controller_number: u8, state: PadState },
    ControllerDisconnect { controller_number: u8 },
}

/// A pad at rest that the host has not been told of.
pub open spec fn fresh_pad() -> PadState {
    PadState {
        announced: false,
        buttons: 0,
        left_trigger: 0,
        right_trigger: 0,
        ls_x: 0,
        ls_y: 0,
        rs_x: 0,
        rs_y: 0,
    }
}

/// The value nearest to `v` that fits in 16 bits.
pub open spec fn nearest_i16(v: int) -> int {
    if v < -32768 {
        -32768
    } else if v > 32767 {
        32767
    } else {
        v
    }
}

/// The value nearest to `v` that fits in a byte.
pub open spec fn nearest_u8(v: int) -> int {
    if v < 0 {
        0
    } else if v > 255 {
        255
    } else {
        v
    }
}

/// The pad that an event addresses, if it is tracked. A higher one is not taken for another.
pub open spec fn addressed_pad(flags: u32) -> Option<u8> {
    if flags & 0xff < PADS {
        Some((flags & 0xff) as u8)
    } else {
        None
    }
}

/// The mouse button under `code`, numbered from 1.
pub open spec fn numbered_button(code: u32) -> Option<MouseButton> {
    match code {
        1 => Some(MouseButton::Left),
        2 => Some(MouseButton::Middle),
        3 => Some(MouseButton::Right),
        4 => Some(MouseButton::X1),
        5 => Some(MouseButton::X2),
        _ => None,
    }
}

/// The kind announced for a pad of the type `t`. The host picks one where none is attached.
pub open spec fn announced_type(t: GamepadType) -> ControllerType {
    match t {
        GamepadType::Auto => ControllerType::Unknown,
        GamepadType::XboxOne => ControllerType::Xbox,
        GamepadType::DualSense => ControllerType::PlayStation,
        GamepadType::DualSenseEdge => ControllerType::PlayStation,
        GamepadType::DualShock4 => ControllerType::PlayStation,
        GamepadType::SwitchPro => ControllerType::Nintendo,
    }
}

impl KeyModifiers {
    /// The modifiers after the key `vk` went down or up. The plain and the sided keys of a
    /// modifier count alike.
    pub open spec fn after(self, vk: u8, down: bool) -> KeyModifiers {
        if vk == 0x10 || vk == 0xA0 || vk == 0xA1 {
            KeyModifiers { shift: down, ..self }
        } else if vk == 0x11 || vk == 0xA2 || vk == 0xA3 {
            KeyModifiers { ctrl: down, ..self }
        } else if vk == 0x12 || vk == 0xA4 || vk == 0xA5 {
            KeyModifiers { alt: down, ..self }
        } else if vk == 0x5B || vk == 0x5C {
            KeyModifiers { meta: down, ..self }
        } else {
            self
        }
    }
}

/// The buttons `held` after those of `bits` that the protocol has were pressed or released.
pub open spec fn buttons_after(held: u32, bits: u32, pressed: bool) -> u32 {
    if pressed {
        held | (bits & ALL_BUTTONS)
    } else {
        held & !(bits & ALL_BUTTONS)
    }
}

impl PadState {
    /// The pad after one of its axes moved, or none for an axis that it does not have.
    pub open spec fn axis_moved(self, axis: u32, v: i32) -> Option<PadState> {
        if axis == AXIS_LS_X {
            Some(PadState { ls_x: nearest_i16(v as int) as i16, ..self })
        } else if axis == AXIS_LS_Y {
            Some(PadState { ls_y: nearest_i16(v as int) as i16, ..self })
        } else if axis == AXIS_RS_X {
            Some(PadState { rs_x: nearest_i16(v as int) as i16, ..self })
        } else if axis == AXIS_RS_Y {
            Some(PadState { rs_y: nearest_i16(v as int) as i16, ..self })
        } else if axis == AXIS_LT {
            Some(PadState { left_trigger: nearest_u8(v as int) as u8, ..self })
        } else if axis == AXIS_RT {
            Some(PadState { right_trigger: nearest_u8(v as int) as u8, ..self })
        } else {
            None
        }
    }
}

/// What a translator knows of the keys and pads.
pub struct TranslatorView {
    pub pads: Seq<PadState>,
    pub modifiers: KeyModifiers,
    pub controller_type: ControllerType,
}

impl TranslatorView {
    /// A session's start.
    pub open spec fn fresh(t: GamepadType) -> TranslatorView {
        TranslatorView {
            pads: seq![fresh_pad(), fresh_pad(), fresh_pad(), fresh_pad()],
            modifiers: KeyModifiers { shift: false, ctrl: false, alt: false, meta: false },
            controller_type: announced_type(t),
        }
    }

    /// What announces the pad `i`, where that is still to be done.
    pub open spec fn announcement(self, i: u8) -> Seq<ClientInputEvent> {
        if self.pads[i as int].announced {
            seq![]
        } else {
            seq![
                ClientInputEvent::ControllerConnect {
                    controller_number: i,
                    ty: self.controller_type,
                    capabilities: ControllerCapabilities { analog_triggers: true, rumble: true },
                    supported_buttons: ALL_BUTTONS,
                },
            ]
        }
    }

    /// With the pad `i` in the state `pad`.
    pub open spec fn with_pad(self, i: u8, pad: PadState) -> TranslatorView {
        TranslatorView { pads: self.pads.update(i as int, pad), ..self }
    }

    /// The pad `i` once it is announced.
    pub open spec fn known_pad(self, i: u8) -> PadState {
        PadState { announced: true, ..self.pads[i as int] }
    }

    /// After a key event.
    pub open spec fn after_key(self, ev: InputEvent) -> TranslatorView {
        if ev.code > 255 {
            self
        } else {
            TranslatorView {
                modifiers: self.modifiers.after(ev.code as u8, ev.kind is KeyDown),
                ..self
            }
        }
    }

    /// After a button event.
    pub open spec fn after_button(self, ev: InputEvent) -> TranslatorView {
        match addressed_pad(ev.flags) {
            None => self,
            Some(i) => {
                let pad = self.known_pad(i);
                self.with_pad(
                    i,
                    PadState { buttons: buttons_after(pad.buttons, ev.code, ev.x != 0), ..pad },
                )
            },
        }
    }

    /// After an axis event. An axis that pads do not have changes nothing.
    pub open spec fn after_axis(self, ev: InputEvent) -> TranslatorView {
        match addressed_pad(ev.flags) {
            None => self,
            Some(i) => {
                let pad = self.known_pad(i);
                match pad.axis_moved(ev.code, ev.x) {
                    None => self,
                    Some(moved) => self.with_pad(i, moved),
                }
            },
        }
    }

    /// After `ev`.
    pub open spec fn after(self, ev: InputEvent) -> TranslatorView {
        match ev.kind {
            InputKind::KeyDown => self.after_key(ev),
            InputKind::KeyUp => self.after_key(ev),
            InputKind::GamepadButton => self.after_button(ev),
            InputKind::GamepadAxis => self.after_axis(ev),
            InputKind::GamepadRemove => match addressed_pad(ev.flags) {
                None => self,
                Some(i) => self.with_pad(i, fresh_pad()),
            },
            _ => self,
        }
    }

    /// What is sent for a key event: nothing where the code is no byte.
    pub open spec fn sent_for_key(self, ev: InputEvent) -> Seq<ClientInputEvent> {
        if ev.code > 255 {
            seq![]
        } else {
            seq![
                ClientInputEvent::Keyboard {
                    down: ev.kind is KeyDown,
                    key_code: (KEY_PREFIX + ev.code) as u16,
                    modifiers: self.after_key(ev).modifiers,
                },
            ]
        }
    }

    /// What is sent for a pointer position. It comes with the size of the surface that it is
    /// on, and is dropped where there is none.
    pub open spec fn sent_for_position(self, ev: InputEvent) -> Seq<ClientInputEvent> {
        let w = ev.flags as int / 0x1_0000;
        let h = ev.flags as int % 0x1_0000;
        if w == 0 || h == 0 {
            seq![]
        } else {
            seq![
                ClientInputEvent::MouseMoveAbsolute {
                    to_x: nearest_i16(ev.x as int) as i16,
                    to_y: nearest_i16(ev.y as int) as i16,
                    reference_width: nearest_i16(w) as i16,
                    reference_height: nearest_i16(h) as i16,
                },
            ]
        }
    }

    /// What is sent for a mouse button.
    pub open spec fn sent_for_mouse_button(self, ev: InputEvent) -> Seq<ClientInputEvent> {
        match numbered_button(ev.code) {
            None => seq![],
            Some(button) => seq![
                ClientInputEvent::MouseButton { press: ev.kind is MouseButtonDown, button },
            ],
        }
    }

    /// What is sent for the wheel: `code` 1 turns it sideways.
    pub open spec fn sent_for_wheel(self, ev: InputEvent) -> Seq<ClientInputEvent> {
        let by = nearest_i16(ev.x as int) as i16;
        if ev.code == 1 {
            seq![ClientInputEvent::MouseScrollHorizontal { scroll_x: by }]
        } else {
            seq![ClientInputEvent::MouseScrollVertical { scroll_y: by }]
        }
    }

    /// What is sent for a button or an axis of a pad: its announcement, where that is still
    /// to be done, and then its whole state. Nothing is sent for an axis that pads do not have.
    pub open spec fn sent_for_pad(self, ev: InputEvent) -> Seq<ClientInputEvent> {
        match addressed_pad(ev.flags) {
            None => seq![],
            Some(i) => if ev.kind is GamepadAxis && self.known_pad(i).axis_moved(
                ev.code,
                ev.x,
            ) is None {
                seq![]
            } else {
                self.announcement(i).push(
                    ClientInputEvent::ControllerState {
                        controller_number: i,
                        state: self.after(ev).pads[i as int],
                    },
                )
            },
        }
    }

    /// What the host is sent for `ev`. Snapshots of pads, touch and text have no route here.
    pub open spec fn sent(self, ev: InputEvent) -> Seq<ClientInputEvent> {
        match ev.kind {
            InputKind::KeyDown => self.sent_for_key(ev),
            InputKind::KeyUp => self.sent_for_key(ev),
            InputKind::MouseMove => seq![
                ClientInputEvent::MouseMoveRelative {
                    delta_x: nearest_i16(ev.x as int) as i16,
                    delta_y: nearest_i16(ev.y as int) as i16,
                },
            ],
            InputKind::MouseMoveAbs => self.sent_for_position(ev),
            InputKind::MouseButtonDown => self.sent_for_mouse_button(ev),
            InputKind::MouseButtonUp => self.sent_for_mouse_button(ev),
            InputKind::MouseScroll => self.sent_for_wheel(ev),
            InputKind::GamepadButton => self.sent_for_pad(ev),
            InputKind::GamepadAxis => self.sent_for_pad(ev),
            InputKind::GamepadRemove => match addressed_pad(ev.flags) {
                None => seq![],
                Some(i) => seq![ClientInputEvent::ControllerDisconnect { controller_number: i }],
            },
            _ => seq![],
        }
    }
}

/// Turns input events into a host's, with what has to be remembered between them.
#[derive(Debug)]
pub struct InputTranslator {
    pads: [PadState; 4],
    modifiers: KeyModifiers,
    controller_type: ControllerType,
}

impl View for InputTranslator {
    type V = TranslatorView;

    closed spec fn view(&self) -> TranslatorView {
        TranslatorView {
            pads: self.pads@,
            modifiers: self.modifiers,
            controller_type: self.controller_type,
        }
    }
}

impl InputTranslator {
    /// A translator for a session with pads of the type `gamepad_type`.
    pub fn new(gamepad_type: GamepadType) -> (translator: Self)
        ensures
            translator@ == TranslatorView::fresh(gamepad_type),
            translator@.pads.len() == PADS,
    {
        let pad = PadState {
            announced: false,
            buttons: 0,
            left_trigger: 0,
            right_trigger: 0,
            ls_x: 0,
            ls_y: 0,
            rs_x: 0,
            rs_y: 0,
        };
        let translator = InputTranslator {
            pads: [pad, pad, pad, pad],
            modifiers: KeyModifiers { shift: false, ctrl: false, alt: false, meta: false },
            controller_type: controller_type_for(gamepad_type),
        };
        assert(translator@.pads =~= TranslatorView::fresh(gamepad_type).pads);
        translator
    }

    /// Appends what the host is to be sent for `ev`: mostly one event, two where a pad has to
    /// be announced first, none for what the protocol has no route for.
    pub fn translate(&mut self, ev: &InputEvent, out: &mut Vec<ClientInputEvent>)
        ensures
            final(self)@ == old(self)@.after(*ev),
            final(out)@ == old(out)@ + old(self)@.sent(*ev),
            old(self)@.pads.len() == PADS,
            final(self)@.pads.len() == PADS,
    {
        match ev.kind {
            InputKind::KeyDown | InputKind::KeyUp => {
                self.translate_key(ev, out);
            },
            InputKind::MouseMove => {
                out.push(
                    ClientInputEvent::MouseMoveRelative {
                        delta_x: clamp_i16(ev.x),
                        delta_y: clamp_i16(ev.y),
                    },
                );
            },
            InputKind::MouseMoveAbs => {
                self.translate_position(ev, out);
            },
            InputKind::MouseButtonDown | InputKind::MouseButtonUp => {
                if let Some(button) = mouse_button(ev.code) {
                    let press = matches!(ev.kind, InputKind::MouseButtonDown);
                    out.push(ClientInputEvent::MouseButton { press, button });
                }
            },
            InputKind::MouseScroll => {
                if ev.code == 1 {
                    out.push(
                        ClientInputEvent::MouseScrollHorizontal { scroll_x: clamp_i16(ev.x) },
                    );
                } else {
                    out.push(ClientInputEvent::MouseScrollVertical { scroll_y: clamp_i16(ev.x) });
                }
            },
            InputKind::GamepadButton => {
                self.translate_button(ev, out);
            },
            InputKind::GamepadAxis => {
                self.translate_axis(ev, out);
            },
            InputKind::GamepadRemove => {
                if let Some(pad) = pad_index(ev.flags) {
                    let fresh = PadState {
                        announced: false,
                        buttons: 0,
                        left_trigger: 0,
                        right_trigger: 0,
                        ls_x: 0,
                        ls_y: 0,
                        rs_x: 0,
                        rs_y: 0,
                    };
                    self.pads[pad as usize] = fresh;
                    out.push(ClientInputEvent::ControllerDisconnect { controller_number: pad });
                }
            },
            InputKind::GamepadState
            | InputKind::GamepadArrival
            | InputKind::TouchDown
            | InputKind::TouchMove
            | InputKind::TouchUp
            | InputKind::TextInput => {},
        }
    }

    fn translate_key(&mut self, ev: &InputEvent, out: &mut Vec<ClientInputEvent>)
        requires
            ev.kind is KeyDown || ev.kind is KeyUp,
        ensures
            final(self)@ == old(self)@.after_key(*ev),
            final(out)@ == old(out)@ + old(self)@.sent_for_key(*ev),
    {
        if ev.code > 255 {
            return;
        }
        let vk: u8 = ev.code as u8;
        let down = matches!(ev.kind, InputKind::KeyDown);
        self.set_modifier(vk, down);
        let key_code: u16 = KEY_PREFIX + vk as u16;
        out.push(ClientInputEvent::Keyboard { down, key_code, modifiers: self.modifiers });
    }

    fn translate_position(&self, ev: &InputEvent, out: &mut Vec<ClientInputEvent>)
        ensures
            final(out)@ == old(out)@ + self@.sent_for_position(*ev),
    {
        let w: u32 = ev.flags / 0x1_0000;
        let h: u32 = ev.flags % 0x1_0000;
        if w == 0 || h == 0 {
            return;
        }
        out.push(
            ClientInputEvent::MouseMoveAbsolute {
                to_x: clamp_i16(ev.x),
                to_y: clamp_i16(ev.y),
                reference_width: clamp_i16(w as i32),
                reference_height: clamp_i16(h as i32),
            },
        );
    }

    fn translate_button(&mut self, ev: &InputEvent, out: &mut Vec<ClientInputEvent>)
        requires
            ev.kind is GamepadButton,
        ensures
            final(self)@ == old(self)@.after_button(*ev),
            final(out)@ == old(out)@ + old(self)@.sent_for_pad(*ev),
    {
        if let Some(pad) = pad_index(ev.flags) {
            self.announce(pad, out);
            let mut state = self.pads[pad as usize];
            let bits: u32 = ev.code & ALL_BUTTONS;
            if ev.x != 0 {
                state.buttons = state.buttons | bits;
            } else {
                state.buttons = state.buttons & !bits;
            }
            self.pads[pad as usize] = state;
            out.push(ClientInputEvent::ControllerState { controller_number: pad, state });
            assert(self@.pads =~= old(self)@.after_button(*ev).pads);
        }
    }

    fn translate_axis(&mut self, ev: &InputEvent, out: &mut Vec<ClientInputEvent>)
        requires
            ev.kind is GamepadAxis,
        ensures
            final(self)@ == old(self)@.after_axis(*ev),
            final(out)@ == old(out)@ + old(self)@.sent_for_pad(*ev),
    {
        if let Some(pad) = pad_index(ev.flags) {
            let mut state = self.pads[pad as usize];
            state.announced = true;
            if ev.code == AXIS_LS_X {
                state.ls_x = clamp_i16(ev.x);
            } else if ev.code == AXIS_LS_Y {
                state.ls_y = clamp_i16(ev.x);
            } else if ev.code == AXIS_RS_X {
                state.rs_x = clamp_i16(ev.x);
            } else if ev.code == AXIS_RS_Y {
                state.rs_y = clamp_i16(ev.x);
            } else if ev.code == AXIS_LT {
                state.left_trigger = clamp_u8(ev.x);
            } else if ev.code == AXIS_RT {
                state.right_trigger = clamp_u8(ev.x);
            } else {
                return;
            }
            self.announce(pad, out);
            self.pads[pad as usize] = state;
            out.push(ClientInputEvent::ControllerState { controller_number: pad, state });
            assert(self@.pads =~= old(self)@.after_axis(*ev).pads);
        }
    }

    /// Announces a pad the first time it is touched. The host makes its device from this, so
    /// it comes before the pad's first state.
    fn announce(&mut self, pad: u8, out: &mut Vec<ClientInputEvent>)
        requires
            pad < PADS,
        ensures
            final(self)@ == old(self)@.with_pad(pad, old(self)@.known_pad(pad)),
            final(out)@ == old(out)@ + old(self)@.announcement(pad),
    {
        let mut state = self.pads[pad as usize];
        if state.announced {
            assert(self@.pads =~= self@.with_pad(pad, self@.known_pad(pad)).pads);
            return;
        }
        state.announced = true;
        self.pads[pad as usize] = state;
        out.push(
            ClientInputEvent::ControllerConnect {
                controller_number: pad,
                ty: self.controller_type,
                capabilities: ControllerCapabilities { analog_triggers: true, rumble: true },
                supported_buttons: ALL_BUTTONS,
            },
        );
    }

    fn set_modifier(&mut self, vk: u8, down: bool)
        ensures
            final(self)@ == (TranslatorView {
                modifiers: old(self)@.modifiers.after(vk, down),
                ..old(self)@
            }),
    {
        match vk {
            0x10 | 0xA0 | 0xA1 => {
                self.modifiers.shift = down;
            },
            0x11 | 0xA2 | 0xA3 => {
                self.modifiers.ctrl = down;
            },
            0x12 | 0xA4 | 0xA5 => {
                self.modifiers.alt = down;
            },
            0x5B | 0x5C => {
                self.modifiers.meta = down;
            },
            _ => {},
        }
    }
}

/// The kind announced for a pad type.
pub fn controller_type_for(gamepad_type: GamepadType) -> (ty: ControllerType)
    ensures
        ty == announced_type(gamepad_type),
{
    match gamepad_type {
        GamepadType::Auto => ControllerType::Unknown,
        GamepadType::XboxOne => ControllerType::Xbox,
        GamepadType::DualSense | GamepadType::DualSenseEdge | GamepadType::DualShock4 => {
            ControllerType::PlayStation
        },
        GamepadType::SwitchPro => ControllerType::Nintendo,
    }
}

/// The mouse button under a code.
pub fn mouse_button(code: u32) -> (button: Option<MouseButton>)
    ensures
        button == numbered_button(code),
{
    match code {
        1 => Some(MouseButton::Left),
        2 => Some(MouseButton::Middle),
        3 => Some(MouseButton::Right),
        4 => Some(MouseButton::X1),
        5 => Some(MouseButton::X2),
        _ => None,
    }
}

/// The pad that an event's flags address.
pub fn pad_index(flags: u32) -> (pad: Option<u8>)
    ensures
        pad == addressed_pad(flags),
        pad is Some ==> pad->0 < PADS,
{
    let pad: u32 = flags & 0xff;
    if pad < PADS {
        Some(pad as u8)
    } else {
        None
    }
}

/// `v`, kept in the range of 16 bits.
pub fn clamp_i16(v: i32) -> (r: i16)
    ensures
        r == nearest_i16(v as int),
{
    if v < -32768 {
        -32768
    } else if v > 32767 {
        32767
    } else {
        v as i16
    }
}

/// `v`, kept in the range of a byte.
pub fn clamp_u8(v: i32) -> (r: u8)
    ensures
        r == nearest_u8(v as int),
{
    if v < 0 {
        0
    } else if v > 255 {
        255
    } else {
        v as u8
    }
}

/// A translator keeps track of as many pads as events can address, whatever it was told.
pub proof fn law_all_pads_tracked(t: InputTranslator)
    ensures
        t@.pads.len() == PADS,
{
}

/// An event that the protocol has no equivalent for sends nothing and leaves everything as it is:
/// an axis that pads do not have, on a pad that was announced or not, and what is no input of a
/// key, a mouse or a pad.
pub proof fn law_no_route_no_effect(t: TranslatorView, ev: InputEvent)
    requires
        match ev.kind {
            InputKind::GamepadAxis => ev.code != AXIS_LS_X && ev.code != AXIS_LS_Y && ev.code
                != AXIS_RS_X && ev.code != AXIS_RS_Y && ev.code != AXIS_LT && ev.code != AXIS_RT,
            InputKind::GamepadState => true,
            InputKind::GamepadArrival => true,
            InputKind::TouchDown => true,
            InputKind::TouchMove => true,
            InputKind::TouchUp => true,
            InputKind::TextInput => true,
            _ => false,
        },
    ensures
        t.sent(ev) == Seq::<ClientInputEvent>::empty(),
        t.after(ev) == t,
{
}

/// Whether `event` announces the pad `i`.
pub open spec fn announces(event: ClientInputEvent, i: u8) -> bool {
    match event {
        ClientInputEvent::ControllerConnect { controller_number, .. } => controller_number == i,
        _ => false,
    }
}

/// A state of a pad is sent only once the pad is announced: the announcement stands directly
/// before it, or the pad was announced earlier, and stays so.
pub proof fn law_state_after_announcement(t: TranslatorView, ev: InputEvent, k: int)
    requires
        t.pads.len() == PADS,
        0 <= k < t.sent(ev).len(),
        t.sent(ev)[k] is ControllerState,
    ensures
        ({
            let i = t.sent(ev)[k]->ControllerState_controller_number;
            &&& i < PADS
            &&& t.after(ev).pads[i as int].announced
            &&& t.sent(ev)[k]->state == t.after(ev).pads[i as int]
            &&& t.pads[i as int].announced || (k == 1 && announces(t.sent(ev)[0], i))
        }),
{
}

/// A pad that is announced is not announced again, and stays announced until it is removed.
pub proof fn law_announced_once(t: TranslatorView, ev: InputEvent, i: u8)
    requires
        t.pads.len() == PADS,
        i < PADS,
        t.pads[i as int].announced,
    ensures
        forall|k: int| 0 <= k < t.sent(ev).len() ==> !announces(#[trigger] t.sent(ev)[k], i),
        !(ev.kind is GamepadRemove) ==> t.after(ev).pads[i as int].announced,
{
}

/// The buttons of a pad accumulate: a press keeps those that are held, and holds its own.
pub proof fn law_buttons_accumulate(held: u32, bits: u32)
    ensures
        buttons_after(held, bits, true) & held == held,
        buttons_after(held, bits, true) & (bits & ALL_BUTTONS) == bits & ALL_BUTTONS,
{
    let known = bits & ALL_BUTTONS;
    assert((held | known) & held == held) by (bit_vector);
    assert((held | known) & known == known) by (bit_vector);
}

/// A release lets go of its buttons, and of no other.
pub proof fn law_release_lets_go(held: u32, bits: u32)
    ensures
        buttons_after(held, bits, false) & (bits & ALL_BUTTONS) == 0,
        buttons_after(held, bits, false) | (held & (bits & ALL_BUTTONS)) == held,
{
    let known = bits & ALL_BUTTONS;
    assert((held & !known) & known == 0) by (bit_vector);
    assert((held & !known) | (held & known) == held) by (bit_vector);
}

/// The number that a prefixed key code holds is the prefix and the virtual key bit by bit.
pub proof fn law_key_prefix(vk: u16)
    requires
        vk <= 255,
    ensures
        (KEY_PREFIX + vk) as u16 == KEY_PREFIX | vk,
{
    assert((0x8000u16 + vk) as u16 == 0x8000u16 | vk) by (bit_vector)
        requires
            vk <= 255,
    ;
}

/// The two halves of the flags of a pointer position are the surface's width and height, as
/// they were packed.
pub proof fn law_surface_is_packed(flags: u32)
    ensures
        flags as int / 0x1_0000 == flags >> 16,
        flags as int % 0x1_0000 == flags & 0xffff,
{
    assert(flags / 0x1_0000 == flags >> 16) by (bit_vector);
    assert(flags % 0x1_0000 == flags & 0xffff) by (bit_vector);
}

/// An event leaves every pad alone that it does not address.
pub proof fn law_other_pads_untouched(t: TranslatorView, ev: InputEvent, i: int)
    requires
        t.pads.len() == PADS,
        0 <= i < PADS,
        addressed_pad(ev.flags) != Some(i as u8),
    ensures
        t.after(ev).pads[i] == t.pads[i],
{
}

/// What 16 bits hold of `v` lies no farther from it than anything else that they can hold, and a
/// byte likewise.
pub proof fn law_clamping_is_nearest(v: int, other: int)
    ensures
        -0x8000 <= nearest_i16(v) < 0x8000,
        -0x8000 <= other < 0x8000 && v <= other ==> v <= nearest_i16(v) <= other,
        -0x8000 <= other < 0x8000 && other <= v ==> other <= nearest_i16(v) <= v,
        0 <= nearest_u8(v) < 0x100,
        0 <= other < 0x100 && v <= other ==> v <= nearest_u8(v) <= other,
        0 <= other < 0x100 && other <= v ==> other <= nearest_u8(v) <= v,
{
}

/// An axis event moves the axis that its code names, and no other: the state sent last holds the
/// event's value there, kept in range, and everything else as it was. The codes number the left
/// stick across and up, the right stick across and up, the left trigger and the right trigger.
pub proof fn law_axis_reaches_its_field(t: TranslatorView, ev: InputEvent)
    requires
        t.pads.len() == 4,
        ev.kind is GamepadAxis,
        ev.flags & 0xff < 4,
        ev.code < 6,
    ensures
        ({
            let i = ev.flags & 0xff;
            let was = t.pads[i as int];
            let now = t.after(ev).pads[i as int];
            let stick = if ev.x < -0x8000 {
                -0x8000
            } else if ev.x >= 0x8000 {
                0x7fff
            } else {
                ev.x as int
            };
            let trigger = if ev.x < 0 {
                0
            } else if ev.x >= 0x100 {
                0xff
            } else {
                ev.x as int
            };
            &&& t.sent(ev).len() == if was.announced {
                1int
            } else {
                2int
            }
            &&& t.sent(ev).last() == ClientInputEvent::ControllerState {
                controller_number: i as u8,
                state: now,
            }
            &&& now.ls_x == if ev.code == 0 {
                stick
            } else {
                was.ls_x as int
            }
            &&& now.ls_y == if ev.code == 1 {
                stick
            } else {
                was.ls_y as int
            }
            &&& now.rs_x == if ev.code == 2 {
                stick
            } else {
                was.rs_x as int
            }
            &&& now.rs_y == if ev.code == 3 {
                stick
            } else {
                was.rs_y as int
            }
            &&& now.left_trigger == if ev.code == 4 {
                trigger
            } else {
                was.left_trigger as int
            }
            &&& now.right_trigger == if ev.code == 5 {
                trigger
            } else {
                was.right_trigger as int
            }
            &&& now.buttons == was.buttons
        }),
{
}

/// The names of the axes stand for six different codes, in the order in which they are numbered.
pub proof fn law_axes_are_numbered(t: TranslatorView, ev: InputEvent)
    requires
        t.pads.len() == 4,
        ev.kind is GamepadAxis,
        ev.flags & 0xff < 4,
    ensures
        ({
            let was = t.pads[(ev.flags & 0xff) as int];
            let now = t.after(ev).pads[(ev.flags & 0xff) as int];
            &&& now.ls_x != was.ls_x ==> ev.code == AXIS_LS_X
            &&& now.ls_y != was.ls_y ==> ev.code == AXIS_LS_Y
            &&& now.rs_x != was.rs_x ==> ev.code == AXIS_RS_X
            &&& now.rs_y != was.rs_y ==> ev.code == AXIS_RS_Y
            &&& now.left_trigger != was.left_trigger ==> ev.code == AXIS_LT
            &&& now.right_trigger != was.right_trigger ==> ev.code == AXIS_RT
        }),
{
}

/// A button event presses or lets go of the buttons that it names and the protocol has, and no
/// other: of any buttons `mask`, those named are held in the state that is sent exactly if the
/// event is a press, and those not named are held as before. Sticks and triggers stay.
pub proof fn law_buttons_reach_the_host(t: TranslatorView, ev: InputEvent, mask: u32)
    requires
        t.pads.len() == 4,
        ev.kind is GamepadButton,
        ev.flags & 0xff < 4,
    ensures
        ({
            let i = ev.flags & 0xff;
            let was = t.pads[i as int];
            let now = t.after(ev).pads[i as int];
            &&& t.sent(ev).last() == ClientInputEvent::ControllerState {
                controller_number: i as u8,
                state: now,
            }
            &&& mask & ev.code == 0 ==> now.buttons & mask == was.buttons & mask
            &&& mask & ev.code == mask && mask & 0x003F_F7FF == mask ==> now.buttons & mask == if ev.x
                != 0 {
                mask
            } else {
                0
            }
            &&& mask & 0x003F_F7FF == 0 ==> now.buttons & mask == was.buttons & mask
            &&& now == (PadState { announced: true, buttons: now.buttons, ..was })
        }),
{
    let held = t.pads[(ev.flags & 0xff) as int].buttons;
    let code = ev.code;
    assert(mask & code == 0 ==> (held | (code & 0x003F_F7FF)) & mask == held & mask && (held & !(code
        & 0x003F_F7FF)) & mask == held & mask) by (bit_vector);
    assert(mask & 0x003F_F7FF == 0 ==> (held | (code & 0x003F_F7FF)) & mask == held & mask && (held
        & !(code & 0x003F_F7FF)) & mask == held & mask) by (bit_vector);
    assert(mask & code == mask && mask & 0x003F_F7FF == mask ==> (held | (code & 0x003F_F7FF)) & mask
        == mask && (held & !(code & 0x003F_F7FF)) & mask == 0) by (bit_vector);
}

/// A pad that is touched for the first time is announced by its own number, as the kind that the
/// session was set up with, with analog triggers, rumble and every button of the protocol.
pub proof fn law_pad_is_announced_as_its_kind(g: GamepadType, t: TranslatorView, ev: InputEvent)
    requires
        t.pads.len() == 4,
        t.controller_type == TranslatorView::fresh(g).controller_type,
        ev.kind is GamepadButton || (ev.kind is GamepadAxis && ev.code < 6),
        ev.flags & 0xff < 4,
        !t.pads[(ev.flags & 0xff) as int].announced,
    ensures
        t.sent(ev).len() == 2,
        t.sent(ev)[0] == (ClientInputEvent::ControllerConnect {
            controller_number: (ev.flags & 0xff) as u8,
            ty: match g {
                GamepadType::Auto => ControllerType::Unknown,
                GamepadType::XboxOne => ControllerType::Xbox,
                GamepadType::SwitchPro => ControllerType::Nintendo,
                _ => ControllerType::PlayStation,
            },
            capabilities: ControllerCapabilities { analog_triggers: true, rumble: true },
            supported_buttons: 0x003F_F7FF,
        }),
        t.after(ev).controller_type == t.controller_type,
{
}

/// A session starts with four pads at rest that were not announced, and no modifier down.
pub proof fn law_session_starts_at_rest(g: GamepadType, i: int)
    requires
        0 <= i < 4,
    ensures
        ({
            let t = TranslatorView::fresh(g);
            let pad = t.pads[i];
            &&& t.pads.len() == 4
            &&& !pad.announced && pad.buttons == 0
            &&& pad.left_trigger == 0 && pad.right_trigger == 0
            &&& pad.ls_x == 0 && pad.ls_y == 0 && pad.rs_x == 0 && pad.rs_y == 0
            &&& !t.modifiers.shift && !t.modifiers.ctrl && !t.modifiers.alt && !t.modifiers.meta
        }),
{
}

/// A pad that goes is told to the host by its number, and is at rest and not announced after
/// that. One that is not tracked is told of by nothing, whatever it does.
pub proof fn law_removed_pad_is_gone(t: TranslatorView, ev: InputEvent)
    requires
        t.pads.len() == 4,
    ensures
        ev.kind is GamepadRemove && ev.flags & 0xff < 4 ==> t.sent(ev) == seq![
            ClientInputEvent::ControllerDisconnect { controller_number: (ev.flags & 0xff) as u8 },
        ] && t.after(ev).pads[(ev.flags & 0xff) as int] == (PadState {
            announced: false,
            buttons: 0,
            left_trigger: 0,
            right_trigger: 0,
            ls_x: 0,
            ls_y: 0,
            rs_x: 0,
            rs_y: 0,
        }),
        (ev.kind is GamepadRemove || ev.kind is GamepadButton || ev.kind is GamepadAxis) && ev.flags
            & 0xff >= 4 ==> t.sent(ev).len() == 0 && t.after(ev) == t,
{
}

/// A key goes to the host as one event: down or up as it was, its own virtual key in the low byte
/// under the prefix, and the modifiers that are down with it. A modifier is down from its own
/// key's press to its release; the plain and the sided keys count alike. A code that is no byte
/// is told of by nothing.
pub proof fn law_key_is_sent_with_modifiers(t: TranslatorView, ev: InputEvent)
    requires
        ev.kind is KeyDown || ev.kind is KeyUp,
    ensures
        ({
            let down = ev.kind is KeyDown;
            let now = t.after(ev).modifiers;
            let c = ev.code;
            &&& c > 255 ==> t.sent(ev).len() == 0 && t.after(ev) == t
            &&& c <= 255 ==> t.sent(ev) == seq![
                ClientInputEvent::Keyboard {
                    down,
                    key_code: (0x8000 + c) as u16,
                    modifiers: now,
                },
            ]
            &&& now.shift == if c == 0x10 || c == 0xA0 || c == 0xA1 {
                down
            } else {
                t.modifiers.shift
            }
            &&& now.ctrl == if c == 0x11 || c == 0xA2 || c == 0xA3 {
                down
            } else {
                t.modifiers.ctrl
            }
            &&& now.alt == if c == 0x12 || c == 0xA4 || c == 0xA5 {
                down
            } else {
                t.modifiers.alt
            }
            &&& now.meta == if c == 0x5B || c == 0x5C {
                down
            } else {
                t.modifiers.meta
            }
            &&& t.after(ev).pads == t.pads
        }),
{
}

/// The mouse goes to the host as it moves: a step right and down as one right and down, a
/// position with the width and height of its surface, a button by its number from the left,
/// pressed or let go as it was, and the wheel across with code 1 and up otherwise. Nothing is
/// remembered of it.
pub proof fn law_mouse_is_sent_as_it_moves(t: TranslatorView, ev: InputEvent)
    ensures
        ({
            let in_range = -0x8000 <= ev.x < 0x8000 && -0x8000 <= ev.y < 0x8000;
            let w = ev.flags >> 16;
            let h = ev.flags & 0xffff;
            &&& ev.kind is MouseMove && in_range ==> t.sent(ev) == seq![
                ClientInputEvent::MouseMoveRelative { delta_x: ev.x as i16, delta_y: ev.y as i16 },
            ]
            &&& ev.kind is MouseMoveAbs && (w == 0 || h == 0) ==> t.sent(ev).len() == 0
            &&& ev.kind is MouseMoveAbs && in_range && 0 < w < 0x8000 && 0 < h < 0x8000 ==> t.sent(ev)
                == seq![
                ClientInputEvent::MouseMoveAbsolute {
                    to_x: ev.x as i16,
                    to_y: ev.y as i16,
                    reference_width: w as i16,
                    reference_height: h as i16,
                },
            ]
            &&& ev.kind is MouseScroll && in_range ==> t.sent(ev) == seq![
                if ev.code == 1 {
                    ClientInputEvent::MouseScrollHorizontal { scroll_x: ev.x as i16 }
                } else {
                    ClientInputEvent::MouseScrollVertical { scroll_y: ev.x as i16 }
                },
            ]
            &&& ev.kind is MouseButtonDown || ev.kind is MouseButtonUp ==> if 1 <= ev.code <= 5 {
                t.sent(ev) == seq![
                    ClientInputEvent::MouseButton {
                        press: ev.kind is MouseButtonDown,
                        button: if ev.code == 1 {
                            MouseButton::Left
                        } else if ev.code == 2 {
                            MouseButton::Middle
                        } else if ev.code == 3 {
                            MouseButton::Right
                        } else if ev.code == 4 {
                            MouseButton::X1
                        } else {
                            MouseButton::X2
                        },
                    },
                ]
            } else {
                t.sent(ev).len() == 0
            }
            &&& ev.kind is MouseMove || ev.kind is MouseMoveAbs || ev.kind is MouseScroll || ev.kind
                is MouseButtonDown || ev.kind is MouseButtonUp ==> t.after(ev) == t
        }),
{
    law_surface_is_packed(ev.flags);
}

/// A position or a step beyond what 16 bits hold goes as far as they reach, in its own direction.
pub proof fn law_far_moves_go_as_far_as_they_can(t: TranslatorView, ev: InputEvent)
    requires
        ev.kind is MouseMove || (ev.kind is MouseMoveAbs && ev.flags >> 16 > 0 && ev.flags & 0xffff
            > 0),
    ensures
        t.sent(ev).len() == 1,
        ({
            let (x, y) = match t.sent(ev)[0] {
                ClientInputEvent::MouseMoveRelative { delta_x, delta_y } => (
                    delta_x as int,
                    delta_y as int,
                ),
                ClientInputEvent::MouseMoveAbsolute { to_x, to_y, .. } => (to_x as int, to_y as int),
                _ => (0, 0),
            };
            &&& ev.x >= 0x8000 ==> x == 0x7fff
            &&& ev.x < -0x8000 ==> x == -0x8000
            &&& -0x8000 <= ev.x < 0x8000 ==> x == ev.x
            &&& ev.y >= 0x8000 ==> y == 0x7fff
            &&& ev.y < -0x8000 ==> y == -0x8000
            &&& -0x8000 <= ev.y < 0x8000 ==> y == ev.y
        }),
        t.sent(ev)[0] matches ClientInputEvent::MouseMoveAbsolute {
            reference_width,
            reference_height,
            ..
        } ==> {
            &&& reference_width as int == if ev.flags >> 16 >= 0x8000 {
                0x7fff
            } else {
                (ev.flags >> 16) as int
            }
            &&& reference_height as int == if ev.flags & 0xffff >= 0x8000 {
                0x7fff
            } else {
                (ev.flags & 0xffff) as int
            }
        },
{
    law_surface_is_packed(ev.flags);
}

} // verus!
