//! The two hook listeners: they decode a raw notification, update the
//! gesture state and say which synthetic events are due and whether the
//! notification is consumed.

use vstd::prelude::*;
use crate::gesture::{GestureState, XButton};
use crate::keys::{KeyInput, VK_LMENU, VK_MENU, VK_RMENU};

verus! {

/// Message of a wheel tick.
pub const WM_MOUSEWHEEL: u32 = 0x020A;

/// Message of an extra button going down.
pub const WM_XBUTTONDOWN: u32 = 0x020B;

/// Message of an extra button going up.
pub const WM_XBUTTONUP: u32 = 0x020C;

/// Message of a key going up.
pub const WM_KEYUP: u32 = 0x0101;

/// Message of a key going up while the primary modifier is involved: the
/// form in which the release of that modifier itself may arrive.
pub const WM_SYSKEYUP: u32 = 0x0105;

/// Number of the first extra button in the high word of the mouse data.
pub const XBUTTON1: u16 = 0x0001;

/// Number of the second extra button in the high word of the mouse data.
pub const XBUTTON2: u16 = 0x0002;

/// What a mouse notification means to the gesture logic.
#[derive(Clone, Copy, Debug, PartialEq, Eq, Structural)]
pub enum MouseEvent {
    /// An extra button went down.
    ButtonDown(XButton),
    /// An extra button went up.
    ButtonUp(XButton),
    /// The wheel moved by the signed amount.
    Wheel(i16),
    /// Anything else: it passes through untouched.
    Other,
}

/// What the mouse listener decided: the synthetic events to inject, in
/// order, and whether the notification is kept from the rest of the system.
#[derive(Debug, PartialEq, Eq)]
pub struct HookOutcome {
    pub consumed: bool,
    pub inputs: Vec<KeyInput>,
}

/// The message number in a message parameter: its low thirty-two bits.
pub open spec fn message_of(w_param: usize) -> u32 {
    (w_param as int % 0x1_0000_0000) as u32
}

/// The high sixteen bits of the mouse data.
pub open spec fn high_word(mouse_data: u32) -> u16 {
    (mouse_data / 0x1_0000) as u16
}

/// The high word of the mouse data read as a signed number.
pub open spec fn wheel_delta(mouse_data: u32) -> i16 {
    if high_word(mouse_data) >= 0x8000 {
        (high_word(mouse_data) - 0x1_0000) as i16
    } else {
        high_word(mouse_data) as i16
    }
}

/// The extra button that a high word names, if it names one.
pub open spec fn button_of(word: u16) -> Option<XButton> {
    if word == XBUTTON1 {
        Some(XButton::First)
    } else if word == XBUTTON2 {
        Some(XButton::Second)
    } else {
        None
    }
}

/// The meaning of a raw mouse notification. A negative hook code, an
/// unknown message and an unknown button number all give `Other`.
pub open spec fn decode_mouse(n_code: i32, w_param: usize, mouse_data: u32) -> MouseEvent {
    if n_code < 0 {
        MouseEvent::Other
    } else if message_of(w_param) == WM_XBUTTONDOWN {
        match button_of(high_word(mouse_data)) {
            Some(button) => MouseEvent::ButtonDown(button),
            None => MouseEvent::Other,
        }
    } else if message_of(w_param) == WM_XBUTTONUP {
        match button_of(high_word(mouse_data)) {
            Some(button) => MouseEvent::ButtonUp(button),
            None => MouseEvent::Other,
        }
    } else if message_of(w_param) == WM_MOUSEWHEEL {
        MouseEvent::Wheel(wheel_delta(mouse_data))
    } else {
        MouseEvent::Other
    }
}

/// Whether a message number reports a key going up, in either of its two
/// forms.
pub open spec fn is_key_up_message(message: u32) -> bool {
    message == WM_KEYUP || message == WM_SYSKEYUP
}

/// Whether a virtual key code names the primary modifier: the key as such,
/// or its left-hand or right-hand key.
pub open spec fn is_primary_modifier(vk_code: u32) -> bool {
    vk_code == VK_MENU || vk_code == VK_LMENU || vk_code == VK_RMENU
}

/// Whether a raw keyboard notification reports the release of the primary
/// modifier, in any of the forms in which a listener may see it.
pub open spec fn is_modifier_key_up(n_code: i32, w_param: usize, vk_code: u32) -> bool {
    n_code >= 0 && is_key_up_message(message_of(w_param)) && is_primary_modifier(vk_code)
}

/// Reads the message number out of a message parameter.
pub fn message_id(w_param: usize) -> (message: u32)
    ensures
        message == message_of(w_param),
{
    let wide: u64 = w_param as u64;
    let low: u64 = wide & 0xffff_ffff;
    assert(low == wide % 0x1_0000_0000) by (bit_vector)
        requires
            low == wide & 0xffff_ffff,
    ;
    low as u32
}

/// Reads the high word of the mouse data.
pub fn hiword(mouse_data: u32) -> (word: u16)
    ensures
        word == high_word(mouse_data),
{
    let high: u32 = mouse_data >> 16;
    assert(high == mouse_data / 0x1_0000) by (bit_vector)
        requires
            high == mouse_data >> 16,
    ;
    high as u16
}

/// Reads a word as a signed number.
fn signed_word(word: u16) -> (value: i16)
    ensures
        value == (if word >= 0x8000 {
            word - 0x1_0000
        } else {
            word as int
        }),
{
    if word >= 0x8000 {
        let below: u16 = word - 0x8000;
        let value: i16 = below as i16;
        value + i16::MIN
    } else {
        word as i16
    }
}

impl XButton {
    /// The button that a high word names, if it names one.
    pub fn from_word(word: u16) -> (button: Option<XButton>)
        ensures
            button == button_of(word),
    {
        if word == XBUTTON1 {
            Some(XButton::First)
        } else if word == XBUTTON2 {
            Some(XButton::Second)
        } else {
            None
        }
    }
}

impl MouseEvent {
    /// Decodes a raw mouse notification: the hook code, the message
    /// parameter and the mouse data of the notification's record.
    pub fn decode(n_code: i32, w_param: usize, mouse_data: u32) -> (event: MouseEvent)
        ensures
            event == decode_mouse(n_code, w_param, mouse_data),
    {
        if n_code < 0 {
            return MouseEvent::Other;
        }
        let message = message_id(w_param);
        if message == WM_XBUTTONDOWN {
            match XButton::from_word(hiword(mouse_data)) {
                Some(button) => MouseEvent::ButtonDown(button),
                None => MouseEvent::Other,
            }
        } else if message == WM_XBUTTONUP {
            match XButton::from_word(hiword(mouse_data)) {
                Some(button) => MouseEvent::ButtonUp(button),
                None => MouseEvent::Other,
            }
        } else if message == WM_MOUSEWHEEL {
            MouseEvent::Wheel(signed_word(hiword(mouse_data)))
        } else {
            MouseEvent::Other
        }
    }
}

impl GestureState {
    /// The state after one mouse event.
    pub open spec fn after_mouse(self, event: MouseEvent) -> GestureState {
        match event {
            MouseEvent::ButtonDown(button) => self.with_button(button, true),
            MouseEvent::ButtonUp(button) => self.with_button(button, false).with_active(false),
            MouseEvent::Wheel(delta) => if self.any_button_held() && delta != 0 {
                self.with_active(true)
            } else {
                self
            },
            MouseEvent::Other => self,
        }
    }

    /// The synthetic events that one mouse event calls for. `shift_state` is
    /// the key state word of the secondary modifier when the event arrives.
    pub open spec fn mouse_inputs(self, event: MouseEvent, shift_state: i16) -> Seq<KeyInput> {
        match event {
            MouseEvent::ButtonUp(_) => self.end_inputs(shift_state),
            MouseEvent::Wheel(delta) => if self.any_button_held() && delta != 0 {
                self.wheel_inputs(delta < 0)
            } else {
                Seq::empty()
            },
            _ => Seq::empty(),
        }
    }

    /// Whether one mouse event is consumed: a wheel tick while a button is
    /// held, and nothing else.
    pub open spec fn consumes(self, event: MouseEvent) -> bool {
        match event {
            MouseEvent::Wheel(_) => self.any_button_held(),
            _ => false,
        }
    }

    /// Handles one decoded mouse event. A button going down or up is
    /// mirrored, and going up it ends the gesture. A wheel tick while a
    /// button is held starts or continues the gesture, forward for a
    /// positive amount and in reverse for a negative one, and is consumed
    /// even where the amount is zero. Everything else passes through.
    pub fn handle_mouse_event(&mut self, event: MouseEvent, shift_state: i16) -> (outcome:
        HookOutcome)
        ensures
            *final(self) == old(self).after_mouse(event),
            outcome.inputs@ == old(self).mouse_inputs(event, shift_state),
            outcome.consumed == old(self).consumes(event),
    {
        match event {
            MouseEvent::ButtonDown(button) => {
                match button {
                    XButton::First => {
                        self.xbutton1_pressed = true;
                    },
                    XButton::Second => {
                        self.xbutton2_pressed = true;
                    },
                }
                HookOutcome { consumed: false, inputs: Vec::new() }
            },
            MouseEvent::ButtonUp(button) => {
                match button {
                    XButton::First => {
                        self.xbutton1_pressed = false;
                    },
                    XButton::Second => {
                        self.xbutton2_pressed = false;
                    },
                }
                let inputs = self.end_alt_tab(shift_state);
                HookOutcome { consumed: false, inputs }
            },
            MouseEvent::Wheel(delta) => {
                if self.xbutton1_pressed || self.xbutton2_pressed {
                    let inputs = if delta > 0 {
                        self.send_alt_tab(false)
                    } else if delta < 0 {
                        self.send_alt_tab(true)
                    } else {
                        Vec::new()
                    };
                    HookOutcome { consumed: true, inputs }
                } else {
                    HookOutcome { consumed: false, inputs: Vec::new() }
                }
            },
            MouseEvent::Other => HookOutcome { consumed: false, inputs: Vec::new() },
        }
    }

    /// The mouse listener: decodes the raw notification and handles it.
    pub fn low_level_mouse_proc(
        &mut self,
        n_code: i32,
        w_param: usize,
        mouse_data: u32,
        shift_state: i16,
    ) -> (outcome: HookOutcome)
        ensures
            *final(self) == old(self).after_mouse(decode_mouse(n_code, w_param, mouse_data)),
            outcome.inputs@ == old(self).mouse_inputs(
                decode_mouse(n_code, w_param, mouse_data),
                shift_state,
            ),
            outcome.consumed == old(self).consumes(decode_mouse(n_code, w_param, mouse_data)),
    {
        let event = MouseEvent::decode(n_code, w_param, mouse_data);
        self.handle_mouse_event(event, shift_state)
    }

    /// The keyboard listener. Every release of the primary modifier that it
    /// is shown closes the gesture without any synthetic event, whoever
    /// caused the release, whichever of the modifier's keys it was and in
    /// whichever of the two key-up messages it arrives. Nothing else changes
    /// the state, and no notification is ever consumed.
    pub fn low_level_keyboard_proc(&mut self, n_code: i32, w_param: usize, vk_code: u32)
        ensures
            *final(self) == (if is_modifier_key_up(n_code, w_param, vk_code) {
                old(self).with_active(false)
            } else {
                *old(self)
            }),
    {
        if n_code >= 0 {
            let message = message_id(w_param);
            if message == WM_KEYUP || message == WM_SYSKEYUP {
                if vk_code == VK_MENU || vk_code == VK_LMENU || vk_code == VK_RMENU {
                    self.alt_tab_active = false;
                }
            }
        }
    }
}

} // verus!
