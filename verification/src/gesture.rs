//! The gesture state machine: while an extra mouse button is held, wheel
//! ticks open the window switcher and step through it; releasing the button
//! closes it.

use vstd::prelude::*;
use crate::keys::{key_input, send_key_combination, KeyInput, VK_MENU, VK_SHIFT, VK_TAB};

verus! {

/// One of the two extra mouse buttons.
#[derive(Clone, Copy, Debug, PartialEq, Eq, Structural)]
pub enum XButton {
    First,
    Second,
}

/// The flags that live for the whole run of the program. All start cleared.
#[derive(Clone, Copy, Debug, PartialEq, Eq, Structural)]
pub struct GestureState {
    /// Set while the primary modifier is held down by synthetic input.
    pub alt_tab_active: bool,
    /// Mirror of the first extra button.
    pub xbutton1_pressed: bool,
    /// Mirror of the second extra button.
    pub xbutton2_pressed: bool,
}

/// The events that open the switcher: the primary modifier, the secondary
/// one for the reverse direction, and the navigation key, all pressed and
/// none released.
pub open spec fn start_inputs(reverse: bool) -> Seq<KeyInput> {
    if reverse {
        seq![key_input(VK_MENU, true), key_input(VK_SHIFT, true), key_input(VK_TAB, true)]
    } else {
        seq![key_input(VK_MENU, true), key_input(VK_TAB, true)]
    }
}

/// The events that move the selection by one step while the switcher is
/// open: the chord is pressed and released again, the primary modifier is
/// not touched.
pub open spec fn pulse_inputs(reverse: bool) -> Seq<KeyInput> {
    if reverse {
        seq![
            key_input(VK_SHIFT, true),
            key_input(VK_TAB, true),
            key_input(VK_SHIFT, false),
            key_input(VK_TAB, false),
        ]
    } else {
        seq![key_input(VK_TAB, true), key_input(VK_TAB, false)]
    }
}

/// The events that close the switcher: the secondary modifier is released
/// first where it is down, then the primary one.
pub open spec fn release_inputs(secondary_down: bool) -> Seq<KeyInput> {
    if secondary_down {
        seq![key_input(VK_SHIFT, false), key_input(VK_MENU, false)]
    } else {
        seq![key_input(VK_MENU, false)]
    }
}

/// Whether a key state word, as the system reports it for one key, has its
/// high bit set: the key is down.
pub open spec fn key_state_down(key_state: i16) -> bool {
    key_state < 0
}

/// Tests the high bit of a key state word.
pub fn key_is_down(key_state: i16) -> (down: bool)
    ensures
        down == key_state_down(key_state),
{
    let high: i16 = key_state & i16::MIN;
    assert((high != 0) == (key_state < 0)) by (bit_vector)
        requires
            high == key_state & (-32768i16),
    ;
    high != 0
}

impl GestureState {
    /// The state at start-up: nothing held, no gesture open.
    pub fn new() -> (state: GestureState)
        ensures
            state == GestureState::idle(),
    {
        GestureState { alt_tab_active: false, xbutton1_pressed: false, xbutton2_pressed: false }
    }

    /// The state with every flag cleared.
    pub open spec fn idle() -> GestureState {
        GestureState { alt_tab_active: false, xbutton1_pressed: false, xbutton2_pressed: false }
    }

    /// At least one of the two extra buttons is held.
    pub open spec fn any_button_held(self) -> bool {
        self.xbutton1_pressed || self.xbutton2_pressed
    }

    /// The same state with the gesture flag replaced.
    pub open spec fn with_active(self, active: bool) -> GestureState {
        GestureState { alt_tab_active: active, ..self }
    }

    /// The same state with the mirror of one button replaced.
    pub open spec fn with_button(self, button: XButton, pressed: bool) -> GestureState {
        match button {
            XButton::First => GestureState { xbutton1_pressed: pressed, ..self },
            XButton::Second => GestureState { xbutton2_pressed: pressed, ..self },
        }
    }

    /// What one wheel tick emits: the opening events where no gesture is
    /// open, one pulse where one is.
    pub open spec fn wheel_inputs(self, reverse: bool) -> Seq<KeyInput> {
        if self.alt_tab_active {
            pulse_inputs(reverse)
        } else {
            start_inputs(reverse)
        }
    }

    /// What the end of a gesture emits: nothing where none is open.
    pub open spec fn end_inputs(self, shift_state: i16) -> Seq<KeyInput> {
        if self.alt_tab_active {
            release_inputs(key_state_down(shift_state))
        } else {
            Seq::empty()
        }
    }

    /// Handles one wheel tick in the given direction while a button is held.
    /// The first tick opens the switcher and leaves the keys pressed; each
    /// later one steps the selection with a full press and release.
    pub fn send_alt_tab(&mut self, reverse: bool) -> (inputs: Vec<KeyInput>)
        ensures
            inputs@ == old(self).wheel_inputs(reverse),
            *final(self) == old(self).with_active(true),
    {
        if !self.alt_tab_active {
            let inputs = if reverse {
                let codes: [u32; 3] = [VK_MENU, VK_SHIFT, VK_TAB];
                assert(codes@ =~= seq![VK_MENU, VK_SHIFT, VK_TAB]);
                send_key_combination(codes.as_slice(), true)
            } else {
                let codes: [u32; 2] = [VK_MENU, VK_TAB];
                assert(codes@ =~= seq![VK_MENU, VK_TAB]);
                send_key_combination(codes.as_slice(), true)
            };
            self.alt_tab_active = true;
            assert(inputs@ =~= start_inputs(reverse));
            inputs
        } else {
            let mut inputs: Vec<KeyInput>;
            let mut released: Vec<KeyInput>;
            if reverse {
                let codes: [u32; 2] = [VK_SHIFT, VK_TAB];
                assert(codes@ =~= seq![VK_SHIFT, VK_TAB]);
                inputs = send_key_combination(codes.as_slice(), true);
                released = send_key_combination(codes.as_slice(), false);
            } else {
                let codes: [u32; 1] = [VK_TAB];
                assert(codes@ =~= seq![VK_TAB]);
                inputs = send_key_combination(codes.as_slice(), true);
                released = send_key_combination(codes.as_slice(), false);
            }
            inputs.append(&mut released);
            assert(inputs@ =~= pulse_inputs(reverse));
            inputs
        }
    }

    /// Ends the gesture when a tracked button is released. `shift_state` is
    /// the key state word of the secondary modifier at that moment. Where no
    /// gesture is open nothing happens.
    pub fn end_alt_tab(&mut self, shift_state: i16) -> (inputs: Vec<KeyInput>)
        ensures
            inputs@ == old(self).end_inputs(shift_state),
            *final(self) == old(self).with_active(false),
    {
        let mut inputs: Vec<KeyInput> = Vec::new();
        if self.alt_tab_active {
            if key_is_down(shift_state) {
                let codes: [u32; 1] = [VK_SHIFT];
                assert(codes@ =~= seq![VK_SHIFT]);
                inputs = send_key_combination(codes.as_slice(), false);
            }
            let codes: [u32; 1] = [VK_MENU];
            assert(codes@ =~= seq![VK_MENU]);
            let mut primary = send_key_combination(codes.as_slice(), false);
            inputs.append(&mut primary);
            self.alt_tab_active = false;
            assert(inputs@ =~= release_inputs(key_state_down(shift_state)));
        }
        inputs
    }
}

} // verus!
