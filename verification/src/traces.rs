//! Runs of mouse events: what a whole sequence emits and where it leaves the
//! state, and what holds of every such run.

use vstd::prelude::*;
use crate::gesture::{pulse_inputs, start_inputs, GestureState, XButton};
use crate::hooks::MouseEvent;
use crate::keys::{key_input, KeyInput, VK_MENU, VK_SHIFT};

verus! {

/// A mouse event together with the key state word of the secondary modifier
/// at the moment it arrives.
pub struct MouseNotice {
    pub event: MouseEvent,
    pub shift_state: i16,
}

/// `count` pulses in one direction, one after the other.
pub open spec fn pulses(reverse: bool, count: nat) -> Seq<KeyInput>
    decreases count,
{
    if count == 0 {
        Seq::empty()
    } else {
        pulse_inputs(reverse) + pulses(reverse, (count - 1) as nat)
    }
}

/// The event is a press or a release of an extra button.
pub open spec fn is_button_event(event: MouseEvent) -> bool {
    event is ButtonDown || event is ButtonUp
}

/// The event is a wheel tick that is not zero and goes in the given
/// direction.
pub open spec fn is_tick(event: MouseEvent, reverse: bool) -> bool {
    match event {
        MouseEvent::Wheel(delta) => delta != 0 && (delta < 0) == reverse,
        _ => false,
    }
}

impl GestureState {
    /// The state after a run of mouse events, handled in order.
    pub open spec fn after_run(self, notices: Seq<MouseNotice>) -> GestureState
        decreases notices.len(),
    {
        if notices.len() == 0 {
            self
        } else {
            self.after_mouse(notices[0].event).after_run(notices.drop_first())
        }
    }

    /// Everything that a run of mouse events emits, in order.
    pub open spec fn run_inputs(self, notices: Seq<MouseNotice>) -> Seq<KeyInput>
        decreases notices.len(),
    {
        if notices.len() == 0 {
            Seq::empty()
        } else {
            self.mouse_inputs(notices[0].event, notices[0].shift_state) + self.after_mouse(
                notices[0].event,
            ).run_inputs(notices.drop_first())
        }
    }
}

/// Presses and releases of the extra buttons with no wheel tick between
/// them, in any number and order, emit nothing and leave no gesture open,
/// provided none was open before.
pub proof fn buttons_alone_emit_nothing(state: GestureState, notices: Seq<MouseNotice>)
    requires
        !state.alt_tab_active,
        forall|i: int| 0 <= i < notices.len() ==> is_button_event(#[trigger] notices[i].event),
    ensures
        !state.after_run(notices).alt_tab_active,
        state.run_inputs(notices) =~= Seq::<KeyInput>::empty(),
    decreases notices.len(),
{
    if notices.len() > 0 {
        let next = state.after_mouse(notices[0].event);
        let rest = notices.drop_first();
        assert(is_button_event(notices[0].event));
        assert forall|i: int| 0 <= i < rest.len() implies is_button_event(
            #[trigger] rest[i].event,
        ) by {
            assert(rest[i] == notices[i + 1]);
        }
        buttons_alone_emit_nothing(next, rest);
    }
}

/// While a gesture is open and a button is held, wheel ticks in one
/// direction emit one pulse each and change nothing.
pub proof fn ticks_while_open_pulse(state: GestureState, notices: Seq<MouseNotice>, reverse: bool)
    requires
        state.alt_tab_active,
        state.any_button_held(),
        forall|i: int| 0 <= i < notices.len() ==> is_tick(#[trigger] notices[i].event, reverse),
    ensures
        state.after_run(notices) == state,
        state.run_inputs(notices) =~= pulses(reverse, notices.len()),
    decreases notices.len(),
{
    if notices.len() > 0 {
        let rest = notices.drop_first();
        assert(is_tick(notices[0].event, reverse));
        assert(state.after_mouse(notices[0].event) == state);
        assert forall|i: int| 0 <= i < rest.len() implies is_tick(
            #[trigger] rest[i].event,
            reverse,
        ) by {
            assert(rest[i] == notices[i + 1]);
        }
        ticks_while_open_pulse(state, rest, reverse);
    }
}

/// With a button held and no gesture open, a run of wheel ticks in one
/// direction emits the opening events once, with the navigation key left
/// pressed, and then one full pulse for each tick after the first. The
/// gesture is open afterwards and the buttons are as they were.
pub proof fn ticks_open_once_then_pulse(
    state: GestureState,
    notices: Seq<MouseNotice>,
    reverse: bool,
)
    requires
        !state.alt_tab_active,
        state.any_button_held(),
        notices.len() >= 1,
        forall|i: int| 0 <= i < notices.len() ==> is_tick(#[trigger] notices[i].event, reverse),
    ensures
        state.after_run(notices) == state.with_active(true),
        state.run_inputs(notices) =~= start_inputs(reverse) + pulses(
            reverse,
            (notices.len() - 1) as nat,
        ),
{
    let rest = notices.drop_first();
    assert(is_tick(notices[0].event, reverse));
    assert(state.after_mouse(notices[0].event) == state.with_active(true));
    assert forall|i: int| 0 <= i < rest.len() implies is_tick(#[trigger] rest[i].event, reverse) by {
        assert(rest[i] == notices[i + 1]);
    }
    ticks_while_open_pulse(state.with_active(true), rest, reverse);
}

/// Releasing a button while a gesture is open emits the release of the
/// secondary modifier, if and only if that key is down, and then the release
/// of the primary one, and closes the gesture. The release is not consumed.
pub proof fn release_closes_gesture(state: GestureState, button: XButton, shift_state: i16)
    requires
        state.alt_tab_active,
    ensures
        !state.after_mouse(MouseEvent::ButtonUp(button)).alt_tab_active,
        shift_state < 0 ==> state.mouse_inputs(MouseEvent::ButtonUp(button), shift_state)
            =~= seq![key_input(VK_SHIFT, false), key_input(VK_MENU, false)],
        shift_state >= 0 ==> state.mouse_inputs(MouseEvent::ButtonUp(button), shift_state)
            =~= seq![key_input(VK_MENU, false)],
        !state.consumes(MouseEvent::ButtonUp(button)),
{
}

/// A wheel tick while neither button is held is not consumed, emits nothing
/// and leaves the state as it was.
pub proof fn wheel_without_button_passes(state: GestureState, delta: i16, shift_state: i16)
    requires
        !state.xbutton1_pressed,
        !state.xbutton2_pressed,
    ensures
        !state.consumes(MouseEvent::Wheel(delta)),
        state.mouse_inputs(MouseEvent::Wheel(delta), shift_state) =~= Seq::<KeyInput>::empty(),
        state.after_mouse(MouseEvent::Wheel(delta)) == state,
{
}

} // verus!
