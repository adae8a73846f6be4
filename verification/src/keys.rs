//! Synthetic keyboard input: virtual key codes and the events built from them.

use vstd::prelude::*;

verus! {

/// Virtual key code of the primary modifier, the key that keeps the window
/// switcher open while it is held.
pub const VK_MENU: u32 = 0x12;

/// Virtual key code of the left-hand key of the primary modifier, as a
/// keyboard listener sees it.
pub const VK_LMENU: u32 = 0xA4;

/// Virtual key code of the right-hand key of the primary modifier, as a
/// keyboard listener sees it.
pub const VK_RMENU: u32 = 0xA5;

/// Virtual key code of the secondary modifier, which reverses the direction.
pub const VK_SHIFT: u32 = 0x10;

/// Virtual key code of the navigation key, which moves the selection.
pub const VK_TAB: u32 = 0x09;

/// Flag of a keyboard input event that marks a key release.
pub const KEYEVENTF_KEYUP: u32 = 0x0002;

/// One synthetic keyboard event, as it is handed to the input queue: the
/// virtual key code and the event flags. Scan code, time stamp and extra
/// information are always zero and are not carried.
#[derive(Clone, Copy, Debug, PartialEq, Eq, Structural)]
pub struct KeyInput {
    pub w_vk: u16,
    pub dw_flags: u32,
}

/// The low sixteen bits of a virtual key code.
pub open spec fn low_word(vk: u32) -> u16 {
    (vk & 0xffff) as u16
}

/// The event flags for a press (`down`) or a release.
pub open spec fn key_flags(down: bool) -> u32 {
    if down {
        0
    } else {
        KEYEVENTF_KEYUP
    }
}

/// The event that presses or releases the key `vk`.
pub open spec fn key_input(vk: u32, down: bool) -> KeyInput {
    KeyInput { w_vk: low_word(vk), dw_flags: key_flags(down) }
}

/// One event per key code, in the order of the codes, all presses or all
/// releases.
pub open spec fn key_inputs(vk_codes: Seq<u32>, down: bool) -> Seq<KeyInput> {
    Seq::new(vk_codes.len(), |i: int| key_input(vk_codes[i], down))
}

impl KeyInput {
    /// Builds the event that presses or releases `vk`. Only the low word of
    /// the code is kept.
    pub fn new(vk: u32, down: bool) -> (input: KeyInput)
        ensures
            input == key_input(vk, down),
    {
        let low: u32 = vk & 0xffff;
        assert(low <= 0xffff) by (bit_vector)
            requires
                low == vk & 0xffff,
        ;
        KeyInput { w_vk: low as u16, dw_flags: if down { 0 } else { KEYEVENTF_KEYUP } }
    }

    /// Whether the event is a key release.
    pub fn is_key_up(&self) -> (up: bool)
        ensures
            up == (self.dw_flags & KEYEVENTF_KEYUP != 0),
    {
        self.dw_flags & KEYEVENTF_KEYUP != 0
    }
}

/// Builds the batch of synthetic events for a list of key codes: one event
/// per code, in list order, each a press when `down` is set and a release
/// otherwise.
pub fn send_key_combination(vk_codes: &[u32], down: bool) -> (inputs: Vec<KeyInput>)
    ensures
        inputs@ == key_inputs(vk_codes@, down),
{
    let mut inputs: Vec<KeyInput> = Vec::new();
    let mut i: usize = 0;
    while i < vk_codes.len()
        invariant
            i <= vk_codes.len(),
            inputs@ == key_inputs(vk_codes@.take(i as int), down),
        decreases vk_codes.len() - i,
    {
        inputs.push(KeyInput::new(vk_codes[i], down));
        i += 1;
        assert(inputs@ =~= key_inputs(vk_codes@.take(i as int), down));
    }
    assert(vk_codes@.take(i as int) =~= vk_codes@);
    inputs
}

} // verus!
