//! The hidden window behind the notification-area icon: which of its
//! messages ask for the menu, which end the program, and what the icon's
//! tooltip buffer holds.

use vstd::prelude::*;
use crate::hooks::{message_id, message_of};

verus! {

/// First message number that is free for private use.
pub const WM_USER: u32 = 0x0400;

/// Message that the notification-area icon sends to the window.
pub const WM_TRAYICON: u32 = WM_USER + 1;

/// Message of a menu selection.
pub const WM_COMMAND: u32 = 0x0111;

/// Message of the window being destroyed.
pub const WM_DESTROY: u32 = 0x0002;

/// Notification of the right mouse button going up.
pub const WM_RBUTTONUP: u32 = 0x0205;

/// Identifier of the menu's one entry.
pub const ID_TRAY_EXIT: u32 = 1001;

/// Number of code units in the icon's tooltip buffer.
pub const TIP_CAPACITY: usize = 128;

/// What the window does with a message.
#[derive(Clone, Copy, Debug, PartialEq, Eq, Structural)]
pub enum WindowAction {
    /// Show the context menu at the cursor. The message is handled.
    ShowMenu,
    /// Ask the message loop to end. The message is handled.
    Quit,
    /// Nothing to do. The message is handled.
    Nothing,
    /// Not a message of this window's own: default handling.
    Default,
}

/// The state of the shell: whether the menu's exit entry was chosen.
#[derive(Clone, Copy, Debug, PartialEq, Eq, Structural)]
pub struct Shell {
    pub should_exit: bool,
}

/// The low thirty-two bits of a signed message parameter.
pub open spec fn notification_of(l_param: isize) -> u32 {
    (l_param as int % 0x1_0000_0000) as u32
}

/// The low sixteen bits of a message parameter.
pub open spec fn command_of(w_param: usize) -> u32 {
    (w_param as int % 0x1_0000) as u32
}

/// Whether the message is the selection of the exit entry.
pub open spec fn is_exit_command(msg: u32, w_param: usize) -> bool {
    msg == WM_COMMAND && command_of(w_param) == ID_TRAY_EXIT
}

/// What the window does with a message.
pub open spec fn window_action(msg: u32, w_param: usize, l_param: isize) -> WindowAction {
    if msg == WM_TRAYICON {
        if notification_of(l_param) == WM_RBUTTONUP {
            WindowAction::ShowMenu
        } else {
            WindowAction::Nothing
        }
    } else if msg == WM_COMMAND {
        if command_of(w_param) == ID_TRAY_EXIT {
            WindowAction::Quit
        } else {
            WindowAction::Nothing
        }
    } else if msg == WM_DESTROY {
        WindowAction::Quit
    } else {
        WindowAction::Default
    }
}

/// What the tooltip buffer holds for a text: the text's code units as far
/// as they fit, and zero behind them.
pub open spec fn tip_of(text: Seq<u16>) -> Seq<u16> {
    Seq::new(
        TIP_CAPACITY as nat,
        |i: int|
            if i < text.len() {
                text[i]
            } else {
                0u16
            },
    )
}

/// Reads the notification out of a signed message parameter.
pub fn notification(l_param: isize) -> (code: u32)
    ensures
        code == notification_of(l_param),
{
    let wide: i64 = l_param as i64;
    let low: i64 = wide & 0xffff_ffff;
    assert(0 <= low <= 0xffff_ffff && (wide - low) % 0x1_0000_0000 == 0) by (bit_vector)
        requires
            low == wide & 0xffff_ffff,
    ;
    low as u32
}

/// Reads the command identifier out of a message parameter.
pub fn command_id(w_param: usize) -> (id: u32)
    ensures
        id == command_of(w_param),
{
    let message: u32 = message_id(w_param);
    let low: u32 = message & 0xffff;
    assert(low == message % 0x1_0000) by (bit_vector)
        requires
            low == message & 0xffff,
    ;
    assert(message_of(w_param) as int % 0x1_0000 == w_param as int % 0x1_0000);
    low
}

impl Shell {
    /// The shell at start-up.
    pub fn new() -> (shell: Shell)
        ensures
            !shell.should_exit,
    {
        Shell { should_exit: false }
    }

    /// Decides what the hidden window does with a message. A right click on
    /// the icon asks for the menu and every other notification of the icon
    /// is ignored; choosing the exit entry records the wish to exit and
    /// ends the message loop; the window's destruction ends it too.
    pub fn window_proc(&mut self, msg: u32, w_param: usize, l_param: isize) -> (action:
        WindowAction)
        ensures
            action == window_action(msg, w_param, l_param),
            final(self).should_exit == (old(self).should_exit || is_exit_command(msg, w_param)),
    {
        if msg == WM_TRAYICON {
            if notification(l_param) == WM_RBUTTONUP {
                WindowAction::ShowMenu
            } else {
                WindowAction::Nothing
            }
        } else if msg == WM_COMMAND {
            if command_id(w_param) == ID_TRAY_EXIT {
                self.should_exit = true;
                WindowAction::Quit
            } else {
                WindowAction::Nothing
            }
        } else if msg == WM_DESTROY {
            WindowAction::Quit
        } else {
            WindowAction::Default
        }
    }

    /// Whether the message loop hands on the message it just fetched:
    /// the fetch succeeded without asking to quit, and no exit was chosen.
    pub fn keeps_running(&self, fetched: i32) -> (go_on: bool)
        ensures
            go_on == (fetched > 0 && !self.should_exit),
    {
        fetched > 0 && !self.should_exit
    }
}

/// Fills the icon's tooltip buffer from a text in sixteen-bit code units.
/// What does not fit is cut off, and the rest of the buffer is zero.
pub fn tray_tip(text: &[u16]) -> (tip: Vec<u16>)
    ensures
        tip@ == tip_of(text@),
{
    let mut tip: Vec<u16> = Vec::new();
    let mut i: usize = 0;
    while i < TIP_CAPACITY
        invariant
            i <= TIP_CAPACITY,
            tip@.len() == i,
            forall|j: int| 0 <= j < i ==> #[trigger] tip@[j] == tip_of(text@)[j],
        decreases TIP_CAPACITY - i,
    {
        let unit: u16 = if i < text.len() {
            text[i]
        } else {
            0
        };
        tip.push(unit);
        i += 1;
    }
    assert(tip@ =~= tip_of(text@));
    tip
}

} // verus!
