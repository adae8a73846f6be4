use alt_tab_wheel::shell::{
    command_id, notification, tray_tip, Shell, WindowAction, ID_TRAY_EXIT, TIP_CAPACITY,
    WM_COMMAND, WM_DESTROY, WM_RBUTTONUP, WM_TRAYICON, WM_USER,
};
use alt_tab_wheel::startup::{shutdown, Cleanup, StartupOutcome, StartupStep};

#[test]
fn shell_constants_have_their_system_values() {
    assert_eq!(WM_USER, 0x0400);
    assert_eq!(WM_TRAYICON, 0x0401);
    assert_eq!(WM_COMMAND, 0x0111);
    assert_eq!(WM_DESTROY, 2);
    assert_eq!(WM_RBUTTONUP, 0x0205);
    assert_eq!(ID_TRAY_EXIT, 1001);
    assert_eq!(TIP_CAPACITY, 128);
}

#[test]
fn notification_is_the_low_double_word() {
    assert_eq!(notification(0x0205), WM_RBUTTONUP);
    assert_eq!(notification(0), 0);
    assert_eq!(notification(-1), u32::MAX);
    if isize::BITS > 32 {
        let negative = (0x0205i64 - (1i64 << 32)) as isize;
        assert_eq!(notification(negative), WM_RBUTTONUP);
        let wide = (0x0205i64 + (7i64 << 32)) as isize;
        assert_eq!(notification(wide), WM_RBUTTONUP);
        assert_eq!(notification(isize::MIN), 0);
    }
}

#[test]
fn command_is_the_low_word() {
    assert_eq!(command_id(1001), 1001);
    assert_eq!(command_id(0x0001_03E9), 1001);
    assert_eq!(command_id(0xffff_ffff), 0xffff);
    assert_eq!(command_id(0x0001_0000), 0);
}

#[test]
fn right_click_on_the_icon_shows_the_menu() {
    let mut shell = Shell::new();
    assert_eq!(shell.window_proc(WM_TRAYICON, 1, WM_RBUTTONUP as isize), WindowAction::ShowMenu);
    assert!(!shell.should_exit);
}

#[test]
fn other_icon_notifications_are_ignored() {
    let mut shell = Shell::new();
    for code in [0x0200isize, 0x0201, 0x0202, 0x0203, 0x0204, 0] {
        assert_eq!(shell.window_proc(WM_TRAYICON, 1, code), WindowAction::Nothing);
        assert!(!shell.should_exit);
    }
}

#[test]
fn exit_entry_quits_and_is_remembered() {
    let mut shell = Shell::new();
    assert_eq!(shell.window_proc(WM_COMMAND, ID_TRAY_EXIT as usize, 0), WindowAction::Quit);
    assert!(shell.should_exit);
    assert_eq!(shell.window_proc(WM_COMMAND, 7, 0), WindowAction::Nothing);
    assert!(shell.should_exit);
    assert_eq!(shell.window_proc(0x000F, 0, 0), WindowAction::Default);
    assert!(shell.should_exit);
}

#[test]
fn exit_entry_is_told_by_the_low_word_alone() {
    let mut shell = Shell::new();
    assert_eq!(shell.window_proc(WM_COMMAND, 0x0001_03E9, 0), WindowAction::Quit);
    assert!(shell.should_exit);
}

#[test]
fn other_commands_do_nothing() {
    let mut shell = Shell::new();
    assert_eq!(shell.window_proc(WM_COMMAND, 1000, 0), WindowAction::Nothing);
    assert_eq!(shell.window_proc(WM_COMMAND, 0x03E9_0000, 0), WindowAction::Nothing);
    assert!(!shell.should_exit);
}

#[test]
fn destroy_quits_without_exit_wish() {
    let mut shell = Shell::new();
    assert_eq!(shell.window_proc(WM_DESTROY, 0, 0), WindowAction::Quit);
    assert!(!shell.should_exit);
}

#[test]
fn foreign_messages_get_default_handling() {
    let mut shell = Shell::new();
    for msg in [0u32, 1, 0x000F, 0x0400, 0x0402, 0x0205] {
        assert_eq!(
            shell.window_proc(msg, ID_TRAY_EXIT as usize, WM_RBUTTONUP as isize),
            WindowAction::Default
        );
        assert!(!shell.should_exit);
    }
}

#[test]
fn message_loop_runs_until_quit_or_exit() {
    let mut shell = Shell::new();
    assert!(shell.keeps_running(1));
    assert!(!shell.keeps_running(0));
    assert!(!shell.keeps_running(-1));
    shell.should_exit = true;
    assert!(!shell.keeps_running(1));
}

#[test]
fn short_tip_is_padded_with_zero() {
    let text: Vec<u16> = "Exit".encode_utf16().chain(std::iter::once(0)).collect();
    let tip = tray_tip(&text);
    assert_eq!(tip.len(), 128);
    assert_eq!(&tip[..5], &[0x45, 0x78, 0x69, 0x74, 0]);
    assert!(tip[5..].iter().all(|unit| *unit == 0));
}

#[test]
fn long_tip_is_cut_off() {
    let text: Vec<u16> = (1..=200u16).collect();
    let tip = tray_tip(&text);
    let expected: Vec<u16> = (1..=128u16).collect();
    assert_eq!(tip, expected);
    let exact: Vec<u16> = (1..=128u16).collect();
    assert_eq!(tray_tip(&exact), exact);
}

#[test]
fn empty_tip_is_all_zero() {
    assert_eq!(tray_tip(&[]), vec![0u16; 128]);
}

#[test]
fn startup_takes_its_steps_in_order() {
    assert_eq!(StartupStep::first(), StartupStep::RegisterClass);
    assert_eq!(
        StartupStep::RegisterClass.advance(true),
        StartupOutcome::Next(StartupStep::CreateWindow)
    );
    assert_eq!(
        StartupStep::CreateWindow.advance(true),
        StartupOutcome::Next(StartupStep::AddTrayIcon)
    );
    assert_eq!(
        StartupStep::AddTrayIcon.advance(true),
        StartupOutcome::Next(StartupStep::InstallMouseHook)
    );
    assert_eq!(
        StartupStep::InstallMouseHook.advance(true),
        StartupOutcome::Next(StartupStep::InstallKeyboardHook)
    );
    assert_eq!(StartupStep::InstallKeyboardHook.advance(true), StartupOutcome::Ready);
}

#[test]
fn early_failures_release_nothing() {
    assert_eq!(StartupStep::RegisterClass.advance(false), StartupOutcome::Failed(vec![]));
    assert_eq!(StartupStep::CreateWindow.advance(false), StartupOutcome::Failed(vec![]));
    assert_eq!(StartupStep::AddTrayIcon.advance(false), StartupOutcome::Failed(vec![]));
}

#[test]
fn mouse_hook_failure_removes_the_icon() {
    assert_eq!(
        StartupStep::InstallMouseHook.advance(false),
        StartupOutcome::Failed(vec![Cleanup::RemoveTrayIcon])
    );
}

#[test]
fn keyboard_hook_failure_unhooks_mouse_and_removes_the_icon() {
    let mut step = StartupStep::first();
    for _ in 0..4 {
        step = match step.advance(true) {
            StartupOutcome::Next(next) => next,
            other => panic!("start-up ended early: {:?}", other),
        };
    }
    assert_eq!(step, StartupStep::InstallKeyboardHook);
    assert_eq!(
        step.advance(false),
        StartupOutcome::Failed(vec![Cleanup::UnhookMouse, Cleanup::RemoveTrayIcon])
    );
}

#[test]
fn shutdown_releases_hooks_then_icon() {
    assert_eq!(
        shutdown(),
        vec![Cleanup::UnhookMouse, Cleanup::UnhookKeyboard, Cleanup::RemoveTrayIcon]
    );
}
