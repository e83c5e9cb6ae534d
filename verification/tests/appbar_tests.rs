use thide::appbar::{
    is_taskbar_visible, set_taskbar_state, TaskbarStateManager, WindowCommand, ABS_AUTOHIDE, SW_HIDE,
    SW_SHOW,
};
use thide::taskbar::WindowHandle;

#[test]
fn constants_have_the_system_values() {
    assert_eq!(ABS_AUTOHIDE, 1);
    assert_eq!(SW_HIDE, 0);
    assert_eq!(SW_SHOW, 5);
}

#[test]
fn manager_asks_for_a_first_write_when_autohide_is_off() {
    let (manager, first_write) = TaskbarStateManager::new(0);
    assert_eq!(first_write, Some(1));
    assert_eq!(manager.enforce(), 1);
    assert_eq!(manager.restore(), 0);
}

#[test]
fn manager_asks_for_no_first_write_when_autohide_is_on() {
    let (manager, first_write) = TaskbarStateManager::new(1);
    assert_eq!(first_write, None);
    assert_eq!(manager.enforce(), 1);
    assert_eq!(manager.restore(), 1);
}

#[test]
fn manager_keeps_the_other_bits() {
    // always-on-top (2) without auto-hide
    let (manager, first_write) = TaskbarStateManager::new(2);
    assert_eq!(first_write, Some(3));
    assert_eq!(manager.enforce(), 3);
    assert_eq!(manager.restore(), 2);

    let (manager, first_write) = TaskbarStateManager::new(0xFFFF_FFFE);
    assert_eq!(first_write, Some(0xFFFF_FFFF));
    assert_eq!(manager.enforce(), 0xFFFF_FFFF);
    assert_eq!(manager.restore(), 0xFFFF_FFFE);

    let (manager, first_write) = TaskbarStateManager::new(3);
    assert_eq!(first_write, None);
    assert_eq!(manager.enforce(), 3);
    assert_eq!(manager.restore(), 3);
}

#[test]
fn restore_after_any_writes_gives_the_original() {
    let (manager, _) = TaskbarStateManager::new(2);
    let mut appbar: u32 = 0xDEAD;
    for step in 0..7 {
        appbar = if step % 3 == 0 { manager.restore() } else { manager.enforce() };
    }
    assert_eq!(appbar, 2);
    appbar = manager.enforce();
    assert_eq!(appbar, 3);
    appbar = manager.enforce();
    assert_eq!(appbar, 3);
    appbar = manager.restore();
    assert_eq!(appbar, 2);
    appbar = manager.restore();
    assert_eq!(appbar, 2);
}

#[test]
fn show_gives_every_taskbar_the_show_command() {
    let taskbars = vec![WindowHandle { raw: 7 }, WindowHandle { raw: 9 }];
    assert_eq!(
        set_taskbar_state(&taskbars, true),
        vec![
            WindowCommand { window: WindowHandle { raw: 7 }, command: 5 },
            WindowCommand { window: WindowHandle { raw: 9 }, command: 5 },
        ]
    );
}

#[test]
fn hide_gives_every_taskbar_the_hide_command() {
    let taskbars = vec![WindowHandle { raw: 7 }, WindowHandle { raw: 9 }, WindowHandle { raw: 7 }];
    assert_eq!(
        set_taskbar_state(&taskbars, false),
        vec![
            WindowCommand { window: WindowHandle { raw: 7 }, command: 0 },
            WindowCommand { window: WindowHandle { raw: 9 }, command: 0 },
            WindowCommand { window: WindowHandle { raw: 7 }, command: 0 },
        ]
    );
}

#[test]
fn no_taskbars_no_commands() {
    assert_eq!(set_taskbar_state(&vec![], true), vec![]);
    assert_eq!(set_taskbar_state(&vec![], false), vec![]);
}

#[test]
fn any_visible_taskbar_makes_the_taskbar_visible() {
    assert!(!is_taskbar_visible(&vec![]));
    assert!(!is_taskbar_visible(&vec![false]));
    assert!(!is_taskbar_visible(&vec![false, false, false]));
    assert!(is_taskbar_visible(&vec![true]));
    assert!(is_taskbar_visible(&vec![false, false, true]));
    assert!(is_taskbar_visible(&vec![true, false]));
}
