use thide::ipc::{
    get_ipc_window_class, get_ipc_window_class_utf16, get_message_ids, ipc_window_proc, IPCMessage,
    ProcDecision, WM_APP, WM_APP_LAST, WM_THIDE_HIDE, WM_THIDE_QUIT, WM_THIDE_SHOW,
};

#[test]
fn message_ids_follow_the_private_range_start() {
    assert_eq!(WM_APP, 0x8000);
    assert_eq!(get_message_ids(), (0x8001, 0x8002, 0x8003));
    assert_eq!(get_message_ids(), (WM_APP + 1, WM_APP + 2, WM_APP + 3));
    assert_eq!(get_message_ids(), (WM_THIDE_SHOW, WM_THIDE_HIDE, WM_THIDE_QUIT));
}

#[test]
fn message_ids_lie_in_the_private_range() {
    for event in [IPCMessage::Show, IPCMessage::Hide, IPCMessage::Quit] {
        assert!(WM_APP < event.id() && event.id() <= WM_APP_LAST);
    }
}

#[test]
fn event_ids_match_get_message_ids() {
    let (show, hide, quit) = get_message_ids();
    assert_eq!(IPCMessage::Show.id(), show);
    assert_eq!(IPCMessage::Hide.id(), hide);
    assert_eq!(IPCMessage::Quit.id(), quit);
}

#[test]
fn every_event_survives_the_trip_through_its_id() {
    for event in [IPCMessage::Show, IPCMessage::Hide, IPCMessage::Quit] {
        assert_eq!(IPCMessage::from_id(event.id()), Some(event));
    }
}

#[test]
fn other_ids_are_no_event() {
    for msg in [0u32, 1, 0x0010, 0x7FFF, 0x8000, 0x8004, 0xBFFF, 0xC000, u32::MAX] {
        assert_eq!(IPCMessage::from_id(msg), None);
    }
}

#[test]
fn window_class_name_is_fixed() {
    assert_eq!(get_ipc_window_class(), "THideIPCWindow");
}

#[test]
fn window_class_utf16_is_zero_terminated() {
    let expected: Vec<u16> = "THideIPCWindow\0".encode_utf16().collect();
    assert_eq!(get_ipc_window_class_utf16(), expected);
    assert_eq!(get_ipc_window_class_utf16().len(), 15);
    assert_eq!(get_ipc_window_class_utf16().last(), Some(&0u16));
}

#[test]
fn window_proc_forwards_show_and_hide() {
    assert_eq!(
        ipc_window_proc(WM_THIDE_SHOW),
        ProcDecision { event: Some(IPCMessage::Show), post_quit: false, pass_to_default: false }
    );
    assert_eq!(
        ipc_window_proc(WM_THIDE_HIDE),
        ProcDecision { event: Some(IPCMessage::Hide), post_quit: false, pass_to_default: false }
    );
}

#[test]
fn window_proc_ends_the_pump_on_quit() {
    assert_eq!(
        ipc_window_proc(WM_THIDE_QUIT),
        ProcDecision { event: Some(IPCMessage::Quit), post_quit: true, pass_to_default: false }
    );
}

#[test]
fn window_proc_passes_other_messages_on() {
    for msg in [0u32, 0x0002, 0x0012, 0x8000, 0x8004, u32::MAX] {
        assert_eq!(
            ipc_window_proc(msg),
            ProcDecision { event: None, post_quit: false, pass_to_default: true }
        );
    }
}
