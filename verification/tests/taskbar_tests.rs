use thide::taskbar::{
    find_all_explorer_taskbars_uncached, ScanQuery, ScanStage, ShellWindow, TaskbarClass,
    TaskbarScan, Utf16StringCache, WindowHandle,
};

fn handle(raw: isize) -> WindowHandle {
    WindowHandle { raw }
}

fn window(raw: isize, process_name: Option<&str>) -> ShellWindow {
    ShellWindow { handle: handle(raw), process_name: process_name.map(|name| name.to_string()) }
}

#[test]
fn null_handle_is_zero() {
    assert_eq!(WindowHandle::null(), handle(0));
    assert!(WindowHandle::null().is_null());
    assert!(!handle(0x1234).is_null());
    assert!(!handle(-1).is_null());
}

#[test]
fn string_cache_holds_class_names_as_wide_strings() {
    let names = Utf16StringCache::new();
    let primary: Vec<u16> = "Shell_TrayWnd\0".encode_utf16().collect();
    let secondary: Vec<u16> = "Shell_SecondaryTrayWnd\0".encode_utf16().collect();
    assert_eq!(names.class_name(TaskbarClass::Primary), &primary);
    assert_eq!(names.class_name(TaskbarClass::Secondary), &secondary);
}

#[test]
fn shell_process_name_is_matched_without_regard_to_ascii_case() {
    let names = Utf16StringCache::new();
    assert!(names.is_shell_process("explorer.exe"));
    assert!(names.is_shell_process("Explorer.EXE"));
    assert!(names.is_shell_process("EXPLORER.EXE"));
    assert!(!names.is_shell_process("explorer"));
    assert!(!names.is_shell_process("explorer.exe "));
    assert!(!names.is_shell_process("iexplorer.exe"));
    assert!(!names.is_shell_process(""));
}

#[test]
fn window_with_unknown_owner_is_not_the_shells() {
    let names = Utf16StringCache::new();
    assert!(!window(1, None).owned_by_shell(&names));
    assert!(window(1, Some("explorer.EXE")).owned_by_shell(&names));
    assert!(!window(1, Some("notepad.exe")).owned_by_shell(&names));
}

#[test]
fn no_windows_no_taskbars() {
    assert_eq!(find_all_explorer_taskbars_uncached(&vec![], &vec![]), Vec::<WindowHandle>::new());
}

#[test]
fn primary_taskbar_of_the_shell_is_found() {
    let primary = vec![window(10, Some("explorer.exe"))];
    assert_eq!(find_all_explorer_taskbars_uncached(&primary, &vec![]), vec![handle(10)]);
}

#[test]
fn only_the_first_shell_owned_primary_window_counts() {
    let primary = vec![
        window(1, Some("fake.exe")),
        window(2, None),
        window(3, Some("Explorer.exe")),
        window(4, Some("explorer.exe")),
    ];
    assert_eq!(find_all_explorer_taskbars_uncached(&primary, &vec![]), vec![handle(3)]);
}

#[test]
fn every_shell_owned_secondary_window_counts() {
    let secondary = vec![
        window(21, Some("explorer.exe")),
        window(22, Some("other.exe")),
        window(23, None),
        window(24, Some("EXPLORER.EXE")),
    ];
    assert_eq!(
        find_all_explorer_taskbars_uncached(&vec![], &secondary),
        vec![handle(21), handle(24)]
    );
}

#[test]
fn primary_comes_before_secondaries() {
    let primary = vec![window(7, Some("x.exe")), window(8, Some("explorer.exe"))];
    let secondary = vec![window(5, Some("explorer.exe")), window(6, Some("explorer.exe"))];
    assert_eq!(
        find_all_explorer_taskbars_uncached(&primary, &secondary),
        vec![handle(8), handle(5), handle(6)]
    );
}

#[test]
fn windows_of_other_processes_are_skipped_without_error() {
    let primary = vec![window(1, Some("a.exe")), window(2, None)];
    let secondary = vec![window(3, Some("b.exe"))];
    assert_eq!(find_all_explorer_taskbars_uncached(&primary, &secondary), Vec::<WindowHandle>::new());
}

#[test]
fn scan_starts_with_the_first_primary_window() {
    let scan = TaskbarScan::new();
    assert_eq!(scan.stage(), ScanStage::Primary);
    assert_eq!(
        scan.pending(),
        Some(ScanQuery { class: TaskbarClass::Primary, after: WindowHandle::null() })
    );
}

#[test]
fn scan_continues_after_a_foreign_primary_window() {
    let names = Utf16StringCache::new();
    let mut scan = TaskbarScan::new();
    scan.record(&names, Some(&window(11, Some("other.exe"))));
    assert_eq!(
        scan.pending(),
        Some(ScanQuery { class: TaskbarClass::Primary, after: handle(11) })
    );
    scan.record(&names, Some(&window(12, None)));
    assert_eq!(
        scan.pending(),
        Some(ScanQuery { class: TaskbarClass::Primary, after: handle(12) })
    );
}

#[test]
fn scan_leaves_the_primary_class_at_the_first_match() {
    let names = Utf16StringCache::new();
    let mut scan = TaskbarScan::new();
    scan.record(&names, Some(&window(11, Some("explorer.exe"))));
    assert_eq!(
        scan.pending(),
        Some(ScanQuery { class: TaskbarClass::Secondary, after: WindowHandle::null() })
    );
    assert_eq!(scan.into_taskbars(), vec![handle(11)]);
}

#[test]
fn scan_leaves_the_primary_class_at_its_end() {
    let names = Utf16StringCache::new();
    let mut scan = TaskbarScan::new();
    scan.record(&names, Some(&window(11, Some("x.exe"))));
    scan.record(&names, None);
    assert_eq!(
        scan.pending(),
        Some(ScanQuery { class: TaskbarClass::Secondary, after: WindowHandle::null() })
    );
    assert_eq!(scan.into_taskbars(), Vec::<WindowHandle>::new());
}

#[test]
fn scan_walks_the_secondary_class_to_its_end() {
    let names = Utf16StringCache::new();
    let mut scan = TaskbarScan::new();
    scan.record(&names, None);
    scan.record(&names, Some(&window(31, Some("explorer.exe"))));
    assert_eq!(
        scan.pending(),
        Some(ScanQuery { class: TaskbarClass::Secondary, after: handle(31) })
    );
    scan.record(&names, Some(&window(32, Some("x.exe"))));
    assert_eq!(
        scan.pending(),
        Some(ScanQuery { class: TaskbarClass::Secondary, after: handle(32) })
    );
    scan.record(&names, Some(&window(33, Some("explorer.exe"))));
    scan.record(&names, None);
    assert_eq!(scan.pending(), None);
    assert_eq!(scan.stage(), ScanStage::Done);
    assert_eq!(scan.into_taskbars(), vec![handle(31), handle(33)]);
}

#[test]
fn finished_scan_ignores_further_answers() {
    let names = Utf16StringCache::new();
    let mut scan = TaskbarScan::new();
    scan.record(&names, None);
    scan.record(&names, None);
    assert_eq!(scan.pending(), None);
    scan.record(&names, Some(&window(41, Some("explorer.exe"))));
    assert_eq!(scan.pending(), None);
    assert_eq!(scan.into_taskbars(), Vec::<WindowHandle>::new());
}

#[test]
fn stepwise_scan_agrees_with_the_batch_function() {
    let names = Utf16StringCache::new();
    let primary = vec![window(1, None), window(2, Some("explorer.exe")), window(3, Some("explorer.exe"))];
    let secondary = vec![window(4, Some("a.exe")), window(5, Some("Explorer.Exe"))];
    let mut scan = TaskbarScan::new();
    let mut lookups = 0;
    while let Some(query) = scan.pending() {
        let list = match query.class {
            TaskbarClass::Primary => &primary,
            TaskbarClass::Secondary => &secondary,
        };
        let next = if query.after.is_null() {
            0
        } else {
            list.iter().position(|w| w.handle == query.after).unwrap() + 1
        };
        scan.record(&names, list.get(next));
        lookups += 1;
    }
    // two primary lookups (the scan stops at the match), two secondary windows and the end
    assert_eq!(lookups, 5);
    assert_eq!(scan.into_taskbars(), find_all_explorer_taskbars_uncached(&primary, &secondary));
}
