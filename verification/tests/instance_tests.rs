use thide::instance::{check_single_instance, get_singleton_strings, InstanceCheck};

#[test]
fn new_mutex_means_acquired() {
    let check = check_single_instance(true, false);
    assert_eq!(check, InstanceCheck::Acquired);
    assert!(check.may_start());
    assert!(!check.warns());
}

#[test]
fn existing_mutex_means_already_running_with_warning() {
    let check = check_single_instance(true, true);
    assert_eq!(check, InstanceCheck::AlreadyRunning);
    assert!(!check.may_start());
    assert!(check.warns());
}

#[test]
fn failed_creation_means_no_start_and_no_warning() {
    for already_exists in [false, true] {
        let check = check_single_instance(false, already_exists);
        assert_eq!(check, InstanceCheck::Failed);
        assert!(!check.may_start());
        assert!(!check.warns());
    }
}

#[test]
fn singleton_strings_are_zero_terminated_utf16() {
    let (mutex_name, title, message) = get_singleton_strings();
    let expected_name: Vec<u16> = "Global\\TaskbarHideApp_SingleInstance\0".encode_utf16().collect();
    let expected_title: Vec<u16> = "Taskbar Hide\0".encode_utf16().collect();
    let expected_message: Vec<u16> = "Application is already running!\0".encode_utf16().collect();
    assert_eq!(mutex_name, expected_name);
    assert_eq!(title, expected_title);
    assert_eq!(message, expected_message);
}
