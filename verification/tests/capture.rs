use screen_recorder_picker::capture::{
    get_backend, list_monitors, list_windows, show_highlight, CaptureBackend, CaptureError,
    EnumerationError, LinuxBackend, MacOSBackend, MonitorEnumerator, WindowEnumerator,
};

#[test]
fn convenience_enumeration_swallows_failures_into_empty_lists() {
    assert!(list_windows().is_empty());
    assert!(list_monitors().is_empty());
}

#[test]
fn show_highlight_is_ignored_by_the_stub() {
    show_highlight(0, 0, 100, 100);
}

#[test]
fn linux_backend_stubs_report_not_implemented() {
    let backend = get_backend();
    match WindowEnumerator::list_windows(&backend) {
        Err(EnumerationError::NotImplemented(_)) => {},
        Ok(_) => panic!("stub must not enumerate windows"),
    }
    match MonitorEnumerator::list_monitors(&backend) {
        Err(EnumerationError::NotImplemented(_)) => {},
        Ok(_) => panic!("stub must not enumerate monitors"),
    }
    match CaptureBackend::start_window_capture(&backend, 1) {
        Err(CaptureError::NotImplemented(_)) => {},
        Ok(_) => panic!("stub must not capture"),
    }
    match CaptureBackend::start_display_capture(&backend, "mon-0".to_string(), 1920, 1080) {
        Err(CaptureError::NotImplemented(_)) => {},
        Ok(_) => panic!("stub must not capture"),
    }
}

#[test]
fn macos_backend_stubs_report_not_implemented() {
    let backend = MacOSBackend::new();
    match backend.list_windows() {
        Err(EnumerationError::NotImplemented(_)) => {},
        Ok(_) => panic!("stub must not enumerate windows"),
    }
    match backend.list_monitors() {
        Err(EnumerationError::NotImplemented(_)) => {},
        Ok(_) => panic!("stub must not enumerate monitors"),
    }
}

#[test]
fn backends_default_like_new() {
    let _linux: LinuxBackend = Default::default();
    let _macos: MacOSBackend = Default::default();
}
