use ogl::debug_output::{DebugReport, DebugSeverity, DebugSource, DebugType};
use ogl::gl_helper_functions::get_gl_string;
use ogl::input::{requests_close, Key, KeyAction};

#[test]
fn gl_string_stops_at_terminator() {
    assert_eq!(get_gl_string(b"4.6.0 NVIDIA\0garbage"), Some("4.6.0 NVIDIA\0".to_string()));
}

#[test]
fn gl_string_without_terminator() {
    assert_eq!(get_gl_string(b"3.3"), Some("3.3\0".to_string()));
    assert_eq!(get_gl_string(b""), Some("\0".to_string()));
}

#[test]
fn gl_string_rejects_invalid_utf8() {
    assert_eq!(get_gl_string(&[0x34, 0xff, 0x2e, 0]), None);
}

#[test]
fn high_severity_message_aborts() {
    let report = DebugReport::new(
        DebugSource::Api,
        DebugType::Error,
        DebugSeverity::High,
        b"GL_INVALID_ENUM".to_vec(),
    )
    .unwrap();
    assert!(report.abort);
    assert_eq!(report.keep_going, None);
    assert_eq!(report.source, Some("DEBUG_SOURCE_API"));
    assert_eq!(report.kind, Some("DEBUG_TYPE_ERROR"));
    assert_eq!(report.message, "GL_INVALID_ENUM");
}

#[test]
fn low_severity_message_goes_on() {
    let report = DebugReport::new(
        DebugSource::ShaderCompiler,
        DebugType::Performance,
        DebugSeverity::Low,
        b"slow".to_vec(),
    )
    .unwrap();
    assert!(!report.abort);
    assert_eq!(report.keep_going, Some("DEBUG_SEVERITY_LOW"));
    assert_eq!(report.source, Some("DEBUG_SOURCE_SHADER_COMPILER"));
    assert_eq!(report.kind, Some("DEBUG_TYPE_PERFORMANCE"));
}

#[test]
fn unknown_debug_values_have_no_names() {
    let report = DebugReport::new(
        DebugSource::Unknown,
        DebugType::Unknown,
        DebugSeverity::Unknown,
        Vec::new(),
    )
    .unwrap();
    assert!(!report.abort);
    assert_eq!(report.keep_going, None);
    assert_eq!(report.source, None);
    assert_eq!(report.kind, None);
    assert_eq!(report.message, "");
}

#[test]
fn debug_message_must_be_utf8() {
    assert_eq!(
        DebugReport::new(DebugSource::Api, DebugType::Other, DebugSeverity::Notification, vec![0xc3]),
        None
    );
}

#[test]
fn only_escape_press_closes() {
    assert!(requests_close(Key::Escape, KeyAction::Press));
    assert!(!requests_close(Key::Escape, KeyAction::Release));
    assert!(!requests_close(Key::Escape, KeyAction::Repeat));
    assert!(!requests_close(Key::Other, KeyAction::Press));
}
