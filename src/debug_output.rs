use vstd::prelude::*;
use vstd::utf8::{decode_utf8, valid_utf8};

use crate::gl_helper_functions::string_from_utf8;

verus! {

/// Where a driver debug message comes from.
#[derive(Clone, Copy, Debug, PartialEq, Eq, Structural)]
pub enum DebugSource {
    Api,
    WindowSystem,
    ShaderCompiler,
    ThirdParty,
    Application,
    Other,
    /// A value the driver documents no source for.
    Unknown,
}

/// What a driver debug message is about.
#[derive(Clone, Copy, Debug, PartialEq, Eq, Structural)]
pub enum DebugType {
    Error,
    DeprecatedBehavior,
    UndefinedBehavior,
    Portability,
    Performance,
    Marker,
    PushGroup,
    PopGroup,
    Other,
    /// A value the driver documents no type for.
    Unknown,
}

/// How serious a driver debug message is.
#[derive(Clone, Copy, Debug, PartialEq, Eq, Structural)]
pub enum DebugSeverity {
    High,
    Medium,
    Low,
    Notification,
    /// A value the driver documents no severity for.
    Unknown,
}

/// The name of a message source, for the known ones.
pub open spec fn spec_source_name(source: DebugSource) -> Option<&'static str> {
    match source {
        DebugSource::Api => Some("DEBUG_SOURCE_API"),
        DebugSource::WindowSystem => Some("DEBUG_SOURCE_WINDOW_SYSTEM"),
        DebugSource::ShaderCompiler => Some("DEBUG_SOURCE_SHADER_COMPILER"),
        DebugSource::ThirdParty => Some("DEBUG_SOURCE_THIRD_PARTY"),
        DebugSource::Application => Some("DEBUG_SOURCE_APPLICATION"),
        DebugSource::Other => Some("DEBUG_SOURCE_OTHER"),
        DebugSource::Unknown => None,
    }
}

/// The name of a message type, for the known ones.
pub open spec fn spec_kind_name(kind: DebugType) -> Option<&'static str> {
    match kind {
        DebugType::Error => Some("DEBUG_TYPE_ERROR"),
        DebugType::DeprecatedBehavior => Some("DEBUG_TYPE_DEPRECATED_BEHAVIOR"),
        DebugType::UndefinedBehavior => Some("DEBUG_TYPE_UNDEFINED_BEHAVIOR"),
        DebugType::Portability => Some("DEBUG_TYPE_PORTABILITY"),
        DebugType::Performance => Some("DEBUG_TYPE_PERFORMANCE"),
        DebugType::Marker => Some("DEBUG_TYPE_MARKER"),
        DebugType::PushGroup => Some("DEBUG_TYPE_PUSH_GROUP"),
        DebugType::PopGroup => Some("DEBUG_TYPE_POP_GROUP"),
        DebugType::Other => Some("DEBUG_TYPE_OTHER"),
        DebugType::Unknown => None,
    }
}

/// The name of a severity that lets the program go on; `None` for a high
/// severity, which stops it, and for an unknown one.
pub open spec fn spec_keep_going_name(severity: DebugSeverity) -> Option<&'static str> {
    match severity {
        DebugSeverity::Medium => Some("DEBUG_SEVERITY_MEDIUM"),
        DebugSeverity::Low => Some("DEBUG_SEVERITY_LOW"),
        DebugSeverity::Notification => Some("DEBUG_SEVERITY_NOTIFICATION"),
        _ => None,
    }
}

/// What to print about a driver debug message, and whether to stop.
#[derive(Clone, Debug, PartialEq, Eq)]
pub struct DebugReport {
    /// The severity, when the program may go on after the message.
    pub keep_going: Option<&'static str>,
    /// The source, when it is a known one.
    pub source: Option<&'static str>,
    /// The type, when it is a known one.
    pub kind: Option<&'static str>,
    /// The driver's message.
    pub message: String,
    /// Whether the program must stop: exactly for a high severity.
    pub abort: bool,
}

fn source_name(source: DebugSource) -> (r: Option<&'static str>)
    ensures
        r == spec_source_name(source),
{
    match source {
        DebugSource::Api => Some("DEBUG_SOURCE_API"),
        DebugSource::WindowSystem => Some("DEBUG_SOURCE_WINDOW_SYSTEM"),
        DebugSource::ShaderCompiler => Some("DEBUG_SOURCE_SHADER_COMPILER"),
        DebugSource::ThirdParty => Some("DEBUG_SOURCE_THIRD_PARTY"),
        DebugSource::Application => Some("DEBUG_SOURCE_APPLICATION"),
        DebugSource::Other => Some("DEBUG_SOURCE_OTHER"),
        DebugSource::Unknown => None,
    }
}

fn kind_name(kind: DebugType) -> (r: Option<&'static str>)
    ensures
        r == spec_kind_name(kind),
{
    match kind {
        DebugType::Error => Some("DEBUG_TYPE_ERROR"),
        DebugType::DeprecatedBehavior => Some("DEBUG_TYPE_DEPRECATED_BEHAVIOR"),
        DebugType::UndefinedBehavior => Some("DEBUG_TYPE_UNDEFINED_BEHAVIOR"),
        DebugType::Portability => Some("DEBUG_TYPE_PORTABILITY"),
        DebugType::Performance => Some("DEBUG_TYPE_PERFORMANCE"),
        DebugType::Marker => Some("DEBUG_TYPE_MARKER"),
        DebugType::PushGroup => Some("DEBUG_TYPE_PUSH_GROUP"),
        DebugType::PopGroup => Some("DEBUG_TYPE_POP_GROUP"),
        DebugType::Other => Some("DEBUG_TYPE_OTHER"),
        DebugType::Unknown => None,
    }
}

fn keep_going_name(severity: DebugSeverity) -> (r: Option<&'static str>)
    ensures
        r == spec_keep_going_name(severity),
{
    match severity {
        DebugSeverity::Medium => Some("DEBUG_SEVERITY_MEDIUM"),
        DebugSeverity::Low => Some("DEBUG_SEVERITY_LOW"),
        DebugSeverity::Notification => Some("DEBUG_SEVERITY_NOTIFICATION"),
        _ => None,
    }
}

impl DebugReport {
    /// Describes a debug message of the driver whose text is `message`.
    /// `None` when the text is not valid UTF-8.
    pub fn new(source: DebugSource, kind: DebugType, severity: DebugSeverity, message: Vec<u8>) -> (r:
        Option<DebugReport>)
        ensures
            r is Some <==> valid_utf8(message@),
            r matches Some(report) ==> {
                &&& report.keep_going == spec_keep_going_name(severity)
                &&& report.source == spec_source_name(source)
                &&& report.kind == spec_kind_name(kind)
                &&& report.message@ == decode_utf8(message@)
                &&& report.abort == (severity == DebugSeverity::High)
            },
    {
        match string_from_utf8(message) {
            Some(text) => Some(
                DebugReport {
                    keep_going: keep_going_name(severity),
                    source: source_name(source),
                    kind: kind_name(kind),
                    message: text,
                    abort: severity == DebugSeverity::High,
                },
            ),
            None => None,
        }
    }
}

} // verus!
