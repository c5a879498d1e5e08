//! Enumerant constants of the underlying API and the validity predicates
//! classifying them (sources, types, severities, error codes).

use vstd::prelude::*;

verus! {

/// Wildcard enumerant: a rule field with this value matches anything.
pub const DONT_CARE: u32 = 0x1100;

/// Error code meaning that no error is pending.
pub const NO_ERROR: u32 = 0;

pub const INVALID_ENUM: u32 = 0x0500;

pub const INVALID_VALUE: u32 = 0x0501;

pub const INVALID_OPERATION: u32 = 0x0502;

pub const OUT_OF_MEMORY: u32 = 0x0505;

pub const INVALID_FRAMEBUFFER_OPERATION: u32 = 0x0506;

pub const DEBUG_SOURCE_API: u32 = 0x8246;

pub const DEBUG_SOURCE_WINDOW_SYSTEM: u32 = 0x8247;

pub const DEBUG_SOURCE_SHADER_COMPILER: u32 = 0x8248;

pub const DEBUG_SOURCE_THIRD_PARTY: u32 = 0x8249;

pub const DEBUG_SOURCE_APPLICATION: u32 = 0x824A;

pub const DEBUG_SOURCE_OTHER: u32 = 0x824B;

pub const DEBUG_TYPE_ERROR: u32 = 0x824C;

pub const DEBUG_TYPE_DEPRECATED_BEHAVIOR: u32 = 0x824D;

pub const DEBUG_TYPE_UNDEFINED_BEHAVIOR: u32 = 0x824E;

pub const DEBUG_TYPE_PORTABILITY: u32 = 0x824F;

pub const DEBUG_TYPE_PERFORMANCE: u32 = 0x8250;

pub const DEBUG_TYPE_OTHER: u32 = 0x8251;

pub const DEBUG_TYPE_MARKER: u32 = 0x8268;

pub const DEBUG_TYPE_PUSH_GROUP: u32 = 0x8269;

pub const DEBUG_TYPE_POP_GROUP: u32 = 0x826A;

pub const DEBUG_SEVERITY_HIGH: u32 = 0x9146;

pub const DEBUG_SEVERITY_MEDIUM: u32 = 0x9147;

pub const DEBUG_SEVERITY_LOW: u32 = 0x9148;

pub const DEBUG_SEVERITY_NOTIFICATION: u32 = 0x826B;

/// The recognized message severities.
pub open spec fn valid_severity(severity: u32) -> bool {
    ||| severity == DEBUG_SEVERITY_HIGH
    ||| severity == DEBUG_SEVERITY_MEDIUM
    ||| severity == DEBUG_SEVERITY_LOW
    ||| severity == DEBUG_SEVERITY_NOTIFICATION
}

/// The recognized message types.
pub open spec fn valid_type(ty: u32) -> bool {
    ||| ty == DEBUG_TYPE_ERROR
    ||| ty == DEBUG_TYPE_DEPRECATED_BEHAVIOR
    ||| ty == DEBUG_TYPE_UNDEFINED_BEHAVIOR
    ||| ty == DEBUG_TYPE_PERFORMANCE
    ||| ty == DEBUG_TYPE_PORTABILITY
    ||| ty == DEBUG_TYPE_OTHER
    ||| ty == DEBUG_TYPE_MARKER
    ||| ty == DEBUG_TYPE_PUSH_GROUP
    ||| ty == DEBUG_TYPE_POP_GROUP
}

/// The recognized message sources.
pub open spec fn valid_source(source: u32) -> bool {
    ||| source == DEBUG_SOURCE_API
    ||| source == DEBUG_SOURCE_SHADER_COMPILER
    ||| source == DEBUG_SOURCE_WINDOW_SYSTEM
    ||| source == DEBUG_SOURCE_THIRD_PARTY
    ||| source == DEBUG_SOURCE_APPLICATION
    ||| source == DEBUG_SOURCE_OTHER
}

/// True iff `severity` is one of the recognized severity enumerants.
pub fn is_valid_severity(severity: u32) -> (r: bool)
    ensures
        r == valid_severity(severity),
{
    severity == DEBUG_SEVERITY_HIGH || severity == DEBUG_SEVERITY_MEDIUM || severity
        == DEBUG_SEVERITY_LOW || severity == DEBUG_SEVERITY_NOTIFICATION
}

/// True iff `ty` is one of the recognized type enumerants.
pub fn is_valid_type(ty: u32) -> (r: bool)
    ensures
        r == valid_type(ty),
{
    ty == DEBUG_TYPE_ERROR || ty == DEBUG_TYPE_DEPRECATED_BEHAVIOR || ty
        == DEBUG_TYPE_UNDEFINED_BEHAVIOR || ty == DEBUG_TYPE_PERFORMANCE || ty
        == DEBUG_TYPE_PORTABILITY || ty == DEBUG_TYPE_OTHER || ty == DEBUG_TYPE_MARKER || ty
        == DEBUG_TYPE_PUSH_GROUP || ty == DEBUG_TYPE_POP_GROUP
}

/// True iff `source` is one of the recognized source enumerants.
pub fn is_valid_source(source: u32) -> (r: bool)
    ensures
        r == valid_source(source),
{
    source == DEBUG_SOURCE_API || source == DEBUG_SOURCE_SHADER_COMPILER || source
        == DEBUG_SOURCE_WINDOW_SYSTEM || source == DEBUG_SOURCE_THIRD_PARTY || source
        == DEBUG_SOURCE_APPLICATION || source == DEBUG_SOURCE_OTHER
}

} // verus!
