//! Synthetic error texts: the human-readable phrase for each error code, the
//! text describing a native error in a named call, and the fixed texts of the
//! errors that the pipeline itself reports.

use vstd::prelude::*;

use crate::enums::{
    INVALID_ENUM, INVALID_FRAMEBUFFER_OPERATION, INVALID_OPERATION, INVALID_VALUE, NO_ERROR,
    OUT_OF_MEMORY,
};
use vstd::string::StringExecFns;

verus! {

/// The fixed human-readable phrase for a known error code, or "unknown
/// error" for anything unrecognized.
pub open spec fn error_phrase(error_code: u32) -> Seq<char> {
    if error_code == INVALID_ENUM {
        "invalid enum"@
    } else if error_code == INVALID_VALUE {
        "invalid value"@
    } else if error_code == INVALID_OPERATION {
        "invalid operation"@
    } else if error_code == INVALID_FRAMEBUFFER_OPERATION {
        "invalid framebuffer operation"@
    } else if error_code == OUT_OF_MEMORY {
        "out of memory"@
    } else if error_code == NO_ERROR {
        "no error"@
    } else {
        "unknown error"@
    }
}

/// The text of the message synthesized for an error observed in the named
/// call: the error's phrase, " in ", and the call name.
pub open spec fn error_text(error_code: u32, name: Seq<char>) -> Seq<char> {
    error_phrase(error_code) + " in "@ + name
}

/// Text of the error reported when insertion is asked for an unrecognized
/// severity.
pub open spec fn severity_invalid_text() -> Seq<char> {
    "invalid enum in glDebugMessageInsert: severity is invalid"@
}

/// Text of the error reported when insertion is asked for an unrecognized
/// type.
pub open spec fn type_invalid_text() -> Seq<char> {
    "invalid enum in glDebugMessageInsert: type is invalid"@
}

/// Text of the error reported when insertion is asked for an unrecognized
/// source.
pub open spec fn source_invalid_text() -> Seq<char> {
    "invalid enum in glDebugMessageInsert: source is invalid"@
}

/// Text of the error reported when a message exceeds the maximum length.
pub open spec fn message_too_long_text() -> Seq<char> {
    "invalid value in glDebugMessageInsert: message is too long"@
}

/// Text of the error reported when an application-facing insertion names a
/// source reserved for the implementation.
pub open spec fn user_source_restricted_text() -> Seq<char> {
    "invalid enum in glDebugMessageInsert: source has to be GL_DEBUG_SOURCE_APPLICATION or GL_DEBUG_SOURCE_THIRD_PARTY"@
}

/// Text of the error reported when an id-scoped control rule leaves source
/// or type as wildcards or pins a severity.
pub open spec fn control_shape_text() -> Seq<char> {
    "invalid operation in glDebugMessageControl: if an ID is specified, source and type have to be specified as well but severity has to be GL_DONT_CARE"@
}

/// Text of the error reported when the log is drained into a text buffer of
/// negative capacity.
pub open spec fn drain_bufsize_text() -> Seq<char> {
    "invalid value in glGetDebugMessageLog: bufsize < 0 and messageLog != NULL"@
}

/// Builds the text describing `error_code` observed in the call `name`: the
/// code's fixed phrase concatenated with " in " and the call name.
pub fn get_error_string(error_code: u32, name: &str) -> (r: String)
    ensures
        r@ == error_text(error_code, name@),
{
    let part = if error_code == INVALID_ENUM {
        "invalid enum"
    } else if error_code == INVALID_VALUE {
        "invalid value"
    } else if error_code == INVALID_OPERATION {
        "invalid operation"
    } else if error_code == INVALID_FRAMEBUFFER_OPERATION {
        "invalid framebuffer operation"
    } else if error_code == OUT_OF_MEMORY {
        "out of memory"
    } else if error_code == NO_ERROR {
        "no error"
    } else {
        "unknown error"
    };
    let mut r = String::from_str(part);
    r.append(" in ");
    r.append(name);
    r
}

} // verus!
