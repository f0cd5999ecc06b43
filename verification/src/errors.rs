//! The error model: every failure the adapter can report, with the exact
//! message each one renders to.

use vstd::prelude::*;
use vstd::string::StringExecFns;
use crate::text::{dec_of_status, dec_of_u32, dec_str, status_str};

verus! {

/// A structured failure of the adapter.
///
/// - `Unavailable`: the shared library could not be resolved, or a required
///   entry point was missing; `reason` is the memoized resolution or binding
///   failure, repeated verbatim on every later attempt.
/// - `CreateFailed`: the engine's create entry point returned a null
///   instance.
/// - `Native`: an engine call answered with a negative status code;
///   `context` names the logical operation.
/// - `AttachFailed`: attaching the playback surface failed both as an
///   option and as a property; both status codes and the window id are kept
///   for diagnosis.
/// - `Encoding`: a caller-supplied string holds an embedded nul byte and
///   cannot cross the C boundary; no engine call was attempted.
#[derive(Debug)]
pub enum MpvError {
    Unavailable { reason: String },
    CreateFailed,
    Native { code: i32, context: String },
    AttachFailed { option_status: i32, property_status: i32, window_id: u32 },
    Encoding,
}

/// The message an `AttachFailed` error renders to.
pub open spec fn attach_failed_message(option_status: int, property_status: int, window_id: nat) -> Seq<
    char,
> {
    "Failed to set wid: option="@ + status_str(option_status) + ", property="@ + status_str(
        property_status,
    ) + ", hwnd="@ + dec_str(window_id)
}

impl MpvError {
    /// The human-readable message of this failure.
    pub open spec fn message_spec(self) -> Seq<char> {
        match self {
            MpvError::Unavailable { reason } => reason@,
            MpvError::CreateFailed => "mpv_create failed"@,
            MpvError::Native { code, context } => "mpv error "@ + status_str(code as int) + ": "@
                + context@,
            MpvError::AttachFailed { option_status, property_status, window_id } =>
                attach_failed_message(
                option_status as int,
                property_status as int,
                window_id as nat,
            ),
            MpvError::Encoding => "string contains an embedded nul byte"@,
        }
    }

    /// Renders the failure's message.
    pub fn message(&self) -> (r: String)
        ensures
            r@ == self.message_spec(),
    {
        match self {
            MpvError::Unavailable { reason } => reason.clone(),
            MpvError::CreateFailed => String::from_str("mpv_create failed"),
            MpvError::Native { code, context } => {
                let s = String::from_str("mpv error ");
                let s = s.concat(dec_of_status(*code).as_str());
                let s = s.concat(": ");
                s.concat(context.as_str())
            },
            MpvError::AttachFailed { option_status, property_status, window_id } => {
                let s = String::from_str("Failed to set wid: option=");
                let s = s.concat(dec_of_status(*option_status).as_str());
                let s = s.concat(", property=");
                let s = s.concat(dec_of_status(*property_status).as_str());
                let s = s.concat(", hwnd=");
                s.concat(dec_of_u32(*window_id).as_str())
            },
            MpvError::Encoding => String::from_str("string contains an embedded nul byte"),
        }
    }
}

/// Translates a native status code: non-negative codes succeed, negative
/// ones become a `Native` failure naming the operation in `context`.
pub fn check_err(code: i32, context: &str) -> (r: Result<(), MpvError>)
    ensures
        code >= 0 <==> r is Ok,
        code < 0 ==> (r matches Err(e) && e matches MpvError::Native { code: c, context: s }
            && c == code && s@ == context@),
{
    if code < 0 {
        Err(MpvError::Native { code, context: context.to_owned() })
    } else {
        Ok(())
    }
}

} // verus!
