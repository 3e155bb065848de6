//! Status codes of the native driver-installation library and their
//! translation into the crate's error taxonomy.
//!
//! The native layer reports every outcome as a signed integer status. The
//! recognized failure codes form a closed set; everything outside that set is
//! preserved verbatim in the `Unexpected` kind so that no information is lost
//! when the native library and these bindings drift apart.

use vstd::prelude::*;

verus! {

/// The native status for a successful call.
pub const WDI_SUCCESS: i32 = 0;

/// Input/output error.
pub const WDI_ERROR_IO: i32 = -1;

/// Invalid parameter.
pub const WDI_ERROR_INVALID_PARAM: i32 = -2;

/// Access denied (insufficient permissions).
pub const WDI_ERROR_ACCESS: i32 = -3;

/// No such device (it may have been disconnected).
pub const WDI_ERROR_NO_DEVICE: i32 = -4;

/// Entity not found.
pub const WDI_ERROR_NOT_FOUND: i32 = -5;

/// Resource busy, or API call already running.
pub const WDI_ERROR_BUSY: i32 = -6;

/// Operation timed out.
pub const WDI_ERROR_TIMEOUT: i32 = -7;

/// Overflow.
pub const WDI_ERROR_OVERFLOW: i32 = -8;

/// Another installation is pending.
pub const WDI_ERROR_PENDING_INSTALLATION: i32 = -9;

/// System call interrupted (perhaps due to a signal).
pub const WDI_ERROR_INTERRUPTED: i32 = -10;

/// Could not acquire a resource (insufficient memory, and the like).
pub const WDI_ERROR_RESOURCE: i32 = -11;

/// Operation not supported or unimplemented on this platform.
pub const WDI_ERROR_NOT_SUPPORTED: i32 = -12;

/// Entity already exists.
pub const WDI_ERROR_EXISTS: i32 = -13;

/// Cancelled by the user.
pub const WDI_ERROR_USER_CANCEL: i32 = -14;

/// The installer could not be run with the required privileges.
pub const WDI_ERROR_NEEDS_ADMIN: i32 = -15;

/// Attempted to run the 32 bit installer on 64 bit.
pub const WDI_ERROR_WOW64: i32 = -16;

/// Bad INF syntax.
pub const WDI_ERROR_INF_SYNTAX: i32 = -17;

/// Missing catalog file.
pub const WDI_ERROR_CAT_MISSING: i32 = -18;

/// System policy prevents the installation of unsigned drivers.
pub const WDI_ERROR_UNSIGNED: i32 = -19;

/// Any other error.
pub const WDI_ERROR_OTHER: i32 = -99;

/// Every way an operation of this crate can fail.
///
/// The first twenty kinds correspond one to one to the recognized native
/// failure codes. `Unexpected` carries a native status outside the recognized
/// set. `Internal` marks a broken contract between the native layer and these
/// bindings. `Utf8` and `Nul` are local string-conversion failures: a native
/// string that is not valid UTF-8 on the way out, and an embedded null byte in
/// an input string on the way in.
#[derive(Debug, Clone, Copy, PartialEq, Eq, Structural)]
pub enum Error {
    Io,
    InvalidParam,
    Access,
    NoDevice,
    NotFound,
    Busy,
    Timeout,
    Overflow,
    PendingInstallation,
    Interrupted,
    Resource,
    NotSupported,
    Exists,
    UserCancel,
    NeedsAdmin,
    WOW64,
    InfSyntax,
    CatMissing,
    Unsigned,
    Other,
    Unexpected(i32),
    Internal,
    Utf8,
    Nul,
}

/// Whether `code` is one of the recognized native failure codes.
pub open spec fn recognized(code: i32) -> bool {
    ||| code == WDI_ERROR_IO
    ||| code == WDI_ERROR_INVALID_PARAM
    ||| code == WDI_ERROR_ACCESS
    ||| code == WDI_ERROR_NO_DEVICE
    ||| code == WDI_ERROR_NOT_FOUND
    ||| code == WDI_ERROR_BUSY
    ||| code == WDI_ERROR_TIMEOUT
    ||| code == WDI_ERROR_OVERFLOW
    ||| code == WDI_ERROR_PENDING_INSTALLATION
    ||| code == WDI_ERROR_INTERRUPTED
    ||| code == WDI_ERROR_RESOURCE
    ||| code == WDI_ERROR_NOT_SUPPORTED
    ||| code == WDI_ERROR_EXISTS
    ||| code == WDI_ERROR_USER_CANCEL
    ||| code == WDI_ERROR_NEEDS_ADMIN
    ||| code == WDI_ERROR_WOW64
    ||| code == WDI_ERROR_INF_SYNTAX
    ||| code == WDI_ERROR_CAT_MISSING
    ||| code == WDI_ERROR_UNSIGNED
    ||| code == WDI_ERROR_OTHER
}

/// The error kind designated for a native failure code.
pub open spec fn status_error(code: i32) -> Error
    recommends
        code != WDI_SUCCESS,
{
    if code == WDI_ERROR_IO {
        Error::Io
    } else if code == WDI_ERROR_INVALID_PARAM {
        Error::InvalidParam
    } else if code == WDI_ERROR_ACCESS {
        Error::Access
    } else if code == WDI_ERROR_NO_DEVICE {
        Error::NoDevice
    } else if code == WDI_ERROR_NOT_FOUND {
        Error::NotFound
    } else if code == WDI_ERROR_BUSY {
        Error::Busy
    } else if code == WDI_ERROR_TIMEOUT {
        Error::Timeout
    } else if code == WDI_ERROR_OVERFLOW {
        Error::Overflow
    } else if code == WDI_ERROR_PENDING_INSTALLATION {
        Error::PendingInstallation
    } else if code == WDI_ERROR_INTERRUPTED {
        Error::Interrupted
    } else if code == WDI_ERROR_RESOURCE {
        Error::Resource
    } else if code == WDI_ERROR_NOT_SUPPORTED {
        Error::NotSupported
    } else if code == WDI_ERROR_EXISTS {
        Error::Exists
    } else if code == WDI_ERROR_USER_CANCEL {
        Error::UserCancel
    } else if code == WDI_ERROR_NEEDS_ADMIN {
        Error::NeedsAdmin
    } else if code == WDI_ERROR_WOW64 {
        Error::WOW64
    } else if code == WDI_ERROR_INF_SYNTAX {
        Error::InfSyntax
    } else if code == WDI_ERROR_CAT_MISSING {
        Error::CatMissing
    } else if code == WDI_ERROR_UNSIGNED {
        Error::Unsigned
    } else if code == WDI_ERROR_OTHER {
        Error::Other
    } else {
        Error::Unexpected(code)
    }
}

/// Translates a native status code into this crate's result convention:
/// success becomes `Ok`, every failure code becomes its designated kind.
pub fn check_error(code: i32) -> (r: Result<(), Error>)
    ensures
        r is Ok <==> code == WDI_SUCCESS,
        code != WDI_SUCCESS ==> r == Result::<(), Error>::Err(status_error(code)),
{
    if code == WDI_SUCCESS {
        Ok(())
    } else if code == WDI_ERROR_IO {
        Err(Error::Io)
    } else if code == WDI_ERROR_INVALID_PARAM {
        Err(Error::InvalidParam)
    } else if code == WDI_ERROR_ACCESS {
        Err(Error::Access)
    } else if code == WDI_ERROR_NO_DEVICE {
        Err(Error::NoDevice)
    } else if code == WDI_ERROR_NOT_FOUND {
        Err(Error::NotFound)
    } else if code == WDI_ERROR_BUSY {
        Err(Error::Busy)
    } else if code == WDI_ERROR_TIMEOUT {
        Err(Error::Timeout)
    } else if code == WDI_ERROR_OVERFLOW {
        Err(Error::Overflow)
    } else if code == WDI_ERROR_PENDING_INSTALLATION {
        Err(Error::PendingInstallation)
    } else if code == WDI_ERROR_INTERRUPTED {
        Err(Error::Interrupted)
    } else if code == WDI_ERROR_RESOURCE {
        Err(Error::Resource)
    } else if code == WDI_ERROR_NOT_SUPPORTED {
        Err(Error::NotSupported)
    } else if code == WDI_ERROR_EXISTS {
        Err(Error::Exists)
    } else if code == WDI_ERROR_USER_CANCEL {
        Err(Error::UserCancel)
    } else if code == WDI_ERROR_NEEDS_ADMIN {
        Err(Error::NeedsAdmin)
    } else if code == WDI_ERROR_WOW64 {
        Err(Error::WOW64)
    } else if code == WDI_ERROR_INF_SYNTAX {
        Err(Error::InfSyntax)
    } else if code == WDI_ERROR_CAT_MISSING {
        Err(Error::CatMissing)
    } else if code == WDI_ERROR_UNSIGNED {
        Err(Error::Unsigned)
    } else if code == WDI_ERROR_OTHER {
        Err(Error::Other)
    } else {
        Err(Error::Unexpected(code))
    }
}

/// The designated error kind of a failure status, as an executable value.
pub(crate) fn error_of_status(code: i32) -> (r: Error)
    requires
        code != WDI_SUCCESS,
    ensures
        r == status_error(code),
{
    match check_error(code) {
        Ok(_) => Error::Internal,
        Err(e) => e,
    }
}

/// Law: the translation is total and deterministic over the recognized set,
/// and a recognized failure code never lands on one of the local kinds —
/// neither `Unexpected` nor `Internal`, nor a string-conversion kind.
pub proof fn lemma_recognized_code_has_named_kind(code: i32)
    requires
        recognized(code),
    ensures
        !(status_error(code) is Unexpected),
        status_error(code) != Error::Internal,
        status_error(code) != Error::Utf8,
        status_error(code) != Error::Nul,
{
}

/// Law: a failure code outside the recognized set maps to the `Unexpected`
/// kind, and the payload preserves the exact code value.
pub proof fn lemma_unrecognized_code_round_trips(code: i32)
    requires
        code != WDI_SUCCESS,
        !recognized(code),
    ensures
        status_error(code) == Error::Unexpected(code),
{
}

} // verus!
