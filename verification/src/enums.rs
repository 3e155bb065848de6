//! Closed enumerations handed to the native layer, with their encodings into
//! the integer constants the native calls expect.

use vstd::prelude::*;

verus! {

/// Type of driver to install.
#[derive(Debug, Clone, Copy, PartialEq, Eq, Structural)]
pub enum DriverType {
    WinUsb,
    LibUsb0,
    LibUsbK,
    Cdc,
    User,
}

/// The native constant that stands for a driver type.
pub open spec fn driver_type_code(t: DriverType) -> i32 {
    match t {
        DriverType::WinUsb => 0,
        DriverType::LibUsb0 => 1,
        DriverType::LibUsbK => 2,
        DriverType::Cdc => 3,
        DriverType::User => 4,
    }
}

impl DriverType {
    /// Encodes the driver type for a native call.
    pub fn to_ffi(self) -> (r: i32)
        ensures
            r == driver_type_code(self),
    {
        match self {
            DriverType::WinUsb => 0,
            DriverType::LibUsb0 => 1,
            DriverType::LibUsbK => 2,
            DriverType::Cdc => 3,
            DriverType::User => 4,
        }
    }
}

/// Law: no two driver types share a native constant, so the encoding loses
/// nothing.
pub proof fn lemma_driver_type_code_injective(a: DriverType, b: DriverType)
    requires
        driver_type_code(a) == driver_type_code(b),
    ensures
        a == b,
{
}

/// Verbosity of the native layer's logging.
#[derive(Debug, Clone, Copy, PartialEq, Eq, Structural)]
pub enum LogLevel {
    Debug,
    Info,
    Warning,
    Error,
    Off,
}

/// The native constant that stands for a log level.
pub open spec fn log_level_code(l: LogLevel) -> i32 {
    match l {
        LogLevel::Debug => 0,
        LogLevel::Info => 1,
        LogLevel::Warning => 2,
        LogLevel::Error => 3,
        LogLevel::Off => 4,
    }
}

impl LogLevel {
    /// Encodes the log level for a native call.
    pub fn to_ffi(self) -> (r: i32)
        ensures
            r == log_level_code(self),
    {
        match self {
            LogLevel::Debug => 0,
            LogLevel::Info => 1,
            LogLevel::Warning => 2,
            LogLevel::Error => 3,
            LogLevel::Off => 4,
        }
    }
}

/// Law: no two log levels share a native constant.
pub proof fn lemma_log_level_code_injective(a: LogLevel, b: LogLevel)
    requires
        log_level_code(a) == log_level_code(b),
    ensures
        a == b,
{
}

} // verus!
