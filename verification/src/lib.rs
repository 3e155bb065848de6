//! Ownership-safe bindings model for a native USB driver-installation
//! library.
//!
//! The native layer enumerates connected USB devices, prepares a driver
//! package for a selected device, installs that driver, and installs a
//! trusted signing certificate. This crate holds the safe side of that
//! boundary: the error taxonomy, the null-free strings handed across the
//! call boundary, the owned device list with its borrowed record views, and
//! the prepare-then-install pipeline whose sequencing the types enforce.
//! The native calls themselves are platform work performed by the host
//! application; each operation here takes the native outcome as a plain
//! value and is verified for every outcome the native layer can report.

mod device;
mod enums;
mod misc;
mod pipeline;
mod status;
mod strings;

pub use device::DeviceInfo;
pub use device::DevicesIter;
pub use device::DevicesList;
pub use device::yielded_at;
pub use device::lemma_iteration_repeatable;

pub use pipeline::CreateListOptions;
pub use pipeline::InstallCertOptions;
pub use pipeline::PrepareDriverOptions;
pub use pipeline::PreparedDriver;
pub use pipeline::PreparedDriverView;

pub use misc::DriverInfo;
pub use misc::get_vendor_name;
pub use misc::is_driver_supported;
pub use misc::is_file_embedded;
pub use misc::read_logger;

pub use enums::DriverType;
pub use enums::LogLevel;
pub use enums::driver_type_code;
pub use enums::log_level_code;
pub use enums::lemma_driver_type_code_injective;
pub use enums::lemma_log_level_code_injective;

pub use strings::NativeString;
pub use strings::has_nul;
pub use strings::opt_bytes;

pub use status::Error;
pub use status::check_error;
pub use status::recognized;
pub use status::status_error;
pub use status::lemma_recognized_code_has_named_kind;
pub use status::lemma_unrecognized_code_round_trips;
pub use status::WDI_SUCCESS;
pub use status::WDI_ERROR_IO;
pub use status::WDI_ERROR_INVALID_PARAM;
pub use status::WDI_ERROR_ACCESS;
pub use status::WDI_ERROR_NO_DEVICE;
pub use status::WDI_ERROR_NOT_FOUND;
pub use status::WDI_ERROR_BUSY;
pub use status::WDI_ERROR_TIMEOUT;
pub use status::WDI_ERROR_OVERFLOW;
pub use status::WDI_ERROR_PENDING_INSTALLATION;
pub use status::WDI_ERROR_INTERRUPTED;
pub use status::WDI_ERROR_RESOURCE;
pub use status::WDI_ERROR_NOT_SUPPORTED;
pub use status::WDI_ERROR_EXISTS;
pub use status::WDI_ERROR_USER_CANCEL;
pub use status::WDI_ERROR_NEEDS_ADMIN;
pub use status::WDI_ERROR_WOW64;
pub use status::WDI_ERROR_INF_SYNTAX;
pub use status::WDI_ERROR_CAT_MISSING;
pub use status::WDI_ERROR_UNSIGNED;
pub use status::WDI_ERROR_OTHER;
