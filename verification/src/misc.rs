//! Standalone queries of the native layer, independent of the
//! list/prepare/install pipeline.
//!
//! As everywhere in this crate, the native call itself is made by the host
//! application; each function here validates what crosses the boundary and
//! decides the outcome for every value the native layer can report.

use vstd::prelude::*;
use vstd::string::StringSliceAdditionalSpecFns;

use crate::status::Error;
use crate::status::WDI_SUCCESS;
use crate::status::status_error;
use crate::strings::NativeString;
use crate::strings::has_nul;

verus! {

/// Fixed version information of a driver the native layer embeds, decoded
/// from the native version-information block.
#[derive(Debug, Clone, Copy, PartialEq, Eq, Structural)]
pub struct DriverInfo {
    /// Magic signature of the block.
    pub signature: u32,
    /// Version of the block structure itself.
    pub struc_version: u32,
    /// High half of the file version.
    pub file_version_ms: u32,
    /// Low half of the file version.
    pub file_version_ls: u32,
    /// High half of the product version.
    pub product_version_ms: u32,
    /// Low half of the product version.
    pub product_version_ls: u32,
    /// Which bits of `file_flags` are valid.
    pub file_flags_mask: u32,
    /// File flags.
    pub file_flags: u32,
    /// Operating system the file was designed for.
    pub file_os: u32,
    /// General type of the file.
    pub file_type: u32,
    /// Function of the file within its type.
    pub file_subtype: u32,
    /// High half of the file timestamp.
    pub file_date_ms: u32,
    /// Low half of the file timestamp.
    pub file_date_ls: u32,
}

/// Surfaces the native vendor-name lookup: `raw` is the decoded string the
/// native table returned, or nothing where it had no entry for the vendor ID.
///
/// An unknown vendor ID is a valid outcome, surfaced as absence, never as an
/// error.
pub fn get_vendor_name(raw: Option<String>) -> (r: Option<String>)
    ensures
        r is Some <==> raw is Some,
        r == raw,
{
    raw
}

/// Surfaces the native driver-support query: `supported` is what the call
/// returned, and `info` the version block it filled — zeroed where the
/// native layer does not version that driver type.
///
/// Returns the version block exactly when the driver type is supported.
pub fn is_driver_supported(supported: bool, info: DriverInfo) -> (r: Option<DriverInfo>)
    ensures
        r is Some <==> supported,
        r matches Some(i) ==> i == info,
{
    if supported {
        Some(info)
    } else {
        None
    }
}

/// Decides the outcome of the native embedded-file query for an optional
/// path and a file name; `raw` is the answer the call returned.
///
/// Both strings are converted to owned null-free strings first; an embedded
/// null byte in either fails with [`Error::Nul`] before anything crosses the
/// boundary.
pub fn is_file_embedded(path: Option<&str>, name: &str, raw: bool) -> (r: Result<bool, Error>)
    ensures
        r is Ok <==> (path matches Some(p) ==> !has_nul(p.spec_bytes())) && !has_nul(
            name.spec_bytes(),
        ),
        r matches Ok(b) ==> b == raw,
        r is Err ==> r == Result::<bool, Error>::Err(Error::Nul),
{
    let _path = match path {
        Some(p) => match NativeString::new(p) {
            Ok(ns) => Some(ns),
            Err(e) => {
                return Err(e);
            },
        },
        None => None,
    };
    let _name = match NativeString::new(name) {
        Ok(ns) => ns,
        Err(e) => {
            return Err(e);
        },
    };
    Ok(raw)
}

/// Decides the outcome of one native read from the log buffer: `status` is
/// what the call returned and `size` the byte count it reported written.
pub fn read_logger(status: i32, size: u32) -> (r: Result<usize, Error>)
    ensures
        r is Ok <==> status == WDI_SUCCESS,
        r matches Ok(n) ==> n == size as usize,
        status != WDI_SUCCESS ==> r == Result::<usize, Error>::Err(status_error(status)),
{
    match crate::status::check_error(status) {
        Ok(_) => Ok(size as usize),
        Err(e) => Err(e),
    }
}

} // verus!
