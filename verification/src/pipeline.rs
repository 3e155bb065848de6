//! Option builders and the prepare-then-install pipeline.
//!
//! Each builder accumulates the flags and strings of one native parameter
//! block. The native calls themselves are made by the host application, which
//! hands the resulting status code back in; each pipeline step here validates
//! what crosses the boundary, decides the outcome for every status the native
//! layer can report, and sequences the steps through its result types: a
//! [`PreparedDriver`] exists only after a successful preparation, and only a
//! [`PreparedDriver`] can drive the install step.

use vstd::prelude::*;
use vstd::string::StringSliceAdditionalSpecFns;

use crate::device::DeviceInfo;
use crate::device::DevicesList;
use crate::enums::DriverType;
use crate::status::Error;
use crate::status::WDI_SUCCESS;
use crate::status::WDI_ERROR_NEEDS_ADMIN;
use crate::status::status_error;
use crate::strings::NativeString;
use crate::strings::opt_bytes;
use crate::strings::has_nul;

verus! {

/// Options of the native enumeration call.
#[derive(Debug, Clone, Copy)]
pub struct CreateListOptions {
    /// List every device, not only those without a driver.
    pub list_all: bool,
    /// Include USB hubs in the list.
    pub list_hubs: bool,
    /// Trim whitespace off the device descriptions.
    pub trim_whitespaces: bool,
}

impl CreateListOptions {
    /// Fresh options with every flag cleared.
    pub fn new() -> (r: Self)
        ensures
            !r.list_all,
            !r.list_hubs,
            !r.trim_whitespaces,
    {
        CreateListOptions { list_all: false, list_hubs: false, trim_whitespaces: false }
    }

    /// Sets whether every device is listed.
    pub fn list_all(self, enabled: bool) -> (r: Self)
        ensures
            r.list_all == enabled,
            r.list_hubs == self.list_hubs,
            r.trim_whitespaces == self.trim_whitespaces,
    {
        CreateListOptions { list_all: enabled, ..self }
    }

    /// Sets whether USB hubs are listed.
    pub fn list_hubs(self, enabled: bool) -> (r: Self)
        ensures
            r.list_hubs == enabled,
            r.list_all == self.list_all,
            r.trim_whitespaces == self.trim_whitespaces,
    {
        CreateListOptions { list_hubs: enabled, ..self }
    }

    /// Sets whether descriptions are trimmed.
    pub fn trim_whitespaces(self, enabled: bool) -> (r: Self)
        ensures
            r.trim_whitespaces == enabled,
            r.list_all == self.list_all,
            r.list_hubs == self.list_hubs,
    {
        CreateListOptions { trim_whitespaces: enabled, ..self }
    }

    /// Decides the outcome of the native enumeration call made with these
    /// options: `status` is what the call returned, and `devices` holds the
    /// records decoded from the returned list, or nothing where the returned
    /// handle was null.
    ///
    /// A success status with a null handle is a broken native contract and is
    /// reported as [`Error::Internal`]; the null handle is never dereferenced.
    pub fn create_list(&self, status: i32, devices: Option<Vec<DeviceInfo>>) -> (r: Result<
        DevicesList,
        Error,
    >)
        ensures
            r is Ok <==> status == WDI_SUCCESS && devices is Some,
            status != WDI_SUCCESS ==> r == Result::<DevicesList, Error>::Err(
                status_error(status),
            ),
            status == WDI_SUCCESS && devices is None ==> r == Result::<DevicesList, Error>::Err(
                Error::Internal,
            ),
            r matches Ok(l) ==> devices matches Some(d) && l@ == d@,
    {
        if status != WDI_SUCCESS {
            return Err(crate::status::error_of_status(status));
        }
        match devices {
            Some(d) => Ok(DevicesList::from_devices(d)),
            None => Err(Error::Internal),
        }
    }
}

impl Default for CreateListOptions {
    /// Same as [`CreateListOptions::new`].
    fn default() -> (r: Self)
        ensures
            !r.list_all,
            !r.list_hubs,
            !r.trim_whitespaces,
    {
        Self::new()
    }
}

/// Options of the native driver-preparation call.
///
/// The optional strings are owned here so that their storage is still alive
/// when the host wires their addresses into the native parameter block and
/// makes the call.
pub struct PrepareDriverOptions {
    /// Which driver to prepare.
    pub driver_type: DriverType,
    /// Do not generate a catalog file.
    pub disable_cat: bool,
    /// Do not self-sign the generated files.
    pub disable_signing: bool,
    /// Use the WCID driver.
    pub use_wcid_driver: bool,
    /// Use an external INF file.
    pub external_inf: bool,
    /// Vendor name to write into the INF, when set.
    pub vendor_name: Option<NativeString>,
    /// Device interface GUID, when set.
    pub device_guid: Option<NativeString>,
    /// Subject of the self-signed certificate, when set.
    pub cert_subject: Option<NativeString>,
}

impl PrepareDriverOptions {
    /// Every optional string that is present is free of embedded nulls.
    pub open spec fn wf(&self) -> bool {
        &&& (self.vendor_name matches Some(s) ==> s.wf())
        &&& (self.device_guid matches Some(s) ==> s.wf())
        &&& (self.cert_subject matches Some(s) ==> s.wf())
    }

    /// Fresh options: the WinUSB driver, every flag cleared, no strings.
    pub fn new() -> (r: Self)
        ensures
            r.driver_type == DriverType::WinUsb,
            !r.disable_cat,
            !r.disable_signing,
            !r.use_wcid_driver,
            !r.external_inf,
            r.vendor_name is None,
            r.device_guid is None,
            r.cert_subject is None,
            r.wf(),
    {
        PrepareDriverOptions {
            driver_type: DriverType::WinUsb,
            disable_cat: false,
            disable_signing: false,
            use_wcid_driver: false,
            external_inf: false,
            vendor_name: None,
            device_guid: None,
            cert_subject: None,
        }
    }

    /// Sets the driver type.
    pub fn driver_type(self, typ: DriverType) -> (r: Self)
        ensures
            r.driver_type == typ,
            r.disable_cat == self.disable_cat,
            r.disable_signing == self.disable_signing,
            r.use_wcid_driver == self.use_wcid_driver,
            r.external_inf == self.external_inf,
            r.vendor_name == self.vendor_name,
            r.device_guid == self.device_guid,
            r.cert_subject == self.cert_subject,
    {
        PrepareDriverOptions { driver_type: typ, ..self }
    }

    /// Sets whether catalog generation is disabled.
    pub fn disable_cat(self, enabled: bool) -> (r: Self)
        ensures
            r.disable_cat == enabled,
            r.driver_type == self.driver_type,
            r.disable_signing == self.disable_signing,
            r.use_wcid_driver == self.use_wcid_driver,
            r.external_inf == self.external_inf,
            r.vendor_name == self.vendor_name,
            r.device_guid == self.device_guid,
            r.cert_subject == self.cert_subject,
    {
        PrepareDriverOptions { disable_cat: enabled, ..self }
    }

    /// Sets whether self-signing is disabled.
    pub fn disable_signing(self, enabled: bool) -> (r: Self)
        ensures
            r.disable_signing == enabled,
            r.driver_type == self.driver_type,
            r.disable_cat == self.disable_cat,
            r.use_wcid_driver == self.use_wcid_driver,
            r.external_inf == self.external_inf,
            r.vendor_name == self.vendor_name,
            r.device_guid == self.device_guid,
            r.cert_subject == self.cert_subject,
    {
        PrepareDriverOptions { disable_signing: enabled, ..self }
    }

    /// Sets whether the WCID driver is used.
    pub fn use_wcid_driver(self, enabled: bool) -> (r: Self)
        ensures
            r.use_wcid_driver == enabled,
            r.driver_type == self.driver_type,
            r.disable_cat == self.disable_cat,
            r.disable_signing == self.disable_signing,
            r.external_inf == self.external_inf,
            r.vendor_name == self.vendor_name,
            r.device_guid == self.device_guid,
            r.cert_subject == self.cert_subject,
    {
        PrepareDriverOptions { use_wcid_driver: enabled, ..self }
    }

    /// Sets whether an external INF file is used.
    pub fn external_inf(self, enabled: bool) -> (r: Self)
        ensures
            r.external_inf == enabled,
            r.driver_type == self.driver_type,
            r.disable_cat == self.disable_cat,
            r.disable_signing == self.disable_signing,
            r.use_wcid_driver == self.use_wcid_driver,
            r.vendor_name == self.vendor_name,
            r.device_guid == self.device_guid,
            r.cert_subject == self.cert_subject,
    {
        PrepareDriverOptions { external_inf: enabled, ..self }
    }

    /// Sets the vendor name; fails with [`Error::Nul`] when the input holds
    /// an embedded null byte, leaving no partially updated options behind.
    pub fn vendor_name(self, s: &str) -> (r: Result<Self, Error>)
        ensures
            r is Ok <==> !has_nul(s.spec_bytes()),
            r is Err ==> r == Result::<Self, Error>::Err(Error::Nul),
            r matches Ok(o) ==> {
                &&& o.vendor_name matches Some(ns) && ns@ == s.spec_bytes()
                &&& o.driver_type == self.driver_type
                &&& o.disable_cat == self.disable_cat
                &&& o.disable_signing == self.disable_signing
                &&& o.use_wcid_driver == self.use_wcid_driver
                &&& o.external_inf == self.external_inf
                &&& o.device_guid == self.device_guid
                &&& o.cert_subject == self.cert_subject
                &&& self.wf() ==> o.wf()
            },
    {
        match NativeString::new(s) {
            Ok(ns) => Ok(PrepareDriverOptions { vendor_name: Some(ns), ..self }),
            Err(e) => Err(e),
        }
    }

    /// Sets the device interface GUID; fails with [`Error::Nul`] on an
    /// embedded null byte.
    pub fn device_guid(self, s: &str) -> (r: Result<Self, Error>)
        ensures
            r is Ok <==> !has_nul(s.spec_bytes()),
            r is Err ==> r == Result::<Self, Error>::Err(Error::Nul),
            r matches Ok(o) ==> {
                &&& o.device_guid matches Some(ns) && ns@ == s.spec_bytes()
                &&& o.driver_type == self.driver_type
                &&& o.disable_cat == self.disable_cat
                &&& o.disable_signing == self.disable_signing
                &&& o.use_wcid_driver == self.use_wcid_driver
                &&& o.external_inf == self.external_inf
                &&& o.vendor_name == self.vendor_name
                &&& o.cert_subject == self.cert_subject
                &&& self.wf() ==> o.wf()
            },
    {
        match NativeString::new(s) {
            Ok(ns) => Ok(PrepareDriverOptions { device_guid: Some(ns), ..self }),
            Err(e) => Err(e),
        }
    }

    /// Sets the certificate subject; fails with [`Error::Nul`] on an
    /// embedded null byte.
    pub fn cert_subject(self, s: &str) -> (r: Result<Self, Error>)
        ensures
            r is Ok <==> !has_nul(s.spec_bytes()),
            r is Err ==> r == Result::<Self, Error>::Err(Error::Nul),
            r matches Ok(o) ==> {
                &&& o.cert_subject matches Some(ns) && ns@ == s.spec_bytes()
                &&& o.driver_type == self.driver_type
                &&& o.disable_cat == self.disable_cat
                &&& o.disable_signing == self.disable_signing
                &&& o.use_wcid_driver == self.use_wcid_driver
                &&& o.external_inf == self.external_inf
                &&& o.vendor_name == self.vendor_name
                &&& o.device_guid == self.device_guid
                &&& self.wf() ==> o.wf()
            },
    {
        match NativeString::new(s) {
            Ok(ns) => Ok(PrepareDriverOptions { cert_subject: Some(ns), ..self }),
            Err(e) => Err(e),
        }
    }

    /// Decides the outcome of the native driver-preparation call for device
    /// `dev`, target directory `path` and INF file name `inf_name`, made with
    /// these options; `status` is what that call returned.
    ///
    /// The two names are converted to owned null-free strings first — an
    /// embedded null byte fails the step with [`Error::Nul`] before anything
    /// crosses the boundary. Success is owed exactly when both names convert
    /// and the native layer reported success; the returned [`PreparedDriver`]
    /// then retains the device record, both strings, and fresh install
    /// options.
    pub fn prepare_driver<'a>(
        self,
        dev: &'a DeviceInfo,
        path: &str,
        inf_name: &str,
        status: i32,
    ) -> (r: Result<PreparedDriver<'a>, Error>)
        ensures
            r is Ok <==> !has_nul(path.spec_bytes()) && !has_nul(inf_name.spec_bytes()) && status
                == WDI_SUCCESS,
            has_nul(path.spec_bytes()) || has_nul(inf_name.spec_bytes()) ==> r == Result::<
                PreparedDriver<'a>,
                Error,
            >::Err(Error::Nul),
            !has_nul(path.spec_bytes()) && !has_nul(inf_name.spec_bytes()) && status != WDI_SUCCESS
                ==> r == Result::<PreparedDriver<'a>, Error>::Err(status_error(status)),
            r matches Ok(p) ==> {
                &&& p@.dev == *dev
                &&& p@.path == path.spec_bytes()
                &&& p@.inf_name == inf_name.spec_bytes()
                &&& !p@.install_filter_driver
                &&& p@.pending_install_timeout == 0
                &&& p.wf()
            },
    {
        let path = match NativeString::new(path) {
            Ok(ns) => ns,
            Err(e) => {
                return Err(e);
            },
        };
        let inf_name = match NativeString::new(inf_name) {
            Ok(ns) => ns,
            Err(e) => {
                return Err(e);
            },
        };
        // The accumulated optional strings stay owned by `self` until here,
        // past the native call whose parameter block held their addresses.
        match crate::status::check_error(status) {
            Ok(_) => Ok(
                PreparedDriver {
                    dev,
                    path,
                    inf_name,
                    install_filter_driver: false,
                    pending_install_timeout: 0,
                },
            ),
            Err(e) => Err(e),
        }
    }
}

impl Clone for PrepareDriverOptions {
    /// The clone carries the same driver type, flags, and string bytes.
    fn clone(&self) -> (r: Self)
        ensures
            r.driver_type == self.driver_type,
            r.disable_cat == self.disable_cat,
            r.disable_signing == self.disable_signing,
            r.use_wcid_driver == self.use_wcid_driver,
            r.external_inf == self.external_inf,
            opt_bytes(r.vendor_name) == opt_bytes(self.vendor_name),
            opt_bytes(r.device_guid) == opt_bytes(self.device_guid),
            opt_bytes(r.cert_subject) == opt_bytes(self.cert_subject),
            self.wf() ==> r.wf(),
    {
        PrepareDriverOptions {
            driver_type: self.driver_type,
            disable_cat: self.disable_cat,
            disable_signing: self.disable_signing,
            use_wcid_driver: self.use_wcid_driver,
            external_inf: self.external_inf,
            vendor_name: match &self.vendor_name {
                Some(s) => Some(s.clone()),
                None => None,
            },
            device_guid: match &self.device_guid {
                Some(s) => Some(s.clone()),
                None => None,
            },
            cert_subject: match &self.cert_subject {
                Some(s) => Some(s.clone()),
                None => None,
            },
        }
    }
}

impl Default for PrepareDriverOptions {
    /// Same as [`PrepareDriverOptions::new`].
    fn default() -> (r: Self)
        ensures
            r.driver_type == DriverType::WinUsb,
            !r.disable_cat,
            !r.disable_signing,
            !r.use_wcid_driver,
            !r.external_inf,
            r.vendor_name is None,
            r.device_guid is None,
            r.cert_subject is None,
    {
        Self::new()
    }
}

/// Driver files prepared for one device, ready to be installed.
///
/// A value of this type exists only as the result of a successful native
/// driver-preparation call: that is the sole way to construct one, and the
/// install step can only be invoked through it, so installing what was never
/// prepared is ruled out by the types. It retains the borrowed device record
/// and the null-free path and INF name of the preparation, which the install
/// call needs again.
pub struct PreparedDriver<'a> {
    dev: &'a DeviceInfo,
    path: NativeString,
    inf_name: NativeString,
    install_filter_driver: bool,
    pending_install_timeout: u32,
}

/// What a [`PreparedDriver`] retains, as plain values.
pub ghost struct PreparedDriverView {
    /// The device record the driver was prepared for.
    pub dev: DeviceInfo,
    /// Bytes of the target directory path.
    pub path: Seq<u8>,
    /// Bytes of the INF file name.
    pub inf_name: Seq<u8>,
    /// Whether the driver is installed as a filter driver.
    pub install_filter_driver: bool,
    /// The native pending-install timeout, in native units.
    pub pending_install_timeout: u32,
}

impl<'a> View for PreparedDriver<'a> {
    type V = PreparedDriverView;

    closed spec fn view(&self) -> PreparedDriverView {
        PreparedDriverView {
            dev: *self.dev,
            path: self.path@,
            inf_name: self.inf_name@,
            install_filter_driver: self.install_filter_driver,
            pending_install_timeout: self.pending_install_timeout,
        }
    }
}

impl<'a> PreparedDriver<'a> {
    /// Both retained strings are free of embedded nulls.
    pub open spec fn wf(&self) -> bool {
        !has_nul(self@.path) && !has_nul(self@.inf_name)
    }

    /// The retained device record, for the host to wire into the install
    /// call.
    pub fn device_ref(&self) -> (r: &'a DeviceInfo)
        ensures
            *r == self@.dev,
    {
        self.dev
    }

    /// Bytes of the retained path, for the host to wire into the install
    /// call.
    pub fn path_bytes(&self) -> (r: &[u8])
        ensures
            r@ == self@.path,
    {
        self.path.as_bytes()
    }

    /// Bytes of the retained INF name, for the host to wire into the install
    /// call.
    pub fn inf_name_bytes(&self) -> (r: &[u8])
        ensures
            r@ == self@.inf_name,
    {
        self.inf_name.as_bytes()
    }

    /// Sets whether the driver is installed as a filter driver.
    pub fn install_filter_driver(self, enabled: bool) -> (r: Self)
        ensures
            r@ == (PreparedDriverView { install_filter_driver: enabled, ..self@ }),
    {
        PreparedDriver { install_filter_driver: enabled, ..self }
    }

    /// Sets the native pending-install timeout.
    pub fn pending_install_timeout(self, timeout: u32) -> (r: Self)
        ensures
            r@ == (PreparedDriverView { pending_install_timeout: timeout, ..self@ }),
    {
        PreparedDriver { pending_install_timeout: timeout, ..self }
    }

    /// Decides the outcome of the native install call made with the retained
    /// device, path and INF name; `status` is what that call returned.
    ///
    /// Every failure code surfaces verbatim through the error taxonomy. In
    /// particular a status of [`WDI_ERROR_NEEDS_ADMIN`] surfaces as exactly
    /// [`Error::NeedsAdmin`]: the process lacks the rights to install, and
    /// the caller is expected to retry the whole pipeline — prepare, then
    /// install — from an elevated process.
    pub fn install_driver(self, status: i32) -> (r: Result<(), Error>)
        ensures
            r is Ok <==> status == WDI_SUCCESS,
            status != WDI_SUCCESS ==> r == Result::<(), Error>::Err(status_error(status)),
            status == WDI_ERROR_NEEDS_ADMIN ==> r == Result::<(), Error>::Err(Error::NeedsAdmin),
    {
        crate::status::check_error(status)
    }
}

/// Options of the native trusted-certificate installation call.
#[derive(Debug, Clone, Copy)]
pub struct InstallCertOptions {
    /// Skip the security-warning prompt.
    pub disable_warning: bool,
    /// Window handle for native UI parenting; zero stands for no window.
    pub hwnd: usize,
}

impl InstallCertOptions {
    /// Fresh options: warnings shown, no parent window.
    pub fn new() -> (r: Self)
        ensures
            !r.disable_warning,
            r.hwnd == 0,
    {
        InstallCertOptions { disable_warning: false, hwnd: 0 }
    }

    /// Sets whether the security-warning prompt is skipped.
    pub fn disable_warning(self, enabled: bool) -> (r: Self)
        ensures
            r.disable_warning == enabled,
            r.hwnd == self.hwnd,
    {
        InstallCertOptions { disable_warning: enabled, ..self }
    }

    /// Sets the parent window handle.
    pub fn hwnd(self, hwnd: usize) -> (r: Self)
        ensures
            r.hwnd == hwnd,
            r.disable_warning == self.disable_warning,
    {
        InstallCertOptions { hwnd, ..self }
    }

    /// Decides the outcome of the native trusted-certificate installation
    /// for certificate `cert_name`, made with these options; `status` is
    /// what that call returned.
    ///
    /// The name is converted to an owned null-free string first; an embedded
    /// null byte fails the step with [`Error::Nul`] before anything crosses
    /// the boundary.
    pub fn install_trusted_certificate(self, cert_name: &str, status: i32) -> (r: Result<
        (),
        Error,
    >)
        ensures
            r is Ok <==> !has_nul(cert_name.spec_bytes()) && status == WDI_SUCCESS,
            has_nul(cert_name.spec_bytes()) ==> r == Result::<(), Error>::Err(Error::Nul),
            !has_nul(cert_name.spec_bytes()) && status != WDI_SUCCESS ==> r == Result::<
                (),
                Error,
            >::Err(status_error(status)),
    {
        let _cert_name = match NativeString::new(cert_name) {
            Ok(ns) => ns,
            Err(e) => {
                return Err(e);
            },
        };
        crate::status::check_error(status)
    }
}

impl Default for InstallCertOptions {
    /// Same as [`InstallCertOptions::new`].
    fn default() -> (r: Self)
        ensures
            !r.disable_warning,
            r.hwnd == 0,
    {
        Self::new()
    }
}

} // verus!
