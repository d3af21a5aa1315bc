//! EGL devices: which extensions device enumeration needs, and what a device keeps of the
//! strings it was queried for.
use vstd::prelude::*;
use vstd::string::StringSliceAdditionalSpecFns;
use vstd::utf8::{decode_utf8, encode_utf8_decode_utf8, valid_utf8};

use super::consts as egl;
use crate::error::{Error, ErrorKind};
use crate::extensions::ExtensionSet;

verus! {

/// Whether the client extensions allow enumerating devices: `EGL_EXT_device_base`, or
/// `EGL_EXT_device_enumeration` together with `EGL_EXT_device_query`.
pub open spec fn spec_enumeration_supported(client: Set<Seq<u8>>) -> bool {
    client.contains("EGL_EXT_device_base".spec_bytes()) || (client.contains(
        "EGL_EXT_device_enumeration".spec_bytes(),
    ) && client.contains("EGL_EXT_device_query".spec_bytes()))
}

/// Check that devices can be enumerated with the client extensions `client`, which are `None`
/// when EGL could not be loaded: then the answer is `NotFound`.
///
/// Without `EGL_EXT_device_base` and without `EGL_EXT_device_enumeration` the answer is that
/// enumeration is not supported; with enumeration but without `EGL_EXT_device_query` the
/// driver is taken for buggy.
pub fn check_enumeration_support(client: Option<&ExtensionSet>) -> (r: Result<(), Error>)
    ensures
        client is None ==> (r matches Err(e) && e.kind == ErrorKind::NotFound && e.raw_code is None),
        client matches Some(c) ==> {
            &&& r is Ok <==> spec_enumeration_supported(c@)
            &&& r matches Err(e) ==> e.raw_code is None
            &&& r matches Err(e) ==> e.kind == (if !c@.contains(
                "EGL_EXT_device_enumeration".spec_bytes(),
            ) {
                ErrorKind::NotSupported("Enumerating devices is not supported by the EGL instance")
            } else {
                ErrorKind::NotSupported(
                    "EGL_EXT_device_enumeration without EGL_EXT_device_query, buggy driver?",
                )
            })
        },
{
    let client = match client {
        Some(c) => c,
        None => {
            return Err(Error::from_kind(ErrorKind::NotFound));
        },
    };
    if !client.contains("EGL_EXT_device_base") {
        if !client.contains("EGL_EXT_device_enumeration") {
            return Err(
                Error::from_kind(
                    ErrorKind::NotSupported(
                        "Enumerating devices is not supported by the EGL instance",
                    ),
                ),
            );
        }
        if !client.contains("EGL_EXT_device_query") {
            return Err(
                Error::from_kind(
                    ErrorKind::NotSupported(
                        "EGL_EXT_device_enumeration without EGL_EXT_device_query, buggy driver?",
                    ),
                ),
            );
        }
    }
    Ok(())
}

/// The error of a failed `eglQueryDevicesEXT`: the one `eglGetError` reports, or, when it
/// reports success, that the query `what` is not supported.
pub fn query_failure(error_code: u32, what: &'static str) -> (e: Error)
    ensures
        error_code == egl::SUCCESS ==> e.kind == ErrorKind::NotSupported(what) && e.raw_code is None,
        error_code != egl::SUCCESS ==> super::spec_error_kind(error_code) == Some(e.kind)
            && e.raw_code == Some(error_code as i64),
{
    match super::check_error(error_code) {
        Err(e) => e,
        Ok(()) => Error::from_kind(ErrorKind::NotSupported(what)),
    }
}

/// `std::str::from_utf8`: as its documentation says, the bytes give a text exactly when they
/// are valid UTF-8, and the text is made of those very bytes.
#[verifier::external_body]
fn text_from_utf8(bytes: &[u8]) -> (r: Option<&str>)
    ensures
        r is Some <==> valid_utf8(bytes@),
        r matches Some(t) ==> t.spec_bytes() == bytes@,
{
    std::str::from_utf8(bytes).ok()
}

/// Whether `r` is the path that a device string query answered with `device_string` (`None`
/// for a null string) gives: none for no string or for bytes that are not UTF-8, else the
/// text those bytes encode.
pub open spec fn is_device_path(r: Option<String>, device_string: Option<Seq<u8>>) -> bool {
    match device_string {
        None => r is None,
        Some(b) => if valid_utf8(b) {
            r matches Some(p) && p@ == decode_utf8(b)
        } else {
            r is None
        },
    }
}

/// The path a device string query answered with: `device_string` holds the bytes of the string
/// `eglQueryDeviceStringEXT` returned, without the terminating zero, and is `None` when it
/// returned null.
pub fn device_string_path(device_string: Option<&[u8]>) -> (r: Option<String>)
    ensures
        is_device_path(
            r,
            match device_string {
                Some(b) => Some(b@),
                None => None,
            },
        ),
{
    match device_string {
        None => None,
        Some(b) => match text_from_utf8(b) {
            Some(t) => {
                proof {
                    encode_utf8_decode_utf8(t@);
                }
                Some(String::from_str(t))
            },
            None => None,
        },
    }
}

/// A device: its raw handle, its device extensions, and its name and vendor where
/// `EGL_EXT_device_query_name` let them be queried.
#[derive(Debug, PartialEq, Eq)]
pub struct Device {
    inner: usize,
    extensions: ExtensionSet,
    name: Option<String>,
    vendor: Option<String>,
}

/// Whether a device with the extensions `exts` can be asked for its name and vendor.
pub open spec fn spec_has_query_name(exts: Set<Seq<u8>>) -> bool {
    exts.contains("EGL_EXT_device_query_name".spec_bytes())
}

/// The view of a queried string.
pub open spec fn opt_view(s: Option<String>) -> Option<Seq<char>> {
    match s {
        Some(s) => Some(s@),
        None => None,
    }
}

impl Clone for Device {
    /// A device with the same handle, extensions, name and vendor.
    fn clone(&self) -> (r: Self)
        ensures
            r.spec_raw() == self.spec_raw(),
            r.spec_extensions() == self.spec_extensions(),
            r.spec_name() == self.spec_name(),
            r.spec_vendor() == self.spec_vendor(),
    {
        proof {
            use_type_invariant(self);
        }
        let name = match &self.name {
            Some(s) => Some(s.clone()),
            None => None,
        };
        let vendor = match &self.vendor {
            Some(s) => Some(s.clone()),
            None => None,
        };
        Device { inner: self.inner, extensions: self.extensions.clone(), name, vendor }
    }
}

impl Device {
    /// A device knows a name or a vendor only when it has `EGL_EXT_device_query_name`.
    #[verifier::type_invariant]
    closed spec fn names_need_query(self) -> bool {
        !spec_has_query_name(self.extensions@) ==> self.name is None && self.vendor is None
    }

    /// The raw `EGLDeviceEXT` handle.
    pub closed spec fn spec_raw(&self) -> usize {
        self.inner
    }

    /// The device extensions.
    pub closed spec fn spec_extensions(&self) -> Set<Seq<u8>> {
        self.extensions@
    }

    /// The name of the device, where it is known.
    pub closed spec fn spec_name(&self) -> Option<Seq<char>> {
        opt_view(self.name)
    }

    /// The vendor of the device, where it is known.
    pub closed spec fn spec_vendor(&self) -> Option<Seq<char>> {
        opt_view(self.vendor)
    }

    /// Whether the name and vendor of a device with the extension string `extensions` are to
    /// be queried.
    pub fn needs_name_query(extensions: &ExtensionSet) -> (r: bool)
        ensures
            r == spec_has_query_name(extensions@),
    {
        extensions.contains("EGL_EXT_device_query_name")
    }

    /// Build a device from its handle, the extensions it reports and the results of the
    /// renderer and vendor string queries. The name and vendor are kept only where the device
    /// has `EGL_EXT_device_query_name`, the extension that makes those queries valid.
    pub fn from_parts(
        raw_device: usize,
        extensions: ExtensionSet,
        name: Option<String>,
        vendor: Option<String>,
    ) -> (d: Device)
        ensures
            d.spec_raw() == raw_device,
            d.spec_extensions() == extensions@,
            spec_has_query_name(extensions@) ==> d.spec_name() == opt_view(name)
                && d.spec_vendor() == opt_view(vendor),
            !spec_has_query_name(extensions@) ==> d.spec_name() is None && d.spec_vendor() is None,
    {
        if Device::needs_name_query(&extensions) {
            Device { inner: raw_device, extensions, name, vendor }
        } else {
            Device { inner: raw_device, extensions, name: None, vendor: None }
        }
    }

    /// The device extensions. They are distinct from the display extensions.
    pub fn extensions(&self) -> (r: &ExtensionSet)
        ensures
            r@ == self.spec_extensions(),
    {
        &self.extensions
    }

    /// The name of the device; `None` without `EGL_EXT_device_query_name`.
    pub fn name(&self) -> (r: Option<&str>)
        ensures
            r is Some <==> self.spec_name() is Some,
            r matches Some(s) ==> s@ == self.spec_name()->0,
            !spec_has_query_name(self.spec_extensions()) ==> r is None,
    {
        proof {
            use_type_invariant(self);
        }
        match &self.name {
            Some(s) => Some(s.as_str()),
            None => None,
        }
    }

    /// The vendor of the device; `None` without `EGL_EXT_device_query_name`.
    pub fn vendor(&self) -> (r: Option<&str>)
        ensures
            r is Some <==> self.spec_vendor() is Some,
            r matches Some(s) ==> s@ == self.spec_vendor()->0,
            !spec_has_query_name(self.spec_extensions()) ==> r is None,
    {
        proof {
            use_type_invariant(self);
        }
        match &self.vendor {
            Some(s) => Some(s.as_str()),
            None => None,
        }
    }

    /// The raw `EGLDeviceEXT` handle.
    pub fn raw_device(&self) -> (r: usize)
        ensures
            r == self.spec_raw(),
    {
        self.inner
    }

    /// The string name to query for the DRM primary device node path: there is one only with
    /// `EGL_EXT_device_drm`.
    pub fn drm_device_node_query(&self) -> (r: Option<i32>)
        ensures
            self.spec_extensions().contains("EGL_EXT_device_drm".spec_bytes()) ==> r == Some(
                egl::DRM_DEVICE_FILE_EXT,
            ),
            !self.spec_extensions().contains("EGL_EXT_device_drm".spec_bytes()) ==> r is None,
    {
        if self.extensions.contains("EGL_EXT_device_drm") {
            Some(egl::DRM_DEVICE_FILE_EXT)
        } else {
            None
        }
    }

    /// The DRM primary device node path, from the answer `device_string` to the query of
    /// [`Device::drm_device_node_query`]: none without `EGL_EXT_device_drm` (nothing is
    /// queried then), else the path of [`device_string_path`].
    pub fn drm_device_node_path(&self, device_string: Option<&[u8]>) -> (r: Option<String>)
        ensures
            !self.spec_extensions().contains("EGL_EXT_device_drm".spec_bytes()) ==> r is None,
            self.spec_extensions().contains("EGL_EXT_device_drm".spec_bytes()) ==> is_device_path(
                r,
                match device_string {
                    Some(b) => Some(b@),
                    None => None,
                },
            ),
    {
        match self.drm_device_node_query() {
            Some(_) => device_string_path(device_string),
            None => None,
        }
    }

    /// The string name to query for the DRM render device node path: there is one only with
    /// `EGL_EXT_device_drm_render_node`.
    pub fn drm_render_device_node_query(&self) -> (r: Option<i32>)
        ensures
            self.spec_extensions().contains("EGL_EXT_device_drm_render_node".spec_bytes()) ==> r
                == Some(egl::DRM_RENDER_NODE_PATH_EXT),
            !self.spec_extensions().contains("EGL_EXT_device_drm_render_node".spec_bytes()) ==> r
                is None,
    {
        if self.extensions.contains("EGL_EXT_device_drm_render_node") {
            Some(egl::DRM_RENDER_NODE_PATH_EXT)
        } else {
            None
        }
    }

    /// The DRM render device node path, from the answer `device_string` to the query of
    /// [`Device::drm_render_device_node_query`]: none without `EGL_EXT_device_drm_render_node`
    /// (nothing is queried then), else the path of [`device_string_path`].
    pub fn drm_render_device_node_path(&self, device_string: Option<&[u8]>) -> (r: Option<String>)
        ensures
            !self.spec_extensions().contains("EGL_EXT_device_drm_render_node".spec_bytes()) ==> r
                is None,
            self.spec_extensions().contains("EGL_EXT_device_drm_render_node".spec_bytes())
                ==> is_device_path(
                r,
                match device_string {
                    Some(b) => Some(b@),
                    None => None,
                },
            ),
    {
        match self.drm_render_device_node_query() {
            Some(_) => device_string_path(device_string),
            None => None,
        }
    }
}

} // verus!
