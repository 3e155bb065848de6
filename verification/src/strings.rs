//! Owned byte strings that are safe to hand to the native layer.
//!
//! The native calls take C strings, so a string crossing the boundary must
//! not contain an embedded null byte. `NativeString` owns the UTF-8 bytes of
//! its source and can only be constructed when none of them is null; the
//! failure is reported as [`Error::Nul`] and nothing partially constructed
//! survives it.

use vstd::prelude::*;
use vstd::string::StringSliceAdditionalSpecFns;

use crate::status::Error;

verus! {

/// Whether a byte sequence contains an embedded null byte.
pub open spec fn has_nul(bytes: Seq<u8>) -> bool {
    exists|i: int| 0 <= i < bytes.len() && bytes[i] == 0
}

/// An owned byte string with no embedded null byte, ready to back a native
/// call for as long as the caller keeps it alive.
pub struct NativeString {
    bytes: Vec<u8>,
}

impl View for NativeString {
    type V = Seq<u8>;

    closed spec fn view(&self) -> Seq<u8> {
        self.bytes@
    }
}

impl NativeString {
    /// The invariant every constructed value satisfies: no embedded null.
    pub open spec fn wf(&self) -> bool {
        !has_nul(self@)
    }

    /// Builds a native string from the UTF-8 bytes of `s`.
    ///
    /// Succeeds exactly when `s` contains no embedded null byte; otherwise
    /// fails with the null-byte-input error.
    pub fn new(s: &str) -> (r: Result<NativeString, Error>)
        ensures
            r is Ok <==> !has_nul(s.spec_bytes()),
            r matches Ok(ns) ==> ns@ == s.spec_bytes() && ns.wf(),
            r is Err ==> r == Result::<NativeString, Error>::Err(Error::Nul),
    {
        let bytes = vstd::slice::slice_to_vec(s.as_bytes());
        let mut i: usize = 0;
        while i < bytes.len()
            invariant
                i <= bytes@.len(),
                bytes@ == s.spec_bytes(),
                forall|j: int| 0 <= j < i ==> bytes@[j] != 0,
            decreases bytes@.len() - i,
        {
            if bytes[i] == 0 {
                return Err(Error::Nul);
            }
            i += 1;
        }
        Ok(NativeString { bytes })
    }

    /// The bytes to wire into the native parameter block.
    pub fn as_bytes(&self) -> (r: &[u8])
        ensures
            r@ == self@,
    {
        self.bytes.as_slice()
    }

    /// Length of the string in bytes, the terminator not counted.
    pub fn len(&self) -> (r: usize)
        ensures
            r == self@.len(),
    {
        self.bytes.len()
    }
}

impl Clone for NativeString {
    /// The clone holds the same bytes.
    fn clone(&self) -> (r: Self)
        ensures
            r@ == self@,
    {
        NativeString { bytes: vstd::slice::slice_to_vec(self.bytes.as_slice()) }
    }
}

/// The bytes of an optional native string, for contracts over optional
/// fields.
pub open spec fn opt_bytes(o: Option<NativeString>) -> Option<Seq<u8>> {
    match o {
        Some(s) => Some(s@),
        None => None,
    }
}

} // verus!
