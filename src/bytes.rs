//! Byte strings that may or may not carry a trailing null terminator.

use vstd::prelude::*;
use vstd::string::StringSliceAdditionalSpecFns;
use cstr_core::CStr;

verus! {

/// True when the last byte of `s` is a null terminator.
pub open spec fn ends_with_nul(s: Seq<u8>) -> bool {
    s.len() > 0 && s.last() == 0u8
}

/// Length of `s` without its trailing null terminator, if it has one.
pub open spec fn logical_len(s: Seq<u8>) -> nat {
    if ends_with_nul(s) {
        (s.len() - 1) as nat
    } else {
        s.len()
    }
}

/// The C string that stands for `s`: its logical bytes followed by one null byte.
pub open spec fn cstr_of(s: Seq<u8>) -> Seq<u8> {
    s.subrange(0, logical_len(s) as int).push(0u8)
}

/// Returns true when `s` ends with a null terminator.
pub fn has_trailing_nul(s: &[u8]) -> (r: bool)
    ensures
        r == ends_with_nul(s@),
{
    let n = s.len();
    n > 0 && s[n - 1] == 0
}

/// Converts a string-like value into bytes that may or may not end with a null byte.
pub trait ToBytesOptionalNull {
    /// Whether `b` is what the conversion hands out for this value.
    spec fn is_bytes_of(&self, b: Seq<u8>) -> bool;

    /// Converts the value to an array of bytes that may or may not end with null.
    fn to_bytes_optional_nul(&self) -> (r: &[u8])
        ensures
            self.is_bytes_of(r@),
    ;
}

impl ToBytesOptionalNull for [u8] {
    open spec fn is_bytes_of(&self, b: Seq<u8>) -> bool {
        b == self@
    }

    fn to_bytes_optional_nul(&self) -> (r: &[u8]) {
        self
    }
}

impl ToBytesOptionalNull for str {
    open spec fn is_bytes_of(&self, b: Seq<u8>) -> bool {
        b == self.spec_bytes()
    }

    fn to_bytes_optional_nul(&self) -> (r: &[u8]) {
        self.as_bytes()
    }
}

impl<'a> ToBytesOptionalNull for &'a str {
    open spec fn is_bytes_of(&self, b: Seq<u8>) -> bool {
        b == (*self).spec_bytes()
    }

    fn to_bytes_optional_nul(&self) -> (r: &[u8]) {
        self.as_bytes()
    }
}

/// A C string always hands out its null terminator, so its logical length
/// never counts it.
impl ToBytesOptionalNull for CStr {
    open spec fn is_bytes_of(&self, b: Seq<u8>) -> bool {
        b == cstr_bytes(self) && ends_with_nul(b)
    }

    fn to_bytes_optional_nul(&self) -> (r: &[u8]) {
        self.to_bytes_with_nul()
    }
}

#[verifier::external_type_specification]
#[verifier::external_body]
pub struct ExCStr(CStr);

/// The bytes of the C string `c`, trailing null terminator included.
pub uninterp spec fn cstr_bytes(c: &CStr) -> Seq<u8>;

/// Relies on cstr_core's `CStr::to_bytes_with_nul`: the slice it returns is
/// the C string's own bytes, which always keep its trailing null terminator.
pub assume_specification[ CStr::to_bytes_with_nul ](c: &CStr) -> (r: &[u8])
    ensures
        r@ == cstr_bytes(c),
        ends_with_nul(r@),
;

} // verus!
