//! Thin trusted bindings to host functionality shared by both platform
//! models: scalar-value construction, string building, and the host's
//! rendering of OS status codes.

use vstd::prelude::*;
use vstd::utf8::is_scalar;

verus! {

/// Relies on `char::from_u32`: it returns `Some` exactly for Unicode scalar
/// values (not a surrogate, at most 0x10FFFF) and the returned `char` has the
/// given value.
pub assume_specification[ char::from_u32 ](i: u32) -> (r: Option<char>)
    ensures
        r is Some <==> is_scalar(i),
        r matches Some(c) ==> c as u32 == i,
;

/// Relies on `String::push`: it appends exactly the given character.
pub assume_specification[ String::push ](s: &mut String, ch: char)
    ensures
        final(s)@ == old(s)@.push(ch),
;

/// Relies on `std::io::Error`: `from_raw_os_error` wraps the given status
/// code and the `Display` rendering queries the operating system for the
/// message associated with it. Nothing is assumed about the text.
#[verifier::external_body]
pub(crate) fn os_error_message(code: i32) -> String {
    std::io::Error::from_raw_os_error(code).to_string()
}

/// Relies on `std::io::Error::last_os_error`: it captures the calling
/// thread's most recently recorded OS error code. The code depends on the
/// environment, so nothing is assumed about it.
#[verifier::external_body]
pub(crate) fn last_error_code() -> i32 {
    std::io::Error::last_os_error().raw_os_error().unwrap_or(0)
}

} // verus!
