//! The data the boot driver leaves for the kernel: the command line, in a fixed area.
use vstd::prelude::*;
use vstd::utf8::{decode_utf8, valid_utf8};

verus! {

/// Size of the kernel argument area.
pub const KARGS_SIZE: usize = 0x400;

/// Reads `bytes` with `core::str::from_utf8`: `Some` exactly when they are well-formed
/// UTF-8, holding then the characters they encode.
#[verifier::external_body]
pub(crate) fn str_from_utf8(bytes: &[u8]) -> (r: Option<&str>)
    ensures
        r is Some <==> valid_utf8(bytes@),
        r matches Some(s) ==> s@ == decode_utf8(bytes@),
{
    core::str::from_utf8(bytes).ok()
}

/// The kernel argument area read as text, NUL padding included.
pub fn kargs(area: &[u8; KARGS_SIZE]) -> (r: &str)
    requires
        valid_utf8(area@),
    ensures
        r@ == decode_utf8(area@),
{
    match str_from_utf8(area) {
        Some(s) => s,
        None => "",
    }
}

} // verus!
