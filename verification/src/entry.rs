//! The kernel's view of what the boot driver left for it.
use vstd::prelude::*;
use vstd::utf8::{decode_utf8, valid_utf8};
use crate::kdata::KARGS_SIZE;

verus! {

/// The kernel argument area read as text, NUL padding included.
pub fn kargs(area: &[u8; KARGS_SIZE]) -> (r: &str)
    requires
        valid_utf8(area@),
    ensures
        r@ == decode_utf8(area@),
{
    crate::kdata::kargs(area)
}

} // verus!
