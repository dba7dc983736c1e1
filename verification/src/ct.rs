//! Constant-time comparison and conditional move on status codes.
//!
//! Both are taken on trust from the crates that implement them. A selection
//! bit travels as a byte that is 0 or 1, never as a `bool`, so that nothing
//! here invites a branch on it.

use aligned_cmov::subtle::{Choice, ConstantTimeEq};
use aligned_cmov::CMov;
use vstd::prelude::*;

verus! {

/// `ConstantTimeEq::ct_eq` of `subtle` on two `u32`: the byte of the
/// resulting `Choice` is 1 where the two are equal and 0 where they differ.
#[verifier::external_body]
pub(crate) fn ct_eq_u32(a: u32, b: u32) -> (bit: u8)
    ensures
        bit == (if a == b { 1u8 } else { 0u8 }),
{
    a.ct_eq(&b).unwrap_u8()
}

/// `CMov::cmov` of `aligned_cmov` on `u32`: `dest` takes the value of `src`
/// where the condition bit is 1 and keeps its own where the bit is 0.
#[verifier::external_body]
pub(crate) fn cmov_u32(dest: &mut u32, condition: u8, src: u32)
    requires
        condition <= 1,
    ensures
        *final(dest) == (if condition == 1 { src } else { *old(dest) }),
{
    dest.cmov(Choice::from(condition), &src)
}

} // verus!
