use vstd::prelude::*;

verus! {

/// Relies on `az::Az::az` with `Cast<u8> for u32`: a value that fits in the
/// destination comes back unchanged (it panics with debug assertions on one
/// that does not, which the `requires` leaves out).
#[verifier::external_body]
pub(crate) fn narrow_u32_to_u8(x: u32) -> (r: u8)
    requires
        x <= 0xff,
    ensures
        r as int == x as int,
{
    az::Az::az::<u8>(x)
}

/// Relies on `az::Az::az` with `Cast<u16> for u64`: a value that fits in the
/// destination comes back unchanged (it panics with debug assertions on one
/// that does not, which the `requires` leaves out).
#[verifier::external_body]
pub(crate) fn narrow_u64_to_u16(x: u64) -> (r: u16)
    requires
        x <= 0xffff,
    ensures
        r as int == x as int,
{
    az::Az::az::<u16>(x)
}

/// Relies on `az::Az::az` with `Cast<i16> for u8`: every `u8` fits in an
/// `i16` and comes back unchanged.
#[verifier::external_body]
pub(crate) fn widen_u8_to_i16(x: u8) -> (r: i16)
    ensures
        r as int == x as int,
{
    az::Az::az::<i16>(x)
}

/// Relies on `az::Az::az` with `Cast<i16> for u16`: a value that fits in the
/// destination comes back unchanged (it panics with debug assertions on one
/// that does not, which the `requires` leaves out).
#[verifier::external_body]
pub(crate) fn convert_u16_to_i16(x: u16) -> (r: i16)
    requires
        x <= 0x7fff,
    ensures
        r as int == x as int,
{
    az::Az::az::<i16>(x)
}

} // verus!
