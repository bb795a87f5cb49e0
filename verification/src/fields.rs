//! Register field values, computed through `tock_registers`.
//!
//! A field is given by an unshifted `mask` and a `shift`; a field value is a
//! shifted mask together with the shifted value that lies under it. These are
//! the notions of `tock_registers::fields::{Field, FieldValue}`; the library
//! holds the two integers as plain values, and every computation on them goes
//! through the crate.

use tock_registers::interfaces::{Readable, Writeable};
use vstd::prelude::*;

verus! {

/// A shifted mask and the value under it, for a 64-bit register.
#[derive(Clone, Copy, Debug)]
pub struct FieldValue64 {
    pub mask: u64,
    pub value: u64,
}

/// A shifted mask and the value under it, for a 32-bit register.
#[derive(Clone, Copy, Debug)]
pub struct FieldValue32 {
    pub mask: u32,
    pub value: u32,
}

/// Trusted: `Field::<u64, ()>::new(mask, shift).val(value)` of `tock_registers`
/// builds `FieldValue::new(mask, shift, value)`, whose mask is `mask << shift`
/// and whose value is `(value & mask) << shift`. A shift of 64 or more would
/// overflow the shift operator, so it is left out.
#[verifier::external_body]
pub(crate) fn field_val64(mask: u64, shift: usize, value: u64) -> (fv: FieldValue64)
    requires
        shift < 64,
    ensures
        fv.mask == mask << shift,
        fv.value == (value & mask) << shift,
{
    let v = tock_registers::fields::Field::<u64, ()>::new(mask, shift).val(value);
    FieldValue64 { mask: v.mask(), value: v.value }
}

/// Trusted: the `+` of two `tock_registers` field values (`FieldValue::add`)
/// ors the masks and ors the values. Each operand is rebuilt with
/// `FieldValue::new(mask, 0, value)`, which keeps only the part of the value
/// under its mask.
#[verifier::external_body]
pub(crate) fn field_add64(a: FieldValue64, b: FieldValue64) -> (fv: FieldValue64)
    ensures
        fv.mask == a.mask | b.mask,
        fv.value == (a.value & a.mask) | (b.value & b.mask),
{
    let x = tock_registers::fields::FieldValue::<u64, ()>::new(a.mask, 0, a.value);
    let y = tock_registers::fields::FieldValue::<u64, ()>::new(b.mask, 0, b.value);
    let s = x + y;
    FieldValue64 { mask: s.mask(), value: s.value }
}

/// Trusted: an `InMemoryRegister<u64>` of `tock_registers` made with value 0,
/// written with a field value (`Writeable::write`, which sets the register to
/// the field value's value) and read back (`Readable::get`) gives that value.
#[verifier::external_body]
pub(crate) fn in_memory_write_get64(fv: FieldValue64) -> (r: u64)
    ensures
        r == fv.value & fv.mask,
{
    let reg = tock_registers::registers::InMemoryRegister::<u64, ()>::new(0);
    reg.write(tock_registers::fields::FieldValue::<u64, ()>::new(fv.mask, 0, fv.value));
    reg.get()
}

/// Trusted: `Field::<u32, ()>::new(mask, shift).val(value)` of `tock_registers`,
/// as for 64 bits: mask `mask << shift`, value `(value & mask) << shift`.
#[verifier::external_body]
pub(crate) fn field_val32(mask: u32, shift: usize, value: u32) -> (fv: FieldValue32)
    requires
        shift < 32,
    ensures
        fv.mask == mask << shift,
        fv.value == (value & mask) << shift,
{
    let v = tock_registers::fields::Field::<u32, ()>::new(mask, shift).val(value);
    FieldValue32 { mask: v.mask(), value: v.value }
}

/// Trusted: the `+` of two 32-bit `tock_registers` field values ors the masks
/// and the values (each operand rebuilt with `FieldValue::new(mask, 0, value)`).
#[verifier::external_body]
pub(crate) fn field_add32(a: FieldValue32, b: FieldValue32) -> (fv: FieldValue32)
    ensures
        fv.mask == a.mask | b.mask,
        fv.value == (a.value & a.mask) | (b.value & b.mask),
{
    let x = tock_registers::fields::FieldValue::<u32, ()>::new(a.mask, 0, a.value);
    let y = tock_registers::fields::FieldValue::<u32, ()>::new(b.mask, 0, b.value);
    let s = x + y;
    FieldValue32 { mask: s.mask(), value: s.value }
}

/// Trusted: `FieldValue::modify(reg)` of `tock_registers`, the step of a
/// read-modify-write, clears the bits under the mask and ors in the value:
/// `(reg & !mask) | value`.
#[verifier::external_body]
pub(crate) fn field_modify32(fv: FieldValue32, reg: u32) -> (r: u32)
    ensures
        r == (reg & !fv.mask) | (fv.value & fv.mask),
{
    tock_registers::fields::FieldValue::<u32, ()>::new(fv.mask, 0, fv.value).modify(reg)
}

/// Trusted: `Field::<u32, ()>::new(mask, shift).is_set(reg)` of
/// `tock_registers` tells whether any bit of the field is set:
/// `reg & (mask << shift) != 0`.
#[verifier::external_body]
pub(crate) fn field_is_set32(mask: u32, shift: usize, reg: u32) -> (r: bool)
    requires
        shift < 32,
    ensures
        r == (reg & (mask << shift) != 0),
{
    tock_registers::fields::Field::<u32, ()>::new(mask, shift).is_set(reg)
}

/// Whether any bit of the one-bit field at `bit` is set.
pub open spec fn bit_set32(reg: u32, bit: u32) -> bool {
    reg & (1u32 << bit) != 0
}

} // verus!
