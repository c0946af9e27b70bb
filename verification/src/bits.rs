//! Bitfield accessor: typed read / write / read-modify-write operations over
//! named bit ranges of a 32-bit register value.
//!
//! A [`BitField`] names `width` bits starting at bit `offset`. The exec
//! operations delegate the shift-and-mask arithmetic to `tock_registers` and
//! are proved to equal the spec functions [`spec_get`] and [`spec_set`].
use vstd::prelude::*;

verus! {

/// A named bit range inside a 32-bit register: `width` bits starting at
/// bit `offset`.
#[derive(Clone, Copy, PartialEq, Eq, Structural, Debug)]
pub struct BitField {
    pub offset: u32,
    pub width: u32,
}

impl BitField {
    /// A well-formed field is non-empty and lies inside the register.
    pub open spec fn wf(self) -> bool {
        1 <= self.width <= 32 && self.offset + self.width <= 32
    }

    /// The unshifted mask: the low `width` bits set.
    pub open spec fn spec_mask(self) -> u32 {
        if self.width == 32 {
            0xffff_ffffu32
        } else {
            ((1u32 << self.width) - 1) as u32
        }
    }

    /// Computes the unshifted mask of this field.
    pub fn mask(self) -> (m: u32)
        requires
            self.wf(),
        ensures
            m == self.spec_mask(),
    {
        if self.width == 32 {
            0xffff_ffffu32
        } else {
            let w = self.width;
            assert(w < 32 ==> 1u32 << w >= 1u32) by (bit_vector);
            (1u32 << w) - 1
        }
    }
}

/// The value of field `f` in register value `reg`.
pub open spec fn spec_get(reg: u32, f: BitField) -> u32 {
    (reg >> f.offset) & f.spec_mask()
}

/// `reg` with field `f` replaced by `v` (masked to the field's width) and
/// every bit outside `f` unchanged.
pub open spec fn spec_set(reg: u32, f: BitField, v: u32) -> u32 {
    (reg & !(f.spec_mask() << f.offset)) | ((v & f.spec_mask()) << f.offset)
}

/// Two fields cover disjoint bit ranges.
pub open spec fn disjoint(a: BitField, b: BitField) -> bool {
    a.offset + a.width <= b.offset || b.offset + b.width <= a.offset
}

/// Relies on `tock_registers::fields::Field::read`: returns
/// `(reg & (mask << shift)) >> shift`.
#[verifier::external_body]
fn tock_field_read(reg: u32, mask: u32, shift: u32) -> (r: u32)
    requires
        shift < 32,
    ensures
        r == (reg & (mask << shift)) >> shift,
{
    tock_registers::fields::Field::<u32, ()>::new(mask, shift as usize).read(reg)
}

/// Relies on `tock_registers::fields::FieldValue::modify`: returns
/// `(reg & !(mask << shift)) | ((v & mask) << shift)`.
#[verifier::external_body]
fn tock_field_modify(reg: u32, mask: u32, shift: u32, v: u32) -> (r: u32)
    requires
        shift < 32,
    ensures
        r == (reg & !(mask << shift)) | ((v & mask) << shift),
{
    tock_registers::fields::FieldValue::<u32, ()>::new(mask, shift as usize, v).modify(reg)
}

/// Reads field `f` out of register value `reg`.
pub fn read_field(reg: u32, f: BitField) -> (r: u32)
    requires
        f.wf(),
    ensures
        r == spec_get(reg, f),
{
    let m = f.mask();
    let off = f.offset;
    let r = tock_field_read(reg, m, off);
    proof {
        let w = f.width;
        assert((reg & (m << off)) >> off == (reg >> off) & m) by (bit_vector)
            requires
                off + w <= 32,
                1 <= w <= 32,
                m == (if w == 32 { 0xffff_ffffu32 } else { ((1u32 << w) - 1) as u32 }),
        ;
    }
    r
}

/// Read-modify-write: returns `reg` with field `f` set to `v` and all other
/// bits unchanged.
pub fn modify_field(reg: u32, f: BitField, v: u32) -> (r: u32)
    requires
        f.wf(),
    ensures
        r == spec_set(reg, f, v),
{
    let m = f.mask();
    tock_field_modify(reg, m, f.offset, v)
}

/// A whole-register write carrying only field `f`: every bit outside `f`
/// becomes zero.
pub fn write_field(f: BitField, v: u32) -> (r: u32)
    requires
        f.wf(),
    ensures
        r == spec_set(0, f, v),
{
    let m = f.mask();
    tock_field_modify(0, m, f.offset, v)
}

/// Whether field `f` of `reg` holds exactly `v` (masked to the field width).
pub fn field_matches(reg: u32, f: BitField, v: u32) -> (r: bool)
    requires
        f.wf(),
    ensures
        r == (spec_get(reg, f) == (v & f.spec_mask())),
{
    let m = f.mask();
    read_field(reg, f) == (v & m)
}

/// A field read never exceeds the field's mask.
pub proof fn lemma_get_bounded(reg: u32, f: BitField)
    requires
        f.wf(),
    ensures
        spec_get(reg, f) <= f.spec_mask(),
{
    let m = f.spec_mask();
    let off = f.offset;
    assert((reg >> off) & m <= m) by (bit_vector);
}

/// Values of the field masks that occur in the register layouts, for the
/// solver's benefit: shifts of constants are otherwise left uninterpreted.
pub proof fn lemma_mask_table()
    by (bit_vector)
    ensures
        (1u32 << 1u32) - 1 == 0x1u32,
        (1u32 << 2u32) - 1 == 0x3u32,
        (1u32 << 3u32) - 1 == 0x7u32,
        (1u32 << 4u32) - 1 == 0xfu32,
        (1u32 << 5u32) - 1 == 0x1fu32,
        (1u32 << 8u32) - 1 == 0xffu32,
        (1u32 << 12u32) - 1 == 0xfffu32,
        (1u32 << 16u32) - 1 == 0xffffu32,
        (1u32 << 31u32) - 1 == 0x7fff_ffffu32,
{
}

/// Every field of an all-zero register reads zero.
pub proof fn lemma_get_zero(f: BitField)
    requires
        f.wf(),
    ensures
        spec_get(0, f) == 0,
{
    let m = f.spec_mask();
    let off = f.offset;
    assert((0u32 >> off) & m == 0) by (bit_vector);
}

/// After a read-modify-write of field `f`, reading `f` back gives the written
/// value, masked to the field's width.
pub proof fn lemma_set_then_get(reg: u32, f: BitField, v: u32)
    requires
        f.wf(),
    ensures
        spec_get(spec_set(reg, f, v), f) == v & f.spec_mask(),
        v <= f.spec_mask() ==> spec_get(spec_set(reg, f, v), f) == v,
{
    let m = f.spec_mask();
    let off = f.offset;
    let w = f.width;
    assert((((reg & !(m << off)) | ((v & m) << off)) >> off) & m == v & m && (v <= m ==> v & m
        == v)) by (bit_vector)
        requires
            off + w <= 32,
            1 <= w <= 32,
            m == (if w == 32 { 0xffff_ffffu32 } else { ((1u32 << w) - 1) as u32 }),
    ;
}

/// Modifying field `a` leaves every disjoint field `b` bit-for-bit unchanged.
pub proof fn lemma_set_preserves_disjoint(reg: u32, a: BitField, b: BitField, v: u32)
    requires
        a.wf(),
        b.wf(),
        disjoint(a, b),
    ensures
        spec_get(spec_set(reg, a, v), b) == spec_get(reg, b),
{
    let ma = a.spec_mask();
    let oa = a.offset;
    let wa = a.width;
    let mb = b.spec_mask();
    let ob = b.offset;
    let wb = b.width;
    assert((((reg & !(ma << oa)) | ((v & ma) << oa)) >> ob) & mb == (reg >> ob) & mb)
        by (bit_vector)
        requires
            oa + wa <= 32,
            1 <= wa <= 32,
            ob + wb <= 32,
            1 <= wb <= 32,
            oa + wa <= ob || ob + wb <= oa,
            ma == (if wa == 32 { 0xffff_ffffu32 } else { ((1u32 << wa) - 1) as u32 }),
            mb == (if wb == 32 { 0xffff_ffffu32 } else { ((1u32 << wb) - 1) as u32 }),
    ;
}

} // verus!
