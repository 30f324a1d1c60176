//! Generic bit-field arithmetic on 32-bit registers.
//!
//! A field is described by its lowest bit `lo` and its width `w`.
use vstd::prelude::*;

verus! {

/// The value with the lowest `w` bits set (`w < 32`).
pub open spec fn low_mask(w: u32) -> u32 {
    !(0xffff_ffffu32 << w)
}

/// Whether a field of width `w` starting at bit `lo` fits in a 32-bit register.
pub open spec fn field_fits(lo: u32, w: u32) -> bool {
    &&& 1 <= w < 32
    &&& lo + w <= 32
}

/// The value of the field of width `w` starting at bit `lo` of `v`.
pub open spec fn get_bits(v: u32, lo: u32, w: u32) -> u32 {
    (v >> lo) & low_mask(w)
}

/// `v` with the field of width `w` at bit `lo` replaced by the low `w` bits of `x`.
pub open spec fn set_bits(v: u32, lo: u32, w: u32, x: u32) -> u32 {
    (v & !(low_mask(w) << lo)) | ((x & low_mask(w)) << lo)
}

/// Whether bit `i` of `v` is set.
pub open spec fn bit_is_set(v: u32, i: u32) -> bool {
    get_bits(v, i, 1) == 1
}

/// `v` with bit `i` set to `b`.
pub open spec fn set_bit(v: u32, i: u32, b: bool) -> u32 {
    set_bits(v, i, 1, if b { 1 } else { 0 })
}

/// Reading a field that was just written gives back the written value, cut to the field's width.
pub proof fn lemma_get_set_same(v: u32, lo: u32, w: u32, x: u32)
    requires
        field_fits(lo, w),
    ensures
        get_bits(set_bits(v, lo, w, x), lo, w) == x & low_mask(w),
{
    assert(get_bits(set_bits(v, lo, w, x), lo, w) == x & low_mask(w)) by (bit_vector)
        requires
            1 <= w < 32,
            lo + w <= 32,
    ;
}

/// Writing a field leaves every field that does not overlap it unchanged.
pub proof fn lemma_get_set_other(v: u32, lo: u32, w: u32, x: u32, lo2: u32, w2: u32)
    requires
        field_fits(lo, w),
        field_fits(lo2, w2),
        lo2 + w2 <= lo || lo + w <= lo2,
    ensures
        get_bits(set_bits(v, lo, w, x), lo2, w2) == get_bits(v, lo2, w2),
{
    assert(get_bits(set_bits(v, lo, w, x), lo2, w2) == get_bits(v, lo2, w2)) by (bit_vector)
        requires
            1 <= w < 32,
            lo + w <= 32,
            1 <= w2 < 32,
            lo2 + w2 <= 32,
            lo2 + w2 <= lo || lo + w <= lo2,
    ;
}

/// A field value is below `2^w`, and a value below `2^w` is unchanged by the field mask.
pub proof fn lemma_bits_bounds(v: u32, lo: u32, w: u32, x: u32)
    requires
        field_fits(lo, w),
    ensures
        w <= 1 ==> get_bits(v, lo, w) <= 1,
        w <= 2 ==> get_bits(v, lo, w) <= 3,
        w <= 3 ==> get_bits(v, lo, w) <= 7,
        w <= 4 ==> get_bits(v, lo, w) <= 0xf,
        w <= 5 ==> get_bits(v, lo, w) <= 0x1f,
        w <= 6 ==> get_bits(v, lo, w) <= 0x3f,
        w <= 8 ==> get_bits(v, lo, w) <= 0xff,
        w <= 10 ==> get_bits(v, lo, w) <= 0x3ff,
        w <= 11 ==> get_bits(v, lo, w) <= 0x7ff,
        w <= 16 ==> get_bits(v, lo, w) <= 0xffff,
        w <= 20 ==> get_bits(v, lo, w) <= 0xf_ffff,
        w <= 28 ==> get_bits(v, lo, w) <= 0xfff_ffff,
        w == 1 ==> (x <= 1 ==> x & low_mask(w) == x),
        w == 2 ==> (x <= 3 ==> x & low_mask(w) == x),
        w == 3 ==> (x <= 7 ==> x & low_mask(w) == x),
        w == 4 ==> (x <= 0xf ==> x & low_mask(w) == x),
        w == 5 ==> (x <= 0x1f ==> x & low_mask(w) == x),
        w == 6 ==> (x <= 0x3f ==> x & low_mask(w) == x),
        w == 8 ==> (x <= 0xff ==> x & low_mask(w) == x),
        w == 10 ==> (x <= 0x3ff ==> x & low_mask(w) == x),
        w == 11 ==> (x <= 0x7ff ==> x & low_mask(w) == x),
        w == 16 ==> (x <= 0xffff ==> x & low_mask(w) == x),
        w == 20 ==> (x <= 0xf_ffff ==> x & low_mask(w) == x),
        w == 28 ==> (x <= 0xfff_ffff ==> x & low_mask(w) == x),
{
    assert(
        (w <= 1 ==> get_bits(v, lo, w) <= 1)
        && (w <= 2 ==> get_bits(v, lo, w) <= 3)
        && (w <= 3 ==> get_bits(v, lo, w) <= 7)
        && (w <= 4 ==> get_bits(v, lo, w) <= 0xf)
        && (w <= 5 ==> get_bits(v, lo, w) <= 0x1f)
        && (w <= 6 ==> get_bits(v, lo, w) <= 0x3f)
        && (w <= 8 ==> get_bits(v, lo, w) <= 0xff)
        && (w <= 10 ==> get_bits(v, lo, w) <= 0x3ff)
        && (w <= 11 ==> get_bits(v, lo, w) <= 0x7ff)
        && (w <= 16 ==> get_bits(v, lo, w) <= 0xffff)
        && (w <= 20 ==> get_bits(v, lo, w) <= 0xf_ffff)
        && (w <= 28 ==> get_bits(v, lo, w) <= 0xfff_ffff)
    ) by (bit_vector)
        requires
            1 <= w < 32,
            lo + w <= 32,
    ;
    assert(
        (w == 1 ==> (x <= 1 ==> x & low_mask(w) == x))
        && (w == 2 ==> (x <= 3 ==> x & low_mask(w) == x))
        && (w == 3 ==> (x <= 7 ==> x & low_mask(w) == x))
        && (w == 4 ==> (x <= 0xf ==> x & low_mask(w) == x))
        && (w == 5 ==> (x <= 0x1f ==> x & low_mask(w) == x))
        && (w == 6 ==> (x <= 0x3f ==> x & low_mask(w) == x))
        && (w == 8 ==> (x <= 0xff ==> x & low_mask(w) == x))
        && (w == 10 ==> (x <= 0x3ff ==> x & low_mask(w) == x))
        && (w == 11 ==> (x <= 0x7ff ==> x & low_mask(w) == x))
        && (w == 16 ==> (x <= 0xffff ==> x & low_mask(w) == x))
        && (w == 20 ==> (x <= 0xf_ffff ==> x & low_mask(w) == x))
        && (w == 28 ==> (x <= 0xfff_ffff ==> x & low_mask(w) == x))
    ) by (bit_vector);
}

/// Reads the field of width `w` at bit `lo` of `v`.
pub fn read_bits(v: u32, lo: u32, w: u32) -> (r: u32)
    requires
        field_fits(lo, w),
    ensures
        r == get_bits(v, lo, w),
        w <= 1 ==> r <= 1,
        w <= 2 ==> r <= 3,
        w <= 3 ==> r <= 7,
        w <= 4 ==> r <= 0xf,
        w <= 5 ==> r <= 0x1f,
        w <= 6 ==> r <= 0x3f,
        w <= 8 ==> r <= 0xff,
        w <= 10 ==> r <= 0x3ff,
        w <= 11 ==> r <= 0x7ff,
        w <= 16 ==> r <= 0xffff,
        w <= 20 ==> r <= 0xf_ffff,
        w <= 28 ==> r <= 0xfff_ffff,
{
    proof {
        lemma_bits_bounds(v, lo, w, 0);
    }
    (v >> lo) & !(0xffff_ffffu32 << w)
}

/// Replaces the field of width `w` at bit `lo` of `v` with the low `w` bits of `x`.
pub fn write_bits(v: u32, lo: u32, w: u32, x: u32) -> (r: u32)
    requires
        field_fits(lo, w),
    ensures
        r == set_bits(v, lo, w, x),
{
    (v & !(!(0xffff_ffffu32 << w) << lo)) | ((x & !(0xffff_ffffu32 << w)) << lo)
}

/// Reads bit `i` of `v`.
pub fn read_bit(v: u32, i: u32) -> (r: bool)
    requires
        i < 32,
    ensures
        r == bit_is_set(v, i),
{
    read_bits(v, i, 1) == 1
}

/// Sets bit `i` of `v` to `b`.
pub fn write_bit(v: u32, i: u32, b: bool) -> (r: u32)
    requires
        i < 32,
    ensures
        r == set_bit(v, i, b),
{
    write_bits(v, i, 1, if b { 1 } else { 0 })
}

/// Writing a field that lies within the low 16 bits of a 16-bit value gives a 16-bit value.
pub proof fn lemma_set_bits_16(v: u32, lo: u32, w: u32, x: u32)
    requires
        field_fits(lo, w),
        lo + w <= 16,
        v <= 0xffff,
    ensures
        set_bits(v, lo, w, x) <= 0xffff,
{
    assert(set_bits(v, lo, w, x) <= 0xffff) by (bit_vector)
        requires
            1 <= w < 32,
            lo + w <= 16,
            v <= 0xffff,
    ;
}

/// Replaces the field of width `w` at bit `lo` of the 16-bit value `v` with the low `w` bits of `x`.
pub fn write_bits16(v: u16, lo: u32, w: u32, x: u16) -> (r: u16)
    requires
        field_fits(lo, w),
        lo + w <= 16,
    ensures
        r as u32 == set_bits(v as u32, lo, w, x as u32),
{
    proof {
        lemma_set_bits_16(v as u32, lo, w, x as u32);
    }
    write_bits(v as u32, lo, w, x as u32) as u16
}

/// Sets bit `i` of the 16-bit value `v` to `b`.
pub fn write_bit16(v: u16, i: u32, b: bool) -> (r: u16)
    requires
        i < 16,
    ensures
        r as u32 == set_bit(v as u32, i, b),
{
    write_bits16(v, i, 1, if b { 1 } else { 0 })
}

/// Setting a bit and reading it back gives the value set.
pub proof fn lemma_set_bit_reads_back(v: u32, i: u32, b: bool)
    requires
        i < 32,
    ensures
        bit_is_set(set_bit(v, i, b), i) == b,
{
    let x: u32 = if b { 1 } else { 0 };
    lemma_get_set_same(v, i, 1, x);
    assert(x & low_mask(1) == x) by (bit_vector)
        requires
            x <= 1,
    ;
}

/// Clearing the low 4, 5 or 6 bits of a 64-bit value rounds it down to a multiple of 16, 32 or 64.
pub proof fn lemma_clear_low_bits64(v: u64)
    ensures
        v & !0b1111u64 == v - v % 16,
        v & !0b1_1111u64 == v - v % 32,
        v & !0b11_1111u64 == v - v % 64,
        v & !0b1111u64 <= v,
        v & !0b1_1111u64 <= v,
        v & !0b11_1111u64 <= v,
{
    assert(v & !0b1111u64 == v - v % 16 && v & !0b1_1111u64 == v - v % 32 && v & !0b11_1111u64 == v - v % 64
        && v & !0b1111u64 <= v && v & !0b1_1111u64 <= v && v & !0b11_1111u64 <= v) by (bit_vector);
}

/// The value with the lowest `w` bits set (`w < 64`).
pub open spec fn low_mask64(w: u64) -> u64 {
    !(0xffff_ffff_ffff_ffffu64 << w)
}

/// The value of the field of width `w` starting at bit `lo` of the 64-bit `v`.
pub open spec fn get_bits64(v: u64, lo: u64, w: u64) -> u64 {
    (v >> lo) & low_mask64(w)
}

/// `v` with the field of width `w` at bit `lo` replaced by the low `w` bits of `x`.
pub open spec fn set_bits64(v: u64, lo: u64, w: u64, x: u64) -> u64 {
    (v & !(low_mask64(w) << lo)) | ((x & low_mask64(w)) << lo)
}

/// Whether a field of width `w` starting at bit `lo` fits in a 64-bit register.
pub open spec fn field_fits64(lo: u64, w: u64) -> bool {
    &&& 1 <= w < 64
    &&& lo + w <= 64
}

/// Reading a field of a 64-bit register that was just written gives back the written value, cut to the
/// field's width; every field that does not overlap it is unchanged.
pub proof fn lemma_get_set64(v: u64, lo: u64, w: u64, x: u64, lo2: u64, w2: u64)
    requires
        field_fits64(lo, w),
        field_fits64(lo2, w2),
    ensures
        get_bits64(set_bits64(v, lo, w, x), lo, w) == x & low_mask64(w),
        lo2 + w2 <= lo || lo + w <= lo2 ==> get_bits64(set_bits64(v, lo, w, x), lo2, w2) == get_bits64(v, lo2, w2),
{
    assert(get_bits64(set_bits64(v, lo, w, x), lo, w) == x & low_mask64(w)) by (bit_vector)
        requires
            1 <= w < 64,
            lo + w <= 64,
    ;
    assert(lo2 + w2 <= lo || lo + w <= lo2 ==> get_bits64(set_bits64(v, lo, w, x), lo2, w2) == get_bits64(v, lo2, w2)) by (bit_vector)
        requires
            1 <= w < 64,
            lo + w <= 64,
            1 <= w2 < 64,
            lo2 + w2 <= 64,
    ;
}

/// Reads the field of width `w` at bit `lo` of the 64-bit `v`.
pub fn read_bits64(v: u64, lo: u64, w: u64) -> (r: u64)
    requires
        field_fits64(lo, w),
    ensures
        r == get_bits64(v, lo, w),
{
    (v >> lo) & !(0xffff_ffff_ffff_ffffu64 << w)
}

/// Replaces the field of width `w` at bit `lo` of the 64-bit `v` with the low `w` bits of `x`.
pub fn write_bits64(v: u64, lo: u64, w: u64, x: u64) -> (r: u64)
    requires
        field_fits64(lo, w),
    ensures
        r == set_bits64(v, lo, w, x),
{
    (v & !(!(0xffff_ffff_ffff_ffffu64 << w) << lo)) | ((x & !(0xffff_ffff_ffff_ffffu64 << w)) << lo)
}

} // verus!
