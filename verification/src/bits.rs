//! Bits and bit fields of one-byte registers.

use vstd::prelude::*;
use vstd::arithmetic::power2::pow2;

verus! {

/// Whether bit `i` (0 = least significant) of `raw` is set.
pub open spec fn bit_is_set(raw: u8, i: u8) -> bool {
    (raw >> i) & 1u8 == 1u8
}

/// The mask of the lowest `width` bits.
pub open spec fn low_mask(width: u8) -> u8 {
    if width >= 8 {
        0xffu8
    } else {
        ((1u8 << width) - 1u8) as u8
    }
}

/// The `width`-bit field of `raw` that starts at bit `lo`.
pub open spec fn field_value(raw: u8, lo: u8, width: u8) -> u8 {
    (raw >> lo) & low_mask(width)
}

/// Whether bit `i` lies in the field of `width` bits that starts at bit `lo`.
pub open spec fn in_field(i: u8, lo: u8, width: u8) -> bool {
    lo <= i < lo + width
}

/// `raw` with bit `i` set to `value`.
pub fn with_bit(raw: u8, i: u8, value: bool) -> (r: u8)
    requires
        i < 8,
    ensures
        bit_is_set(r, i) == value,
        forall|j: u8| j < 8 && j != i ==> bit_is_set(r, j) == bit_is_set(raw, j),
        r == if value {
            raw | (1u8 << i)
        } else {
            raw & !(1u8 << i)
        },
{
    let r = if value {
        raw | (1u8 << i)
    } else {
        raw & !(1u8 << i)
    };
    assert(bit_is_set(r, i) == value) by (bit_vector)
        requires
            i < 8,
            r == if value {
                raw | (1u8 << i)
            } else {
                raw & !(1u8 << i)
            },
    ;
    assert forall|j: u8| j < 8 && j != i implies bit_is_set(r, j) == bit_is_set(raw, j) by {
        assert(bit_is_set(r, j) == bit_is_set(raw, j)) by (bit_vector)
            requires
                i < 8,
                j < 8,
                j != i,
                r == if value {
                    raw | (1u8 << i)
                } else {
                    raw & !(1u8 << i)
                },
        ;
    }
    r
}

/// Whether bit `i` of `raw` is set.
pub fn get_bit(raw: u8, i: u8) -> (b: bool)
    requires
        i < 8,
    ensures
        b == bit_is_set(raw, i),
{
    (raw >> i) & 1u8 == 1u8
}

/// The field of `width` bits of `raw` that starts at bit `lo`.
pub fn get_field(raw: u8, lo: u8, width: u8) -> (v: u8)
    requires
        1 <= width,
        lo + width <= 8,
    ensures
        v == field_value(raw, lo, width),
        v < (1u8 << width) || width == 8,
{
    assert(width < 8 ==> (1u8 << width) >= 1u8) by (bit_vector);
    let mask: u8 = if width >= 8 {
        0xffu8
    } else {
        (1u8 << width) - 1u8
    };
    let v = (raw >> lo) & mask;
    assert(v < (1u8 << width) || width == 8) by (bit_vector)
        requires
            1 <= width <= 8,
            v == (raw >> lo) & mask,
            mask == if width >= 8 {
                0xffu8
            } else {
                ((1u8 << width) - 1u8) as u8
            },
    ;
    v
}

/// `raw` with the `width`-bit field that starts at bit `lo` set to `value`.
pub fn with_field(raw: u8, lo: u8, width: u8, value: u8) -> (r: u8)
    requires
        1 <= width,
        lo + width <= 8,
        width == 8 || value < (1u8 << width),
    ensures
        field_value(r, lo, width) == value,
        forall|j: u8| j < 8 && !in_field(j, lo, width) ==> bit_is_set(r, j) == bit_is_set(raw, j),
        r == (raw & !(low_mask(width) << lo)) | (value << lo),
{
    assert(width < 8 ==> (1u8 << width) >= 1u8) by (bit_vector);
    let mask: u8 = if width >= 8 {
        0xffu8
    } else {
        (1u8 << width) - 1u8
    };
    let r = (raw & !(mask << lo)) | ((value & mask) << lo);
    assert(field_value(r, lo, width) == value) by (bit_vector)
        requires
            1 <= width,
            lo + width <= 8,
            width == 8 || value < (1u8 << width),
            mask == if width >= 8 {
                0xffu8
            } else {
                ((1u8 << width) - 1u8) as u8
            },
            r == (raw & !(mask << lo)) | ((value & mask) << lo),
    ;
    assert(r == (raw & !(low_mask(width) << lo)) | (value << lo)) by (bit_vector)
        requires
            1 <= width,
            lo + width <= 8,
            width == 8 || value < (1u8 << width),
            mask == if width >= 8 {
                0xffu8
            } else {
                ((1u8 << width) - 1u8) as u8
            },
            r == (raw & !(mask << lo)) | ((value & mask) << lo),
    ;
    assert forall|j: u8| j < 8 && !in_field(j, lo, width) implies bit_is_set(r, j) == bit_is_set(
        raw,
        j,
    ) by {
        assert(bit_is_set(r, j) == bit_is_set(raw, j)) by (bit_vector)
            requires
                1 <= width,
                lo + width <= 8,
                j < 8,
                !(lo <= j && j < lo + width),
                mask == if width >= 8 {
                    0xffu8
                } else {
                    ((1u8 << width) - 1u8) as u8
                },
                r == (raw & !(mask << lo)) | ((value & mask) << lo),
        ;
    }
    r
}

/// Bit `i` of a byte is set exactly when the byte, divided by 2^i and rounded
/// down, is odd.
pub proof fn lemma_bit_is_set_is_binary_digit(raw: u8, i: u8)
    requires
        i < 8,
    ensures
        bit_is_set(raw, i) == ((raw as nat / pow2(i as nat)) % 2 == 1),
{
    vstd::bits::lemma_u8_shr_is_div(raw, i);
    let x = raw >> i;
    assert((x & 1u8 == 1u8) == (x % 2 == 1)) by (bit_vector);
}

/// The field of `width` bits that starts at bit `lo` holds the byte's binary
/// digits `lo` to `lo + width - 1`: the byte divided by 2^lo, modulo 2^width.
pub proof fn lemma_field_value_is_binary_digits(raw: u8, lo: u8, width: u8)
    requires
        1 <= width,
        lo + width <= 8,
    ensures
        field_value(raw, lo, width) == (raw as nat / pow2(lo as nat)) % pow2(width as nat),
{
    vstd::bits::lemma_u8_shr_is_div(raw, lo);
    vstd::arithmetic::power2::lemma2_to64();
    let x = raw >> lo;
    assert(x == raw as nat / pow2(lo as nat));
    if width < 8 {
        vstd::bits::lemma_u8_pow2_no_overflow(width as nat);
        vstd::bits::lemma_u8_shl_is_mul(1u8, width);
        assert(low_mask(width) == (vstd::bits::low_bits_mask(width as nat) as u8));
        vstd::bits::lemma_u8_low_bits_mask_is_mod(x, width as nat);
        assert((pow2(width as nat) as u8) as nat == pow2(width as nat));
        assert(field_value(raw, lo, width) == x % (pow2(width as nat) as u8));
        assert(field_value(raw, lo, width) == (x as nat) % pow2(width as nat));
    } else {
        assert(x & 0xffu8 == x) by (bit_vector);
        assert(lo == 0);
        assert(pow2(0) == 1 && pow2(8) == 256);
        assert(field_value(raw, lo, width) == x);
        assert(x as nat % 256 == x);
    }
}

/// The values of `1 << k` for every bit position `k` of a byte.
pub proof fn lemma_u8_bit_weights()
    ensures
        (1u8 << 0u8) == 1,
        (1u8 << 1u8) == 2,
        (1u8 << 2u8) == 4,
        (1u8 << 3u8) == 8,
        (1u8 << 4u8) == 16,
        (1u8 << 5u8) == 32,
        (1u8 << 6u8) == 64,
        (1u8 << 7u8) == 128,
{
    assert((1u8 << 0u8) == 1 && (1u8 << 1u8) == 2 && (1u8 << 2u8) == 4 && (1u8 << 3u8) == 8 && (1u8
        << 4u8) == 16 && (1u8 << 5u8) == 32 && (1u8 << 6u8) == 64 && (1u8 << 7u8) == 128)
        by (bit_vector);
}

} // verus!
