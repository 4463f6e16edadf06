//! Canonical little-endian encodings of the integer types.

use vstd::prelude::*;

verus! {

/// The `width` low-order bytes of `value`, least significant first. A
/// negative `value` is taken in two's complement.
pub open spec fn le_bytes(value: int, width: nat) -> Seq<u8>
    decreases width,
{
    if width == 0 {
        Seq::empty()
    } else {
        seq![(value % 256) as u8] + le_bytes(value / 256, (width - 1) as nat)
    }
}

/// 256 to the power `width`.
pub open spec fn radix_pow(width: nat) -> int
    decreases width,
{
    if width == 0 {
        1
    } else {
        256 * radix_pow((width - 1) as nat)
    }
}

/// Encodes the `width` low-order bytes of an unsigned value.
pub fn encode_unsigned(value: u128, width: usize) -> (bytes: Vec<u8>)
    ensures
        bytes@ == le_bytes(value as int, width as nat),
{
    let mut bytes: Vec<u8> = Vec::new();
    let mut rest: u128 = value;
    let mut done: usize = 0;
    while done < width
        invariant
            done <= width,
            le_bytes(value as int, width as nat) == bytes@ + le_bytes(
                rest as int,
                (width - done) as nat,
            ),
        decreases width - done,
    {
        let low: u8 = (rest % 256) as u8;
        proof {
            let tail = le_bytes(rest as int / 256, (width - done - 1) as nat);
            assert(le_bytes(rest as int, (width - done) as nat) == seq![low] + tail);
            assert(bytes@ + (seq![low] + tail) =~= bytes@.push(low) + tail);
        }
        bytes.push(low);
        rest = rest / 256;
        done += 1;
    }
    assert(bytes@ + le_bytes(rest as int, 0) =~= bytes@);
    bytes
}

/// Encodes a signed value of `width` bytes in two's complement.
pub fn encode_signed(value: i128, width: usize) -> (bytes: Vec<u8>)
    requires
        width <= 16,
    ensures
        bytes@ == le_bytes(value as int, width as nat),
{
    if value >= 0 {
        encode_unsigned(value as u128, width)
    } else {
        // value + 2^128, which has the same sixteen low-order bytes.
        let lifted: u128 = (value - i128::MIN) as u128 + 0x8000_0000_0000_0000_0000_0000_0000_0000u128;
        proof {
            lemma_radix_pow_16();
            lemma_le_bytes_wraps_wide(value as int, width as nat, 16);
        }
        encode_unsigned(lifted, width)
    }
}

/// 256^16 is 2^128.
pub proof fn lemma_radix_pow_16()
    ensures
        radix_pow(16) == 0x1_0000_0000_0000_0000_0000_0000_0000_0000int,
{
    reveal_with_fuel(radix_pow, 17);
}

/// Adding 256^wide, for `wide >= width`, leaves the `width` low-order bytes
/// as they are: this is two's complement.
pub proof fn lemma_le_bytes_wraps_wide(value: int, width: nat, wide: nat)
    requires
        width <= wide,
    ensures
        le_bytes(value + radix_pow(wide), width) == le_bytes(value, width),
    decreases width,
{
    if width > 0 {
        let rest = radix_pow((wide - 1) as nat);
        assert((value + 256 * rest) % 256 == value % 256 && (value + 256 * rest) / 256 == value
            / 256 + rest) by (nonlinear_arith);
        lemma_le_bytes_wraps_wide(value / 256, (width - 1) as nat, (wide - 1) as nat);
    }
}

} // verus!
