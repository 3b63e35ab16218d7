//! Decoding of motion bursts.

use super::registers::{
    BURST_DATA_LEN_SMART, BURST_DELTA_XY_H, BURST_DELTA_X_L, BURST_DELTA_Y_L, BURST_MOTION,
    BURST_SHUTTER_HI, BURST_SHUTTER_LO, MOTION_STATUS_MOTION, PMW3610_DATA_SIZE_BITS,
    SHUTTER_SMART_THRESHOLD,
};
use super::types::MotionData;
use vstd::arithmetic::power2::pow2;
use vstd::prelude::*;

verus! {

/// The number that the low `bits + 1` bits of `value` stand for in two's
/// complement where bit `bits` is set; elsewhere, the number that all sixteen
/// bits stand for.
pub open spec fn sign_extended(value: u16, bits: nat) -> int {
    if (value as nat / pow2(bits)) % 2 == 1 {
        value as nat % pow2(bits + 1) - pow2(bits + 1)
    } else if value < 0x8000 {
        value as int
    } else {
        value - 0x10000
    }
}

/// Extends the sign bit at position `bits` over the bits above it. With the sign
/// bit at position 15 there is nothing above it, and no mask for it either.
pub fn sign_extend(value: u16, bits: usize) -> (extended: i16)
    requires
        bits < 15 || (bits == 15 && value < 0x8000),
    ensures
        extended == sign_extended(value, bits as nat),
{
    let sign_bit: u16 = 1u16 << bits;
    proof {
        let n = bits as nat;
        vstd::bits::lemma_u16_shr_is_div(value, bits as u16);
        assert((value & (1u16 << bits) != 0) <==> (value >> bits) % 2 == 1) by (bit_vector)
            requires
                bits < 16,
        ;
        assert(value >= 0x8000 ==> value as i16 == value - 0x10000) by (bit_vector);
        assert(value < 0x8000 ==> value as i16 == value) by (bit_vector);
        assert(bits == 15 && value < 0x8000 ==> value & (1u16 << bits) == 0) by (bit_vector);
    }
    if value & sign_bit != 0 {
        let above: usize = bits + 1;
        proof {
            let n = above as nat;
            vstd::bits::lemma_u16_pow2_no_overflow(n);
            vstd::bits::lemma_u16_shl_is_mul(1u16, above as u16);
            vstd::bits::lemma_u16_low_bits_mask_is_mod(value, n);
            let mask: u16 = ((1u16 << above) - 1) as u16;
            assert(vstd::bits::low_bits_mask(n) as u16 == mask);
            assert((value | !mask) == (value & mask) + (0xffff - mask)) by (bit_vector);
            assert((value | !mask) >= 0x8000) by (bit_vector)
                requires
                    value & sign_bit != 0,
                    sign_bit == 1u16 << bits,
                    mask == (1u16 << above) - 1,
                    above == bits + 1,
                    bits < 15,
            ;
            let wide: u16 = value | !mask;
            assert(wide >= 0x8000 ==> wide as i16 == wide - 0x10000) by (bit_vector);
        }
        (value | !((1u16 << above) - 1)) as i16
    } else {
        value as i16
    }
}

/// The number that a twelve-bit value stands for in two's complement.
pub open spec fn twelve_bit(raw: int) -> int {
    if raw < 2048 {
        raw
    } else {
        raw - 4096
    }
}

/// Extending a twelve-bit value from its top bit gives the number that it stands for.
pub proof fn lemma_twelve_bit(raw: u16)
    requires
        raw < 4096,
    ensures
        sign_extended(raw, 11) == twelve_bit(raw as int),
        -2048 <= twelve_bit(raw as int) < 2048,
{
    vstd::arithmetic::power2::lemma2_to64();
    let v = raw as nat;
    assert(v / pow2(11) == v / 2048);
    assert(v % pow2(12) == v % 4096);
    assert(11nat + 1 == 12nat);
    assert((v / 2048) % 2 == 1 <==> v >= 2048);
}

/// Whether a burst reports movement: the top bit of its first byte.
pub open spec fn motion_reported(frame: Seq<u8>) -> bool {
    frame[BURST_MOTION as int] >= 0x80
}

/// The movement in a burst. The fourth byte holds the top four bits of both
/// deltas, those of X above those of Y.
pub open spec fn motion_of(frame: Seq<u8>) -> MotionData {
    let high = frame[BURST_DELTA_XY_H as int] as int;
    MotionData {
        dx: twelve_bit((high / 16) * 256 + frame[BURST_DELTA_X_L as int]) as i16,
        dy: twelve_bit((high % 16) * 256 + frame[BURST_DELTA_Y_L as int]) as i16,
    }
}

/// Whether a movement is one that a burst can hold.
pub open spec fn in_range(motion: MotionData) -> bool {
    -2048 <= motion.dx <= 2047 && -2048 <= motion.dy <= 2047
}

/// The shutter value in a burst.
pub open spec fn shutter_of(frame: Seq<u8>) -> int {
    frame[BURST_SHUTTER_HI as int] * 256 + frame[BURST_SHUTTER_LO as int]
}

/// Tells whether a burst reports movement.
pub fn has_motion(frame: &[u8; BURST_DATA_LEN_SMART]) -> (moved: bool)
    ensures
        moved == motion_reported(frame@),
{
    let status: u8 = frame[BURST_MOTION];
    assert((status & 0x80u8 == 0) <==> status < 0x80) by (bit_vector);
    (status & MOTION_STATUS_MOTION) != 0x00
}

/// Reads the movement out of a burst.
pub fn decode_motion(frame: &[u8; BURST_DATA_LEN_SMART]) -> (motion: MotionData)
    ensures
        motion == motion_of(frame@),
        in_range(motion),
{
    let high: u8 = frame[BURST_DELTA_XY_H];
    let x_low: u8 = frame[BURST_DELTA_X_L];
    let y_low: u8 = frame[BURST_DELTA_Y_L];
    let x: u16 = ((high as u16) << 4) & 0xf00 | (x_low as u16);
    let y: u16 = ((high as u16) << 8) & 0xf00 | (y_low as u16);
    proof {
        assert(((high as u16) << 4) & 0xf00 | (x_low as u16) == (high / 16) * 256 + x_low)
            by (bit_vector);
        assert(((high as u16) << 8) & 0xf00 | (y_low as u16) == (high % 16) * 256 + y_low)
            by (bit_vector);
        lemma_twelve_bit(x);
        lemma_twelve_bit(y);
    }
    let dx: i16 = sign_extend(x, PMW3610_DATA_SIZE_BITS - 1);
    let dy: i16 = sign_extend(y, PMW3610_DATA_SIZE_BITS - 1);
    MotionData { dx, dy }
}

/// The value that the smart flag is to take on, or `None` if it stays: a shutter
/// value under the threshold clears it, one over the threshold sets it.
pub open spec fn smart_change(smart_flag: bool, shutter: int) -> Option<bool> {
    if smart_flag && shutter < SHUTTER_SMART_THRESHOLD {
        Some(false)
    } else if !smart_flag && shutter > SHUTTER_SMART_THRESHOLD {
        Some(true)
    } else {
        None
    }
}

/// Decides from a burst whether the smart flag is to change.
pub fn decide_smart_change(smart_flag: bool, frame: &[u8; BURST_DATA_LEN_SMART]) -> (change: Option<
    bool,
>)
    ensures
        change == smart_change(smart_flag, shutter_of(frame@)),
{
    let high: u8 = frame[BURST_SHUTTER_HI];
    let low: u8 = frame[BURST_SHUTTER_LO];
    let shutter: u16 = ((high as u16) << 8) | (low as u16);
    assert(((high as u16) << 8) | (low as u16) == high * 256 + low) by (bit_vector);
    if smart_flag && shutter < SHUTTER_SMART_THRESHOLD {
        Some(false)
    } else if !smart_flag && shutter > SHUTTER_SMART_THRESHOLD {
        Some(true)
    } else {
        None
    }
}

/// Twelve bits of two's complement for a number that they can hold.
pub open spec fn twelve_bits_of(v: int) -> int {
    if v < 0 {
        v + 4096
    } else {
        v
    }
}

/// A burst with movement in it reads back as that movement, over the whole range of
/// twelve-bit deltas.
pub proof fn law_motion_reads_back(frame: Seq<u8>, dx: i16, dy: i16)
    requires
        in_range(MotionData { dx, dy }),
        frame[BURST_DELTA_X_L as int] == twelve_bits_of(dx as int) % 256,
        frame[BURST_DELTA_Y_L as int] == twelve_bits_of(dy as int) % 256,
        frame[BURST_DELTA_XY_H as int] == (twelve_bits_of(dx as int) / 256) * 16
            + twelve_bits_of(dy as int) / 256,
    ensures
        motion_of(frame) == (MotionData { dx, dy }),
{
}

/// Extending the sign of a value of `bits + 1` bits gives the number that it stands
/// for in two's complement.
pub proof fn law_sign_extension(value: u16, bits: nat)
    requires
        bits < 15,
        value < pow2(bits + 1),
    ensures
        sign_extended(value, bits) == if value < pow2(bits) {
            value as int
        } else {
            value - pow2(bits + 1)
        },
        -pow2(bits) <= sign_extended(value, bits) < pow2(bits),
{
    let v = value as nat;
    let p = pow2(bits);
    vstd::arithmetic::power2::lemma_pow2_pos(bits);
    vstd::arithmetic::power2::lemma_pow2_unfold(bits + 1);
    assert(pow2(bits + 1) == 2 * p);
    vstd::bits::lemma_u16_pow2_no_overflow(bits + 1);
    assert(p <= 0x4000) by {
        if bits < 14 {
            vstd::arithmetic::power2::lemma_pow2_strictly_increases(bits, 14);
        }
        vstd::arithmetic::power2::lemma2_to64();
    }
    assert(v % (2 * p) == v) by (nonlinear_arith)
        requires
            v < 2 * p,
            p > 0,
    ;
    if v < p {
        assert(v / p == 0) by (nonlinear_arith)
            requires
                v < p,
        ;
    } else {
        assert(v / p == 1) by (nonlinear_arith)
            requires
                p <= v < 2 * p,
        ;
    }
}

/// Bits above the sign bit do not count where the sign bit is set: the extension is the
/// negative number in range that agrees with the value in the bits up to the sign bit.
/// Where the sign bit is clear the value stays as it is.
pub proof fn law_sign_bit_decides(value: u16, bits: nat)
    requires
        bits < 15,
    ensures
        (value as nat / pow2(bits)) % 2 == 1 ==> {
            &&& -pow2(bits) <= sign_extended(value, bits) < 0
            &&& (value - sign_extended(value, bits)) % pow2(bits + 1) as int == 0
        },
        (value as nat / pow2(bits)) % 2 == 0 && value < 0x8000 ==> sign_extended(value, bits)
            == value,
{
    let v = value as int;
    let p = pow2(bits) as int;
    vstd::arithmetic::power2::lemma_pow2_pos(bits);
    vstd::arithmetic::power2::lemma_pow2_unfold(bits + 1);
    if (value as nat / pow2(bits)) % 2 == 1 {
        let half = (v / p) / 2;
        let low = v % p;
        vstd::arithmetic::div_mod::lemma_fundamental_div_mod(v, p);
        vstd::arithmetic::div_mod::lemma_mod_bound(v, p);
        assert(p * (v / p) == (2 * p) * half + p) by (nonlinear_arith)
            requires
                v / p == 2 * half + 1,
        ;
        assert(v == (2 * p) * half + (p + low));
        vstd::arithmetic::div_mod::lemma_fundamental_div_mod_converse(v, 2 * p, half, p + low);
        assert(v - sign_extended(value, bits) == (half + 1) * (2 * p)) by (nonlinear_arith)
            requires
                v == (2 * p) * half + (p + low),
                sign_extended(value, bits) == (p + low) - 2 * p,
        ;
        vstd::arithmetic::div_mod::lemma_mod_multiples_basic(half + 1, 2 * p);
    }
}

/// A change of the smart flag settles it: the same shutter value does not change it
/// again, and a shutter value at the threshold never does.
pub proof fn law_smart_flag_settles(smart_flag: bool, shutter: int)
    ensures
        smart_change(smart_flag, shutter) matches Some(changed) ==> {
            &&& changed != smart_flag
            &&& smart_change(changed, shutter) is None
        },
        smart_change(smart_flag, SHUTTER_SMART_THRESHOLD as int) is None,
{
}

} // verus!
