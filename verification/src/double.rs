//! Double-precision numbers, held as their 64-bit patterns.
//!
//! A pattern has a sign bit, an exponent field of 11 bits and a fraction field of
//! 52 bits. Unless the exponent field is all ones (an infinity or a NaN), the
//! pattern stands for the number `(-1)^sign * significand * 2^exponent`, where the
//! two integers `significand` and `exponent` are read off the fields as below.
//! Everything here is arithmetic on those integers.

use vstd::prelude::*;
use vstd::arithmetic::power2::{
    lemma2_to64,
    lemma2_to64_rest,
    lemma_pow2_pos,
    lemma_pow2_strictly_increases,
    pow2,
};
use vstd::arithmetic::div_mod::lemma_small_mod;
use vstd::bits::{lemma_u64_pow2_no_overflow, lemma_u64_shl_is_mul};

verus! {

/// Value of the sign bit: two to the 63.
pub const SIGN: u64 = 0x8000_0000_0000_0000;

/// Value of the lowest bit of the exponent field, and of the bit that a normal
/// number has in front of its fraction: two to the 52.
pub const HIDDEN: u64 = 0x0010_0000_0000_0000;

/// Pattern of the number one.
pub const ONE: u64 = 0x3ff0_0000_0000_0000;

/// The sign bit: 1 for a negative pattern.
pub open spec fn sign_bit(bits: u64) -> int {
    bits as int / SIGN as int
}

/// The exponent field, from 0 to 2047.
pub open spec fn exponent_field(bits: u64) -> int {
    (bits as int / HIDDEN as int) % 2048
}

/// The fraction field, below two to the 52.
pub open spec fn fraction_field(bits: u64) -> int {
    bits as int % HIDDEN as int
}

/// The pattern stands for a number: it is neither an infinity nor a NaN.
pub open spec fn is_finite(bits: u64) -> bool {
    exponent_field(bits) != 2047
}

/// The integer that is scaled by a power of two. A subnormal pattern (exponent
/// field 0) has the bare fraction; any other has the hidden bit in front of it.
pub open spec fn significand(bits: u64) -> int {
    if exponent_field(bits) == 0 {
        fraction_field(bits)
    } else {
        HIDDEN as int + fraction_field(bits)
    }
}

/// The power of two that scales the significand.
pub open spec fn exponent(bits: u64) -> int {
    if exponent_field(bits) == 0 {
        -1074
    } else {
        exponent_field(bits) - 1075
    }
}

/// The number has no fractional part: `significand * 2^exponent` is an integer.
pub open spec fn is_whole(bits: u64) -> bool {
    &&& is_finite(bits)
    &&& (exponent(bits) >= 0 || significand(bits) % (pow2((-exponent(bits)) as nat) as int) == 0)
}

/// The integer `significand * 2^exponent` of a whole number.
pub open spec fn whole_magnitude(bits: u64) -> int
    recommends
        is_whole(bits),
{
    if exponent(bits) >= 0 {
        significand(bits) * pow2(exponent(bits) as nat)
    } else {
        significand(bits) / (pow2((-exponent(bits)) as nat) as int)
    }
}

/// The integer that a whole number is.
pub open spec fn whole_value(bits: u64) -> int
    recommends
        is_whole(bits),
{
    if sign_bit(bits) == 1 {
        -whole_magnitude(bits)
    } else {
        whole_magnitude(bits)
    }
}

/// The number lies between zero and one: its sign bit is clear, and
/// `significand * 2^exponent` is at most one.
pub open spec fn in_unit_interval(bits: u64) -> bool {
    &&& is_finite(bits)
    &&& sign_bit(bits) == 0
    &&& exponent(bits) <= 0
    &&& significand(bits) <= pow2((-exponent(bits)) as nat)
}

/// The nearest `i64` to an integer.
pub open spec fn saturate(v: int) -> i64 {
    if v < i64::MIN {
        i64::MIN
    } else if v > i64::MAX {
        i64::MAX
    } else {
        v as i64
    }
}

/// The numbers between zero and one are the patterns up to that of one: among
/// patterns with a clear sign bit, a greater pattern is a greater number.
pub proof fn lemma_unit_interval_patterns(bits: u64)
    ensures
        in_unit_interval(bits) <==> bits <= ONE,
{
    lemma2_to64();
    lemma2_to64_rest();
    let e = exponent_field(bits);
    if sign_bit(bits) == 0 && e != 2047 {
        if e == 0 {
            lemma_pow2_strictly_increases(52, 1074);
        } else if e < 1023 {
            let n = (1075 - e) as nat;
            if n > 53 {
                lemma_pow2_strictly_increases(53, n);
            }
        } else if e <= 1075 {
            let n = (1075 - e) as nat;
            if n < 52 {
                lemma_pow2_strictly_increases(n, 52);
            }
        }
    }
}

/// The whole numbers between zero and one are zero and one themselves.
pub proof fn lemma_unit_interval(bits: u64)
    requires
        in_unit_interval(bits),
    ensures
        is_whole(bits) <==> (bits == 0 || bits == ONE),
        bits == 0 ==> whole_value(bits) == 0,
        bits == ONE ==> whole_value(bits) == 1,
{
    lemma_unit_interval_patterns(bits);
    lemma2_to64();
    lemma2_to64_rest();
    let e = exponent_field(bits);
    let f = fraction_field(bits);
    if e == 0 {
        lemma_pow2_strictly_increases(52, 1074);
        lemma_small_mod(f as nat, pow2(1074));
    } else if e < 1023 {
        let n = (1075 - e) as nat;
        if n > 53 {
            lemma_pow2_strictly_increases(53, n);
        }
        lemma_small_mod(significand(bits) as nat, pow2(n));
    } else {
        assert(bits == ONE);
        assert(significand(bits) == HIDDEN);
        assert(exponent(bits) == -52);
        assert(HIDDEN as int % (pow2(52) as int) == 0);
        assert(HIDDEN as int / (pow2(52) as int) == 1);
    }
}

/// The integer that the number is, where it has no fractional part. A value
/// outside `i64` is given as the nearest end of `i64`.
pub fn to_whole(bits: u64) -> (whole: Option<i64>)
    ensures
        whole == if is_whole(bits) {
            Some(saturate(whole_value(bits)))
        } else {
            None::<i64>
        },
{
    let negative: bool = bits >= SIGN;
    let e: u64 = (bits / HIDDEN) % 2048;
    let f: u64 = bits % HIDDEN;
    proof {
        lemma2_to64();
        lemma2_to64_rest();
        assert(negative <==> sign_bit(bits) == 1);
        assert(e == exponent_field(bits));
        assert(f == fraction_field(bits));
    }
    if e == 2047 {
        None
    } else if e == 0 {
        proof {
            lemma_pow2_strictly_increases(52, 1074);
            lemma_small_mod(f as nat, pow2(1074));
        }
        if f == 0 {
            Some(0)
        } else {
            None
        }
    } else if e < 1023 {
        proof {
            let n = (1075 - e) as nat;
            if n > 53 {
                lemma_pow2_strictly_increases(53, n);
            }
            lemma_small_mod((HIDDEN + f) as nat, pow2(n));
        }
        None
    } else {
        let sig: u64 = HIDDEN + f;
        if e < 1075 {
            let shift: u64 = 1075 - e;
            let p: u64 = 1u64 << shift;
            proof {
                lemma_u64_pow2_no_overflow(shift as nat);
                lemma_u64_shl_is_mul(1, shift);
                lemma_pow2_pos(shift as nat);
                assert(p == pow2(shift as nat));
            }
            if sig % p == 0 {
                let m: u64 = sig / p;
                if negative {
                    Some(-(m as i64))
                } else {
                    Some(m as i64)
                }
            } else {
                None
            }
        } else if e <= 1085 {
            let shift: u64 = e - 1075;
            let p: u64 = 1u64 << shift;
            proof {
                lemma_u64_pow2_no_overflow(shift as nat);
                lemma_u64_shl_is_mul(1, shift);
                assert(p == pow2(shift as nat));
                if shift < 10 {
                    lemma_pow2_strictly_increases(shift as nat, 10);
                }
                assert(p <= 1024);
                assert(sig * p <= 0x7fff_ffff_ffff_fc00) by (nonlinear_arith)
                    requires
                        sig < 0x0020_0000_0000_0000,
                        p <= 1024,
                ;
            }
            let m: u64 = sig * p;
            if negative {
                Some(-(m as i64))
            } else {
                Some(m as i64)
            }
        } else {
            proof {
                let k = (e - 1075) as nat;
                if k > 11 {
                    lemma_pow2_strictly_increases(11, k);
                }
                assert(sig * pow2(k) >= 0x8000_0000_0000_0000) by (nonlinear_arith)
                    requires
                        sig >= 0x0010_0000_0000_0000,
                        pow2(k) >= 2048,
                ;
            }
            if negative {
                Some(i64::MIN)
            } else {
                Some(i64::MAX)
            }
        }
    }
}

} // verus!
