//! Exact rates of change.
//!
//! A rate is kept as a fraction of two integers, so that nothing is rounded
//! inside the library. Whoever shows a rate divides the two parts.

use vstd::prelude::*;

verus! {

/// Nanoseconds in one second.
pub const NANOS_PER_SECOND: u64 = 1_000_000_000;

/// Bits in one byte.
pub const BITS_PER_BYTE: u64 = 8;

/// The non-negative fraction `num / den`.
///
/// Two rates are equal when both parts are equal: a rate is never reduced, so
/// that its parts can be read back as the products they were built from.
#[derive(Clone, Copy, Debug, PartialEq, Eq, Structural)]
pub struct Rate {
    pub num: u128,
    pub den: u128,
}

impl Rate {
    /// A rate is well formed when it can be divided out.
    pub open spec fn wf(self) -> bool {
        self.den > 0
    }

    /// The rate `0 / 1`.
    pub open spec fn zero_spec() -> Rate {
        Rate { num: 0, den: 1 }
    }

    /// The rate `0 / 1`, which stands for "no change" and for "not known".
    #[verifier::when_used_as_spec(zero_spec)]
    pub fn zero() -> (r: Rate)
        ensures
            r == Rate::zero_spec(),
            r.wf(),
    {
        Rate { num: 0, den: 1 }
    }
}

/// Time that passed from one capture to the next, in nanoseconds; zero when
/// the clock did not move forward between the two.
pub open spec fn elapsed_between(prev_time: u64, curr_time: u64) -> u64 {
    if curr_time > prev_time {
        (curr_time - prev_time) as u64
    } else {
        0
    }
}

/// Time that passed from one capture to the next, in nanoseconds.
///
/// Both times are nanoseconds since the Unix epoch. A clock that stood still
/// or went backwards gives zero, and every rate over zero elapsed time is zero.
pub fn elapsed_nanos(prev_time: u64, curr_time: u64) -> (r: u64)
    ensures
        r == elapsed_between(prev_time, curr_time),
{
    if curr_time > prev_time {
        curr_time - prev_time
    } else {
        0
    }
}

/// Bytes per second for `delta_bytes` moved in `elapsed` nanoseconds:
/// `delta_bytes * (10^9 / elapsed)`, and zero over zero elapsed time.
pub open spec fn byte_rate_of(delta_bytes: u64, elapsed: u64) -> Rate {
    if elapsed == 0 {
        Rate::zero_spec()
    } else {
        Rate { num: (delta_bytes * NANOS_PER_SECOND) as u128, den: elapsed as u128 }
    }
}

/// Bits per second for `delta_bytes` moved in `elapsed` nanoseconds: eight
/// times the byte rate.
pub open spec fn bit_rate_of(delta_bytes: u64, elapsed: u64) -> Rate {
    if elapsed == 0 {
        Rate::zero_spec()
    } else {
        Rate {
            num: (delta_bytes * NANOS_PER_SECOND * BITS_PER_BYTE) as u128,
            den: elapsed as u128,
        }
    }
}

/// A throughput can always be divided out, and its numerator is the full
/// product of the bytes moved and the scale, which fits without loss.
pub proof fn law_throughput_is_exact(delta_bytes: u64, elapsed: u64)
    ensures
        byte_rate_of(delta_bytes, elapsed).wf(),
        bit_rate_of(delta_bytes, elapsed).wf(),
        elapsed != 0 ==> {
            &&& byte_rate_of(delta_bytes, elapsed).num == delta_bytes * NANOS_PER_SECOND
            &&& bit_rate_of(delta_bytes, elapsed).num == delta_bytes * NANOS_PER_SECOND
                * BITS_PER_BYTE
            &&& byte_rate_of(delta_bytes, elapsed).den == elapsed
            &&& bit_rate_of(delta_bytes, elapsed).den == elapsed
        },
{
    assert(0 <= delta_bytes * NANOS_PER_SECOND <= u64::MAX * NANOS_PER_SECOND)
        by (nonlinear_arith)
        requires
            0 <= delta_bytes <= u64::MAX,
    ;
    assert(0 <= delta_bytes * NANOS_PER_SECOND * BITS_PER_BYTE <= u64::MAX * NANOS_PER_SECOND
        * BITS_PER_BYTE) by (nonlinear_arith)
        requires
            0 <= delta_bytes <= u64::MAX,
    ;
}

/// Throughput in bytes per second.
pub fn byte_rate(delta_bytes: u64, elapsed: u64) -> (r: Rate)
    ensures
        r == byte_rate_of(delta_bytes, elapsed),
        r.wf(),
{
    if elapsed == 0 {
        Rate::zero()
    } else {
        assert(delta_bytes * NANOS_PER_SECOND <= u64::MAX * NANOS_PER_SECOND) by (nonlinear_arith)
            requires
                delta_bytes <= u64::MAX,
        ;
        let delta: u128 = delta_bytes as u128;
        let hertz: u128 = NANOS_PER_SECOND as u128;
        Rate { num: delta * hertz, den: elapsed as u128 }
    }
}

/// Throughput in bits per second.
pub fn bit_rate(delta_bytes: u64, elapsed: u64) -> (r: Rate)
    ensures
        r == bit_rate_of(delta_bytes, elapsed),
        r.wf(),
        r.num == BITS_PER_BYTE * byte_rate_of(delta_bytes, elapsed).num,
        r.den == byte_rate_of(delta_bytes, elapsed).den,
{
    let bytes: Rate = byte_rate(delta_bytes, elapsed);
    assert(delta_bytes * NANOS_PER_SECOND * BITS_PER_BYTE <= u64::MAX * NANOS_PER_SECOND
        * BITS_PER_BYTE) by (nonlinear_arith)
        requires
            delta_bytes <= u64::MAX,
    ;
    assert(delta_bytes * NANOS_PER_SECOND * BITS_PER_BYTE == BITS_PER_BYTE * (delta_bytes
        * NANOS_PER_SECOND)) by (nonlinear_arith);
    let eight: u128 = BITS_PER_BYTE as u128;
    Rate { num: bytes.num * eight, den: bytes.den }
}

} // verus!
