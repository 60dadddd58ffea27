use vstd::prelude::*;

verus! {

/// Nano-units in one unit of length.
pub const NANOS_PER_UNIT: i64 = 1_000_000_000;

/// Microseconds in one second.
pub const MICROS_PER_SECOND: u64 = 1_000_000;

/// A scale factor of one, in thousandths.
pub const UNIT_SCALE: u32 = 1000;

/// A point (or a vector) in the plane, each coordinate in nano-units
/// (for a velocity: milli-units per second).
#[derive(Clone, Copy, Debug, PartialEq, Eq, Structural)]
pub struct Point {
    pub x: i64,
    pub y: i64,
}

/// A per-axis scale factor, in thousandths.
#[derive(Clone, Copy, Debug, PartialEq, Eq, Structural)]
pub struct Scale {
    pub x: u32,
    pub y: u32,
}

/// `v` held within the range of `i64`.
pub open spec fn saturate(v: int) -> int {
    if v < i64::MIN {
        i64::MIN as int
    } else if v > i64::MAX {
        i64::MAX as int
    } else {
        v
    }
}

/// A coordinate moved at `rate` milli-units per second for `dt_us`
/// microseconds; the result saturates at the bounds of `i64`.
pub fn displace(coord: i64, rate: i64, dt_us: u64) -> (r: i64)
    ensures
        r == saturate(coord + rate * dt_us),
{
    proof {
        assert(-0x8000_0000_0000_0000 * 0xffff_ffff_ffff_ffff <= rate * dt_us
            <= 0x7fff_ffff_ffff_ffff * 0xffff_ffff_ffff_ffff) by (nonlinear_arith)
            requires
                -0x8000_0000_0000_0000 <= rate <= 0x7fff_ffff_ffff_ffff,
                0 <= dt_us <= 0xffff_ffff_ffff_ffff,
        ;
    }
    let prod: i128 = (rate as i128) * (dt_us as i128);
    let wide: i128 = (coord as i128) + prod;
    if wide < i64::MIN as i128 {
        i64::MIN
    } else if wide > i64::MAX as i128 {
        i64::MAX
    } else {
        wide as i64
    }
}

} // verus!
