//! The magnetometer calibration model: the record itself, the transform that
//! applies it to a raw reading, and the derivation of a new record from the
//! per-axis extremes of a window of raw samples.

use vstd::prelude::*;

verus! {

/// One raw axis triple from either sensor, in the sensor's native units.
#[derive(Clone, Copy, Debug, PartialEq, Eq, Structural)]
pub struct Measurement {
    pub x: i32,
    pub y: i32,
    pub z: i32,
}

/// Fixed-point denominator of the per-axis scale factors: a scale equal to
/// `SCALE_UNIT` leaves an axis unchanged.
pub const SCALE_UNIT: i64 = 1000;

/// A calibration record: `center` is the per-axis hard-iron bias, `scale` the
/// per-axis soft-iron correction in `SCALE_UNIT` fixed point, and `radius`
/// the shared reference half-range the scales normalize each axis toward.
#[derive(Clone, Copy, Debug, PartialEq, Eq, Structural)]
pub struct Calibration {
    pub center: Measurement,
    pub scale: Measurement,
    pub radius: i32,
}

impl Calibration {
    /// Scales and radius are always positive; the derivation below
    /// establishes this constructively.
    pub open spec fn wf(self) -> bool {
        &&& 1 <= self.scale.x
        &&& 1 <= self.scale.y
        &&& 1 <= self.scale.z
        &&& 1 <= self.radius
    }
}

/// Division truncating toward zero, as the machine division does.
pub open spec fn trunc_div(p: int, d: int) -> int {
    if p >= 0 {
        p / d
    } else {
        -((-p) / d)
    }
}

/// The corrected value of one axis: the bias removed, then the fixed-point
/// scale applied. Depends only on this axis's raw value, center and scale.
pub open spec fn axis_corrected(raw: int, center: int, scale: int) -> int {
    trunc_div((raw - center) * scale, SCALE_UNIT as int)
}

/// The whole corrected triple, as unbounded integers.
pub open spec fn spec_corrected(raw: Measurement, cal: Calibration) -> (int, int, int) {
    (
        axis_corrected(raw.x as int, cal.center.x as int, cal.scale.x as int),
        axis_corrected(raw.y as int, cal.center.y as int, cal.scale.y as int),
        axis_corrected(raw.z as int, cal.center.z as int, cal.scale.z as int),
    )
}

fn corrected_axis_wide(raw: i32, center: i32, scale: i32) -> (q: i64)
    requires
        1 <= scale,
    ensures
        q as int == axis_corrected(raw as int, center as int, scale as int),
{
    let d: i64 = raw as i64 - center as i64;
    proof {
        assert(-0x1_0000_0000 < (d as int) < 0x1_0000_0000);
        assert(i64::MIN < (d as int) * (scale as int) < i64::MAX) by (nonlinear_arith)
            requires
                -0x1_0000_0000 < (d as int) < 0x1_0000_0000,
                1 <= (scale as int) < 0x8000_0000,
        ;
    }
    let p: i64 = d * (scale as i64);
    let q: i64 = p / SCALE_UNIT;
    q
}

fn corrected_axis(raw: i32, center: i32, scale: i32) -> (c: i32)
    requires
        1 <= scale,
        i32::MIN <= axis_corrected(raw as int, center as int, scale as int) <= i32::MAX,
    ensures
        c as int == axis_corrected(raw as int, center as int, scale as int),
{
    let q: i64 = corrected_axis_wide(raw, center, scale);
    q as i32
}

/// Apply a calibration to a raw reading: on each axis independently, subtract
/// the bias center, then apply the fixed-point scale, truncating toward zero.
/// Pure and deterministic; the record itself is never changed.
pub fn calibrated_measurement(raw: Measurement, cal: &Calibration) -> (r: Measurement)
    requires
        cal.wf(),
        i32::MIN <= axis_corrected(raw.x as int, cal.center.x as int, cal.scale.x as int)
            <= i32::MAX,
        i32::MIN <= axis_corrected(raw.y as int, cal.center.y as int, cal.scale.y as int)
            <= i32::MAX,
        i32::MIN <= axis_corrected(raw.z as int, cal.center.z as int, cal.scale.z as int)
            <= i32::MAX,
    ensures
        (r.x as int, r.y as int, r.z as int) == spec_corrected(raw, *cal),
{
    Measurement {
        x: corrected_axis(raw.x, cal.center.x, cal.scale.x),
        y: corrected_axis(raw.y, cal.center.y, cal.scale.y),
        z: corrected_axis(raw.z, cal.center.z, cal.scale.z),
    }
}

/// Every axis of the corrected triple fits the measurement type.
pub open spec fn corrected_in_range(raw: Measurement, cal: Calibration) -> bool {
    &&& i32::MIN <= spec_corrected(raw, cal).0 <= i32::MAX
    &&& i32::MIN <= spec_corrected(raw, cal).1 <= i32::MAX
    &&& i32::MIN <= spec_corrected(raw, cal).2 <= i32::MAX
}

/// The correction transform, total over every reading and record: `Some` of
/// the corrected reading exactly when the record is well formed and the
/// corrected triple is representable, `None` otherwise.
pub fn try_calibrated_measurement(raw: Measurement, cal: &Calibration) -> (r: Option<Measurement>)
    ensures
        r is Some <==> cal.wf() && corrected_in_range(raw, *cal),
        r matches Some(m) ==> (m.x as int, m.y as int, m.z as int) == spec_corrected(raw, *cal),
{
    if !(cal.scale.x >= 1 && cal.scale.y >= 1 && cal.scale.z >= 1 && cal.radius >= 1) {
        return None;
    }
    let qx: i64 = corrected_axis_wide(raw.x, cal.center.x, cal.scale.x);
    let qy: i64 = corrected_axis_wide(raw.y, cal.center.y, cal.scale.y);
    let qz: i64 = corrected_axis_wide(raw.z, cal.center.z, cal.scale.z);
    let lo: i64 = i32::MIN as i64;
    let hi: i64 = i32::MAX as i64;
    if lo <= qx && qx <= hi && lo <= qy && qy <= hi && lo <= qz && qz <= hi {
        Some(Measurement { x: qx as i32, y: qy as i32, z: qz as i32 })
    } else {
        None
    }
}

/// Correction is strictly axis-wise: the corrected value on an axis depends
/// only on that axis's raw value and that axis's calibration components,
/// never on another axis.
pub proof fn lemma_correction_per_axis(
    raw1: Measurement,
    cal1: Calibration,
    raw2: Measurement,
    cal2: Calibration,
)
    ensures
        raw1.x == raw2.x && cal1.center.x == cal2.center.x && cal1.scale.x == cal2.scale.x
            ==> spec_corrected(raw1, cal1).0 == spec_corrected(raw2, cal2).0,
        raw1.y == raw2.y && cal1.center.y == cal2.center.y && cal1.scale.y == cal2.scale.y
            ==> spec_corrected(raw1, cal1).1 == spec_corrected(raw2, cal2).1,
        raw1.z == raw2.z && cal1.center.z == cal2.center.z && cal1.scale.z == cal2.scale.z
            ==> spec_corrected(raw1, cal1).2 == spec_corrected(raw2, cal2).2,
{
}

/// Least raw x over a nonempty sample window.
pub open spec fn min_x(s: Seq<Measurement>) -> int
    decreases s.len(),
{
    if s.len() <= 1 {
        s[0].x as int
    } else {
        vstd::math::min(min_x(s.drop_last()), s.last().x as int)
    }
}

/// Greatest raw x over a nonempty sample window.
pub open spec fn max_x(s: Seq<Measurement>) -> int
    decreases s.len(),
{
    if s.len() <= 1 {
        s[0].x as int
    } else {
        vstd::math::max(max_x(s.drop_last()), s.last().x as int)
    }
}

/// Least raw y over a nonempty sample window.
pub open spec fn min_y(s: Seq<Measurement>) -> int
    decreases s.len(),
{
    if s.len() <= 1 {
        s[0].y as int
    } else {
        vstd::math::min(min_y(s.drop_last()), s.last().y as int)
    }
}

/// Greatest raw y over a nonempty sample window.
pub open spec fn max_y(s: Seq<Measurement>) -> int
    decreases s.len(),
{
    if s.len() <= 1 {
        s[0].y as int
    } else {
        vstd::math::max(max_y(s.drop_last()), s.last().y as int)
    }
}

/// Least raw z over a nonempty sample window.
pub open spec fn min_z(s: Seq<Measurement>) -> int
    decreases s.len(),
{
    if s.len() <= 1 {
        s[0].z as int
    } else {
        vstd::math::min(min_z(s.drop_last()), s.last().z as int)
    }
}

/// Greatest raw z over a nonempty sample window.
pub open spec fn max_z(s: Seq<Measurement>) -> int
    decreases s.len(),
{
    if s.len() <= 1 {
        s[0].z as int
    } else {
        vstd::math::max(max_z(s.drop_last()), s.last().z as int)
    }
}

/// Half of the observed swing on one axis, clamped to at least one so that a
/// degenerate axis (no swing) never produces a zero scale.
pub open spec fn spec_half_range(lo: int, hi: int) -> int {
    if hi - lo < 2 {
        1
    } else {
        (hi - lo) / 2
    }
}

/// Midpoint of the observed extremes, rounded toward the minimum.
pub open spec fn spec_center(lo: int, hi: int) -> int {
    lo + (hi - lo) / 2
}

/// The scale that normalizes an axis's half-range toward the shared radius,
/// in `SCALE_UNIT` fixed point, clamped into the representable range. An axis
/// with a smaller swing receives a larger correction.
pub open spec fn spec_scale(half: int, radius: int) -> int {
    vstd::math::min((radius * SCALE_UNIT as int) / half, i32::MAX as int)
}

/// The calibration a nonempty sample window derives: each center is the
/// midpoint of that axis's extremes, the radius is the largest per-axis
/// half-range, and each scale normalizes its axis's half-range toward the
/// radius.
pub open spec fn spec_calibration(s: Seq<Measurement>) -> Calibration {
    let hx = spec_half_range(min_x(s), max_x(s));
    let hy = spec_half_range(min_y(s), max_y(s));
    let hz = spec_half_range(min_z(s), max_z(s));
    let r = vstd::math::max3(hx, hy, hz);
    (Calibration {
        center: (Measurement {
            x: spec_center(min_x(s), max_x(s)) as i32,
            y: spec_center(min_y(s), max_y(s)) as i32,
            z: spec_center(min_z(s), max_z(s)) as i32,
        }),
        scale: (Measurement {
            x: spec_scale(hx, r) as i32,
            y: spec_scale(hy, r) as i32,
            z: spec_scale(hz, r) as i32,
        }),
        radius: r as i32,
    })
}

/// A scale derived from a half-range no larger than the radius is positive
/// and representable.
proof fn lemma_scale_in_range(half: int, radius: int)
    requires
        1 <= half <= radius,
    ensures
        1000 <= spec_scale(half, radius) <= i32::MAX,
{
    assert(1000 <= (radius * SCALE_UNIT as int) / half) by (nonlinear_arith)
        requires
            1 <= half <= radius,
    ;
}

/// Derive a calibration from the window of raw magnetometer samples gathered
/// while the operator rotates the device through its orientations. `None`
/// exactly when the window is empty; otherwise the derived record, with every
/// scale and the radius positive.
pub fn calc_calibration(samples: &Vec<Measurement>) -> (c: Option<Calibration>)
    ensures
        c is Some <==> samples@.len() > 0,
        c matches Some(cal) ==> cal == spec_calibration(samples@) && cal.wf(),
{
    if samples.len() == 0 {
        return None;
    }
    let mut lo: Measurement = samples[0];
    let mut hi: Measurement = samples[0];
    let mut i: usize = 1;
    while i < samples.len()
        invariant
            1 <= i <= samples@.len(),
            lo.x <= hi.x,
            lo.y <= hi.y,
            lo.z <= hi.z,
            lo.x as int == min_x(samples@.take(i as int)),
            lo.y as int == min_y(samples@.take(i as int)),
            lo.z as int == min_z(samples@.take(i as int)),
            hi.x as int == max_x(samples@.take(i as int)),
            hi.y as int == max_y(samples@.take(i as int)),
            hi.z as int == max_z(samples@.take(i as int)),
        decreases samples@.len() - i,
    {
        let m = samples[i];
        proof {
            let p = samples@.take(i as int + 1);
            assert(p.drop_last() =~= samples@.take(i as int));
            assert(p.last() == samples@[i as int]);
        }
        if m.x < lo.x {
            lo.x = m.x;
        }
        if m.y < lo.y {
            lo.y = m.y;
        }
        if m.z < lo.z {
            lo.z = m.z;
        }
        if m.x > hi.x {
            hi.x = m.x;
        }
        if m.y > hi.y {
            hi.y = m.y;
        }
        if m.z > hi.z {
            hi.z = m.z;
        }
        i += 1;
    }
    proof {
        assert(samples@.take(samples@.len() as int) =~= samples@);
    }
    let dx: i64 = hi.x as i64 - lo.x as i64;
    let dy: i64 = hi.y as i64 - lo.y as i64;
    let dz: i64 = hi.z as i64 - lo.z as i64;
    let half_x: i64 = if dx < 2 {
        1
    } else {
        dx / 2
    };
    let half_y: i64 = if dy < 2 {
        1
    } else {
        dy / 2
    };
    let half_z: i64 = if dz < 2 {
        1
    } else {
        dz / 2
    };
    proof {
        assert(1 <= (half_x as int) <= 0x7FFF_FFFF && 1 <= (half_y as int) <= 0x7FFF_FFFF && 1
            <= (half_z as int) <= 0x7FFF_FFFF) by (nonlinear_arith)
            requires
                0 <= (dx as int) <= 0xFFFF_FFFF,
                0 <= (dy as int) <= 0xFFFF_FFFF,
                0 <= (dz as int) <= 0xFFFF_FFFF,
                half_x as int == if (dx as int) < 2 { 1int } else { (dx as int) / 2 },
                half_y as int == if (dy as int) < 2 { 1int } else { (dy as int) / 2 },
                half_z as int == if (dz as int) < 2 { 1int } else { (dz as int) / 2 },
        ;
    }
    let r64: i64 = if half_x >= half_y && half_x >= half_z {
        half_x
    } else if half_y >= half_z {
        half_y
    } else {
        half_z
    };
    let cx: i64 = lo.x as i64 + dx / 2;
    let cy: i64 = lo.y as i64 + dy / 2;
    let cz: i64 = lo.z as i64 + dz / 2;
    proof {
        assert(0 <= (dx as int) / 2 <= dx as int && 0 <= (dy as int) / 2 <= dy as int && 0 <= dz as int
            / 2 <= dz as int) by (nonlinear_arith)
            requires
                0 <= dx as int && 0 <= dy as int && 0 <= dz as int,
        ;
    }
    let sx: i32 = scale_of(half_x, r64);
    let sy: i32 = scale_of(half_y, r64);
    let sz: i32 = scale_of(half_z, r64);
    let cal = Calibration {
        center: Measurement { x: cx as i32, y: cy as i32, z: cz as i32 },
        scale: Measurement { x: sx, y: sy, z: sz },
        radius: r64 as i32,
    };
    proof {
        lemma_scale_in_range(half_x as int, r64 as int);
        lemma_scale_in_range(half_y as int, r64 as int);
        lemma_scale_in_range(half_z as int, r64 as int);
        assert(cal == spec_calibration(samples@));
    }
    Some(cal)
}

fn scale_of(half: i64, radius: i64) -> (s: i32)
    requires
        1 <= half <= radius <= 0x7FFF_FFFF,
    ensures
        s as int == spec_scale(half as int, radius as int),
{
    proof {
        lemma_scale_in_range(half as int, radius as int);
    }
    let q: u64 = ((radius as u64) * 1000) / (half as u64);
    if q > 0x7FFF_FFFF {
        i32::MAX
    } else {
        q as i32
    }
}

/// A window whose raw samples swing perfectly symmetrically around a true
/// per-axis center recovers that center exactly, and every derived scale is
/// positive.
pub proof fn lemma_symmetric_window_recovers_center(
    s: Seq<Measurement>,
    cx: int,
    cy: int,
    cz: int,
    hx: int,
    hy: int,
    hz: int,
)
    requires
        s.len() > 0,
        0 <= hx,
        0 <= hy,
        0 <= hz,
        min_x(s) == cx - hx,
        max_x(s) == cx + hx,
        min_y(s) == cy - hy,
        max_y(s) == cy + hy,
        min_z(s) == cz - hz,
        max_z(s) == cz + hz,
        i32::MIN <= cx - hx,
        cx + hx <= i32::MAX,
        i32::MIN <= cy - hy,
        cy + hy <= i32::MAX,
        i32::MIN <= cz - hz,
        cz + hz <= i32::MAX,
    ensures
        spec_calibration(s).center.x == cx,
        spec_calibration(s).center.y == cy,
        spec_calibration(s).center.z == cz,
        spec_calibration(s).wf(),
{
    assert((2 * hx) / 2 == hx && (2 * hy) / 2 == hy && (2 * hz) / 2 == hz);
    let rhx = spec_half_range(cx - hx, cx + hx);
    let rhy = spec_half_range(cy - hy, cy + hy);
    let rhz = spec_half_range(cz - hz, cz + hz);
    let r = vstd::math::max3(rhx, rhy, rhz);
    lemma_scale_in_range(rhx, r);
    lemma_scale_in_range(rhy, r);
    lemma_scale_in_range(rhz, r);
}

/// A degenerate window (an axis with constant raw readings) still yields a
/// positive scale on that axis.
pub proof fn lemma_degenerate_axis_scale(s: Seq<Measurement>)
    requires
        s.len() > 0,
        min_x(s) == max_x(s),
    ensures
        spec_calibration(s).scale.x >= 1,
{
    let rhx = spec_half_range(min_x(s), max_x(s));
    let rhy = spec_half_range(min_y(s), max_y(s));
    let rhz = spec_half_range(min_z(s), max_z(s));
    let r = vstd::math::max3(rhx, rhy, rhz);
    lemma_minmax_ordered(s);
    lemma_scale_in_range(rhx, r);
}

/// On every axis the least observed value is no greater than the greatest,
/// so every half-range is at least one.
pub proof fn lemma_minmax_ordered(s: Seq<Measurement>)
    requires
        s.len() > 0,
    ensures
        min_x(s) <= max_x(s),
        min_y(s) <= max_y(s),
        min_z(s) <= max_z(s),
    decreases s.len(),
{
    if s.len() > 1 {
        lemma_minmax_ordered(s.drop_last());
    }
}

} // verus!
