//! The five-dimensional quality space of relationships: strength, trust,
//! formality, duration and reciprocity, each a normalized coordinate in
//! [0, 1], carried in milli-units (0 ..= 1000). Distances are Euclidean;
//! square roots are taken as integer floors, so every result is exact and
//! fully specified.

use vstd::prelude::*;

use crate::value_objects::spec_clamp_milli;
use crate::value_objects::clamp_milli;
use crate::value_objects::Formality;
use crate::value_objects::ValidityPeriod;
use crate::value_objects::MILLIS_PER_DAY;
use crate::value_objects::MILLI_ONE;
use crate::trusted::now_millis;

verus! {

// ============================================================================
// Integer square root
// ============================================================================

/// Whether `r` is the floor of the square root of `n`.
pub open spec fn is_sqrt_floor(n: int, r: int) -> bool {
    0 <= r && r * r <= n && n < (r + 1) * (r + 1)
}

/// The floor of the square root of a non-negative integer.
pub open spec fn sqrt_floor(n: int) -> int {
    choose|r: int| is_sqrt_floor(n, r)
}

/// The floor of a square root is unique.
pub proof fn lemma_sqrt_floor_unique(n: int, a: int, b: int)
    requires
        is_sqrt_floor(n, a),
        is_sqrt_floor(n, b),
    ensures
        a == b,
{
    if a < b {
        assert(b * b >= (a + 1) * (a + 1)) by (nonlinear_arith)
            requires
                0 <= a,
                a < b,
        ;
    }
    if b < a {
        assert(a * a >= (b + 1) * (b + 1)) by (nonlinear_arith)
            requires
                0 <= b,
                b < a,
        ;
    }
}

/// A witness pins `sqrt_floor` down.
pub proof fn lemma_sqrt_floor_of(n: int, r: int)
    requires
        is_sqrt_floor(n, r),
    ensures
        sqrt_floor(n) == r,
{
    assert(exists|x: int| is_sqrt_floor(n, x));
    lemma_sqrt_floor_unique(n, sqrt_floor(n), r);
}

/// Compute the floor of the square root of a 128-bit integer.
pub fn isqrt(n: u128) -> (r: u64)
    ensures
        is_sqrt_floor(n as int, r as int),
        r as int == sqrt_floor(n as int),
{
    let mut lo: u128 = 0;
    let mut hi: u128 = 0x1_0000_0000_0000_0000;
    proof {
        assert((0x1_0000_0000_0000_0000 as int) * (0x1_0000_0000_0000_0000 as int) > n as int)
            by (nonlinear_arith)
            requires
                n <= u128::MAX,
        ;
    }
    while lo + 1 < hi
        invariant
            lo < hi,
            hi <= 0x1_0000_0000_0000_0000,
            (lo as int) * (lo as int) <= n as int,
            (n as int) < (hi as int) * (hi as int),
        decreases hi - lo,
    {
        let mid = lo + (hi - lo) / 2;
        proof {
            assert(lo < mid < hi);
            assert((mid as int) * (mid as int) <= (0xFFFF_FFFF_FFFF_FFFF as int) * (
            0xFFFF_FFFF_FFFF_FFFF as int)) by (nonlinear_arith)
                requires
                    0 <= mid <= 0xFFFF_FFFF_FFFF_FFFF,
            ;
        }
        if mid * mid <= n {
            lo = mid;
        } else {
            hi = mid;
        }
    }
    proof {
        lemma_sqrt_floor_of(n as int, lo as int);
    }
    lo as u64
}

// ============================================================================
// Quality point
// ============================================================================

/// A point in the five-dimensional quality space. Each coordinate is in
/// milli-units: 0 ..= 1000 stands for [0, 1].
#[derive(Debug, Clone, Copy, PartialEq, Eq, Hash, Structural)]
pub struct QualityPoint {
    /// Strength dimension (0 = weak, 1000 = strong).
    pub strength: u32,
    /// Trust dimension (0 = no trust, 1000 = complete trust).
    pub trust: u32,
    /// Formality dimension (0 = informal, 1000 = legal).
    pub formality: u32,
    /// Duration dimension (0 = instantaneous, 1000 = permanent).
    pub duration: u32,
    /// Reciprocity dimension (0 = one-sided, 1000 = fully mutual).
    pub reciprocity: u32,
}

/// The projection of a quality point used for visualization and
/// tessellation: its strength, trust and formality coordinates. It is not an
/// isometric projection and must not be used for similarity.
#[derive(Debug, Clone, Copy, PartialEq, Eq, Hash, Structural)]
pub struct Position3 {
    /// First coordinate: strength.
    pub x: u32,
    /// Second coordinate: trust.
    pub y: u32,
    /// Third coordinate: formality.
    pub z: u32,
}

/// The 3-projection of a quality point.
pub open spec fn spec_project3(p: QualityPoint) -> Position3 {
    Position3 { x: p.strength, y: p.trust, z: p.formality }
}

/// The squared Euclidean distance of two quality points, in squared
/// milli-units.
pub open spec fn spec_dist_sq(a: QualityPoint, b: QualityPoint) -> int {
    (a.strength - b.strength) * (a.strength - b.strength) + (a.trust - b.trust) * (a.trust
        - b.trust) + (a.formality - b.formality) * (a.formality - b.formality) + (a.duration
        - b.duration) * (a.duration - b.duration) + (a.reciprocity - b.reciprocity) * (
    a.reciprocity - b.reciprocity)
}

/// One linearly interpolated coordinate: `a` moved toward `b` by `t`
/// thousandths, rounded toward `a`.
pub open spec fn spec_lerp_coord(a: u32, b: u32, t: u32) -> u32 {
    if b >= a {
        (a + (b - a) * t / 1000) as u32
    } else {
        (a - (a - b) * t / 1000) as u32
    }
}

impl QualityPoint {
    /// Well-formedness: every coordinate lies in the unit interval.
    pub open spec fn wf(self) -> bool {
        &&& self.strength <= MILLI_ONE
        &&& self.trust <= MILLI_ONE
        &&& self.formality <= MILLI_ONE
        &&& self.duration <= MILLI_ONE
        &&& self.reciprocity <= MILLI_ONE
    }

    /// Create a new quality point; every coordinate is clamped to the unit
    /// interval.
    pub fn new(strength: i64, trust: i64, formality: i64, duration: i64, reciprocity: i64) -> (r:
        QualityPoint)
        ensures
            r == (QualityPoint {
                strength: spec_clamp_milli(strength),
                trust: spec_clamp_milli(trust),
                formality: spec_clamp_milli(formality),
                duration: spec_clamp_milli(duration),
                reciprocity: spec_clamp_milli(reciprocity),
            }),
            r.wf(),
    {
        QualityPoint {
            strength: clamp_milli(strength),
            trust: clamp_milli(trust),
            formality: clamp_milli(formality),
            duration: clamp_milli(duration),
            reciprocity: clamp_milli(reciprocity),
        }
    }

    /// The point with all coordinates at the origin.
    pub fn origin() -> (r: QualityPoint)
        ensures
            r == (QualityPoint { strength: 0, trust: 0, formality: 0, duration: 0, reciprocity: 0 }),
            r.wf(),
    {
        QualityPoint { strength: 0, trust: 0, formality: 0, duration: 0, reciprocity: 0 }
    }

    /// Default profile of an employment relationship: strong, medium trust,
    /// contractual, long-term.
    pub fn default_for_employment() -> (r: QualityPoint)
        ensures
            r == (QualityPoint {
                strength: 700,
                trust: 600,
                formality: 750,
                duration: 800,
                reciprocity: 600,
            }),
            r.wf(),
    {
        QualityPoint { strength: 700, trust: 600, formality: 750, duration: 800, reciprocity: 600 }
    }

    /// Default profile of a friendship: medium strength, high trust,
    /// informal, mutual.
    pub fn default_for_friendship() -> (r: QualityPoint)
        ensures
            r == (QualityPoint {
                strength: 500,
                trust: 800,
                formality: 0,
                duration: 500,
                reciprocity: 900,
            }),
            r.wf(),
    {
        QualityPoint { strength: 500, trust: 800, formality: 0, duration: 500, reciprocity: 900 }
    }

    /// Default profile of a membership: balanced across dimensions.
    pub fn default_for_membership() -> (r: QualityPoint)
        ensures
            r == (QualityPoint {
                strength: 500,
                trust: 500,
                formality: 500,
                duration: 600,
                reciprocity: 500,
            }),
            r.wf(),
    {
        QualityPoint { strength: 500, trust: 500, formality: 500, duration: 600, reciprocity: 500 }
    }

    /// The Euclidean distance to another point, in milli-units, rounded down.
    pub fn distance(&self, other: &QualityPoint) -> (r: u32)
        requires
            self.wf(),
            other.wf(),
        ensures
            r as int == sqrt_floor(spec_dist_sq(*self, *other)),
            is_sqrt_floor(spec_dist_sq(*self, *other), r as int),
            r <= 2237,
    {
        let sum = dist_sq(self, other);
        let root = isqrt(sum as u128);
        proof {
            assert((root as int) * (root as int) <= 5_000_000);
            assert(root <= 2237) by (nonlinear_arith)
                requires
                    (root as int) * (root as int) <= 5_000_000,
                    root >= 0,
            ;
        }
        root as u32
    }

    /// The weighted Euclidean distance to another point: each coordinate
    /// difference is scaled by its weight before squaring. The result is in
    /// micro-units (millionths), rounded down.
    pub fn weighted_distance(&self, other: &QualityPoint, weights: &QualityWeights) -> (r: u64)
        requires
            self.wf(),
            other.wf(),
        ensures
            r as int == sqrt_floor(spec_weighted_dist_sq(*self, *other, *weights)),
            is_sqrt_floor(spec_weighted_dist_sq(*self, *other, *weights), r as int),
    {
        let sum = weighted_dist_sq(self, other, weights);
        isqrt(sum)
    }

    /// Linear interpolation toward another point; the parameter is clamped
    /// to the unit interval (milli-units), and each coordinate is rounded
    /// toward this point's coordinate.
    pub fn lerp(&self, other: &QualityPoint, t: i64) -> (r: QualityPoint)
        requires
            self.wf(),
            other.wf(),
        ensures
            r == (QualityPoint {
                strength: spec_lerp_coord(self.strength, other.strength, spec_clamp_milli(t)),
                trust: spec_lerp_coord(self.trust, other.trust, spec_clamp_milli(t)),
                formality: spec_lerp_coord(self.formality, other.formality, spec_clamp_milli(t)),
                duration: spec_lerp_coord(self.duration, other.duration, spec_clamp_milli(t)),
                reciprocity: spec_lerp_coord(
                    self.reciprocity,
                    other.reciprocity,
                    spec_clamp_milli(t),
                ),
            }),
            r.wf(),
    {
        let tm = clamp_milli(t);
        QualityPoint {
            strength: lerp_coord(self.strength, other.strength, tm),
            trust: lerp_coord(self.trust, other.trust, tm),
            formality: lerp_coord(self.formality, other.formality, tm),
            duration: lerp_coord(self.duration, other.duration, tm),
            reciprocity: lerp_coord(self.reciprocity, other.reciprocity, tm),
        }
    }

    /// The coordinates as an array, in dimension order: strength, trust,
    /// formality, duration, reciprocity.
    pub fn to_array(&self) -> (r: [u32; 5])
        ensures
            r@ == seq![self.strength, self.trust, self.formality, self.duration, self.reciprocity],
    {
        let r = [self.strength, self.trust, self.formality, self.duration, self.reciprocity];
        proof {
            assert(r@ =~= seq![
                self.strength,
                self.trust,
                self.formality,
                self.duration,
                self.reciprocity,
            ]);
        }
        r
    }

    /// Create a point from an array of coordinates, in dimension order; each
    /// is clamped.
    pub fn from_array(arr: [i64; 5]) -> (r: QualityPoint)
        ensures
            r == (QualityPoint {
                strength: spec_clamp_milli(arr@[0]),
                trust: spec_clamp_milli(arr@[1]),
                formality: spec_clamp_milli(arr@[2]),
                duration: spec_clamp_milli(arr@[3]),
                reciprocity: spec_clamp_milli(arr@[4]),
            }),
            r.wf(),
    {
        Self::new(arr[0], arr[1], arr[2], arr[3], arr[4])
    }

    /// The 3-projection of this point, for visualization and tessellation.
    pub fn to_point3(&self) -> (r: Position3)
        ensures
            r == spec_project3(*self),
    {
        Position3 { x: self.strength, y: self.trust, z: self.formality }
    }
}

impl Default for QualityPoint {
    /// The centre of the quality space.
    fn default() -> (r: QualityPoint)
        ensures
            r == (QualityPoint {
                strength: 500,
                trust: 500,
                formality: 500,
                duration: 500,
                reciprocity: 500,
            }),
            r.wf(),
    {
        QualityPoint { strength: 500, trust: 500, formality: 500, duration: 500, reciprocity: 500 }
    }
}

/// A move of at most the coordinate gap: scaling a gap of at most one unit
/// by at most one unit and rounding down never leaves the gap.
proof fn lemma_lerp_step(d: int, t: int)
    requires
        0 <= d <= 1000,
        0 <= t <= 1000,
    ensures
        0 <= d * t <= 1_000_000,
        0 <= d * t / 1000 <= d,
{
    assert(0 <= d * t <= 1_000_000 && d * t <= d * 1000) by (nonlinear_arith)
        requires
            0 <= d <= 1000,
            0 <= t <= 1000,
    ;
    assert(d * t / 1000 <= d * 1000 / 1000) by (nonlinear_arith)
        requires
            0 <= d * t <= d * 1000,
    ;
    assert(d * 1000 / 1000 == d) by (nonlinear_arith);
}

/// One interpolated coordinate; see `spec_lerp_coord`.
fn lerp_coord(a: u32, b: u32, t: u32) -> (r: u32)
    requires
        a <= MILLI_ONE,
        b <= MILLI_ONE,
        t <= MILLI_ONE,
    ensures
        r == spec_lerp_coord(a, b, t),
        r <= MILLI_ONE,
{
    if b >= a {
        proof {
            lemma_lerp_step(b - a, t as int);
        }
        a + (b - a) * t / 1000
    } else {
        proof {
            lemma_lerp_step(a - b, t as int);
        }
        a - (a - b) * t / 1000
    }
}

/// The square of a coordinate difference lies between zero and one squared
/// unit.
proof fn lemma_sq_bound(d: int)
    requires
        -1000 <= d <= 1000,
    ensures
        0 <= d * d <= 1_000_000,
{
    assert(0 <= d * d <= 1_000_000) by (nonlinear_arith)
        requires
            -1000 <= d <= 1000,
    ;
}

/// The squared Euclidean distance, computed exactly.
fn dist_sq(a: &QualityPoint, b: &QualityPoint) -> (r: u64)
    requires
        a.wf(),
        b.wf(),
    ensures
        r as int == spec_dist_sq(*a, *b),
        r <= 5_000_000,
{
    let ds = a.strength as i64 - b.strength as i64;
    let dt = a.trust as i64 - b.trust as i64;
    let df = a.formality as i64 - b.formality as i64;
    let dd = a.duration as i64 - b.duration as i64;
    let dr = a.reciprocity as i64 - b.reciprocity as i64;
    proof {
        lemma_sq_bound(ds as int);
        lemma_sq_bound(dt as int);
        lemma_sq_bound(df as int);
        lemma_sq_bound(dd as int);
        lemma_sq_bound(dr as int);
    }
    ((ds * ds + dt * dt + df * df + dd * dd + dr * dr) as u64)
}

// ============================================================================
// Quality weights
// ============================================================================

/// Weights of the quality dimensions in distance calculations, in
/// milli-units (1000 stands for weight 1). Weights are non-negative by
/// construction.
#[derive(Debug, Clone, Copy, PartialEq, Eq, Hash, Structural)]
pub struct QualityWeights {
    /// Weight of the strength dimension.
    pub strength: u32,
    /// Weight of the trust dimension.
    pub trust: u32,
    /// Weight of the formality dimension.
    pub formality: u32,
    /// Weight of the duration dimension.
    pub duration: u32,
    /// Weight of the reciprocity dimension.
    pub reciprocity: u32,
}

impl Default for QualityWeights {
    /// All dimensions weigh the same.
    fn default() -> (r: QualityWeights)
        ensures
            r == (QualityWeights {
                strength: 1000,
                trust: 1000,
                formality: 1000,
                duration: 1000,
                reciprocity: 1000,
            }),
    {
        QualityWeights { strength: 1000, trust: 1000, formality: 1000, duration: 1000, reciprocity: 1000 }
    }
}

impl QualityWeights {
    /// Weights emphasizing trust and strength.
    pub fn trust_focused() -> (r: QualityWeights)
        ensures
            r == (QualityWeights {
                strength: 1500,
                trust: 2000,
                formality: 500,
                duration: 500,
                reciprocity: 1000,
            }),
    {
        QualityWeights { strength: 1500, trust: 2000, formality: 500, duration: 500, reciprocity: 1000 }
    }

    /// Weights emphasizing formality and duration (business focus).
    pub fn business_focused() -> (r: QualityWeights)
        ensures
            r == (QualityWeights {
                strength: 1000,
                trust: 1000,
                formality: 2000,
                duration: 1500,
                reciprocity: 500,
            }),
    {
        QualityWeights { strength: 1000, trust: 1000, formality: 2000, duration: 1500, reciprocity: 500 }
    }

    /// Weights emphasizing reciprocity (social focus).
    pub fn social_focused() -> (r: QualityWeights)
        ensures
            r == (QualityWeights {
                strength: 1000,
                trust: 1500,
                formality: 500,
                duration: 500,
                reciprocity: 2000,
            }),
    {
        QualityWeights { strength: 1000, trust: 1500, formality: 500, duration: 500, reciprocity: 2000 }
    }
}

/// The squared weighted distance: each coordinate difference scaled by its
/// weight (both in milli-units), squared and summed; in squared micro-units.
pub open spec fn spec_weighted_dist_sq(a: QualityPoint, b: QualityPoint, w: QualityWeights) -> int {
    (w.strength * (a.strength - b.strength)) * (w.strength * (a.strength - b.strength)) + (w.trust
        * (a.trust - b.trust)) * (w.trust * (a.trust - b.trust)) + (w.formality * (a.formality
        - b.formality)) * (w.formality * (a.formality - b.formality)) + (w.duration * (a.duration
        - b.duration)) * (w.duration * (a.duration - b.duration)) + (w.reciprocity * (a.reciprocity
        - b.reciprocity)) * (w.reciprocity * (a.reciprocity - b.reciprocity))
}

/// The squared weighted distance, computed exactly.
fn weighted_dist_sq(a: &QualityPoint, b: &QualityPoint, w: &QualityWeights) -> (r: u128)
    requires
        a.wf(),
        b.wf(),
    ensures
        r as int == spec_weighted_dist_sq(*a, *b, *w),
{
    proof {
        lemma_weighted_term_bound(w.strength as int, a.strength as int - b.strength as int);
        lemma_weighted_term_bound(w.trust as int, a.trust as int - b.trust as int);
        lemma_weighted_term_bound(w.formality as int, a.formality as int - b.formality as int);
        lemma_weighted_term_bound(w.duration as int, a.duration as int - b.duration as int);
        lemma_weighted_term_bound(w.reciprocity as int, a.reciprocity as int - b.reciprocity as int);
    }
    let ds = (w.strength as i128) * (a.strength as i128 - b.strength as i128);
    let dt = (w.trust as i128) * (a.trust as i128 - b.trust as i128);
    let df = (w.formality as i128) * (a.formality as i128 - b.formality as i128);
    let dd = (w.duration as i128) * (a.duration as i128 - b.duration as i128);
    let dr = (w.reciprocity as i128) * (a.reciprocity as i128 - b.reciprocity as i128);
    ((ds * ds + dt * dt + df * df + dd * dd + dr * dr) as u128)
}

/// A weighted coordinate difference is small, and its square is non-negative
/// and small.
proof fn lemma_weighted_term_bound(w: int, d: int)
    requires
        0 <= w <= 0xFFFF_FFFF,
        -1000 <= d <= 1000,
    ensures
        -(0xFFFF_FFFF as int) * 1000 <= w * d <= (0xFFFF_FFFF as int) * 1000,
        0 <= (w * d) * (w * d) <= ((0xFFFF_FFFF as int) * 1000) * ((0xFFFF_FFFF as int) * 1000),
{
    assert(-(0xFFFF_FFFF as int) * 1000 <= w * d <= (0xFFFF_FFFF as int) * 1000)
        by (nonlinear_arith)
        requires
            0 <= w <= 0xFFFF_FFFF,
            -1000 <= d <= 1000,
    ;
    assert((w * d) * (w * d) <= ((0xFFFF_FFFF as int) * 1000) * ((0xFFFF_FFFF as int) * 1000))
        by (nonlinear_arith)
        requires
            -(0xFFFF_FFFF as int) * 1000 <= w * d <= (0xFFFF_FFFF as int) * 1000,
    ;
    assert(0 <= (w * d) * (w * d)) by (nonlinear_arith);
}

// ============================================================================
// Relationship quality
// ============================================================================

/// The duration coordinate of a validity period at an instant: for an ended
/// period, its whole length in days over one year, capped at one; for an
/// ongoing one, the days elapsed since its start. In milli-units.
pub open spec fn spec_duration_milli(v: ValidityPeriod, now: i64) -> u32 {
    let days = if v.spec_ended_at(now) {
        (v.ends_at->Some_0 - v.starts_at) / (MILLIS_PER_DAY as int)
    } else {
        if now <= v.starts_at {
            0
        } else {
            (now - v.starts_at) / (MILLIS_PER_DAY as int)
        }
    };
    let milli = days * 1000 / 365;
    if milli > 1000 {
        1000
    } else {
        milli as u32
    }
}

/// High-level quality profile of a relationship: the unnormalized domain
/// values, with the formality rung and the validity period kept as value
/// objects. Conversion to a `QualityPoint` is lossy and deterministic given
/// the instant of conversion.
#[derive(Debug, PartialEq, Eq)]
pub struct RelationshipQuality {
    /// Strength of the relationship, milli-units of [0, 1].
    pub strength: u32,
    /// Trust level, milli-units of [0, 1].
    pub trust: u32,
    /// Formality rung.
    pub formality: Formality,
    /// Temporal validity.
    pub duration: ValidityPeriod,
    /// Reciprocity level, milli-units of [0, 1].
    pub reciprocity: u32,
}

impl Clone for RelationshipQuality {
    /// Clones preserve the value exactly.
    fn clone(&self) -> (r: Self)
        ensures
            r == *self,
    {
        RelationshipQuality {
            strength: self.strength,
            trust: self.trust,
            formality: self.formality,
            duration: self.duration.clone(),
            reciprocity: self.reciprocity,
        }
    }
}

impl RelationshipQuality {
    /// Well-formedness: coordinates lie in the unit interval and the period
    /// is well-formed.
    pub open spec fn wf(self) -> bool {
        &&& self.strength <= MILLI_ONE
        &&& self.trust <= MILLI_ONE
        &&& self.reciprocity <= MILLI_ONE
        &&& self.duration.wf()
    }

    /// The quality point of this profile at an instant: strength, trust and
    /// reciprocity pass through, formality contributes its rung coordinate,
    /// and the duration dimension is normalized over one year.
    pub open spec fn spec_quality_point_at(self, now: i64) -> QualityPoint {
        QualityPoint {
            strength: self.strength,
            trust: self.trust,
            formality: self.formality.spec_as_milli(),
            duration: spec_duration_milli(self.duration, now),
            reciprocity: self.reciprocity,
        }
    }

    /// Create a new relationship quality; real-valued coordinates are
    /// clamped to the unit interval.
    pub fn new(
        strength: i64,
        trust: i64,
        formality: Formality,
        duration: ValidityPeriod,
        reciprocity: i64,
    ) -> (r: RelationshipQuality)
        requires
            duration.wf(),
        ensures
            r == (RelationshipQuality {
                strength: spec_clamp_milli(strength),
                trust: spec_clamp_milli(trust),
                formality,
                duration,
                reciprocity: spec_clamp_milli(reciprocity),
            }),
            r.wf(),
    {
        RelationshipQuality {
            strength: clamp_milli(strength),
            trust: clamp_milli(trust),
            formality,
            duration,
            reciprocity: clamp_milli(reciprocity),
        }
    }

    /// Convert to a normalized quality point, reading the duration dimension
    /// at the given instant.
    pub fn to_quality_point_at(&self, now: i64) -> (r: QualityPoint)
        requires
            self.wf(),
        ensures
            r == self.spec_quality_point_at(now),
            r.wf(),
    {
        let duration_milli = duration_milli(&self.duration, now);
        QualityPoint {
            strength: self.strength,
            trust: self.trust,
            formality: self.formality.as_milli(),
            duration: duration_milli,
            reciprocity: self.reciprocity,
        }
    }

    /// Convert to a normalized quality point, reading the duration dimension
    /// at the wall clock. The result is the profile's quality point at some
    /// instant.
    pub fn to_quality_point(&self) -> (r: QualityPoint)
        requires
            self.wf(),
        ensures
            exists|t: i64| r == self.spec_quality_point_at(t),
            r.wf(),
    {
        let t = now_millis();
        let r = self.to_quality_point_at(t);
        proof {
            assert(r == self.spec_quality_point_at(t));
        }
        r
    }

    /// Default quality of an employment relationship.
    pub fn default_employment() -> (r: RelationshipQuality)
        ensures
            r.strength == 700,
            r.trust == 600,
            r.formality == Formality::Contractual,
            r.reciprocity == 600,
            r.duration.ends_at is None,
            r.duration.end_reason is None,
            r.wf(),
    {
        RelationshipQuality::new(700, 600, Formality::Contractual, ValidityPeriod::ongoing_now(), 600)
    }

    /// Default quality of a friendship.
    pub fn default_friendship() -> (r: RelationshipQuality)
        ensures
            r.strength == 500,
            r.trust == 800,
            r.formality == Formality::Informal,
            r.reciprocity == 900,
            r.duration.ends_at is None,
            r.duration.end_reason is None,
            r.wf(),
    {
        RelationshipQuality::new(500, 800, Formality::Informal, ValidityPeriod::ongoing_now(), 900)
    }

    /// Default quality of a membership.
    pub fn default_membership() -> (r: RelationshipQuality)
        ensures
            r.strength == 500,
            r.trust == 500,
            r.formality == Formality::Formal,
            r.reciprocity == 500,
            r.duration.ends_at is None,
            r.duration.end_reason is None,
            r.wf(),
    {
        RelationshipQuality::new(500, 500, Formality::Formal, ValidityPeriod::ongoing_now(), 500)
    }
}

impl Default for RelationshipQuality {
    /// Balanced across dimensions, formal, starting now and ongoing.
    fn default() -> (r: RelationshipQuality)
        ensures
            r.strength == 500,
            r.trust == 500,
            r.formality == Formality::Formal,
            r.reciprocity == 500,
            r.duration.ends_at is None,
            r.duration.end_reason is None,
            r.wf(),
    {
        RelationshipQuality::new(500, 500, Formality::Formal, ValidityPeriod::ongoing_now(), 500)
    }
}

/// The duration coordinate of a period at an instant; see
/// `spec_duration_milli`.
fn duration_milli(v: &ValidityPeriod, now: i64) -> (r: u32)
    requires
        v.wf(),
    ensures
        r == spec_duration_milli(*v, now),
        r <= MILLI_ONE,
{
    let ended = v.has_ended_at(now);
    let days: u64 = if ended {
        match v.ends_at {
            Some(e) => ((e - v.starts_at) as u64) / (MILLIS_PER_DAY as u64),
            None => 0,  // unreachable: an ended period has an end
        }
    } else {
        if now <= v.starts_at {
            0
        } else {
            ((now - v.starts_at) as u64) / (MILLIS_PER_DAY as u64)
        }
    };
    let milli = days * 1000 / 365;
    if milli > 1000 {
        1000
    } else {
        milli as u32
    }
}

// ============================================================================
// Metric laws
// ============================================================================

/// Law: the distance of a point to itself is zero.
pub proof fn lemma_distance_self_zero(p: QualityPoint)
    ensures
        spec_dist_sq(p, p) == 0,
        sqrt_floor(spec_dist_sq(p, p)) == 0,
{
    assert(spec_dist_sq(p, p) == 0) by (nonlinear_arith);
    lemma_sqrt_floor_of(0, 0);
}

/// Law: distance is symmetric.
pub proof fn lemma_distance_symmetric(a: QualityPoint, b: QualityPoint)
    ensures
        spec_dist_sq(a, b) == spec_dist_sq(b, a),
        sqrt_floor(spec_dist_sq(a, b)) == sqrt_floor(spec_dist_sq(b, a)),
{
    assert(spec_dist_sq(a, b) == spec_dist_sq(b, a)) by (nonlinear_arith);
}

/// One step of the Cauchy–Schwarz build-up: adding a dimension preserves the
/// inequality.
proof fn lemma_cs_step(u: int, v: int, uu: int, vv: int, w: int)
    requires
        0 <= uu,
        0 <= vv,
        w * w <= uu * vv,
    ensures
        (w + u * v) * (w + u * v) <= (uu + u * u) * (vv + v * v),
{
    if uu == 0 {
        assert(w == 0) by (nonlinear_arith)
            requires
                w * w <= 0 * vv,
        ;
        assert((u * v) * (u * v) <= (u * u) * (vv + v * v)) by (nonlinear_arith)
            requires
                0 <= vv,
        ;
    } else {
        // Multiply the missing piece by uu and complete the square.
        assert(uu * (uu * (v * v) + (u * u) * vv - 2 * u * v * w) >= 0) by (nonlinear_arith)
            requires
                0 < uu,
                0 <= vv,
                w * w <= uu * vv,
        ;
        assert(uu * (v * v) + (u * u) * vv - 2 * u * v * w >= 0) by (nonlinear_arith)
            requires
                0 < uu,
                uu * (uu * (v * v) + (u * u) * vv - 2 * u * v * w) >= 0,
        ;
        assert((uu + u * u) * (vv + v * v) == uu * vv + uu * (v * v) + (u * u) * vv + (u * u) * (v
            * v)) by (nonlinear_arith);
        assert((w + u * v) * (w + u * v) == w * w + 2 * u * v * w + (u * u) * (v * v))
            by (nonlinear_arith);
        assert((w + u * v) * (w + u * v) <= (uu + u * u) * (vv + v * v));
    }
}

/// Cauchy–Schwarz in five dimensions.
proof fn lemma_cs5(
    u1: int,
    u2: int,
    u3: int,
    u4: int,
    u5: int,
    v1: int,
    v2: int,
    v3: int,
    v4: int,
    v5: int,
)
    ensures
        ({
            let w = u1 * v1 + u2 * v2 + u3 * v3 + u4 * v4 + u5 * v5;
            let uu = u1 * u1 + u2 * u2 + u3 * u3 + u4 * u4 + u5 * u5;
            let vv = v1 * v1 + v2 * v2 + v3 * v3 + v4 * v4 + v5 * v5;
            w * w <= uu * vv
        }),
{
    assert(u1 * u1 >= 0 && u2 * u2 >= 0 && u3 * u3 >= 0 && u4 * u4 >= 0 && u5 * u5 >= 0 && v1 * v1
        >= 0 && v2 * v2 >= 0 && v3 * v3 >= 0 && v4 * v4 >= 0 && v5 * v5 >= 0) by (nonlinear_arith);
    lemma_cs_step(u1, v1, 0, 0, 0);
    lemma_cs_step(u2, v2, u1 * u1, v1 * v1, u1 * v1);
    lemma_cs_step(u3, v3, u1 * u1 + u2 * u2, v1 * v1 + v2 * v2, u1 * v1 + u2 * v2);
    lemma_cs_step(
        u4,
        v4,
        u1 * u1 + u2 * u2 + u3 * u3,
        v1 * v1 + v2 * v2 + v3 * v3,
        u1 * v1 + u2 * v2 + u3 * v3,
    );
    lemma_cs_step(
        u5,
        v5,
        u1 * u1 + u2 * u2 + u3 * u3 + u4 * u4,
        v1 * v1 + v2 * v2 + v3 * v3 + v4 * v4,
        u1 * v1 + u2 * v2 + u3 * v3 + u4 * v4,
    );
}

/// Law: the triangle inequality, up to the one milli-unit lost to rounding
/// each distance down. For any three points, with `dab`, `dbc` and `dac` the
/// rounded distances of the corresponding pairs, `dac <= dab + dbc + 1`.
pub proof fn lemma_distance_triangle(
    a: QualityPoint,
    b: QualityPoint,
    c: QualityPoint,
    dab: int,
    dbc: int,
    dac: int,
)
    requires
        is_sqrt_floor(spec_dist_sq(a, b), dab),
        is_sqrt_floor(spec_dist_sq(b, c), dbc),
        is_sqrt_floor(spec_dist_sq(a, c), dac),
    ensures
        dac <= dab + dbc + 1,
{
    let u1 = a.strength - b.strength;
    let u2 = a.trust - b.trust;
    let u3 = a.formality - b.formality;
    let u4 = a.duration - b.duration;
    let u5 = a.reciprocity - b.reciprocity;
    let v1 = b.strength - c.strength;
    let v2 = b.trust - c.trust;
    let v3 = b.formality - c.formality;
    let v4 = b.duration - c.duration;
    let v5 = b.reciprocity - c.reciprocity;
    let w = u1 * v1 + u2 * v2 + u3 * v3 + u4 * v4 + u5 * v5;
    let uu = u1 * u1 + u2 * u2 + u3 * u3 + u4 * u4 + u5 * u5;
    let vv = v1 * v1 + v2 * v2 + v3 * v3 + v4 * v4 + v5 * v5;
    assert(spec_dist_sq(a, b) == uu);
    assert(spec_dist_sq(b, c) == vv);
    assert((u1 + v1) * (u1 + v1) == u1 * u1 + 2 * (u1 * v1) + v1 * v1) by (nonlinear_arith);
    assert((u2 + v2) * (u2 + v2) == u2 * u2 + 2 * (u2 * v2) + v2 * v2) by (nonlinear_arith);
    assert((u3 + v3) * (u3 + v3) == u3 * u3 + 2 * (u3 * v3) + v3 * v3) by (nonlinear_arith);
    assert((u4 + v4) * (u4 + v4) == u4 * u4 + 2 * (u4 * v4) + v4 * v4) by (nonlinear_arith);
    assert((u5 + v5) * (u5 + v5) == u5 * u5 + 2 * (u5 * v5) + v5 * v5) by (nonlinear_arith);
    assert(spec_dist_sq(a, c) == (u1 + v1) * (u1 + v1) + (u2 + v2) * (u2 + v2) + (u3 + v3) * (u3
        + v3) + (u4 + v4) * (u4 + v4) + (u5 + v5) * (u5 + v5));
    assert(spec_dist_sq(a, c) == uu + vv + 2 * w);
    lemma_cs5(u1, u2, u3, u4, u5, v1, v2, v3, v4, v5);
    assert(u1 * u1 >= 0 && u2 * u2 >= 0 && u3 * u3 >= 0 && u4 * u4 >= 0 && u5 * u5 >= 0 && v1 * v1
        >= 0 && v2 * v2 >= 0 && v3 * v3 >= 0 && v4 * v4 >= 0 && v5 * v5 >= 0) by (nonlinear_arith);
    assert(uu >= 0 && vv >= 0);
    // The squared distances are bounded by the next squares up.
    assert(uu < (dab + 1) * (dab + 1));
    assert(vv < (dbc + 1) * (dbc + 1));
    if w >= 0 {
        assert(w < (dab + 1) * (dbc + 1)) by (nonlinear_arith)
            requires
                0 <= w,
                w * w <= uu * vv,
                0 <= uu < (dab + 1) * (dab + 1),
                0 <= vv < (dbc + 1) * (dbc + 1),
                0 <= dab + 1,
                0 <= dbc + 1,
        ;
    }
    assert(uu + vv + 2 * w < (dab + dbc + 2) * (dab + dbc + 2)) by (nonlinear_arith)
        requires
            uu < (dab + 1) * (dab + 1),
            vv < (dbc + 1) * (dbc + 1),
            w < (dab + 1) * (dbc + 1) || w < 0,
            0 <= dab + 1,
            0 <= dbc + 1,
    ;
    assert(dac < dab + dbc + 2) by (nonlinear_arith)
        requires
            0 <= dac,
            dac * dac <= uu + vv + 2 * w,
            uu + vv + 2 * w < (dab + dbc + 2) * (dab + dbc + 2),
            0 <= dab + dbc + 2,
    ;
}

// ============================================================================
// Dimension catalog
// ============================================================================

/// Definition of a single dimension of the relationship quality space, with
/// its bounds and the labels of its key points (coordinates in milli-units).
#[derive(Debug, PartialEq, Eq)]
pub struct RelationshipDimension {
    /// Dimension identifier.
    pub id: String,
    /// Human-readable name.
    pub name: String,
    /// Minimum coordinate (zero).
    pub min_value: u32,
    /// Maximum coordinate (one, in milli-units).
    pub max_value: u32,
    /// What this dimension represents.
    pub description: String,
    /// Labels of key points on the dimension.
    pub labels: Vec<(u32, String)>,
}

impl RelationshipDimension {
    /// A catalog entry covers the unit interval, carries its identifier, and
    /// labels exactly the given key points.
    pub open spec fn catalog_entry(self, id: Seq<char>, labels: Seq<(u32, Seq<char>)>) -> bool {
        &&& self.id@ == id
        &&& self.min_value == 0
        &&& self.max_value == MILLI_ONE
        &&& self.labels@.len() == labels.len()
        &&& forall|i: int|
            0 <= i < labels.len() ==> (#[trigger] self.labels@[i]).0 == labels[i].0
                && self.labels@[i].1@ == labels[i].1
    }

    /// The strength dimension.
    pub fn strength() -> (r: RelationshipDimension)
        ensures
            r.catalog_entry("strength"@, seq![(0u32, "Weak"@), (500u32, "Moderate"@), (1000u32, "Strong"@)]),
            r.name@ == "Strength"@,
    {
        let mut labels: Vec<(u32, String)> = Vec::new();
        labels.push((0, String::from_str("Weak")));
        labels.push((500, String::from_str("Moderate")));
        labels.push((1000, String::from_str("Strong")));
        RelationshipDimension {
            id: String::from_str("strength"),
            name: String::from_str("Strength"),
            min_value: 0,
            max_value: MILLI_ONE,
            description: String::from_str("How strong or weak the relationship is"),
            labels,
        }
    }

    /// The trust dimension.
    pub fn trust() -> (r: RelationshipDimension)
        ensures
            r.catalog_entry("trust"@, seq![(0u32, "No Trust"@), (500u32, "Partial Trust"@), (1000u32, "Complete Trust"@)]),
            r.name@ == "Trust"@,
    {
        let mut labels: Vec<(u32, String)> = Vec::new();
        labels.push((0, String::from_str("No Trust")));
        labels.push((500, String::from_str("Partial Trust")));
        labels.push((1000, String::from_str("Complete Trust")));
        RelationshipDimension {
            id: String::from_str("trust"),
            name: String::from_str("Trust"),
            min_value: 0,
            max_value: MILLI_ONE,
            description: String::from_str("Level of trust between entities"),
            labels,
        }
    }

    /// The formality dimension.
    pub fn formality() -> (r: RelationshipDimension)
        ensures
            r.catalog_entry("formality"@, seq![(0u32, "Informal"@), (250u32, "Semi-Formal"@), (500u32, "Formal"@), (750u32, "Contractual"@), (1000u32, "Legal"@)]),
            r.name@ == "Formality"@,
    {
        let mut labels: Vec<(u32, String)> = Vec::new();
        labels.push((0, String::from_str("Informal")));
        labels.push((250, String::from_str("Semi-Formal")));
        labels.push((500, String::from_str("Formal")));
        labels.push((750, String::from_str("Contractual")));
        labels.push((1000, String::from_str("Legal")));
        RelationshipDimension {
            id: String::from_str("formality"),
            name: String::from_str("Formality"),
            min_value: 0,
            max_value: MILLI_ONE,
            description: String::from_str("Level of formality from informal to legal"),
            labels,
        }
    }

    /// The duration dimension.
    pub fn duration() -> (r: RelationshipDimension)
        ensures
            r.catalog_entry("duration"@, seq![(0u32, "Instantaneous"@), (250u32, "Short-term"@), (500u32, "Medium-term"@), (750u32, "Long-term"@), (1000u32, "Permanent"@)]),
            r.name@ == "Duration"@,
    {
        let mut labels: Vec<(u32, String)> = Vec::new();
        labels.push((0, String::from_str("Instantaneous")));
        labels.push((250, String::from_str("Short-term")));
        labels.push((500, String::from_str("Medium-term")));
        labels.push((750, String::from_str("Long-term")));
        labels.push((1000, String::from_str("Permanent")));
        RelationshipDimension {
            id: String::from_str("duration"),
            name: String::from_str("Duration"),
            min_value: 0,
            max_value: MILLI_ONE,
            description: String::from_str("Temporal extent of the relationship"),
            labels,
        }
    }

    /// The reciprocity dimension.
    pub fn reciprocity() -> (r: RelationshipDimension)
        ensures
            r.catalog_entry("reciprocity"@, seq![(0u32, "One-sided"@), (500u32, "Partially Mutual"@), (1000u32, "Fully Mutual"@)]),
            r.name@ == "Reciprocity"@,
    {
        let mut labels: Vec<(u32, String)> = Vec::new();
        labels.push((0, String::from_str("One-sided")));
        labels.push((500, String::from_str("Partially Mutual")));
        labels.push((1000, String::from_str("Fully Mutual")));
        RelationshipDimension {
            id: String::from_str("reciprocity"),
            name: String::from_str("Reciprocity"),
            min_value: 0,
            max_value: MILLI_ONE,
            description: String::from_str("How mutual or one-sided the relationship is"),
            labels,
        }
    }

    /// All standard relationship dimensions, in order.
    pub fn all_dimensions() -> (r: Vec<RelationshipDimension>)
        ensures
            r@.len() == 5,
            r@[0].catalog_entry("strength"@, seq![(0u32, "Weak"@), (500u32, "Moderate"@), (1000u32, "Strong"@)]),
            r@[1].catalog_entry("trust"@, seq![(0u32, "No Trust"@), (500u32, "Partial Trust"@), (1000u32, "Complete Trust"@)]),
            r@[2].catalog_entry("formality"@, seq![(0u32, "Informal"@), (250u32, "Semi-Formal"@), (500u32, "Formal"@), (750u32, "Contractual"@), (1000u32, "Legal"@)]),
            r@[3].catalog_entry("duration"@, seq![(0u32, "Instantaneous"@), (250u32, "Short-term"@), (500u32, "Medium-term"@), (750u32, "Long-term"@), (1000u32, "Permanent"@)]),
            r@[4].catalog_entry("reciprocity"@, seq![(0u32, "One-sided"@), (500u32, "Partially Mutual"@), (1000u32, "Fully Mutual"@)]),
    {
        let mut r: Vec<RelationshipDimension> = Vec::new();
        r.push(Self::strength());
        r.push(Self::trust());
        r.push(Self::formality());
        r.push(Self::duration());
        r.push(Self::reciprocity());
        r
    }
}

} // verus!
