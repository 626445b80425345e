//! Tests of the quality space: clamping, distances, interpolation,
//! conversion from the high-level profile, weights, and the dimension
//! catalog.

use relationship_core::quality::Position3;
use relationship_core::quality::QualityWeights;
use relationship_core::quality::RelationshipDimension;
use relationship_core::Formality;
use relationship_core::QualityPoint;
use relationship_core::RelationshipQuality;
use relationship_core::ValidityPeriod;

#[test]
fn test_quality_point_distance() {
    let p1 = QualityPoint::new(0, 0, 0, 0, 0);
    let p2 = QualityPoint::new(1000, 0, 0, 0, 0);

    assert_eq!(p1.distance(&p2), 1000);

    let p3 = QualityPoint::new(1000, 1000, 1000, 1000, 1000);
    // The floor of the square root of five million: the diameter of the
    // quality space in milli-units.
    assert_eq!(p1.distance(&p3), 2236);
}

#[test]
fn test_quality_point_lerp() {
    let p1 = QualityPoint::new(0, 0, 0, 0, 0);
    let p2 = QualityPoint::new(1000, 1000, 1000, 1000, 1000);

    let mid = p1.lerp(&p2, 500);
    assert_eq!(mid.strength, 500);
    assert_eq!(mid.trust, 500);
}

#[test]
fn test_relationship_quality_conversion() {
    let quality = RelationshipQuality::default_employment();
    let point = quality.to_quality_point();

    assert_eq!(point.strength, 700);
    assert_eq!(point.trust, 600);
    assert_eq!(point.formality, 750);  // Contractual
}

#[test]
fn test_quality_clamping() {
    let point = QualityPoint::new(2000, -1000, 500, 500, 500);
    assert_eq!(point.strength, 1000);
    assert_eq!(point.trust, 0);
}

#[test]
fn distance_laws_on_points() {
    let p = QualityPoint::new(700, 600, 750, 800, 600);
    let q = QualityPoint::new(500, 800, 0, 500, 900);
    let r = QualityPoint::new(0, 0, 0, 0, 0);
    assert_eq!(p.distance(&p), 0);
    assert_eq!(p.distance(&q), q.distance(&p));
    // Triangle inequality, up to the milli-unit lost to rounding.
    assert!(p.distance(&r) <= p.distance(&q) + q.distance(&r) + 1);
}

#[test]
fn weighted_distance_exact_value() {
    let a = QualityPoint::new(0, 0, 0, 0, 0);
    let b = QualityPoint::new(1000, 0, 0, 0, 0);
    let w = QualityWeights::trust_focused();
    // Only the strength coordinate differs; its weight is 1.5, so the
    // distance is 1.5 in micro-units.
    assert_eq!(a.weighted_distance(&b, &w), 1_500_000);
    let unit = QualityWeights::default();
    assert_eq!(a.weighted_distance(&b, &unit), 1_000_000);
}

#[test]
fn weight_presets_hold_their_constants() {
    let t = QualityWeights::trust_focused();
    assert_eq!((t.strength, t.trust, t.formality, t.duration, t.reciprocity), (1500, 2000, 500, 500, 1000));
    let b = QualityWeights::business_focused();
    assert_eq!((b.strength, b.trust, b.formality, b.duration, b.reciprocity), (1000, 1000, 2000, 1500, 500));
    let s = QualityWeights::social_focused();
    assert_eq!((s.strength, s.trust, s.formality, s.duration, s.reciprocity), (1000, 1500, 500, 500, 2000));
}

#[test]
fn lerp_clamps_its_parameter() {
    let a = QualityPoint::new(0, 0, 0, 0, 0);
    let b = QualityPoint::new(1000, 800, 600, 400, 200);
    assert_eq!(a.lerp(&b, 2000), b);
    assert_eq!(a.lerp(&b, -100), a);
}

#[test]
fn quality_point_array_round_trip() {
    let p = QualityPoint::new(100, 200, 300, 400, 500);
    let arr = p.to_array();
    assert_eq!(arr, [100, 200, 300, 400, 500]);
    let q = QualityPoint::from_array([100, 200, 300, 400, 500]);
    assert_eq!(p, q);
}

#[test]
fn projection_reads_first_three_dimensions() {
    let p = QualityPoint::new(100, 200, 300, 400, 500);
    assert_eq!(p.to_point3(), Position3 { x: 100, y: 200, z: 300 });
}

#[test]
fn duration_dimension_normalizes_over_a_year() {
    // Ongoing for exactly one year: saturated at one.
    let q = RelationshipQuality::new(
        500,
        500,
        Formality::Formal,
        ValidityPeriod::ongoing(0),
        500,
    );
    let now = 365 * 86_400_000;
    assert_eq!(q.to_quality_point_at(now).duration, 1000);
    // An ended period of one hundred days counts its own length.
    let ended = RelationshipQuality::new(
        500,
        500,
        Formality::Formal,
        ValidityPeriod::fixed_term(0, 100 * 86_400_000),
        500,
    );
    assert_eq!(ended.to_quality_point_at(now).duration, 100 * 1000 / 365);
    // A freshly started period contributes nothing.
    assert_eq!(q.to_quality_point_at(0).duration, 0);
}

#[test]
fn default_profiles_hold_their_constants() {
    let e = QualityPoint::default_for_employment();
    assert_eq!((e.strength, e.trust, e.formality, e.duration, e.reciprocity), (700, 600, 750, 800, 600));
    let f = QualityPoint::default_for_friendship();
    assert_eq!((f.strength, f.trust, f.formality, f.duration, f.reciprocity), (500, 800, 0, 500, 900));
    let m = QualityPoint::default_for_membership();
    assert_eq!((m.strength, m.trust, m.formality, m.duration, m.reciprocity), (500, 500, 500, 600, 500));
    let o = QualityPoint::origin();
    assert_eq!((o.strength, o.trust, o.formality, o.duration, o.reciprocity), (0, 0, 0, 0, 0));
    let d: QualityPoint = Default::default();
    assert_eq!((d.strength, d.trust, d.formality, d.duration, d.reciprocity), (500, 500, 500, 500, 500));
}

#[test]
fn dimension_catalog_is_complete() {
    let all = RelationshipDimension::all_dimensions();
    assert_eq!(all.len(), 5);
    assert_eq!(all[0].id, "strength");
    assert_eq!(all[1].id, "trust");
    assert_eq!(all[2].id, "formality");
    assert_eq!(all[3].id, "duration");
    assert_eq!(all[4].id, "reciprocity");
    for d in &all {
        assert_eq!(d.min_value, 0);
        assert_eq!(d.max_value, 1000);
    }
    assert_eq!(all[2].labels.len(), 5);
    assert_eq!(all[2].labels[1], (250, "Semi-Formal".to_string()));
}
