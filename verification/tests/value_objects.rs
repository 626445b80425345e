//! Tests of the value types: identifiers, references, validity periods,
//! formality, and the incidence matrix.

use relationship_core::value_objects::ConceptualSpaceId;
use relationship_core::value_objects::ConceptId;
use relationship_core::value_objects::same_participant;
use relationship_core::EntityRef;
use relationship_core::EntityType;
use relationship_core::Formality;
use relationship_core::IncidenceMatrix;
use relationship_core::ParticipantRole;
use relationship_core::RelationshipId;
use relationship_core::ValidityPeriod;

use chrono::Utc;
use uuid::Uuid;

fn fresh_id() -> u128 {
    Uuid::now_v7().as_u128()
}

fn now_ms() -> i64 {
    Utc::now().timestamp_millis()
}

#[test]
fn test_relationship_id_creation() {
    let id1: RelationshipId = RelationshipId::new();
    let id2: RelationshipId = RelationshipId::new();
    assert_ne!(id1, id2);
}

#[test]
fn test_entity_ref_display() {
    let person_ref = EntityRef::person(fresh_id());
    assert!(person_ref.to_display_string().starts_with("person:"));

    let pinned_ref = EntityRef::organization(fresh_id()).with_version(5);
    assert!(pinned_ref.to_display_string().contains("@v5"));
}

#[test]
fn test_validity_period() {
    let ongoing = ValidityPeriod::ongoing_now();
    assert!(ongoing.is_active());
    assert!(!ongoing.has_ended());

    let past_start = now_ms() - 30 * 86_400_000;
    let past_end = now_ms() - 10 * 86_400_000;
    let ended = ValidityPeriod::fixed_term(past_start, past_end);
    assert!(ended.has_ended());
}

#[test]
fn test_formality_conversion() {
    assert_eq!(Formality::from_milli(0), Formality::Informal);
    assert_eq!(Formality::from_milli(500), Formality::Formal);
    assert_eq!(Formality::from_milli(1000), Formality::Legal);
}

#[test]
fn test_incidence_matrix() {
    let mut matrix = IncidenceMatrix::new();

    let person = EntityRef::person(fresh_id());
    let org = EntityRef::organization(fresh_id());

    matrix.add_participant(person.clone(), ParticipantRole::Primary, 1000, now_ms());
    matrix.add_participant(org.clone(), ParticipantRole::Secondary, 800, now_ms());

    assert_eq!(matrix.participant_count(), 2);
    assert!(matrix.contains(&person));
    assert!(matrix.contains(&org));
}

#[test]
fn formality_round_trip_every_rung() {
    let rungs = [
        Formality::Informal,
        Formality::SemiFormal,
        Formality::Formal,
        Formality::Contractual,
        Formality::Legal,
    ];
    for rung in rungs {
        assert_eq!(Formality::from_milli(rung.as_milli() as i64), rung);
    }
}

#[test]
fn formality_bucket_boundaries() {
    assert_eq!(Formality::from_milli(124), Formality::Informal);
    assert_eq!(Formality::from_milli(125), Formality::SemiFormal);
    assert_eq!(Formality::from_milli(374), Formality::SemiFormal);
    assert_eq!(Formality::from_milli(375), Formality::Formal);
    assert_eq!(Formality::from_milli(624), Formality::Formal);
    assert_eq!(Formality::from_milli(625), Formality::Contractual);
    assert_eq!(Formality::from_milli(874), Formality::Contractual);
    assert_eq!(Formality::from_milli(875), Formality::Legal);
}

#[test]
fn entity_ref_subject_matches_uuid_rendering() {
    let id = fresh_id();
    let subject = EntityRef::person(id).to_nats_subject();
    let rendered = Uuid::from_u128(id).hyphenated().to_string();
    let mut expected = String::from("person.query.get.");
    expected.push_str(&rendered);
    assert_eq!(subject, expected);
}

#[test]
fn entity_ref_cid_outranks_version() {
    let id = fresh_id();
    let r = EntityRef::person(id)
        .with_cid("abcdefgh12345".to_string())
        .with_version(7);
    let display = r.to_display_string();
    assert!(display.ends_with("@abcdefgh"));
    assert!(r.is_pinned());
}

#[test]
fn participants_compare_as_rendered() {
    let id = fresh_id();
    // Two content identifiers that agree on their first eight characters
    // render the same, so they name the same participant.
    let a = EntityRef::person(id).with_cid("abcdefgh-one".to_string());
    let b = EntityRef::person(id).with_cid("abcdefgh-two".to_string());
    assert!(same_participant(&a, &b));
    // Different custom entity types share the `custom` prefix.
    let c = EntityRef::new(EntityType::Custom("ship".to_string()), id);
    let d = EntityRef::new(EntityType::Custom("boat".to_string()), id);
    assert!(same_participant(&c, &d));
    // A pinned and an unpinned reference render differently.
    let e = EntityRef::person(id);
    assert!(!same_participant(&a, &e));
}

#[test]
fn incidence_matrix_replaces_and_filters() {
    let mut matrix = IncidenceMatrix::new();
    let person = EntityRef::person(fresh_id());
    matrix.add_participant(person.clone(), ParticipantRole::Member, 900, 1);
    // Re-adding the same participant replaces the entry.
    matrix.add_participant(person.clone(), ParticipantRole::Leader, 2_000, 2);
    assert_eq!(matrix.participant_count(), 1);
    let leaders = matrix.participants_with_role(&ParticipantRole::Leader);
    assert_eq!(leaders.len(), 1);
    // The weight was clamped to the unit interval.
    assert_eq!(leaders[0].weight, 1000);
    let members = matrix.participants_with_role(&ParticipantRole::Member);
    assert_eq!(members.len(), 0);
    // Removal returns the entry and empties the matrix.
    let removed = matrix.remove_participant(&person);
    assert!(removed.is_some());
    assert_eq!(matrix.participant_count(), 0);
    assert!(matrix.remove_participant(&person).is_none());
}

#[test]
fn validity_period_end_is_immutable() {
    let p = ValidityPeriod::ongoing(1_000);
    let ended = p.end(5_000, "done".to_string());
    assert_eq!(ended.ends_at, Some(5_000));
    assert_eq!(ended.end_reason, Some("done".to_string()));
    // A second end keeps the first.
    let again = ended.end(9_000, "later".to_string());
    assert_eq!(again.ends_at, Some(5_000));
    assert_eq!(again.end_reason, Some("done".to_string()));
    // An end before the start is clamped to the start.
    let early = ValidityPeriod::ongoing(1_000).end(10, "early".to_string());
    assert_eq!(early.ends_at, Some(1_000));
}

#[test]
fn validity_period_duration_days() {
    let p = ValidityPeriod::fixed_term(0, 100 * 86_400_000);
    assert_eq!(p.duration_days(), Some(100));
    assert!(ValidityPeriod::ongoing(0).duration_days().is_none());
}

#[test]
fn version_pins_render_in_decimal() {
    let r = EntityRef::person(fresh_id()).with_version(12345);
    assert!(r.to_display_string().ends_with("@v12345"));
    let zero = EntityRef::person(fresh_id()).with_version(0);
    assert!(zero.to_display_string().ends_with("@v0"));
}

#[test]
fn short_content_identifiers_render_whole() {
    let r = EntityRef::person(fresh_id()).with_cid("abc".to_string());
    assert!(r.to_display_string().ends_with("@abc"));
}

#[test]
fn fresh_identifiers_differ() {
    assert_ne!(ConceptId::new(), ConceptId::new());
    assert_ne!(ConceptualSpaceId::new(), ConceptualSpaceId::new());
    let a: RelationshipId = RelationshipId::from_uuid(42);
    assert_eq!(a.as_uuid(), 42);
    assert_eq!(a.erase_types(), a);
}
