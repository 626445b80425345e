//! Tests of the edge and hyperedge aggregates: construction, the lifecycle
//! state machines, similarity, and event-sourced reduction.

use relationship_core::events::EdgeActivated;
use relationship_core::events::EdgeQualityUpdated;
use relationship_core::events::ParticipantRoleChanged;
use relationship_core::Formality;
use relationship_core::ValidityPeriod;
use relationship_core::events::EdgeCreated;
use relationship_core::events::EdgeEvent;
use relationship_core::events::EdgeEvidenceAdded;
use relationship_core::events::EdgeKnowledgeProgressed;
use relationship_core::events::EdgeSuspended;
use relationship_core::events::EdgeTerminated;
use relationship_core::events::MessageIdentity;
use relationship_core::value_objects::ConceptId;
use relationship_core::value_objects::KnowledgeLevel;
use relationship_core::EdgeConcept;
use relationship_core::EdgeState;
use relationship_core::EntityRef;
use relationship_core::HyperEdgeConcept;
use relationship_core::HyperEdgeState;
use relationship_core::ParticipantRole;
use relationship_core::RelationshipCategory;
use relationship_core::RelationshipError;
use relationship_core::RelationshipId;
use relationship_core::RelationshipQuality;

use chrono::Utc;
use uuid::Uuid;

fn fresh_id() -> u128 {
    Uuid::now_v7().as_u128()
}

fn now_ms() -> i64 {
    Utc::now().timestamp_millis()
}

fn identity() -> MessageIdentity {
    MessageIdentity { message_id: fresh_id(), correlation_id: fresh_id(), causation_id: fresh_id() }
}

#[test]
fn test_edge_creation() {
    let source = EntityRef::person(fresh_id());
    let target = EntityRef::organization(fresh_id());

    let edge = EdgeConcept::new(
        "Test Employment".to_string(),
        source.clone(),
        target.clone(),
        RelationshipCategory::Employment,
    )
    .unwrap();

    assert_eq!(edge.state, EdgeState::Proposed);
    assert_eq!(edge.source, source);
    assert_eq!(edge.target, target);
}

#[test]
fn test_edge_state_transitions() {
    let source = EntityRef::person(fresh_id());
    let target = EntityRef::organization(fresh_id());

    let mut edge = EdgeConcept::new(
        "Test".to_string(),
        source,
        target,
        RelationshipCategory::Employment,
    )
    .unwrap();

    // Proposed -> Active
    assert!(edge.activate(now_ms()).is_ok());
    assert_eq!(edge.state, EdgeState::Active);

    // Active -> Suspended
    assert!(edge.suspend(now_ms()).is_ok());
    assert_eq!(edge.state, EdgeState::Suspended);

    // Suspended -> Active
    assert!(edge.resume(now_ms()).is_ok());
    assert_eq!(edge.state, EdgeState::Active);

    // Active -> Terminated
    assert!(edge.terminate("End of contract".to_string(), now_ms()).is_ok());
    assert_eq!(edge.state, EdgeState::Terminated);
}

#[test]
fn test_invalid_transition() {
    let source = EntityRef::person(fresh_id());
    let target = EntityRef::organization(fresh_id());

    let mut edge = EdgeConcept::new(
        "Test".to_string(),
        source,
        target,
        RelationshipCategory::Employment,
    )
    .unwrap();

    // Cannot go directly from Proposed to Terminated.
    assert!(edge.terminate("Invalid".to_string(), now_ms()).is_err());
    assert_eq!(edge.state, EdgeState::Proposed);
}

#[test]
fn test_similarity() {
    let source1 = EntityRef::person(fresh_id());
    let target1 = EntityRef::organization(fresh_id());

    let edge1 = EdgeConcept::new(
        "Employment 1".to_string(),
        source1.clone(),
        target1.clone(),
        RelationshipCategory::Employment,
    )
    .unwrap()
    .with_quality(RelationshipQuality::default_employment());

    let source2 = EntityRef::person(fresh_id());
    let target2 = EntityRef::organization(fresh_id());

    let edge2 = EdgeConcept::new(
        "Employment 2".to_string(),
        source2,
        target2,
        RelationshipCategory::Employment,
    )
    .unwrap()
    .with_quality(RelationshipQuality::default_employment());

    // Same quality should have high similarity.
    let similarity = edge1.similarity(&edge2);
    assert!(similarity > 900);

    // Different quality should have lower similarity.
    let edge3 = EdgeConcept::new(
        "Friendship".to_string(),
        source1,
        target1,
        RelationshipCategory::Friendship,
    )
    .unwrap()
    .with_quality(RelationshipQuality::default_friendship());

    let similarity = edge1.similarity(&edge3);
    assert!(similarity < 700);
}

#[test]
fn edge_creation_rejects_self_loops_and_empty_names() {
    let me = EntityRef::person(fresh_id());
    let r = EdgeConcept::new(
        "Self".to_string(),
        me.clone(),
        me.clone(),
        RelationshipCategory::Friendship,
    );
    assert!(matches!(r, Err(RelationshipError::InvalidRelationship(_))));
    let other = EntityRef::person(fresh_id());
    let r = EdgeConcept::new(String::new(), me, other, RelationshipCategory::Friendship);
    assert!(matches!(r, Err(RelationshipError::InvalidRelationship(_))));
}

fn created_event(edge_id: RelationshipId, created_at: i64) -> (EdgeEvent, EntityRef, EntityRef) {
    let source = EntityRef::person(fresh_id());
    let target = EntityRef::organization(fresh_id());
    let e = EdgeEvent::EdgeCreated(EdgeCreated {
        event_id: fresh_id(),
        identity: identity(),
        edge_id,
        concept_id: ConceptId::from_uuid(fresh_id()),
        source: source.clone(),
        target: target.clone(),
        category: RelationshipCategory::Employment,
        name: "Alice @ Acme".to_string(),
        created_by: "tester".to_string(),
        created_at,
    });
    (e, source, target)
}

#[test]
fn edge_happy_path_replays_with_counted_versions() {
    let id = RelationshipId::from_uuid(fresh_id());
    let t0 = 1_000_000;
    let (created, _, _) = created_event(id, t0);
    let events = vec![
        created,
        EdgeEvent::EdgeActivated(EdgeActivated {
            event_id: fresh_id(),
            identity: identity(),
            edge_id: id,
            activated_by: "tester".to_string(),
            activated_at: t0 + 1,
        }),
        EdgeEvent::EdgeSuspended(EdgeSuspended {
            event_id: fresh_id(),
            identity: identity(),
            edge_id: id,
            reason: Some("leave".to_string()),
            suspended_by: "tester".to_string(),
            suspended_at: t0 + 2,
        }),
        EdgeEvent::EdgeActivated(EdgeActivated {
            event_id: fresh_id(),
            identity: identity(),
            edge_id: id,
            activated_by: "tester".to_string(),
            activated_at: t0 + 3,
        }),
        EdgeEvent::EdgeTerminated(EdgeTerminated {
            event_id: fresh_id(),
            identity: identity(),
            edge_id: id,
            reason: "end-of-contract".to_string(),
            terminated_by: "tester".to_string(),
            terminated_at: t0 + 4,
        }),
    ];
    let now = t0 + 10;
    let expected_states = [
        EdgeState::Proposed,
        EdgeState::Active,
        EdgeState::Suspended,
        EdgeState::Active,
        EdgeState::Terminated,
    ];
    for (k, expected) in expected_states.iter().enumerate() {
        let prefix: Vec<EdgeEvent> = events[..=k].to_vec();
        let edge = EdgeConcept::from_events(&prefix, now).unwrap();
        assert_eq!(edge.state, *expected);
        assert_eq!(edge.version, k as u64);
        assert!(edge.updated_at >= edge.created_at);
        // The position always follows the quality profile.
        assert_eq!(edge.position.x, edge.quality.strength);
        assert_eq!(edge.position.y, edge.quality.trust);
        assert_eq!(edge.position.z, edge.quality.formality.as_milli());
    }
    let edge = EdgeConcept::from_events(&events, now).unwrap();
    assert_eq!(edge.validity.end_reason, Some("end-of-contract".to_string()));
    // A suspension reason lands in the property bag.
    assert!(edge.properties.iter().any(|kv| kv.0 == "suspension_reason"));
}

#[test]
fn edge_replay_rejects_bad_logs() {
    let now = now_ms();
    let empty: Vec<EdgeEvent> = Vec::new();
    assert!(matches!(
        EdgeConcept::from_events(&empty, now),
        Err(RelationshipError::InvalidRelationship(_))
    ));
    // The first event must be a creating event.
    let id = RelationshipId::from_uuid(fresh_id());
    let not_first = vec![EdgeEvent::EdgeActivated(EdgeActivated {
        event_id: fresh_id(),
        identity: identity(),
        edge_id: id,
        activated_by: "tester".to_string(),
        activated_at: now,
    })];
    assert!(matches!(
        EdgeConcept::from_events(&not_first, now),
        Err(RelationshipError::InvalidRelationship(_))
    ));
    // A creating event with equal endpoints is rejected.
    let me = EntityRef::person(fresh_id());
    let self_loop = vec![EdgeEvent::EdgeCreated(EdgeCreated {
        event_id: fresh_id(),
        identity: identity(),
        edge_id: id,
        concept_id: ConceptId::from_uuid(fresh_id()),
        source: me.clone(),
        target: me,
        category: RelationshipCategory::Friendship,
        name: "loop".to_string(),
        created_by: "tester".to_string(),
        created_at: now,
    })];
    assert!(matches!(
        EdgeConcept::from_events(&self_loop, now),
        Err(RelationshipError::InvalidRelationship(_))
    ));
    // An event carrying a foreign identifier is rejected.
    let (created, _, _) = created_event(id, 1_000);
    let foreign = vec![
        created,
        EdgeEvent::EdgeActivated(EdgeActivated {
            event_id: fresh_id(),
            identity: identity(),
            edge_id: RelationshipId::from_uuid(fresh_id()),
            activated_by: "tester".to_string(),
            activated_at: now,
        }),
    ];
    assert!(matches!(
        EdgeConcept::from_events(&foreign, now),
        Err(RelationshipError::InvalidRelationship(_))
    ));
}

fn models_agree(a: &EdgeConcept, b: &EdgeConcept) -> bool {
    a.id == b.id && a.source == b.source && a.target == b.target && a.name == b.name
        && a.state == b.state && a.version == b.version && a.confidence == b.confidence
        && a.evidence_cids == b.evidence_cids && a.validity == b.validity && a.quality == b.quality
        && a.position == b.position && a.created_at == b.created_at && a.updated_at == b.updated_at
}

#[test]
fn reducer_is_deterministic() {
    let id = RelationshipId::from_uuid(fresh_id());
    let (created, _, _) = created_event(id, 500);
    let events = vec![
        created,
        EdgeEvent::EvidenceAdded(EdgeEvidenceAdded {
            event_id: fresh_id(),
            identity: identity(),
            edge_id: id,
            evidence_cid: "cid-1".to_string(),
            evidence_type: "document".to_string(),
            added_at: 600,
        }),
    ];
    let a = EdgeConcept::from_events(&events, 700).unwrap();
    let b = EdgeConcept::from_events(&events, 700).unwrap();
    assert!(models_agree(&a, &b));
}

#[test]
fn evidence_is_idempotent_and_drives_confidence() {
    let id = RelationshipId::from_uuid(fresh_id());
    let (created, _, _) = created_event(id, 500);
    let base = EdgeConcept::from_events(&vec![created], 600).unwrap();
    let ev = EdgeEvent::EvidenceAdded(EdgeEvidenceAdded {
        event_id: fresh_id(),
        identity: identity(),
        edge_id: id,
        evidence_cid: "cid-1".to_string(),
        evidence_type: "document".to_string(),
        added_at: 600,
    });
    let once = base.apply_event_pure(&ev, 700).unwrap();
    assert_eq!(once.evidence_cids.len(), 1);
    assert_eq!(once.confidence, 100);
    let twice = once.apply_event_pure(&ev, 700).unwrap();
    // Only the version and the stamp move; the substance is unchanged.
    assert_eq!(twice.evidence_cids, once.evidence_cids);
    assert_eq!(twice.confidence, once.confidence);
    assert_eq!(twice.state, once.state);
    assert_eq!(twice.version, once.version + 1);
    // A knowledge progression overrides the derived confidence, clamped.
    let know = EdgeEvent::KnowledgeProgressed(EdgeKnowledgeProgressed {
        event_id: fresh_id(),
        identity: identity(),
        edge_id: id,
        from_level: KnowledgeLevel::Unknown,
        to_level: KnowledgeLevel::Known,
        new_confidence: 5_000,
        reason: "confirmed".to_string(),
        progressed_at: 800,
    });
    let known = twice.apply_event_pure(&know, 800).unwrap();
    assert_eq!(known.knowledge_level, KnowledgeLevel::Known);
    assert_eq!(known.confidence, 1000);
}

#[test]
fn quality_update_clamps_and_moves_the_position() {
    let id = RelationshipId::from_uuid(fresh_id());
    let (created, _, _) = created_event(id, 500);
    let base = EdgeConcept::from_events(&vec![created], 600).unwrap();
    let overshoot = RelationshipQuality {
        strength: 5_000,
        trust: 900,
        formality: Formality::Legal,
        duration: ValidityPeriod::ongoing(500),
        reciprocity: 200,
    };
    let ev = EdgeEvent::QualityUpdated(EdgeQualityUpdated {
        event_id: fresh_id(),
        identity: identity(),
        edge_id: id,
        old_quality: base.quality.clone(),
        new_quality: overshoot,
        reason: "tuned".to_string(),
        updated_at: 700,
    });
    let next = base.apply_event_pure(&ev, 700).unwrap();
    assert_eq!(next.quality.strength, 1000);
    assert_eq!(next.position.x, 1000);
    assert_eq!(next.position.y, 900);
    assert_eq!(next.position.z, 1000);
    // A malformed period is rejected and the aggregate stands.
    let bad = RelationshipQuality {
        strength: 500,
        trust: 500,
        formality: Formality::Formal,
        duration: ValidityPeriod { starts_at: 900, ends_at: Some(100), end_reason: None },
        reciprocity: 500,
    };
    let ev = EdgeEvent::QualityUpdated(EdgeQualityUpdated {
        event_id: fresh_id(),
        identity: identity(),
        edge_id: id,
        old_quality: next.quality.clone(),
        new_quality: bad,
        reason: "broken".to_string(),
        updated_at: 800,
    });
    assert!(matches!(
        next.apply_event_pure(&ev, 800),
        Err(RelationshipError::InvalidRelationship(_))
    ));
}

#[test]
fn role_change_preserves_the_weight() {
    let mut h = HyperEdgeConcept::new("Crew".to_string(), RelationshipCategory::Membership)
        .unwrap();
    let p = EntityRef::person(fresh_id());
    h.add_participant(p.clone(), ParticipantRole::Member, 700, 10).unwrap();
    let ev = relationship_core::events::HyperEdgeEvent::ParticipantRoleChanged(
        ParticipantRoleChanged {
            event_id: fresh_id(),
            identity: identity(),
            hyperedge_id: h.id,
            participant: p.clone(),
            old_role: ParticipantRole::Member,
            new_role: ParticipantRole::Leader,
            changed_by: "tester".to_string(),
            changed_at: 20,
        },
    );
    let h = h.apply_event_pure(&ev, 20).unwrap();
    let entry = h.participants.get_participant(&p).unwrap();
    assert_eq!(entry.role, ParticipantRole::Leader);
    assert_eq!(entry.weight, 700);
    assert_eq!(entry.joined_at, 20);
}

#[test]
fn test_hyperedge_creation() {
    let hyperedge = HyperEdgeConcept::new(
        "Team Alpha".to_string(),
        RelationshipCategory::Membership,
    )
    .unwrap();

    assert_eq!(hyperedge.state, HyperEdgeState::Forming);
    assert_eq!(hyperedge.participant_count(), 0);
}

#[test]
fn test_hyperedge_participants() {
    let mut hyperedge = HyperEdgeConcept::new(
        "Project Team".to_string(),
        RelationshipCategory::Membership,
    )
    .unwrap();

    let person1 = EntityRef::person(fresh_id());
    let person2 = EntityRef::person(fresh_id());
    let project = EntityRef::organization(fresh_id());

    hyperedge.add_participant(person1, ParticipantRole::Member, 1000, now_ms()).unwrap();
    hyperedge.add_participant(person2, ParticipantRole::Leader, 1000, now_ms()).unwrap();
    hyperedge.add_participant(project, ParticipantRole::Primary, 1000, now_ms()).unwrap();

    assert_eq!(hyperedge.participant_count(), 3);
}

#[test]
fn test_hyperedge_activation_requires_participants() {
    let mut hyperedge = HyperEdgeConcept::new(
        "Empty Team".to_string(),
        RelationshipCategory::Membership,
    )
    .unwrap();

    // Cannot activate without participants.
    assert!(hyperedge.activate(now_ms()).is_err());

    // Add participants.
    hyperedge
        .add_participant(EntityRef::person(fresh_id()), ParticipantRole::Member, 1000, now_ms())
        .unwrap();
    hyperedge
        .add_participant(EntityRef::person(fresh_id()), ParticipantRole::Member, 1000, now_ms())
        .unwrap();

    // Now can activate.
    assert!(hyperedge.activate(now_ms()).is_ok());
    assert_eq!(hyperedge.state, HyperEdgeState::Active);
}

#[test]
fn test_hyperedge_minimum_participants() {
    let mut hyperedge = HyperEdgeConcept::new(
        "Duo".to_string(),
        RelationshipCategory::Membership,
    )
    .unwrap();

    let person1 = EntityRef::person(fresh_id());
    let person2 = EntityRef::person(fresh_id());

    hyperedge.add_participant(person1.clone(), ParticipantRole::Member, 1000, now_ms()).unwrap();
    hyperedge.add_participant(person2.clone(), ParticipantRole::Member, 1000, now_ms()).unwrap();
    hyperedge.activate(now_ms()).unwrap();

    // Cannot remove when only 2 participants remain.
    let r = hyperedge.remove_participant(&person1, now_ms());
    assert!(matches!(r, Err(RelationshipError::InsufficientParticipants)));
    assert_eq!(hyperedge.participant_count(), 2);
}

#[test]
fn hyperedge_dissolution_is_terminal() {
    let mut h = HyperEdgeConcept::new("Gone".to_string(), RelationshipCategory::Membership)
        .unwrap();
    assert!(h.dissolve("over".to_string(), now_ms()).is_ok());
    assert_eq!(h.state, HyperEdgeState::Dissolved);
    assert_eq!(h.validity.end_reason, Some("over".to_string()));
    // Mutation and a second dissolution are rejected.
    let p = EntityRef::person(fresh_id());
    assert!(h.add_participant(p.clone(), ParticipantRole::Member, 1000, now_ms()).is_err());
    assert!(h.remove_participant(&p, now_ms()).is_err());
    assert!(matches!(
        h.dissolve("again".to_string(), now_ms()),
        Err(RelationshipError::InvalidStateTransition(_, _))
    ));
}

#[test]
fn edge_transition_table_is_exact() {
    let legal = [
        (EdgeState::Proposed, EdgeState::Active),
        (EdgeState::Proposed, EdgeState::Rejected),
        (EdgeState::Active, EdgeState::Suspended),
        (EdgeState::Active, EdgeState::Terminated),
        (EdgeState::Suspended, EdgeState::Active),
        (EdgeState::Suspended, EdgeState::Terminated),
    ];
    let all = [
        EdgeState::Proposed,
        EdgeState::Active,
        EdgeState::Suspended,
        EdgeState::Terminated,
        EdgeState::Rejected,
    ];
    for from in all {
        for to in all {
            let expect = legal.contains(&(from, to));
            assert_eq!(from.can_transition_to(&to), expect);
        }
        let nexts = from.valid_transitions();
        for to in &nexts {
            assert!(from.can_transition_to(to));
        }
        if from.is_terminal() {
            assert!(nexts.is_empty());
        }
    }
}
