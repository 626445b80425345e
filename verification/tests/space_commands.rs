//! Tests of the relationship space and of command decision: indexing,
//! similarity queries, tessellation invalidation, and the command-to-event
//! step.

use relationship_core::commands::decide_edge;
use relationship_core::commands::decide_hyperedge;
use relationship_core::commands::ActivateEdge;
use relationship_core::commands::AddEdgeEvidence;
use relationship_core::commands::CreateEdge;
use relationship_core::commands::EdgeCommand;
use relationship_core::commands::HyperEdgeCommand;
use relationship_core::commands::RemoveParticipant;
use relationship_core::commands::TerminateEdge;
use relationship_core::events::EdgeEvent;
use relationship_core::events::HyperEdgeEvent;
use relationship_core::events::MessageIdentity;
use relationship_core::quality::Position3;
use relationship_core::space::VoronoiTessellation;
use relationship_core::value_objects::ConceptId;
use relationship_core::value_objects::ConceptualSpaceId;
use relationship_core::value_objects::KnowledgeLevel;
use relationship_core::value_objects::TopologicalSpaceId;
use relationship_core::EdgeConcept;
use relationship_core::EdgeState;
use relationship_core::EntityRef;
use relationship_core::HyperEdgeConcept;
use relationship_core::ParticipantRole;
use relationship_core::QualityPoint;
use relationship_core::RelationshipCategory;
use relationship_core::RelationshipError;
use relationship_core::RelationshipQuality;
use relationship_core::RelationshipSpace;

use chrono::Utc;
use uuid::Uuid;

fn fresh_id() -> u128 {
    Uuid::now_v7().as_u128()
}

fn now_ms() -> i64 {
    Utc::now().timestamp_millis()
}

fn identity() -> MessageIdentity {
    MessageIdentity { message_id: fresh_id(), correlation_id: fresh_id(), causation_id: fresh_id() }
}

fn employment_edge(name: &str) -> EdgeConcept {
    EdgeConcept::new(
        name.to_string(),
        EntityRef::person(fresh_id()),
        EntityRef::organization(fresh_id()),
        RelationshipCategory::Employment,
    )
    .unwrap()
    .with_quality(RelationshipQuality::default_employment())
}

#[test]
fn test_relationship_space_creation() {
    let topo_id = TopologicalSpaceId::new();
    let space = RelationshipSpace::new("Employment Relationships".to_string(), topo_id);

    assert_eq!(space.name, "Employment Relationships");
    assert_eq!(space.relationship_count(), 0);
}

#[test]
fn test_add_edge_to_space() {
    let topo_id = TopologicalSpaceId::new();
    let mut space = RelationshipSpace::new("Test Space".to_string(), topo_id);

    let edge = EdgeConcept::new(
        "Test Employment".to_string(),
        EntityRef::person(fresh_id()),
        EntityRef::organization(fresh_id()),
        RelationshipCategory::Employment,
    )
    .unwrap();

    space.add_edge(edge, now_ms());
    assert_eq!(space.relationship_count(), 1);
}

#[test]
fn test_library_imports() {
    // The conceptual-space value types are accessible from the crate root
    // and from the value-objects module.
    let _space_id = ConceptualSpaceId::new();
    let _concept_id = ConceptId::new();
    let _point = Position3 { x: 500, y: 700, z: 300 };
    let _level = KnowledgeLevel::Unknown;
}

#[test]
fn space_indexes_and_replaces_by_identifier() {
    let mut space = RelationshipSpace::new("S".to_string(), TopologicalSpaceId::new());
    let edge = employment_edge("One");
    let id = edge.id;
    space.add_edge(edge, 1);
    assert_eq!(space.version, 1);
    assert!(space.get_edge(&id).is_some());
    assert!(space.get_edge(&relationship_core::RelationshipId::from_uuid(fresh_id())).is_none());

    // Overwriting the same identifier keeps the count.
    let mut replacement = employment_edge("Two");
    replacement.id = id;
    space.add_edge(replacement, 2);
    assert_eq!(space.relationship_count(), 1);
    assert_eq!(space.get_edge(&id).unwrap().name, "Two");
    assert_eq!(space.version, 2);

    let mut h = HyperEdgeConcept::new("Team".to_string(), RelationshipCategory::Membership)
        .unwrap();
    h.add_participant(EntityRef::person(fresh_id()), ParticipantRole::Member, 1000, 3).unwrap();
    h.add_participant(EntityRef::person(fresh_id()), ParticipantRole::Member, 1000, 3).unwrap();
    let hid = h.id;
    space.add_hyperedge(h, 3);
    assert_eq!(space.relationship_count(), 2);
    assert!(space.get_hyperedge(&hid).is_some());
}

#[test]
fn structural_changes_invalidate_the_tessellation() {
    let mut space = RelationshipSpace::new("S".to_string(), TopologicalSpaceId::new());
    assert!(space.tessellation().is_none());
    space.set_tessellation(VoronoiTessellation {
        generators: vec![Position3 { x: 0, y: 0, z: 0 }],
    });
    assert!(space.tessellation().is_some());
    space.add_edge(employment_edge("E"), 1);
    assert!(space.tessellation().is_none());
}

#[test]
fn similarity_queries_scan_by_distance() {
    let mut space = RelationshipSpace::new("S".to_string(), TopologicalSpaceId::new());
    let near = employment_edge("Near");
    let near_id = near.id;
    let far = EdgeConcept::new(
        "Far".to_string(),
        EntityRef::person(fresh_id()),
        EntityRef::person(fresh_id()),
        RelationshipCategory::Friendship,
    )
    .unwrap()
    .with_quality(RelationshipQuality::default_friendship());
    let now = now_ms();
    space.add_edge(near, now);
    space.add_edge(far, now);
    let probe = QualityPoint::new(700, 600, 750, 0, 600);
    let hits = space.find_similar_edges(&probe, 100, now);
    assert_eq!(hits.len(), 1);
    assert_eq!(hits[0].id, near_id);
    let all = space.find_similar_edges(&probe, 2236, now);
    assert_eq!(all.len(), 2);
}

#[test]
fn active_members_are_filtered_by_state_and_validity() {
    let mut space = RelationshipSpace::new("S".to_string(), TopologicalSpaceId::new());
    let mut active = employment_edge("Active");
    let now = now_ms();
    active.activate(now).unwrap();
    let active_id = active.id;
    let proposed = employment_edge("Proposed");
    space.add_edge(active, now);
    space.add_edge(proposed, now);
    let actives = space.active_edges(now);
    assert_eq!(actives.len(), 1);
    assert_eq!(actives[0].id, active_id);
    assert_eq!(space.active_hyperedges(now).len(), 0);
}

#[test]
fn create_command_yields_a_creating_event() {
    let cmd = EdgeCommand::CreateEdge(CreateEdge {
        identity: identity(),
        edge_id: relationship_core::RelationshipId::from_uuid(fresh_id()),
        source: EntityRef::person(fresh_id()),
        target: EntityRef::organization(fresh_id()),
        category: RelationshipCategory::Employment,
        name: "Alice @ Acme".to_string(),
        quality: None,
        created_by: "tester".to_string(),
    });
    let now = now_ms();
    let r = decide_edge(None, &cmd, fresh_id(), ConceptId::from_uuid(fresh_id()), now).unwrap();
    match r {
        Some(EdgeEvent::EdgeCreated(e)) => {
            assert_eq!(e.name, "Alice @ Acme");
            assert_eq!(e.created_at, now);
        },
        _ => panic!("expected a creating event"),
    }
}

#[test]
fn commands_fail_without_an_aggregate() {
    let cmd = EdgeCommand::ActivateEdge(ActivateEdge {
        identity: identity(),
        edge_id: relationship_core::RelationshipId::from_uuid(fresh_id()),
        activated_by: "tester".to_string(),
    });
    let r = decide_edge(None, &cmd, fresh_id(), ConceptId::from_uuid(fresh_id()), now_ms());
    assert!(matches!(r, Err(RelationshipError::EntityNotFound(_))));
}

#[test]
fn illegal_transition_command_names_both_states() {
    let edge = employment_edge("E");
    let cmd = EdgeCommand::TerminateEdge(TerminateEdge {
        identity: identity(),
        edge_id: edge.id,
        reason: "too soon".to_string(),
        terminated_by: "tester".to_string(),
    });
    let r = decide_edge(Some(&edge), &cmd, fresh_id(), ConceptId::from_uuid(fresh_id()), now_ms());
    match r {
        Err(RelationshipError::InvalidStateTransition(f, t)) => {
            assert_eq!(f, "Proposed");
            assert_eq!(t, "Terminated");
        },
        _ => panic!("expected an invalid-transition failure"),
    }
    assert_eq!(edge.state, EdgeState::Proposed);
}

#[test]
fn duplicate_evidence_command_is_a_noop() {
    let edge = employment_edge("E");
    let cmd = EdgeCommand::AddEdgeEvidence(AddEdgeEvidence {
        identity: identity(),
        edge_id: edge.id,
        evidence_cid: "cid-7".to_string(),
        evidence_type: "document".to_string(),
    });
    let now = now_ms();
    let ev = decide_edge(Some(&edge), &cmd, fresh_id(), ConceptId::from_uuid(fresh_id()), now)
        .unwrap()
        .unwrap();
    let edge = edge.apply_event_pure(&ev, now).unwrap();
    assert_eq!(edge.confidence, 100);
    // The same command against the updated aggregate emits nothing.
    let again = decide_edge(Some(&edge), &cmd, fresh_id(), ConceptId::from_uuid(fresh_id()), now)
        .unwrap();
    assert!(again.is_none());
}

#[test]
fn hyperedge_commands_respect_the_minimum() {
    let mut h = HyperEdgeConcept::new("Trio".to_string(), RelationshipCategory::Membership)
        .unwrap();
    let now = now_ms();
    let p1 = EntityRef::person(fresh_id());
    let p2 = EntityRef::person(fresh_id());
    h.add_participant(p1.clone(), ParticipantRole::Member, 1000, now).unwrap();
    h.add_participant(p2.clone(), ParticipantRole::Member, 1000, now).unwrap();
    let cmd = HyperEdgeCommand::RemoveParticipant(RemoveParticipant {
        identity: identity(),
        hyperedge_id: h.id,
        participant: p1.clone(),
        reason: "left".to_string(),
        removed_by: "tester".to_string(),
    });
    let r = decide_hyperedge(Some(&h), &cmd, fresh_id(), ConceptId::from_uuid(fresh_id()), now);
    assert!(matches!(r, Err(RelationshipError::InsufficientParticipants)));
    // With a third participant the removal yields an event, and applying it
    // brings the count back to two.
    let p3 = EntityRef::person(fresh_id());
    h.add_participant(p3, ParticipantRole::Member, 1000, now).unwrap();
    let ev = decide_hyperedge(Some(&h), &cmd, fresh_id(), ConceptId::from_uuid(fresh_id()), now)
        .unwrap()
        .unwrap();
    assert!(matches!(ev, HyperEdgeEvent::ParticipantRemoved(_)));
    let h = h.apply_event_pure(&ev, now).unwrap();
    assert_eq!(h.participant_count(), 2);
    assert!(!h.participants.contains(&p1));
}

#[test]
fn property_writes_are_last_write_wins() {
    let edge = employment_edge("E")
        .with_property("grade".to_string(), serde_json::Value::String("junior".to_string()))
        .with_property("grade".to_string(), serde_json::Value::String("senior".to_string()));
    assert_eq!(edge.properties.len(), 1);
    assert_eq!(edge.properties[0].0, "grade");
    match &edge.properties[0].1 {
        relationship_core::value_objects::PropertyValue::Json(v) => {
            assert_eq!(v, &serde_json::Value::String("senior".to_string()));
        },
        _ => panic!("expected the carried value"),
    }
}
