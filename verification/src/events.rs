//! Events of the relationship domain: immutable facts, the only vehicle of
//! state change. Every event carries its own identifier, the identity of the
//! message that caused it, the identifier of the aggregate it applies to, and
//! a timestamp in milliseconds since the Unix epoch.

use vstd::prelude::*;

use crate::quality::RelationshipQuality;
use crate::value_objects::ConceptId;
use crate::value_objects::EntityRef;
use crate::value_objects::IncidenceMatrix;
use crate::value_objects::KnowledgeLevel;
use crate::value_objects::ParticipantRole;
use crate::value_objects::RelationshipCategory;
use crate::value_objects::RelationshipId;

verus! {

/// Correlation metadata of a message, opaque to the core: the message's own
/// identifier and the identifiers of the messages it correlates with and was
/// caused by. The transport assigns and reads these; the core carries them
/// through.
#[derive(Debug, Clone, Copy, PartialEq, Eq, Hash, Structural)]
pub struct MessageIdentity {
    /// The message's own identifier.
    pub message_id: u128,
    /// The identifier of the correlation group.
    pub correlation_id: u128,
    /// The identifier of the message that caused this one.
    pub causation_id: u128,
}

// ============================================================================
// Edge events
// ============================================================================

/// Events of the edge aggregate.
#[derive(Debug, Clone)]
pub enum EdgeEvent {
    /// An edge was created.
    EdgeCreated(EdgeCreated),
    /// An edge was activated.
    EdgeActivated(EdgeActivated),
    /// An edge was suspended.
    EdgeSuspended(EdgeSuspended),
    /// An edge was terminated.
    EdgeTerminated(EdgeTerminated),
    /// An edge was rejected.
    EdgeRejected(EdgeRejected),
    /// An edge's quality profile was replaced.
    QualityUpdated(EdgeQualityUpdated),
    /// Evidence was attached to an edge.
    EvidenceAdded(EdgeEvidenceAdded),
    /// An edge's knowledge level progressed.
    KnowledgeProgressed(EdgeKnowledgeProgressed),
    /// A property of an edge was written.
    PropertyUpdated(EdgePropertyUpdated),
}

/// An edge was created.
#[derive(Debug, Clone)]
pub struct EdgeCreated {
    /// Unique identifier of this event.
    pub event_id: u128,
    /// Correlation metadata.
    pub identity: MessageIdentity,
    /// The new edge's identifier.
    pub edge_id: RelationshipId,
    /// The new edge's concept identifier.
    pub concept_id: ConceptId,
    /// Source entity (the `from` end).
    pub source: EntityRef,
    /// Target entity (the `to` end).
    pub target: EntityRef,
    /// Category of the relationship.
    pub category: RelationshipCategory,
    /// Human-readable name.
    pub name: String,
    /// Who created the edge.
    pub created_by: String,
    /// When the edge was created.
    pub created_at: i64,
}

/// An edge was activated.
#[derive(Debug, Clone)]
pub struct EdgeActivated {
    /// Unique identifier of this event.
    pub event_id: u128,
    /// Correlation metadata.
    pub identity: MessageIdentity,
    /// The edge the event applies to.
    pub edge_id: RelationshipId,
    /// Who activated the edge.
    pub activated_by: String,
    /// When the edge was activated.
    pub activated_at: i64,
}

/// An edge was suspended.
#[derive(Debug, Clone)]
pub struct EdgeSuspended {
    /// Unique identifier of this event.
    pub event_id: u128,
    /// Correlation metadata.
    pub identity: MessageIdentity,
    /// The edge the event applies to.
    pub edge_id: RelationshipId,
    /// Why the edge was suspended.
    pub reason: Option<String>,
    /// Who suspended the edge.
    pub suspended_by: String,
    /// When the edge was suspended.
    pub suspended_at: i64,
}

/// An edge was terminated.
#[derive(Debug, Clone)]
pub struct EdgeTerminated {
    /// Unique identifier of this event.
    pub event_id: u128,
    /// Correlation metadata.
    pub identity: MessageIdentity,
    /// The edge the event applies to.
    pub edge_id: RelationshipId,
    /// Why the edge was terminated.
    pub reason: String,
    /// Who terminated the edge.
    pub terminated_by: String,
    /// When the edge was terminated.
    pub terminated_at: i64,
}

/// An edge was rejected.
#[derive(Debug, Clone)]
pub struct EdgeRejected {
    /// Unique identifier of this event.
    pub event_id: u128,
    /// Correlation metadata.
    pub identity: MessageIdentity,
    /// The edge the event applies to.
    pub edge_id: RelationshipId,
    /// Why the edge was rejected.
    pub reason: Option<String>,
    /// Who rejected the edge.
    pub rejected_by: String,
    /// When the edge was rejected.
    pub rejected_at: i64,
}

/// An edge's quality profile was replaced.
#[derive(Debug, Clone)]
pub struct EdgeQualityUpdated {
    /// Unique identifier of this event.
    pub event_id: u128,
    /// Correlation metadata.
    pub identity: MessageIdentity,
    /// The edge the event applies to.
    pub edge_id: RelationshipId,
    /// The profile before the update.
    pub old_quality: RelationshipQuality,
    /// The profile after the update.
    pub new_quality: RelationshipQuality,
    /// Why the quality changed.
    pub reason: String,
    /// When the quality changed.
    pub updated_at: i64,
}

/// Evidence was attached to an edge.
#[derive(Debug, Clone)]
pub struct EdgeEvidenceAdded {
    /// Unique identifier of this event.
    pub event_id: u128,
    /// Correlation metadata.
    pub identity: MessageIdentity,
    /// The edge the event applies to.
    pub edge_id: RelationshipId,
    /// Content identifier of the evidence.
    pub evidence_cid: String,
    /// Kind of evidence.
    pub evidence_type: String,
    /// When the evidence was added.
    pub added_at: i64,
}

/// An edge's knowledge level progressed.
#[derive(Debug, Clone)]
pub struct EdgeKnowledgeProgressed {
    /// Unique identifier of this event.
    pub event_id: u128,
    /// Correlation metadata.
    pub identity: MessageIdentity,
    /// The edge the event applies to.
    pub edge_id: RelationshipId,
    /// The level before the progression.
    pub from_level: KnowledgeLevel,
    /// The level after the progression.
    pub to_level: KnowledgeLevel,
    /// The confidence score override, in milli-units; clamped to the unit
    /// interval when applied.
    pub new_confidence: i64,
    /// Why the knowledge progressed.
    pub reason: String,
    /// When the knowledge progressed.
    pub progressed_at: i64,
}

/// A property of an edge was written.
#[derive(Debug, Clone)]
pub struct EdgePropertyUpdated {
    /// Unique identifier of this event.
    pub event_id: u128,
    /// Correlation metadata.
    pub identity: MessageIdentity,
    /// The edge the event applies to.
    pub edge_id: RelationshipId,
    /// The property's key.
    pub key: String,
    /// The property's new value, carried through opaquely.
    pub value: serde_json::Value,
    /// When the property was written.
    pub updated_at: i64,
}

// ============================================================================
// Hyperedge events
// ============================================================================

/// Events of the hyperedge aggregate.
#[derive(Debug, Clone)]
pub enum HyperEdgeEvent {
    /// A hyperedge was created.
    HyperEdgeCreated(HyperEdgeCreated),
    /// A hyperedge was activated.
    HyperEdgeActivated(HyperEdgeActivated),
    /// A participant joined a hyperedge.
    ParticipantAdded(ParticipantAdded),
    /// A participant left a hyperedge.
    ParticipantRemoved(ParticipantRemoved),
    /// A participant's role changed.
    ParticipantRoleChanged(ParticipantRoleChanged),
    /// A hyperedge was dissolved.
    HyperEdgeTerminated(HyperEdgeTerminated),
    /// A hyperedge's quality profile was replaced.
    HyperEdgeQualityUpdated(HyperEdgeQualityUpdated),
}

/// A hyperedge was created.
#[derive(Debug, Clone)]
pub struct HyperEdgeCreated {
    /// Unique identifier of this event.
    pub event_id: u128,
    /// Correlation metadata.
    pub identity: MessageIdentity,
    /// The new hyperedge's identifier.
    pub hyperedge_id: RelationshipId,
    /// The new hyperedge's concept identifier.
    pub concept_id: ConceptId,
    /// Human-readable name.
    pub name: String,
    /// Category of the relationship.
    pub category: RelationshipCategory,
    /// The participants present from the start.
    pub initial_participants: IncidenceMatrix,
    /// Who created the hyperedge.
    pub created_by: String,
    /// When the hyperedge was created.
    pub created_at: i64,
}

/// A hyperedge was activated.
#[derive(Debug, Clone)]
pub struct HyperEdgeActivated {
    /// Unique identifier of this event.
    pub event_id: u128,
    /// Correlation metadata.
    pub identity: MessageIdentity,
    /// The hyperedge the event applies to.
    pub hyperedge_id: RelationshipId,
    /// Who activated the hyperedge.
    pub activated_by: String,
    /// When the hyperedge was activated.
    pub activated_at: i64,
}

/// A participant joined a hyperedge.
#[derive(Debug, Clone)]
pub struct ParticipantAdded {
    /// Unique identifier of this event.
    pub event_id: u128,
    /// Correlation metadata.
    pub identity: MessageIdentity,
    /// The hyperedge the event applies to.
    pub hyperedge_id: RelationshipId,
    /// The joining participant.
    pub participant: EntityRef,
    /// The participant's role.
    pub role: ParticipantRole,
    /// The participant's weight, in milli-units; clamped to the unit
    /// interval when applied.
    pub weight: i64,
    /// Who added the participant.
    pub added_by: String,
    /// When the participant joined.
    pub added_at: i64,
}

/// A participant left a hyperedge.
#[derive(Debug, Clone)]
pub struct ParticipantRemoved {
    /// Unique identifier of this event.
    pub event_id: u128,
    /// Correlation metadata.
    pub identity: MessageIdentity,
    /// The hyperedge the event applies to.
    pub hyperedge_id: RelationshipId,
    /// The leaving participant.
    pub participant: EntityRef,
    /// Why the participant left.
    pub reason: String,
    /// Who removed the participant.
    pub removed_by: String,
    /// When the participant left.
    pub removed_at: i64,
}

/// A participant's role changed.
#[derive(Debug, Clone)]
pub struct ParticipantRoleChanged {
    /// Unique identifier of this event.
    pub event_id: u128,
    /// Correlation metadata.
    pub identity: MessageIdentity,
    /// The hyperedge the event applies to.
    pub hyperedge_id: RelationshipId,
    /// The participant whose role changed.
    pub participant: EntityRef,
    /// The role before the change.
    pub old_role: ParticipantRole,
    /// The role after the change.
    pub new_role: ParticipantRole,
    /// Who changed the role.
    pub changed_by: String,
    /// When the role changed.
    pub changed_at: i64,
}

/// A hyperedge was dissolved.
#[derive(Debug, Clone)]
pub struct HyperEdgeTerminated {
    /// Unique identifier of this event.
    pub event_id: u128,
    /// Correlation metadata.
    pub identity: MessageIdentity,
    /// The hyperedge the event applies to.
    pub hyperedge_id: RelationshipId,
    /// Why the hyperedge was dissolved.
    pub reason: String,
    /// Who dissolved the hyperedge.
    pub terminated_by: String,
    /// When the hyperedge was dissolved.
    pub terminated_at: i64,
}

/// A hyperedge's quality profile was replaced.
#[derive(Debug, Clone)]
pub struct HyperEdgeQualityUpdated {
    /// Unique identifier of this event.
    pub event_id: u128,
    /// Correlation metadata.
    pub identity: MessageIdentity,
    /// The hyperedge the event applies to.
    pub hyperedge_id: RelationshipId,
    /// The profile before the update.
    pub old_quality: RelationshipQuality,
    /// The profile after the update.
    pub new_quality: RelationshipQuality,
    /// Why the quality changed.
    pub reason: String,
    /// When the quality changed.
    pub updated_at: i64,
}

// ============================================================================
// Unified relationship event
// ============================================================================

/// Any event of the relationship domain.
#[derive(Debug, Clone)]
pub enum RelationshipEvent {
    /// An event of an edge aggregate.
    Edge(EdgeEvent),
    /// An event of a hyperedge aggregate.
    HyperEdge(HyperEdgeEvent),
}

impl From<EdgeEvent> for RelationshipEvent {
    /// Wrap an edge event.
    fn from(event: EdgeEvent) -> (r: RelationshipEvent) {
        RelationshipEvent::Edge(event)
    }
}

impl vstd::std_specs::convert::FromSpecImpl<EdgeEvent> for RelationshipEvent {
    open spec fn obeys_from_spec() -> bool {
        true
    }

    open spec fn from_spec(event: EdgeEvent) -> RelationshipEvent {
        RelationshipEvent::Edge(event)
    }
}

impl From<HyperEdgeEvent> for RelationshipEvent {
    /// Wrap a hyperedge event.
    fn from(event: HyperEdgeEvent) -> (r: RelationshipEvent) {
        RelationshipEvent::HyperEdge(event)
    }
}

impl vstd::std_specs::convert::FromSpecImpl<HyperEdgeEvent> for RelationshipEvent {
    open spec fn obeys_from_spec() -> bool {
        true
    }

    open spec fn from_spec(event: HyperEdgeEvent) -> RelationshipEvent {
        RelationshipEvent::HyperEdge(event)
    }
}

} // verus!
