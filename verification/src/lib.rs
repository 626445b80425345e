//! Relationship concept core: an event-sourced domain model in which
//! relationships between entities are concepts situated in a five-dimensional
//! quality space.
//!
//! Quality coordinates are normalized reals in [0, 1]; this crate represents
//! them as integers in milli-units (0 ..= 1000), so that every computation on
//! them is exact and verified. Timestamps are milliseconds since the Unix
//! epoch, supplied by the caller or by a small trusted clock wrapper, so that
//! reduction of an event log is a deterministic, fully specified function.

use vstd::prelude::*;

pub mod commands;
pub mod edge;
pub mod events;
pub mod hyperedge;
pub mod quality;
pub mod space;
pub mod text;
pub mod trusted;
pub mod value_objects;

pub use commands::RelationshipCommand;
pub use edge::EdgeConcept;
pub use edge::EdgeState;
pub use events::RelationshipEvent;
pub use hyperedge::HyperEdgeConcept;
pub use hyperedge::HyperEdgeState;
pub use quality::QualityPoint;
pub use quality::RelationshipQuality;
pub use space::RelationshipSpace;
pub use value_objects::EntityRef;
pub use value_objects::EntityType;
pub use value_objects::Formality;
pub use value_objects::IncidenceMatrix;
pub use value_objects::ParticipantRole;
pub use value_objects::RelationshipCategory;
pub use value_objects::RelationshipId;
pub use value_objects::ValidityPeriod;

verus! {

/// Errors surfaced by the relationship core. Domain failures never panic;
/// they are reported through this type.
#[derive(Debug, Clone, PartialEq, Eq)]
pub enum RelationshipError {
    /// An entity reference could not be resolved.
    EntityNotFound(String),
    /// Structural violation: empty event list, wrong first event, self-loop.
    InvalidRelationship(String),
    /// A pre-clamped quality input was rejected (reserved; clamping is the
    /// default behaviour).
    QualityOutOfRange(String),
    /// The state machine rejected a transition; carries the names of the
    /// source and target states.
    InvalidStateTransition(String, String),
    /// A hyperedge operation would leave fewer than two participants.
    InsufficientParticipants,
    /// An external content-identifier lookup failed.
    CidResolutionFailed(String),
    /// A reaction to an event of another domain failed.
    CrossDomainEventFailed(String),
    /// An underlying conceptual-space error, by its description.
    SpaceError(String),
}

pub type RelationshipResult<T> = Result<T, RelationshipError>;

} // verus!
