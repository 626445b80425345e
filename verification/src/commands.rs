//! Commands of the relationship domain: intents to change a relationship.
//! A command is validated against the current aggregate state and, when
//! legal, yields the event that records the change; events, not commands,
//! are what mutate state. An idempotent command (adding evidence that is
//! already attached, adding a participant that is already present) yields no
//! event and does not fail.

use vstd::prelude::*;

use crate::edge::spec_evidence_contains;
use crate::edge::EdgeConcept;
use crate::edge::EdgeState;
use crate::hyperedge::HyperEdgeConcept;
use crate::hyperedge::HyperEdgeState;
use crate::events::EdgeActivated;
use crate::events::EdgeCreated;
use crate::events::EdgeEvent;
use crate::events::EdgeEvidenceAdded;
use crate::events::EdgeQualityUpdated;
use crate::events::EdgeRejected;
use crate::events::EdgeSuspended;
use crate::events::EdgeTerminated;
use crate::events::HyperEdgeActivated;
use crate::events::HyperEdgeCreated;
use crate::events::HyperEdgeEvent;
use crate::events::HyperEdgeTerminated;
use crate::events::MessageIdentity;
use crate::events::ParticipantAdded;
use crate::events::ParticipantRemoved;
use crate::events::ParticipantRoleChanged;
use crate::quality::RelationshipQuality;
use crate::value_objects::spec_contains_participant;
use crate::value_objects::spec_participant_index;
use crate::value_objects::spec_ref_eq;
use crate::value_objects::ref_eq;
use crate::value_objects::ConceptId;
use crate::value_objects::EntityRef;
use crate::value_objects::IncidenceMatrix;
use crate::value_objects::ParticipantRole;
use crate::value_objects::RelationshipCategory;
use crate::value_objects::RelationshipId;
use crate::RelationshipError;
use crate::RelationshipResult;

verus! {

// ============================================================================
// Edge commands
// ============================================================================

/// Commands of the edge aggregate.
#[derive(Debug, Clone)]
pub enum EdgeCommand {
    /// Create a new edge.
    CreateEdge(CreateEdge),
    /// Activate a proposed or suspended edge.
    ActivateEdge(ActivateEdge),
    /// Suspend an active edge.
    SuspendEdge(SuspendEdge),
    /// Resume a suspended edge.
    ResumeEdge(ResumeEdge),
    /// Terminate an accepted edge.
    TerminateEdge(TerminateEdge),
    /// Reject a proposed edge.
    RejectEdge(RejectEdge),
    /// Replace an edge's quality profile.
    UpdateEdgeQuality(UpdateEdgeQuality),
    /// Attach evidence to an edge.
    AddEdgeEvidence(AddEdgeEvidence),
}

/// Create a new edge.
#[derive(Debug, Clone)]
pub struct CreateEdge {
    /// Correlation metadata.
    pub identity: MessageIdentity,
    /// The new edge's identifier.
    pub edge_id: RelationshipId,
    /// Source entity.
    pub source: EntityRef,
    /// Target entity.
    pub target: EntityRef,
    /// Category of the relationship.
    pub category: RelationshipCategory,
    /// Human-readable name.
    pub name: String,
    /// An explicit quality profile, if any. The creating event of the
    /// catalog carries no quality slot, so deciding this command leaves the
    /// profile aside: an explicit profile is applied by a quality update
    /// that follows the creation.
    pub quality: Option<RelationshipQuality>,
    /// Who asks for the edge.
    pub created_by: String,
}

/// Activate a proposed or suspended edge.
#[derive(Debug, Clone)]
pub struct ActivateEdge {
    /// Correlation metadata.
    pub identity: MessageIdentity,
    /// The edge to activate.
    pub edge_id: RelationshipId,
    /// Who activates it.
    pub activated_by: String,
}

/// Suspend an active edge.
#[derive(Debug, Clone)]
pub struct SuspendEdge {
    /// Correlation metadata.
    pub identity: MessageIdentity,
    /// The edge to suspend.
    pub edge_id: RelationshipId,
    /// Why it is suspended.
    pub reason: Option<String>,
    /// Who suspends it.
    pub suspended_by: String,
}

/// Resume a suspended edge.
#[derive(Debug, Clone)]
pub struct ResumeEdge {
    /// Correlation metadata.
    pub identity: MessageIdentity,
    /// The edge to resume.
    pub edge_id: RelationshipId,
    /// Who resumes it.
    pub resumed_by: String,
}

/// Terminate an accepted edge.
#[derive(Debug, Clone)]
pub struct TerminateEdge {
    /// Correlation metadata.
    pub identity: MessageIdentity,
    /// The edge to terminate.
    pub edge_id: RelationshipId,
    /// Why it ends.
    pub reason: String,
    /// Who terminates it.
    pub terminated_by: String,
}

/// Reject a proposed edge.
#[derive(Debug, Clone)]
pub struct RejectEdge {
    /// Correlation metadata.
    pub identity: MessageIdentity,
    /// The edge to reject.
    pub edge_id: RelationshipId,
    /// Why it is rejected.
    pub reason: Option<String>,
    /// Who rejects it.
    pub rejected_by: String,
}

/// Replace an edge's quality profile.
#[derive(Debug, Clone)]
pub struct UpdateEdgeQuality {
    /// Correlation metadata.
    pub identity: MessageIdentity,
    /// The edge whose quality changes.
    pub edge_id: RelationshipId,
    /// The new profile.
    pub new_quality: RelationshipQuality,
    /// Why it changes.
    pub reason: String,
}

/// Attach evidence to an edge.
#[derive(Debug, Clone)]
pub struct AddEdgeEvidence {
    /// Correlation metadata.
    pub identity: MessageIdentity,
    /// The edge the evidence supports.
    pub edge_id: RelationshipId,
    /// Content identifier of the evidence.
    pub evidence_cid: String,
    /// Kind of evidence.
    pub evidence_type: String,
}

// ============================================================================
// Hyperedge commands
// ============================================================================

/// Commands of the hyperedge aggregate.
#[derive(Debug, Clone)]
pub enum HyperEdgeCommand {
    /// Create a new hyperedge.
    CreateHyperEdge(CreateHyperEdge),
    /// Activate a hyperedge with enough participants.
    ActivateHyperEdge(ActivateHyperEdge),
    /// Add a participant.
    AddParticipant(AddParticipant),
    /// Remove a participant.
    RemoveParticipant(RemoveParticipant),
    /// Change a participant's role.
    ChangeParticipantRole(ChangeParticipantRole),
    /// Dissolve a hyperedge.
    TerminateHyperEdge(TerminateHyperEdge),
}

/// Create a new hyperedge.
#[derive(Debug, Clone)]
pub struct CreateHyperEdge {
    /// Correlation metadata.
    pub identity: MessageIdentity,
    /// The new hyperedge's identifier.
    pub hyperedge_id: RelationshipId,
    /// Human-readable name.
    pub name: String,
    /// Category of the relationship.
    pub category: RelationshipCategory,
    /// The participants present from the start.
    pub initial_participants: IncidenceMatrix,
    /// Who asks for the hyperedge.
    pub created_by: String,
}

/// Activate a hyperedge with enough participants.
#[derive(Debug, Clone)]
pub struct ActivateHyperEdge {
    /// Correlation metadata.
    pub identity: MessageIdentity,
    /// The hyperedge to activate.
    pub hyperedge_id: RelationshipId,
    /// Who activates it.
    pub activated_by: String,
}

/// Add a participant to a hyperedge.
#[derive(Debug, Clone)]
pub struct AddParticipant {
    /// Correlation metadata.
    pub identity: MessageIdentity,
    /// The hyperedge to join.
    pub hyperedge_id: RelationshipId,
    /// The joining participant.
    pub participant: EntityRef,
    /// The participant's role.
    pub role: ParticipantRole,
    /// The participant's weight, in milli-units; clamped on application.
    pub weight: i64,
    /// Who adds the participant.
    pub added_by: String,
}

/// Remove a participant from a hyperedge.
#[derive(Debug, Clone)]
pub struct RemoveParticipant {
    /// Correlation metadata.
    pub identity: MessageIdentity,
    /// The hyperedge to leave.
    pub hyperedge_id: RelationshipId,
    /// The leaving participant.
    pub participant: EntityRef,
    /// Why the participant leaves.
    pub reason: String,
    /// Who removes the participant.
    pub removed_by: String,
}

/// Change a participant's role in a hyperedge.
#[derive(Debug, Clone)]
pub struct ChangeParticipantRole {
    /// Correlation metadata.
    pub identity: MessageIdentity,
    /// The hyperedge concerned.
    pub hyperedge_id: RelationshipId,
    /// The participant whose role changes.
    pub participant: EntityRef,
    /// The new role.
    pub new_role: ParticipantRole,
    /// Who changes the role.
    pub changed_by: String,
}

/// Dissolve a hyperedge.
#[derive(Debug, Clone)]
pub struct TerminateHyperEdge {
    /// Correlation metadata.
    pub identity: MessageIdentity,
    /// The hyperedge to dissolve.
    pub hyperedge_id: RelationshipId,
    /// Why it ends.
    pub reason: String,
    /// Who dissolves it.
    pub terminated_by: String,
}

// ============================================================================
// Unified relationship command
// ============================================================================

/// Any command of the relationship domain.
#[derive(Debug, Clone)]
pub enum RelationshipCommand {
    /// A command of an edge aggregate.
    Edge(EdgeCommand),
    /// A command of a hyperedge aggregate.
    HyperEdge(HyperEdgeCommand),
}

impl From<EdgeCommand> for RelationshipCommand {
    /// Wrap an edge command.
    fn from(cmd: EdgeCommand) -> (r: RelationshipCommand) {
        RelationshipCommand::Edge(cmd)
    }
}

impl vstd::std_specs::convert::FromSpecImpl<EdgeCommand> for RelationshipCommand {
    open spec fn obeys_from_spec() -> bool {
        true
    }

    open spec fn from_spec(cmd: EdgeCommand) -> RelationshipCommand {
        RelationshipCommand::Edge(cmd)
    }
}

impl From<HyperEdgeCommand> for RelationshipCommand {
    /// Wrap a hyperedge command.
    fn from(cmd: HyperEdgeCommand) -> (r: RelationshipCommand) {
        RelationshipCommand::HyperEdge(cmd)
    }
}

impl vstd::std_specs::convert::FromSpecImpl<HyperEdgeCommand> for RelationshipCommand {
    open spec fn obeys_from_spec() -> bool {
        true
    }

    open spec fn from_spec(cmd: HyperEdgeCommand) -> RelationshipCommand {
        RelationshipCommand::HyperEdge(cmd)
    }
}

// ============================================================================
// Command decision
// ============================================================================

/// Decide an edge command against the current aggregate state: a legal
/// command yields the event that records the change, an idempotent one
/// yields nothing, an illegal one fails with the reason. Only the creating
/// command may run without an aggregate; every other command needs one and
/// must carry its identifier. The given event identifier, concept identifier
/// and instant are stamped into the event. A creating command's explicit
/// quality profile, when present, is not part of the creating event (the
/// catalog gives that event no quality slot); it is applied by a following
/// quality update.
pub fn decide_edge(
    state: Option<&EdgeConcept>,
    cmd: &EdgeCommand,
    event_id: u128,
    concept_id: ConceptId,
    now: i64,
) -> (r: RelationshipResult<Option<EdgeEvent>>)
    requires
        state is Some ==> state->Some_0.wf(),
    ensures
        match *cmd {
            EdgeCommand::CreateEdge(c) => if c.name@.len() > 0 && !spec_ref_eq(c.source, c.target) {
                r == Ok::<Option<EdgeEvent>, RelationshipError>(
                    Some(
                        EdgeEvent::EdgeCreated(
                            EdgeCreated {
                                event_id,
                                identity: c.identity,
                                edge_id: c.edge_id,
                                concept_id,
                                source: c.source,
                                target: c.target,
                                category: c.category,
                                name: c.name,
                                created_by: c.created_by,
                                created_at: now,
                            },
                        ),
                    ),
                )
            } else {
                r matches Err(RelationshipError::InvalidRelationship(_))
            },
            EdgeCommand::ActivateEdge(c) => spec_step_outcome(
                state,
                c.edge_id,
                EdgeState::Active,
                r,
                Some(
                    EdgeEvent::EdgeActivated(
                        EdgeActivated {
                            event_id,
                            identity: c.identity,
                            edge_id: c.edge_id,
                            activated_by: c.activated_by,
                            activated_at: now,
                        },
                    ),
                ),
            ),
            EdgeCommand::SuspendEdge(c) => spec_step_outcome(
                state,
                c.edge_id,
                EdgeState::Suspended,
                r,
                Some(
                    EdgeEvent::EdgeSuspended(
                        EdgeSuspended {
                            event_id,
                            identity: c.identity,
                            edge_id: c.edge_id,
                            reason: c.reason,
                            suspended_by: c.suspended_by,
                            suspended_at: now,
                        },
                    ),
                ),
            ),
            EdgeCommand::ResumeEdge(c) => spec_step_outcome(
                state,
                c.edge_id,
                EdgeState::Active,
                r,
                Some(
                    EdgeEvent::EdgeActivated(
                        EdgeActivated {
                            event_id,
                            identity: c.identity,
                            edge_id: c.edge_id,
                            activated_by: c.resumed_by,
                            activated_at: now,
                        },
                    ),
                ),
            ),
            EdgeCommand::TerminateEdge(c) => spec_step_outcome(
                state,
                c.edge_id,
                EdgeState::Terminated,
                r,
                Some(
                    EdgeEvent::EdgeTerminated(
                        EdgeTerminated {
                            event_id,
                            identity: c.identity,
                            edge_id: c.edge_id,
                            reason: c.reason,
                            terminated_by: c.terminated_by,
                            terminated_at: now,
                        },
                    ),
                ),
            ),
            EdgeCommand::RejectEdge(c) => spec_step_outcome(
                state,
                c.edge_id,
                EdgeState::Rejected,
                r,
                Some(
                    EdgeEvent::EdgeRejected(
                        EdgeRejected {
                            event_id,
                            identity: c.identity,
                            edge_id: c.edge_id,
                            reason: c.reason,
                            rejected_by: c.rejected_by,
                            rejected_at: now,
                        },
                    ),
                ),
            ),
            EdgeCommand::UpdateEdgeQuality(c) => match state {
                None => r matches Err(RelationshipError::EntityNotFound(_)),
                Some(s) => if c.edge_id != s.id {
                    r matches Err(RelationshipError::InvalidRelationship(_))
                } else if s.state.spec_is_terminal() {
                    r matches Err(RelationshipError::InvalidRelationship(_))
                } else {
                    r == Ok::<Option<EdgeEvent>, RelationshipError>(
                        Some(
                            EdgeEvent::QualityUpdated(
                                EdgeQualityUpdated {
                                    event_id,
                                    identity: c.identity,
                                    edge_id: c.edge_id,
                                    old_quality: s.quality,
                                    new_quality: c.new_quality,
                                    reason: c.reason,
                                    updated_at: now,
                                },
                            ),
                        ),
                    )
                },
            },
            EdgeCommand::AddEdgeEvidence(c) => match state {
                None => r matches Err(RelationshipError::EntityNotFound(_)),
                Some(s) => if c.edge_id != s.id {
                    r matches Err(RelationshipError::InvalidRelationship(_))
                } else if spec_evidence_contains(s.evidence_cids@, c.evidence_cid@) {
                    r == Ok::<Option<EdgeEvent>, RelationshipError>(None)
                } else {
                    r == Ok::<Option<EdgeEvent>, RelationshipError>(
                        Some(
                            EdgeEvent::EvidenceAdded(
                                EdgeEvidenceAdded {
                                    event_id,
                                    identity: c.identity,
                                    edge_id: c.edge_id,
                                    evidence_cid: c.evidence_cid,
                                    evidence_type: c.evidence_type,
                                    added_at: now,
                                },
                            ),
                        ),
                    )
                },
            },
        },
{
    match cmd {
        EdgeCommand::CreateEdge(c) => {
            if c.name.as_str().is_empty() || ref_eq(&c.source, &c.target) {
                return Err(
                    RelationshipError::InvalidRelationship(
                        String::from_str("create command is malformed"),
                    ),
                );
            }
            Ok(
                Some(
                    EdgeEvent::EdgeCreated(
                        EdgeCreated {
                            event_id,
                            identity: c.identity,
                            edge_id: c.edge_id,
                            concept_id,
                            source: c.source.clone(),
                            target: c.target.clone(),
                            category: c.category.clone(),
                            name: c.name.clone(),
                            created_by: c.created_by.clone(),
                            created_at: now,
                        },
                    ),
                ),
            )
        },
        EdgeCommand::ActivateEdge(c) => {
            let _checked = step_state(state, &c.edge_id, EdgeState::Active)?;
            Ok(
                Some(
                    EdgeEvent::EdgeActivated(
                        EdgeActivated {
                            event_id,
                            identity: c.identity,
                            edge_id: c.edge_id,
                            activated_by: c.activated_by.clone(),
                            activated_at: now,
                        },
                    ),
                ),
            )
        },
        EdgeCommand::SuspendEdge(c) => {
            let _checked = step_state(state, &c.edge_id, EdgeState::Suspended)?;
            Ok(
                Some(
                    EdgeEvent::EdgeSuspended(
                        EdgeSuspended {
                            event_id,
                            identity: c.identity,
                            edge_id: c.edge_id,
                            reason: match &c.reason {
                                Some(x) => Some(x.clone()),
                                None => None,
                            },
                            suspended_by: c.suspended_by.clone(),
                            suspended_at: now,
                        },
                    ),
                ),
            )
        },
        EdgeCommand::ResumeEdge(c) => {
            let _checked = step_state(state, &c.edge_id, EdgeState::Active)?;
            Ok(
                Some(
                    EdgeEvent::EdgeActivated(
                        EdgeActivated {
                            event_id,
                            identity: c.identity,
                            edge_id: c.edge_id,
                            activated_by: c.resumed_by.clone(),
                            activated_at: now,
                        },
                    ),
                ),
            )
        },
        EdgeCommand::TerminateEdge(c) => {
            let _checked = step_state(state, &c.edge_id, EdgeState::Terminated)?;
            Ok(
                Some(
                    EdgeEvent::EdgeTerminated(
                        EdgeTerminated {
                            event_id,
                            identity: c.identity,
                            edge_id: c.edge_id,
                            reason: c.reason.clone(),
                            terminated_by: c.terminated_by.clone(),
                            terminated_at: now,
                        },
                    ),
                ),
            )
        },
        EdgeCommand::RejectEdge(c) => {
            let _checked = step_state(state, &c.edge_id, EdgeState::Rejected)?;
            Ok(
                Some(
                    EdgeEvent::EdgeRejected(
                        EdgeRejected {
                            event_id,
                            identity: c.identity,
                            edge_id: c.edge_id,
                            reason: match &c.reason {
                                Some(x) => Some(x.clone()),
                                None => None,
                            },
                            rejected_by: c.rejected_by.clone(),
                            rejected_at: now,
                        },
                    ),
                ),
            )
        },
        EdgeCommand::UpdateEdgeQuality(c) => {
            match state {
                None => Err(
                    RelationshipError::EntityNotFound(String::from_str("no such relationship")),
                ),
                Some(s) => {
                    if !(c.edge_id == s.id) {
                        return Err(
                            RelationshipError::InvalidRelationship(
                                String::from_str("command does not apply to this aggregate"),
                            ),
                        );
                    }
                    if s.state.is_terminal() {
                        return Err(
                            RelationshipError::InvalidRelationship(
                                String::from_str("cannot update quality in a terminal state"),
                            ),
                        );
                    }
                    Ok(
                        Some(
                            EdgeEvent::QualityUpdated(
                                EdgeQualityUpdated {
                                    event_id,
                                    identity: c.identity,
                                    edge_id: c.edge_id,
                                    old_quality: s.quality.clone(),
                                    new_quality: c.new_quality.clone(),
                                    reason: c.reason.clone(),
                                    updated_at: now,
                                },
                            ),
                        ),
                    )
                },
            }
        },
        EdgeCommand::AddEdgeEvidence(c) => {
            match state {
                None => Err(
                    RelationshipError::EntityNotFound(String::from_str("no such relationship")),
                ),
                Some(s) => {
                    if !(c.edge_id == s.id) {
                        return Err(
                            RelationshipError::InvalidRelationship(
                                String::from_str("command does not apply to this aggregate"),
                            ),
                        );
                    }
                    if crate::edge::evidence_contains(&s.evidence_cids, &c.evidence_cid) {
                        return Ok(None);
                    }
                    Ok(
                        Some(
                            EdgeEvent::EvidenceAdded(
                                EdgeEvidenceAdded {
                                    event_id,
                                    identity: c.identity,
                                    edge_id: c.edge_id,
                                    evidence_cid: c.evidence_cid.clone(),
                                    evidence_type: c.evidence_type.clone(),
                                    added_at: now,
                                },
                            ),
                        ),
                    )
                },
            }
        },
    }
}

/// The outcome of a transition-shaped edge command: without an aggregate it
/// fails as not found; with a foreign identifier it fails as invalid; with a
/// legal transition it yields the given event; otherwise it fails naming the
/// two states.
pub open spec fn spec_step_outcome(
    state: Option<&EdgeConcept>,
    id: RelationshipId,
    to: EdgeState,
    r: RelationshipResult<Option<EdgeEvent>>,
    event: Option<EdgeEvent>,
) -> bool {
    match state {
        None => r matches Err(RelationshipError::EntityNotFound(_)),
        Some(s) => if id != s.id {
            r matches Err(RelationshipError::InvalidRelationship(_))
        } else if s.state.spec_can_transition(to) {
            r == Ok::<Option<EdgeEvent>, RelationshipError>(event)
        } else {
            match r {
                Err(RelationshipError::InvalidStateTransition(f, t)) => f@ == s.state.spec_name()
                    && t@ == to.spec_name(),
                _ => false,
            }
        },
    }
}

/// Decide a hyperedge command against the current aggregate state: a legal
/// command yields the event that records the change, an idempotent one
/// (adding a participant who is already present; removing or re-roling one
/// who is absent) yields nothing, an illegal one fails with the reason.
pub fn decide_hyperedge(
    state: Option<&HyperEdgeConcept>,
    cmd: &HyperEdgeCommand,
    event_id: u128,
    concept_id: ConceptId,
    now: i64,
) -> (r: RelationshipResult<Option<HyperEdgeEvent>>)
    requires
        state is Some ==> state->Some_0.wf(),
    ensures
        match *cmd {
            HyperEdgeCommand::CreateHyperEdge(c) => if c.name@.len() > 0
                && c.initial_participants.wf() {
                match r {
                    Ok(Some(HyperEdgeEvent::HyperEdgeCreated(e))) => e.event_id == event_id
                        && e.identity == c.identity && e.hyperedge_id == c.hyperedge_id
                        && e.concept_id == concept_id && e.name == c.name && e.category
                        == c.category && e.initial_participants.participants_seq()
                        == c.initial_participants.participants_seq() && e.created_by
                        == c.created_by && e.created_at == now,
                    _ => false,
                }
            } else {
                r matches Err(RelationshipError::InvalidRelationship(_))
            },
            HyperEdgeCommand::ActivateHyperEdge(c) => match state {
                None => r matches Err(RelationshipError::EntityNotFound(_)),
                Some(s) => if c.hyperedge_id != s.id {
                    r matches Err(RelationshipError::InvalidRelationship(_))
                } else if s.model().participants.len() < 2 {
                    r == Err::<Option<HyperEdgeEvent>, RelationshipError>(
                        RelationshipError::InsufficientParticipants,
                    )
                } else if !s.state.spec_can_transition(HyperEdgeState::Active) {
                    match r {
                        Err(RelationshipError::InvalidStateTransition(f, t)) => f@
                            == s.state.spec_name() && t@ == HyperEdgeState::Active.spec_name(),
                        _ => false,
                    }
                } else {
                    r == Ok::<Option<HyperEdgeEvent>, RelationshipError>(
                        Some(
                            HyperEdgeEvent::HyperEdgeActivated(
                                HyperEdgeActivated {
                                    event_id,
                                    identity: c.identity,
                                    hyperedge_id: c.hyperedge_id,
                                    activated_by: c.activated_by,
                                    activated_at: now,
                                },
                            ),
                        ),
                    )
                },
            },
            HyperEdgeCommand::AddParticipant(c) => match state {
                None => r matches Err(RelationshipError::EntityNotFound(_)),
                Some(s) => if c.hyperedge_id != s.id {
                    r matches Err(RelationshipError::InvalidRelationship(_))
                } else if s.state.spec_is_terminal() {
                    r matches Err(RelationshipError::InvalidRelationship(_))
                } else if spec_contains_participant(s.model().participants, c.participant) {
                    r == Ok::<Option<HyperEdgeEvent>, RelationshipError>(None)
                } else {
                    r == Ok::<Option<HyperEdgeEvent>, RelationshipError>(
                        Some(
                            HyperEdgeEvent::ParticipantAdded(
                                ParticipantAdded {
                                    event_id,
                                    identity: c.identity,
                                    hyperedge_id: c.hyperedge_id,
                                    participant: c.participant,
                                    role: c.role,
                                    weight: c.weight,
                                    added_by: c.added_by,
                                    added_at: now,
                                },
                            ),
                        ),
                    )
                },
            },
            HyperEdgeCommand::RemoveParticipant(c) => match state {
                None => r matches Err(RelationshipError::EntityNotFound(_)),
                Some(s) => if c.hyperedge_id != s.id {
                    r matches Err(RelationshipError::InvalidRelationship(_))
                } else if s.state.spec_is_terminal() {
                    r matches Err(RelationshipError::InvalidRelationship(_))
                } else if !spec_contains_participant(s.model().participants, c.participant) {
                    r == Ok::<Option<HyperEdgeEvent>, RelationshipError>(None)
                } else if s.model().participants.len() <= 2 {
                    r == Err::<Option<HyperEdgeEvent>, RelationshipError>(
                        RelationshipError::InsufficientParticipants,
                    )
                } else {
                    r == Ok::<Option<HyperEdgeEvent>, RelationshipError>(
                        Some(
                            HyperEdgeEvent::ParticipantRemoved(
                                ParticipantRemoved {
                                    event_id,
                                    identity: c.identity,
                                    hyperedge_id: c.hyperedge_id,
                                    participant: c.participant,
                                    reason: c.reason,
                                    removed_by: c.removed_by,
                                    removed_at: now,
                                },
                            ),
                        ),
                    )
                },
            },
            HyperEdgeCommand::ChangeParticipantRole(c) => match state {
                None => r matches Err(RelationshipError::EntityNotFound(_)),
                Some(s) => if c.hyperedge_id != s.id {
                    r matches Err(RelationshipError::InvalidRelationship(_))
                } else if s.state.spec_is_terminal() {
                    r matches Err(RelationshipError::InvalidRelationship(_))
                } else if !spec_contains_participant(s.model().participants, c.participant) {
                    r == Ok::<Option<HyperEdgeEvent>, RelationshipError>(None)
                } else {
                    r == Ok::<Option<HyperEdgeEvent>, RelationshipError>(
                        Some(
                            HyperEdgeEvent::ParticipantRoleChanged(
                                ParticipantRoleChanged {
                                    event_id,
                                    identity: c.identity,
                                    hyperedge_id: c.hyperedge_id,
                                    participant: c.participant,
                                    old_role: s.model().participants[spec_participant_index(
                                        s.model().participants,
                                        c.participant,
                                    )].role,
                                    new_role: c.new_role,
                                    changed_by: c.changed_by,
                                    changed_at: now,
                                },
                            ),
                        ),
                    )
                },
            },
            HyperEdgeCommand::TerminateHyperEdge(c) => match state {
                None => r matches Err(RelationshipError::EntityNotFound(_)),
                Some(s) => if c.hyperedge_id != s.id {
                    r matches Err(RelationshipError::InvalidRelationship(_))
                } else if !s.state.spec_can_transition(HyperEdgeState::Dissolved) {
                    match r {
                        Err(RelationshipError::InvalidStateTransition(f, t)) => f@
                            == s.state.spec_name() && t@ == HyperEdgeState::Dissolved.spec_name(),
                        _ => false,
                    }
                } else {
                    r == Ok::<Option<HyperEdgeEvent>, RelationshipError>(
                        Some(
                            HyperEdgeEvent::HyperEdgeTerminated(
                                HyperEdgeTerminated {
                                    event_id,
                                    identity: c.identity,
                                    hyperedge_id: c.hyperedge_id,
                                    reason: c.reason,
                                    terminated_by: c.terminated_by,
                                    terminated_at: now,
                                },
                            ),
                        ),
                    )
                },
            },
        },
{
    match cmd {
        HyperEdgeCommand::CreateHyperEdge(c) => {
            if c.name.as_str().is_empty() || !c.initial_participants.check_wf() {
                return Err(
                    RelationshipError::InvalidRelationship(
                        String::from_str("create command is malformed"),
                    ),
                );
            }
            Ok(
                Some(
                    HyperEdgeEvent::HyperEdgeCreated(
                        HyperEdgeCreated {
                            event_id,
                            identity: c.identity,
                            hyperedge_id: c.hyperedge_id,
                            concept_id,
                            name: c.name.clone(),
                            category: c.category.clone(),
                            initial_participants: c.initial_participants.clone(),
                            created_by: c.created_by.clone(),
                            created_at: now,
                        },
                    ),
                ),
            )
        },
        HyperEdgeCommand::ActivateHyperEdge(c) => {
            let s = hyper_state(state, &c.hyperedge_id)?;
            if s.participants.participant_count() < 2 {
                return Err(RelationshipError::InsufficientParticipants);
            }
            if !s.state.can_transition_to(&HyperEdgeState::Active) {
                return Err(
                    RelationshipError::InvalidStateTransition(
                        String::from_str(s.state.name()),
                        String::from_str(HyperEdgeState::Active.name()),
                    ),
                );
            }
            Ok(
                Some(
                    HyperEdgeEvent::HyperEdgeActivated(
                        HyperEdgeActivated {
                            event_id,
                            identity: c.identity,
                            hyperedge_id: c.hyperedge_id,
                            activated_by: c.activated_by.clone(),
                            activated_at: now,
                        },
                    ),
                ),
            )
        },
        HyperEdgeCommand::AddParticipant(c) => {
            let s = hyper_state(state, &c.hyperedge_id)?;
            if s.state.is_terminal() {
                return Err(
                    RelationshipError::InvalidRelationship(
                        String::from_str("cannot modify a dissolved hyperedge"),
                    ),
                );
            }
            if s.participants.contains(&c.participant) {
                return Ok(None);
            }
            Ok(
                Some(
                    HyperEdgeEvent::ParticipantAdded(
                        ParticipantAdded {
                            event_id,
                            identity: c.identity,
                            hyperedge_id: c.hyperedge_id,
                            participant: c.participant.clone(),
                            role: c.role.clone(),
                            weight: c.weight,
                            added_by: c.added_by.clone(),
                            added_at: now,
                        },
                    ),
                ),
            )
        },
        HyperEdgeCommand::RemoveParticipant(c) => {
            let s = hyper_state(state, &c.hyperedge_id)?;
            if s.state.is_terminal() {
                return Err(
                    RelationshipError::InvalidRelationship(
                        String::from_str("cannot modify a dissolved hyperedge"),
                    ),
                );
            }
            if !s.participants.contains(&c.participant) {
                return Ok(None);
            }
            if s.participants.participant_count() <= 2 {
                return Err(RelationshipError::InsufficientParticipants);
            }
            Ok(
                Some(
                    HyperEdgeEvent::ParticipantRemoved(
                        ParticipantRemoved {
                            event_id,
                            identity: c.identity,
                            hyperedge_id: c.hyperedge_id,
                            participant: c.participant.clone(),
                            reason: c.reason.clone(),
                            removed_by: c.removed_by.clone(),
                            removed_at: now,
                        },
                    ),
                ),
            )
        },
        HyperEdgeCommand::ChangeParticipantRole(c) => {
            let s = hyper_state(state, &c.hyperedge_id)?;
            if s.state.is_terminal() {
                return Err(
                    RelationshipError::InvalidRelationship(
                        String::from_str("cannot modify a dissolved hyperedge"),
                    ),
                );
            }
            match s.participants.get_participant(&c.participant) {
                None => Ok(None),
                Some(entry) => Ok(
                    Some(
                        HyperEdgeEvent::ParticipantRoleChanged(
                            ParticipantRoleChanged {
                                event_id,
                                identity: c.identity,
                                hyperedge_id: c.hyperedge_id,
                                participant: c.participant.clone(),
                                old_role: entry.role.clone(),
                                new_role: c.new_role.clone(),
                                changed_by: c.changed_by.clone(),
                                changed_at: now,
                            },
                        ),
                    ),
                ),
            }
        },
        HyperEdgeCommand::TerminateHyperEdge(c) => {
            let s = hyper_state(state, &c.hyperedge_id)?;
            if !s.state.can_transition_to(&HyperEdgeState::Dissolved) {
                return Err(
                    RelationshipError::InvalidStateTransition(
                        String::from_str(s.state.name()),
                        String::from_str(HyperEdgeState::Dissolved.name()),
                    ),
                );
            }
            Ok(
                Some(
                    HyperEdgeEvent::HyperEdgeTerminated(
                        HyperEdgeTerminated {
                            event_id,
                            identity: c.identity,
                            hyperedge_id: c.hyperedge_id,
                            reason: c.reason.clone(),
                            terminated_by: c.terminated_by.clone(),
                            terminated_at: now,
                        },
                    ),
                ),
            )
        },
    }
}

/// Validate that a hyperedge command has an aggregate to apply to and
/// carries its identifier.
fn hyper_state<'a>(state: Option<&'a HyperEdgeConcept>, id: &RelationshipId) -> (r:
    RelationshipResult<&'a HyperEdgeConcept>)
    ensures
        match state {
            None => r matches Err(RelationshipError::EntityNotFound(_)),
            Some(s) => if *id != s.id {
                r matches Err(RelationshipError::InvalidRelationship(_))
            } else {
                r == Ok::<&'a HyperEdgeConcept, RelationshipError>(s)
            },
        },
{
    match state {
        None => Err(RelationshipError::EntityNotFound(String::from_str("no such relationship"))),
        Some(s) => {
            if !(*id == s.id) {
                return Err(
                    RelationshipError::InvalidRelationship(
                        String::from_str("command does not apply to this aggregate"),
                    ),
                );
            }
            Ok(s)
        },
    }
}

/// Validate a transition-shaped command: the aggregate exists, the command
/// carries its identifier, and the transition is legal.
fn step_state<'a>(state: Option<&'a EdgeConcept>, id: &RelationshipId, to: EdgeState) -> (r:
    RelationshipResult<&'a EdgeConcept>)
    ensures
        match state {
            None => r matches Err(RelationshipError::EntityNotFound(_)),
            Some(s) => if *id != s.id {
                r matches Err(RelationshipError::InvalidRelationship(_))
            } else if s.state.spec_can_transition(to) {
                r == Ok::<&'a EdgeConcept, RelationshipError>(s)
            } else {
                match r {
                    Err(RelationshipError::InvalidStateTransition(f, t)) => f@
                        == s.state.spec_name() && t@ == to.spec_name(),
                    _ => false,
                }
            },
        },
{
    match state {
        None => Err(RelationshipError::EntityNotFound(String::from_str("no such relationship"))),
        Some(s) => {
            if !(*id == s.id) {
                return Err(
                    RelationshipError::InvalidRelationship(
                        String::from_str("command does not apply to this aggregate"),
                    ),
                );
            }
            if !s.state.can_transition_to(&to) {
                return Err(
                    RelationshipError::InvalidStateTransition(
                        String::from_str(s.state.name()),
                        String::from_str(to.name()),
                    ),
                );
            }
            Ok(s)
        },
    }
}

} // verus!
