//! The hyperedge aggregate: an N-ary relationship among two or more
//! participants, each with a role and a weight, with its own lifecycle state
//! machine and event-sourced reduction.

use vstd::prelude::*;

use crate::edge::spec_position_of;
use crate::edge::spec_props_model;
use crate::edge::spec_stamp;
use crate::quality::Position3;
use crate::quality::QualityPoint;
use crate::quality::RelationshipQuality;
use crate::value_objects::spec_clamp_milli;
use crate::value_objects::spec_contains_participant;
use crate::value_objects::spec_participant_index;
use crate::value_objects::spec_participants_add;
use crate::value_objects::spec_participants_wf;
use crate::value_objects::spec_same_participant;
use crate::value_objects::ConceptId;
use crate::value_objects::EntityRef;
use crate::value_objects::Formality;
use crate::value_objects::IncidenceMatrix;
use crate::value_objects::KnowledgeLevel;
use crate::value_objects::ParticipantEntry;
use crate::value_objects::ParticipantRole;
use crate::value_objects::PropertyValue;
use crate::value_objects::RelationshipCategory;
use crate::value_objects::RelationshipId;
use crate::value_objects::ValidityPeriod;
use crate::value_objects::MILLI_ONE;
use crate::events::HyperEdgeCreated;
use crate::events::HyperEdgeEvent;
use crate::RelationshipError;
use crate::RelationshipResult;

verus! {

// ============================================================================
// Hyperedge state machine
// ============================================================================

/// State of a hyperedge in its lifecycle.
#[derive(Debug, Clone, Copy, PartialEq, Eq, Hash, Structural)]
pub enum HyperEdgeState {
    /// Created but not yet active.
    Forming,
    /// Currently active.
    Active,
    /// Participants are being changed.
    Restructuring,
    /// Dissolved; terminal.
    Dissolved,
}

impl HyperEdgeState {
    /// The legal transitions: a forming hyperedge activates or dissolves; an
    /// active one restructures or dissolves; a restructuring one returns to
    /// active or dissolves.
    pub open spec fn spec_can_transition(self, to: HyperEdgeState) -> bool {
        ||| (self is Forming && to is Active)
        ||| (self is Forming && to is Dissolved)
        ||| (self is Active && to is Restructuring)
        ||| (self is Active && to is Dissolved)
        ||| (self is Restructuring && to is Active)
        ||| (self is Restructuring && to is Dissolved)
    }

    /// Whether the state admits no further transitions.
    pub open spec fn spec_is_terminal(self) -> bool {
        self is Dissolved
    }

    /// The state's name.
    pub open spec fn spec_name(self) -> Seq<char> {
        match self {
            HyperEdgeState::Forming => "Forming"@,
            HyperEdgeState::Active => "Active"@,
            HyperEdgeState::Restructuring => "Restructuring"@,
            HyperEdgeState::Dissolved => "Dissolved"@,
        }
    }

    /// Check if a transition from this state to another is legal.
    pub fn can_transition_to(&self, to: &HyperEdgeState) -> (r: bool)
        ensures
            r == self.spec_can_transition(*to),
    {
        match (self, to) {
            (HyperEdgeState::Forming, HyperEdgeState::Active) => true,
            (HyperEdgeState::Forming, HyperEdgeState::Dissolved) => true,
            (HyperEdgeState::Active, HyperEdgeState::Restructuring) => true,
            (HyperEdgeState::Active, HyperEdgeState::Dissolved) => true,
            (HyperEdgeState::Restructuring, HyperEdgeState::Active) => true,
            (HyperEdgeState::Restructuring, HyperEdgeState::Dissolved) => true,
            _ => false,
        }
    }

    /// Whether the state admits no further transitions.
    pub fn is_terminal(&self) -> (r: bool)
        ensures
            r == self.spec_is_terminal(),
    {
        match self {
            HyperEdgeState::Dissolved => true,
            _ => false,
        }
    }

    /// The state's name.
    pub fn name(&self) -> (r: &'static str)
        ensures
            r@ == self.spec_name(),
    {
        match self {
            HyperEdgeState::Forming => "Forming",
            HyperEdgeState::Active => "Active",
            HyperEdgeState::Restructuring => "Restructuring",
            HyperEdgeState::Dissolved => "Dissolved",
        }
    }
}

impl Default for HyperEdgeState {
    /// A hyperedge begins its life forming.
    fn default() -> (r: HyperEdgeState)
        ensures
            r == HyperEdgeState::Forming,
    {
        HyperEdgeState::Forming
    }
}

/// The state after an attempted transition: the target when legal, the
/// current state otherwise.
pub open spec fn spec_hyper_step(s: HyperEdgeState, to: HyperEdgeState) -> HyperEdgeState {
    if s.spec_can_transition(to) {
        to
    } else {
        s
    }
}

/// Law: the state machine is total. For every pair of a state and an
/// attempted target, either the transition is legal and the machine advances
/// to exactly the target, or it is illegal and the state stands; a dissolved
/// hyperedge admits no transition at all.
pub proof fn lemma_hyper_transition_total(s: HyperEdgeState, to: HyperEdgeState)
    ensures
        s.spec_can_transition(to) ==> spec_hyper_step(s, to) == to,
        !s.spec_can_transition(to) ==> spec_hyper_step(s, to) == s,
        s.spec_is_terminal() ==> !s.spec_can_transition(to),
{
}

// ============================================================================
// The mathematical model of a hyperedge
// ============================================================================

/// The model of a hyperedge aggregate: its fields with the participant list
/// and the other lists read as sequences.
pub struct HyperEdgeModel {
    /// Unique identifier.
    pub id: RelationshipId,
    /// Concept identifier in the conceptual space.
    pub concept_id: ConceptId,
    /// Category of the relationship.
    pub category: RelationshipCategory,
    /// Human-readable name.
    pub name: String,
    /// Description, if any.
    pub description: Option<String>,
    /// The participants.
    pub participants: Seq<ParticipantEntry>,
    /// Quality profile.
    pub quality: RelationshipQuality,
    /// Derived 3-projection of the quality.
    pub position: Position3,
    /// Knowledge level.
    pub knowledge_level: KnowledgeLevel,
    /// Confidence, milli-units of [0, 1].
    pub confidence: u32,
    /// Evidence content-identifiers.
    pub evidence: Seq<String>,
    /// Lifecycle state.
    pub state: HyperEdgeState,
    /// Validity period.
    pub validity: ValidityPeriod,
    /// Property map, keyed by text.
    pub properties: Seq<(Seq<char>, PropertyValue)>,
    /// Number of events applied after the creating one.
    pub version: u64,
    /// Creation timestamp.
    pub created_at: i64,
    /// Timestamp of the latest applied event.
    pub updated_at: i64,
}

impl HyperEdgeModel {
    /// The aggregate invariants: a non-empty name, well-formed quality and
    /// validity, the position as the quality's 3-projection, the confidence
    /// in the unit interval, the update stamp never before creation, a
    /// well-formed participant list, and — while the hyperedge is active or
    /// restructuring — at least two participants.
    pub open spec fn wf(self) -> bool {
        &&& self.name@.len() > 0
        &&& self.quality.wf()
        &&& self.position == spec_position_of(self.quality)
        &&& self.confidence <= MILLI_ONE
        &&& self.validity.wf()
        &&& 0 <= self.created_at <= self.updated_at
        &&& spec_participants_wf(self.participants)
        &&& (self.state is Active || self.state is Restructuring) ==> self.participants.len() >= 2
    }
}

/// Whether a creating event is acceptable: a non-empty name, a creation
/// instant at or after the epoch, and a well-formed initial participant
/// list.
pub open spec fn spec_hyper_created_ok(c: HyperEdgeCreated) -> bool {
    &&& c.name@.len() > 0
    &&& 0 <= c.created_at
    &&& c.initial_participants.wf()
}

/// The reducer of the hyperedge aggregate, as a total function on the model:
/// `Some` of the next model when the event applies, `None` when the event is
/// structurally invalid. Activation requires at least two participants, and
/// a removal that would leave fewer than two is rejected, so an active or
/// restructuring hyperedge always hosts at least two.
pub open spec fn spec_apply_hyper(s: HyperEdgeModel, e: HyperEdgeEvent, now: i64) -> Option<
    HyperEdgeModel,
> {
    match e {
        HyperEdgeEvent::HyperEdgeCreated(c) => if spec_hyper_created_ok(c) {
            Some(
                HyperEdgeModel {
                    id: c.hyperedge_id,
                    concept_id: c.concept_id,
                    name: c.name,
                    category: c.category,
                    participants: c.initial_participants.participants_seq(),
                    state: HyperEdgeState::Forming,
                    created_at: c.created_at,
                    version: (s.version + 1) as u64,
                    updated_at: spec_stamp(now, c.created_at),
                    ..s
                },
            )
        } else {
            None
        },
        HyperEdgeEvent::HyperEdgeActivated(a) => if a.hyperedge_id == s.id && s.participants.len()
            >= 2 {
            Some(
                HyperEdgeModel {
                    state: HyperEdgeState::Active,
                    version: (s.version + 1) as u64,
                    updated_at: spec_stamp(now, s.created_at),
                    ..s
                },
            )
        } else {
            None
        },
        HyperEdgeEvent::ParticipantAdded(p) => if p.hyperedge_id == s.id {
            Some(
                HyperEdgeModel {
                    participants: spec_participants_add(
                        s.participants,
                        ParticipantEntry {
                            entity_ref: p.participant,
                            role: p.role,
                            weight: spec_clamp_milli(p.weight),
                            joined_at: now,
                        },
                    ),
                    version: (s.version + 1) as u64,
                    updated_at: spec_stamp(now, s.created_at),
                    ..s
                },
            )
        } else {
            None
        },
        HyperEdgeEvent::ParticipantRemoved(p) => if p.hyperedge_id == s.id {
            if spec_contains_participant(s.participants, p.participant) {
                if s.participants.len() <= 2 {
                    None
                } else {
                    Some(
                        HyperEdgeModel {
                            participants: s.participants.remove(
                                spec_participant_index(s.participants, p.participant),
                            ),
                            version: (s.version + 1) as u64,
                            updated_at: spec_stamp(now, s.created_at),
                            ..s
                        },
                    )
                }
            } else {
                Some(
                    HyperEdgeModel {
                        version: (s.version + 1) as u64,
                        updated_at: spec_stamp(now, s.created_at),
                        ..s
                    },
                )
            }
        } else {
            None
        },
        HyperEdgeEvent::ParticipantRoleChanged(p) => if p.hyperedge_id == s.id {
            if spec_contains_participant(s.participants, p.participant) {
                let k = spec_participant_index(s.participants, p.participant);
                Some(
                    HyperEdgeModel {
                        participants: s.participants.remove(k).push(
                            ParticipantEntry {
                                entity_ref: p.participant,
                                role: p.new_role,
                                weight: s.participants[k].weight,
                                joined_at: now,
                            },
                        ),
                        version: (s.version + 1) as u64,
                        updated_at: spec_stamp(now, s.created_at),
                        ..s
                    },
                )
            } else {
                Some(
                    HyperEdgeModel {
                        version: (s.version + 1) as u64,
                        updated_at: spec_stamp(now, s.created_at),
                        ..s
                    },
                )
            }
        } else {
            None
        },
        HyperEdgeEvent::HyperEdgeTerminated(t) => if t.hyperedge_id == s.id {
            Some(
                HyperEdgeModel {
                    state: HyperEdgeState::Dissolved,
                    validity: s.validity.spec_end(t.terminated_at, t.reason),
                    version: (s.version + 1) as u64,
                    updated_at: spec_stamp(now, s.created_at),
                    ..s
                },
            )
        } else {
            None
        },
        HyperEdgeEvent::HyperEdgeQualityUpdated(q) => if q.hyperedge_id == s.id
            && q.new_quality.duration.wf() {
            Some(
                HyperEdgeModel {
                    quality: crate::edge::spec_quality_clamped(q.new_quality),
                    position: spec_position_of(crate::edge::spec_quality_clamped(q.new_quality)),
                    version: (s.version + 1) as u64,
                    updated_at: spec_stamp(now, s.created_at),
                    ..s
                },
            )
        } else {
            None
        },
    }
}

/// Replacing or appending an entry keeps a participant list well-formed.
proof fn lemma_participants_add_wf(s: Seq<ParticipantEntry>, e: ParticipantEntry)
    requires
        spec_participants_wf(s),
        e.weight <= MILLI_ONE,
    ensures
        spec_participants_wf(spec_participants_add(s, e)),
{
    if spec_contains_participant(s, e.entity_ref) {
        let k = spec_participant_index(s, e.entity_ref);
        assert(0 <= k < s.len() && spec_same_participant(s[k].entity_ref, e.entity_ref));
        let t = s.update(k, e);
        assert forall|i: int, j: int|
            0 <= i < j < t.len() implies !spec_same_participant(
            (#[trigger] t[i]).entity_ref,
            (#[trigger] t[j]).entity_ref,
        ) by {
            if i != k && j != k {
                assert(t[i] == s[i] && t[j] == s[j]);
            } else if i == k {
                assert(t[j] == s[j]);
                if spec_same_participant(t[i].entity_ref, t[j].entity_ref) {
                    crate::value_objects::lemma_same_participant_trans(
                        s[j].entity_ref,
                        s[k].entity_ref,
                        e.entity_ref,
                    );
                }
            } else {
                assert(t[i] == s[i]);
                if spec_same_participant(t[i].entity_ref, t[j].entity_ref) {
                    crate::value_objects::lemma_same_participant_trans(
                        s[i].entity_ref,
                        s[k].entity_ref,
                        e.entity_ref,
                    );
                }
            }
        }
    }
}

/// Removing the entry that names a participant and appending a fresh entry
/// for the same participant keeps a participant list well-formed.
proof fn lemma_participants_replace_wf(s: Seq<ParticipantEntry>, k: int, e: ParticipantEntry)
    requires
        spec_participants_wf(s),
        0 <= k < s.len(),
        spec_same_participant(s[k].entity_ref, e.entity_ref),
        e.weight <= MILLI_ONE,
    ensures
        spec_participants_wf(s.remove(k).push(e)),
{
    let t = s.remove(k).push(e);
    assert forall|i: int, j: int|
        0 <= i < j < t.len() implies !spec_same_participant(
        (#[trigger] t[i]).entity_ref,
        (#[trigger] t[j]).entity_ref,
    ) by {
        let last = t.len() - 1;
        if j < last {
            let si = if i < k {
                i
            } else {
                i + 1
            };
            let sj = if j < k {
                j
            } else {
                j + 1
            };
            assert(t[i] == s[si] && t[j] == s[sj]);
        } else {
            // j is the appended entry; i maps into the remainder of s.
            let si = if i < k {
                i
            } else {
                i + 1
            };
            assert(t[i] == s[si]);
            assert(t[j] == e);
            if spec_same_participant(t[i].entity_ref, e.entity_ref) {
                crate::value_objects::lemma_same_participant_trans(
                    s[si].entity_ref,
                    s[k].entity_ref,
                    e.entity_ref,
                );
            }
        }
    }
    assert forall|i: int| 0 <= i < t.len() implies (#[trigger] t[i]).weight <= MILLI_ONE by {
        if i < t.len() - 1 {
            let si = if i < k {
                i
            } else {
                i + 1
            };
            assert(t[i] == s[si]);
        }
    }
}

/// Law: every applied event raises the version by exactly one and refreshes
/// the update stamp to the application instant, clamped to never precede the
/// aggregate's creation.
pub proof fn lemma_hyper_apply_version_and_stamp(s: HyperEdgeModel, e: HyperEdgeEvent, now: i64)
    ensures
        spec_apply_hyper(s, e, now) is Some ==> ({
            let n = spec_apply_hyper(s, e, now)->Some_0;
            &&& n.version == ((s.version + 1) as u64)
            &&& n.updated_at == spec_stamp(now, n.created_at)
            &&& n.created_at <= n.updated_at
            &&& now >= n.created_at ==> n.updated_at == now
        }),
{
}

/// Law: the hyperedge reducer preserves the aggregate invariants — in
/// particular, an active or restructuring hyperedge always hosts at least
/// two participants.
pub proof fn lemma_hyper_apply_preserves_wf(s: HyperEdgeModel, e: HyperEdgeEvent, now: i64)
    requires
        s.wf(),
    ensures
        spec_apply_hyper(s, e, now) is Some ==> spec_apply_hyper(s, e, now)->Some_0.wf(),
{
    match e {
        HyperEdgeEvent::ParticipantAdded(p) => {
            if p.hyperedge_id == s.id {
                let entry = ParticipantEntry {
                    entity_ref: p.participant,
                    role: p.role,
                    weight: spec_clamp_milli(p.weight),
                    joined_at: now,
                };
                lemma_participants_add_wf(s.participants, entry);
                if spec_contains_participant(s.participants, p.participant) {
                    assert(spec_participants_add(s.participants, entry).len()
                        == s.participants.len());
                }
            }
        },
        HyperEdgeEvent::ParticipantRoleChanged(p) => {
            if p.hyperedge_id == s.id && spec_contains_participant(s.participants, p.participant) {
                let k = spec_participant_index(s.participants, p.participant);
                assert(0 <= k < s.participants.len() && spec_same_participant(
                    s.participants[k].entity_ref,
                    p.participant,
                ));
                let entry = ParticipantEntry {
                    entity_ref: p.participant,
                    role: p.new_role,
                    weight: s.participants[k].weight,
                    joined_at: now,
                };
                crate::value_objects::lemma_same_participant_trans(
                    s.participants[k].entity_ref,
                    p.participant,
                    p.participant,
                );
                lemma_participants_replace_wf(s.participants, k, entry);
            }
        },
        _ => {},
    }
}

// ============================================================================
// The hyperedge aggregate
// ============================================================================

/// An N-ary relationship among multiple entities, as a concept in the
/// quality space: an incidence matrix of participants with roles and
/// weights, a quality profile with its derived 3-projection, knowledge
/// state, lifecycle state, validity, a property bag, and a monotonic version
/// counter.
#[derive(Debug)]
pub struct HyperEdgeConcept {
    /// Unique identifier of this hyperedge.
    pub id: RelationshipId,
    /// Concept identifier in the conceptual space.
    pub concept_id: ConceptId,
    /// Category of this relationship.
    pub category: RelationshipCategory,
    /// Human-readable name.
    pub name: String,
    /// Description of the relationship.
    pub description: Option<String>,
    /// Incidence matrix mapping entities to their participation.
    pub participants: IncidenceMatrix,
    /// Quality profile.
    pub quality: RelationshipQuality,
    /// Position for visualization, derived from the quality.
    pub position: Position3,
    /// How well-known this relationship is.
    pub knowledge_level: KnowledgeLevel,
    /// Confidence score, milli-units of [0, 1].
    pub confidence: u32,
    /// Evidence content-identifiers supporting this relationship.
    pub evidence_cids: Vec<String>,
    /// Current lifecycle state.
    pub state: HyperEdgeState,
    /// Validity period.
    pub validity: ValidityPeriod,
    /// Additional properties, last write per key.
    pub properties: Vec<(String, PropertyValue)>,
    /// Number of events applied after the creating one.
    pub version: u64,
    /// Creation timestamp, milliseconds since the epoch.
    pub created_at: i64,
    /// Timestamp of the latest applied event.
    pub updated_at: i64,
}

impl Clone for HyperEdgeConcept {
    /// A clone has the same model.
    fn clone(&self) -> (r: Self)
        ensures
            r.model() == self.model(),
    {
        let r = HyperEdgeConcept {
            id: self.id,
            concept_id: self.concept_id,
            category: self.category.clone(),
            name: self.name.clone(),
            description: match &self.description {
                Some(d) => Some(d.clone()),
                None => None,
            },
            participants: self.participants.clone(),
            quality: self.quality.clone(),
            position: self.position,
            knowledge_level: self.knowledge_level,
            confidence: self.confidence,
            evidence_cids: crate::edge::clone_texts(&self.evidence_cids),
            state: self.state,
            validity: self.validity.clone(),
            properties: crate::edge::clone_props(&self.properties),
            version: self.version,
            created_at: self.created_at,
            updated_at: self.updated_at,
        };
        proof {
            assert(spec_props_model(r.properties@) =~= spec_props_model(self.properties@));
        }
        r
    }
}

impl HyperEdgeConcept {
    /// The mathematical model of this aggregate.
    pub open spec fn model(self) -> HyperEdgeModel {
        HyperEdgeModel {
            id: self.id,
            concept_id: self.concept_id,
            category: self.category,
            name: self.name,
            description: self.description,
            participants: self.participants.participants_seq(),
            quality: self.quality,
            position: self.position,
            knowledge_level: self.knowledge_level,
            confidence: self.confidence,
            evidence: self.evidence_cids@,
            state: self.state,
            validity: self.validity,
            properties: spec_props_model(self.properties@),
            version: self.version,
            created_at: self.created_at,
            updated_at: self.updated_at,
        }
    }

    /// Well-formedness: the model invariants hold.
    pub open spec fn wf(self) -> bool {
        self.model().wf()
    }

    /// Create a new hyperedge concept, forming, with no participants, the
    /// default quality profile and fresh identifiers. Creation is rejected
    /// when the name is empty.
    pub fn new(name: String, category: RelationshipCategory) -> (r: RelationshipResult<
        HyperEdgeConcept,
    >)
        ensures
            name@.len() == 0 <==> (match r {
                Err(RelationshipError::InvalidRelationship(_)) => true,
                _ => false,
            }),
            name@.len() > 0 ==> ({
                let n = r->Ok_0;
                &&& r is Ok
                &&& n.wf()
                &&& n.category == category
                &&& n.name == name
                &&& n.description is None
                &&& n.participants.participants_seq() == Seq::<ParticipantEntry>::empty()
                &&& n.evidence_cids@ == Seq::<String>::empty()
                &&& n.properties@ == Seq::<(String, PropertyValue)>::empty()
                &&& n.state == HyperEdgeState::Forming
                &&& n.version == 0
                &&& n.confidence == 0
                &&& n.knowledge_level == KnowledgeLevel::Unknown
                &&& n.created_at == n.updated_at
                &&& n.validity.starts_at == n.created_at
                &&& n.validity.ends_at is None
                &&& n.quality == crate::edge::spec_initial_quality(n.created_at)
                &&& n.position == spec_position_of(n.quality)
            }),
    {
        if name.as_str().is_empty() {
            return Err(
                RelationshipError::InvalidRelationship(
                    String::from_str("relationship name must not be empty"),
                ),
            );
        }
        let t = crate::trusted::now_millis();
        let t = if t < 0 {
            0
        } else {
            t
        };
        let quality = RelationshipQuality {
            strength: 500,
            trust: 500,
            formality: Formality::Formal,
            duration: ValidityPeriod::ongoing(t),
            reciprocity: 500,
        };
        let n = HyperEdgeConcept {
            id: RelationshipId::new(),
            concept_id: ConceptId::new(),
            category,
            name,
            description: None,
            participants: IncidenceMatrix::new(),
            quality,
            position: Position3 { x: 500, y: 500, z: 500 },
            knowledge_level: KnowledgeLevel::Unknown,
            confidence: 0,
            evidence_cids: Vec::new(),
            state: HyperEdgeState::Forming,
            validity: ValidityPeriod::ongoing(t),
            properties: Vec::new(),
            version: 0,
            created_at: t,
            updated_at: t,
        };
        proof {
            assert(spec_props_model(n.properties@) =~= Seq::<(Seq<char>, PropertyValue)>::empty());
        }
        Ok(n)
    }

    /// Add a participant; its weight is clamped to the unit interval, and an
    /// already-present participant's entry is replaced. Rejected on a
    /// dissolved hyperedge.
    pub fn add_participant(
        &mut self,
        entity_ref: EntityRef,
        role: ParticipantRole,
        weight: i64,
        now: i64,
    ) -> (r: RelationshipResult<()>)
        requires
            old(self).wf(),
        ensures
            final(self).wf(),
            old(self).state.spec_is_terminal() ==> final(self).model() == old(self).model() && (
            match r {
                Err(RelationshipError::InvalidRelationship(_)) => true,
                _ => false,
            }),
            !old(self).state.spec_is_terminal() ==> r is Ok && final(self).model()
                == (HyperEdgeModel {
                participants: spec_participants_add(
                    old(self).model().participants,
                    ParticipantEntry {
                        entity_ref,
                        role,
                        weight: spec_clamp_milli(weight),
                        joined_at: now,
                    },
                ),
                updated_at: spec_stamp(now, old(self).created_at),
                ..old(self).model()
            }),
    {
        if self.state.is_terminal() {
            return Err(
                RelationshipError::InvalidRelationship(
                    String::from_str("cannot modify a dissolved hyperedge"),
                ),
            );
        }
        proof {
            lemma_participants_add_wf(
                self.model().participants,
                ParticipantEntry {
                    entity_ref,
                    role,
                    weight: spec_clamp_milli(weight),
                    joined_at: now,
                },
            );
        }
        self.participants.add_participant(entity_ref, role, weight, now);
        self.updated_at = crate::edge::stamp(now, self.created_at);
        Ok(())
    }

    /// Remove a participant. Rejected on a dissolved hyperedge, and rejected
    /// whenever only two participants remain: a hyperedge never drops below
    /// two by removal. Removing an absent participant is a no-op.
    pub fn remove_participant(&mut self, entity_ref: &EntityRef, now: i64) -> (r:
        RelationshipResult<()>)
        requires
            old(self).wf(),
        ensures
            final(self).wf(),
            old(self).state.spec_is_terminal() ==> final(self).model() == old(self).model() && (
            match r {
                Err(RelationshipError::InvalidRelationship(_)) => true,
                _ => false,
            }),
            !old(self).state.spec_is_terminal() && old(self).model().participants.len() <= 2
                ==> final(self).model() == old(self).model() && r == Err::<
                (),
                RelationshipError,
            >(RelationshipError::InsufficientParticipants),
            !old(self).state.spec_is_terminal() && old(self).model().participants.len() > 2 ==> r
                is Ok && final(self).model() == (HyperEdgeModel {
                participants: if spec_contains_participant(
                    old(self).model().participants,
                    *entity_ref,
                ) {
                    old(self).model().participants.remove(
                        spec_participant_index(old(self).model().participants, *entity_ref),
                    )
                } else {
                    old(self).model().participants
                },
                updated_at: spec_stamp(now, old(self).created_at),
                ..old(self).model()
            }),
    {
        if self.state.is_terminal() {
            return Err(
                RelationshipError::InvalidRelationship(
                    String::from_str("cannot modify a dissolved hyperedge"),
                ),
            );
        }
        if self.participants.participant_count() <= 2 {
            return Err(RelationshipError::InsufficientParticipants);
        }
        let _removed = self.participants.remove_participant(entity_ref);
        self.updated_at = crate::edge::stamp(now, self.created_at);
        Ok(())
    }

    /// Get the participant count.
    pub fn participant_count(&self) -> (r: usize)
        ensures
            r == self.model().participants.len(),
    {
        self.participants.participant_count()
    }

    /// Whether the hyperedge is active at an instant: its state is Active
    /// and its validity period covers the instant.
    pub open spec fn spec_active_at(self, now: i64) -> bool {
        self.state is Active && self.validity.spec_active_at(now)
    }

    /// Whether the hyperedge is active at the given instant.
    pub fn is_active_at(&self, now: i64) -> (r: bool)
        ensures
            r == self.spec_active_at(now),
    {
        match self.state {
            HyperEdgeState::Active => self.validity.is_active_at(now),
            _ => false,
        }
    }

    /// Check if the hyperedge is currently active (wall clock). The result
    /// is the hyperedge's activity at some instant.
    pub fn is_active(&self) -> (r: bool)
        ensures
            exists|t: i64| r == self.spec_active_at(t),
    {
        let t = crate::trusted::now_millis();
        let r = self.is_active_at(t);
        proof {
            assert(r == self.spec_active_at(t));
        }
        r
    }

    /// Activate the hyperedge. Activation requires at least two
    /// participants, and is legal from Forming and Restructuring.
    pub fn activate(&mut self, now: i64) -> (r: RelationshipResult<()>)
        requires
            old(self).wf(),
        ensures
            final(self).wf(),
            old(self).model().participants.len() < 2 ==> final(self).model() == old(self).model()
                && r == Err::<(), RelationshipError>(RelationshipError::InsufficientParticipants),
            old(self).model().participants.len() >= 2 && !old(self).state.spec_can_transition(
                HyperEdgeState::Active,
            ) ==> final(self).model() == old(self).model() && (match r {
                Err(RelationshipError::InvalidStateTransition(f, t)) => f@
                    == old(self).state.spec_name() && t@ == HyperEdgeState::Active.spec_name(),
                _ => false,
            }),
            old(self).model().participants.len() >= 2 && old(self).state.spec_can_transition(
                HyperEdgeState::Active,
            ) ==> r is Ok && final(self).model() == (HyperEdgeModel {
                state: HyperEdgeState::Active,
                updated_at: spec_stamp(now, old(self).created_at),
                ..old(self).model()
            }),
    {
        if self.participants.participant_count() < 2 {
            return Err(RelationshipError::InsufficientParticipants);
        }
        if !self.state.can_transition_to(&HyperEdgeState::Active) {
            return Err(
                RelationshipError::InvalidStateTransition(
                    String::from_str(self.state.name()),
                    String::from_str(HyperEdgeState::Active.name()),
                ),
            );
        }
        self.state = HyperEdgeState::Active;
        self.updated_at = crate::edge::stamp(now, self.created_at);
        Ok(())
    }

    /// Dissolve the hyperedge, recording the reason in the validity period.
    /// Legal from every non-terminal state.
    pub fn dissolve(&mut self, reason: String, now: i64) -> (r: RelationshipResult<()>)
        requires
            old(self).wf(),
        ensures
            final(self).wf(),
            !old(self).state.spec_can_transition(HyperEdgeState::Dissolved) ==> final(self).model()
                == old(self).model() && (match r {
                Err(RelationshipError::InvalidStateTransition(f, t)) => f@
                    == old(self).state.spec_name() && t@ == HyperEdgeState::Dissolved.spec_name(),
                _ => false,
            }),
            old(self).state.spec_can_transition(HyperEdgeState::Dissolved) ==> r is Ok
                && final(self).model() == (HyperEdgeModel {
                state: HyperEdgeState::Dissolved,
                validity: old(self).validity.spec_end(now, reason),
                updated_at: spec_stamp(now, old(self).created_at),
                ..old(self).model()
            }),
    {
        if !self.state.can_transition_to(&HyperEdgeState::Dissolved) {
            return Err(
                RelationshipError::InvalidStateTransition(
                    String::from_str(self.state.name()),
                    String::from_str(HyperEdgeState::Dissolved.name()),
                ),
            );
        }
        let v = self.validity.clone();
        self.validity = v.end(now, reason);
        self.state = HyperEdgeState::Dissolved;
        self.updated_at = crate::edge::stamp(now, self.created_at);
        Ok(())
    }

    /// Apply an event, producing the next aggregate (pure, with an injected
    /// clock). The outcome is exactly `spec_apply_hyper` on the model: every
    /// applied event raises the version by one and refreshes the update
    /// stamp; a structurally invalid event — a malformed creating event, an
    /// activation with fewer than two participants, a removal that would
    /// leave fewer than two, a quality update whose period is malformed, or
    /// any other event carrying a foreign identifier — is rejected and the
    /// aggregate is left untouched.
    pub fn apply_event_pure(&self, event: &HyperEdgeEvent, now: i64) -> (r: RelationshipResult<
        HyperEdgeConcept,
    >)
        requires
            self.wf(),
            self.version < u64::MAX,
        ensures
            match spec_apply_hyper(self.model(), *event, now) {
                Some(m) => r is Ok && r->Ok_0.model() == m && r->Ok_0.wf(),
                None => match r {
                    Err(RelationshipError::InvalidRelationship(_)) => true,
                    Err(RelationshipError::InsufficientParticipants) => true,
                    _ => false,
                },
            },
    {
        proof {
            lemma_hyper_apply_preserves_wf(self.model(), *event, now);
        }
        let mut next = self.clone();
        next.version = next.version + 1;
        match event {
            HyperEdgeEvent::HyperEdgeCreated(c) => {
                if c.created_at < 0 || c.name.as_str().is_empty()
                    || !c.initial_participants.check_wf() {
                    return Err(
                        RelationshipError::InvalidRelationship(
                            String::from_str("creating event is malformed"),
                        ),
                    );
                }
                next.id = c.hyperedge_id;
                next.concept_id = c.concept_id;
                next.name = c.name.clone();
                next.category = c.category.clone();
                next.participants = c.initial_participants.clone();
                next.state = HyperEdgeState::Forming;
                next.created_at = c.created_at;
                next.updated_at = crate::edge::stamp(now, c.created_at);
            },
            HyperEdgeEvent::HyperEdgeActivated(a) => {
                if a.hyperedge_id != self.id {
                    return Err(
                        RelationshipError::InvalidRelationship(
                            String::from_str("event does not apply to this aggregate"),
                        ),
                    );
                }
                if next.participants.participant_count() < 2 {
                    return Err(RelationshipError::InsufficientParticipants);
                }
                next.state = HyperEdgeState::Active;
                next.updated_at = crate::edge::stamp(now, next.created_at);
            },
            HyperEdgeEvent::ParticipantAdded(p) => {
                if p.hyperedge_id != self.id {
                    return Err(
                        RelationshipError::InvalidRelationship(
                            String::from_str("event does not apply to this aggregate"),
                        ),
                    );
                }
                proof {
                    lemma_participants_add_wf(
                        next.model().participants,
                        ParticipantEntry {
                            entity_ref: p.participant,
                            role: p.role,
                            weight: spec_clamp_milli(p.weight),
                            joined_at: now,
                        },
                    );
                }
                next.participants.add_participant(
                    p.participant.clone(),
                    p.role.clone(),
                    p.weight,
                    now,
                );
                next.updated_at = crate::edge::stamp(now, next.created_at);
            },
            HyperEdgeEvent::ParticipantRemoved(p) => {
                if p.hyperedge_id != self.id {
                    return Err(
                        RelationshipError::InvalidRelationship(
                            String::from_str("event does not apply to this aggregate"),
                        ),
                    );
                }
                if next.participants.contains(&p.participant) {
                    if next.participants.participant_count() <= 2 {
                        return Err(RelationshipError::InsufficientParticipants);
                    }
                    let _removed = next.participants.remove_participant(&p.participant);
                }
                next.updated_at = crate::edge::stamp(now, next.created_at);
            },
            HyperEdgeEvent::ParticipantRoleChanged(p) => {
                if p.hyperedge_id != self.id {
                    return Err(
                        RelationshipError::InvalidRelationship(
                            String::from_str("event does not apply to this aggregate"),
                        ),
                    );
                }
                let removed = next.participants.remove_participant(&p.participant);
                match removed {
                    Some(entry) => {
                        proof {
                            let s0 = self.model().participants;
                            let k = spec_participant_index(s0, p.participant);
                            crate::value_objects::lemma_same_participant_trans(
                                p.participant,
                                s0[k].entity_ref,
                                p.participant,
                            );
                        }
                        next.participants.add_participant(
                            p.participant.clone(),
                            p.new_role.clone(),
                            entry.weight as i64,
                            now,
                        );
                        proof {
                            let s0 = self.model().participants;
                            let k = spec_participant_index(s0, p.participant);
                            let e = ParticipantEntry {
                                entity_ref: p.participant,
                                role: p.new_role,
                                weight: s0[k].weight,
                                joined_at: now,
                            };
                            assert(entry.weight <= MILLI_ONE);
                            assert(spec_clamp_milli(entry.weight as i64) == entry.weight);
                            assert(!spec_contains_participant(s0.remove(k), p.participant)) by {
                                let t = s0.remove(k);
                                if spec_contains_participant(t, p.participant) {
                                    let j = choose|j: int|
                                        0 <= j < t.len() && spec_same_participant(
                                            t[j].entity_ref,
                                            p.participant,
                                        );
                                    let sj = if j < k {
                                        j
                                    } else {
                                        j + 1
                                    };
                                    assert(t[j] == s0[sj]);
                                    crate::value_objects::lemma_same_participant_trans(
                                        s0[sj].entity_ref,
                                        s0[k].entity_ref,
                                        p.participant,
                                    );
                                }
                            }
                            assert(next.model().participants =~= s0.remove(k).push(e));
                        }
                    },
                    None => {},
                }
                next.updated_at = crate::edge::stamp(now, next.created_at);
            },
            HyperEdgeEvent::HyperEdgeTerminated(t) => {
                if t.hyperedge_id != self.id {
                    return Err(
                        RelationshipError::InvalidRelationship(
                            String::from_str("event does not apply to this aggregate"),
                        ),
                    );
                }
                next.state = HyperEdgeState::Dissolved;
                let v = next.validity.clone();
                next.validity = v.end(t.terminated_at, t.reason.clone());
                next.updated_at = crate::edge::stamp(now, next.created_at);
            },
            HyperEdgeEvent::HyperEdgeQualityUpdated(q) => {
                if q.hyperedge_id != self.id || !q.new_quality.duration.check_wf() {
                    return Err(
                        RelationshipError::InvalidRelationship(
                            String::from_str("quality update is malformed"),
                        ),
                    );
                }
                let nq = RelationshipQuality {
                    strength: if q.new_quality.strength > 1000 {
                        1000
                    } else {
                        q.new_quality.strength
                    },
                    trust: if q.new_quality.trust > 1000 {
                        1000
                    } else {
                        q.new_quality.trust
                    },
                    formality: q.new_quality.formality,
                    duration: q.new_quality.duration.clone(),
                    reciprocity: if q.new_quality.reciprocity > 1000 {
                        1000
                    } else {
                        q.new_quality.reciprocity
                    },
                };
                next.position = Position3 { x: nq.strength, y: nq.trust, z: nq.formality.as_milli() };
                next.quality = nq;
                next.updated_at = crate::edge::stamp(now, next.created_at);
            },
        }
        Ok(next)
    }

    /// The hyperedge's point in the quality space at the given instant.
    pub fn quality_point_at(&self, now: i64) -> (r: QualityPoint)
        requires
            self.wf(),
        ensures
            r == self.quality.spec_quality_point_at(now),
            r.wf(),
    {
        self.quality.to_quality_point_at(now)
    }

    /// Get the hyperedge's point in the quality space (wall clock). The
    /// result is the hyperedge's quality point at some instant.
    pub fn quality_point(&self) -> (r: QualityPoint)
        requires
            self.wf(),
        ensures
            exists|t: i64| r == self.quality.spec_quality_point_at(t),
            r.wf(),
    {
        self.quality.to_quality_point()
    }
}

} // verus!
