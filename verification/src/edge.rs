//! The edge aggregate: a binary relationship between two entities, with a
//! lifecycle state machine, a quality profile, evidence, and event-sourced
//! reduction. The reducer is specified as a total function on a
//! mathematical model of the aggregate, so that replaying a log is
//! deterministic by construction.

use vstd::prelude::*;

use crate::quality::spec_dist_sq;
use crate::quality::sqrt_floor;
use crate::quality::Position3;
use crate::quality::QualityPoint;
use crate::quality::RelationshipQuality;
use crate::value_objects::ref_eq;
use crate::value_objects::spec_clamp_milli;
use crate::value_objects::spec_ref_eq;
use crate::value_objects::ConceptId;
use crate::value_objects::EntityRef;
use crate::value_objects::Formality;
use crate::value_objects::KnowledgeLevel;
use crate::value_objects::PropertyValue;
use crate::value_objects::RelationshipCategory;
use crate::value_objects::RelationshipId;
use crate::value_objects::ValidityPeriod;
use crate::value_objects::MILLI_ONE;
use crate::events::EdgeCreated;
use crate::events::EdgeEvent;
use crate::RelationshipError;
use crate::RelationshipResult;

verus! {

// ============================================================================
// Edge state machine
// ============================================================================

/// State of an edge in its lifecycle.
#[derive(Debug, Clone, Copy, PartialEq, Eq, Hash, Structural)]
pub enum EdgeState {
    /// Created but not yet active.
    Proposed,
    /// Currently active.
    Active,
    /// Temporarily inactive.
    Suspended,
    /// Ended; terminal.
    Terminated,
    /// Never accepted; terminal.
    Rejected,
}

impl EdgeState {
    /// The legal transitions: a proposed edge is accepted or rejected; an
    /// active edge can be suspended or terminated; a suspended edge can
    /// resume or be terminated. Termination requires an accepted history, so
    /// there is no step from Proposed to Terminated; rejection is reserved
    /// for never-accepted edges.
    pub open spec fn spec_can_transition(self, to: EdgeState) -> bool {
        ||| (self is Proposed && to is Active)
        ||| (self is Proposed && to is Rejected)
        ||| (self is Active && to is Suspended)
        ||| (self is Active && to is Terminated)
        ||| (self is Suspended && to is Active)
        ||| (self is Suspended && to is Terminated)
    }

    /// Whether the state admits no further transitions.
    pub open spec fn spec_is_terminal(self) -> bool {
        self is Terminated || self is Rejected
    }

    /// The state's name.
    pub open spec fn spec_name(self) -> Seq<char> {
        match self {
            EdgeState::Proposed => "Proposed"@,
            EdgeState::Active => "Active"@,
            EdgeState::Suspended => "Suspended"@,
            EdgeState::Terminated => "Terminated"@,
            EdgeState::Rejected => "Rejected"@,
        }
    }

    /// Check if a transition from this state to another is legal.
    pub fn can_transition_to(&self, to: &EdgeState) -> (r: bool)
        ensures
            r == self.spec_can_transition(*to),
    {
        match (self, to) {
            (EdgeState::Proposed, EdgeState::Active) => true,
            (EdgeState::Proposed, EdgeState::Rejected) => true,
            (EdgeState::Active, EdgeState::Suspended) => true,
            (EdgeState::Active, EdgeState::Terminated) => true,
            (EdgeState::Suspended, EdgeState::Active) => true,
            (EdgeState::Suspended, EdgeState::Terminated) => true,
            _ => false,
        }
    }

    /// The legal next states from each state, as an exact list.
    pub open spec fn spec_valid_transitions(self) -> Seq<EdgeState> {
        match self {
            EdgeState::Proposed => seq![EdgeState::Active, EdgeState::Rejected],
            EdgeState::Active => seq![EdgeState::Suspended, EdgeState::Terminated],
            EdgeState::Suspended => seq![EdgeState::Active, EdgeState::Terminated],
            EdgeState::Terminated => Seq::empty(),
            EdgeState::Rejected => Seq::empty(),
        }
    }

    /// The legal next states from this state: exactly the targets the
    /// transition table admits, each once.
    pub fn valid_transitions(&self) -> (r: Vec<EdgeState>)
        ensures
            r@ == self.spec_valid_transitions(),
            forall|i: int| 0 <= i < r@.len() ==> self.spec_can_transition(#[trigger] r@[i]),
            forall|to: EdgeState| self.spec_can_transition(to) ==> r@.contains(to),
    {
        let mut r: Vec<EdgeState> = Vec::new();
        match self {
            EdgeState::Proposed => {
                r.push(EdgeState::Active);
                r.push(EdgeState::Rejected);
            },
            EdgeState::Active => {
                r.push(EdgeState::Suspended);
                r.push(EdgeState::Terminated);
            },
            EdgeState::Suspended => {
                r.push(EdgeState::Active);
                r.push(EdgeState::Terminated);
            },
            EdgeState::Terminated => {},
            EdgeState::Rejected => {},
        }
        proof {
            assert(r@ =~= self.spec_valid_transitions());
            assert forall|to: EdgeState| self.spec_can_transition(to) implies r@.contains(to) by {
                if self is Proposed {
                    assert(r@[0] == EdgeState::Active && r@[1] == EdgeState::Rejected);
                } else if self is Active {
                    assert(r@[0] == EdgeState::Suspended && r@[1] == EdgeState::Terminated);
                } else if self is Suspended {
                    assert(r@[0] == EdgeState::Active && r@[1] == EdgeState::Terminated);
                }
            }
        }
        r
    }

    /// Whether the state admits no further transitions.
    pub fn is_terminal(&self) -> (r: bool)
        ensures
            r == self.spec_is_terminal(),
    {
        match self {
            EdgeState::Terminated => true,
            EdgeState::Rejected => true,
            _ => false,
        }
    }

    /// The state's name.
    pub fn name(&self) -> (r: &'static str)
        ensures
            r@ == self.spec_name(),
    {
        match self {
            EdgeState::Proposed => "Proposed",
            EdgeState::Active => "Active",
            EdgeState::Suspended => "Suspended",
            EdgeState::Terminated => "Terminated",
            EdgeState::Rejected => "Rejected",
        }
    }
}

impl Default for EdgeState {
    /// An edge begins its life proposed.
    fn default() -> (r: EdgeState)
        ensures
            r == EdgeState::Proposed,
    {
        EdgeState::Proposed
    }
}

/// Law: the state machine is total. For every pair of a state and an
/// attempted target, either the transition is legal and the machine advances
/// to exactly the target, or it is illegal and the state stands; terminal
/// states admit no transition at all.
pub proof fn lemma_edge_transition_total(s: EdgeState, to: EdgeState)
    ensures
        s.spec_can_transition(to) ==> spec_edge_step(s, to) == to,
        !s.spec_can_transition(to) ==> spec_edge_step(s, to) == s,
        s.spec_is_terminal() ==> !s.spec_can_transition(to),
{
}

/// The state after an attempted transition: the target when legal, the
/// current state otherwise.
pub open spec fn spec_edge_step(s: EdgeState, to: EdgeState) -> EdgeState {
    if s.spec_can_transition(to) {
        to
    } else {
        s
    }
}

// ============================================================================
// The mathematical model of an edge
// ============================================================================

/// The timestamp written by an event application: the application instant,
/// but never before the aggregate's creation.
pub open spec fn spec_stamp(now: i64, created_at: i64) -> i64 {
    if now < created_at {
        created_at
    } else {
        now
    }
}

/// The confidence derived from an evidence count: a tenth per piece of
/// evidence, capped at one. In milli-units.
pub open spec fn spec_conf_of(count: int) -> u32 {
    if count >= 10 {
        1000
    } else if count <= 0 {
        0
    } else {
        (count * 100) as u32
    }
}

/// Whether a list of evidence content-identifiers holds one with this text.
pub open spec fn spec_evidence_contains(s: Seq<String>, cid: Seq<char>) -> bool {
    exists|i: int| 0 <= i < s.len() && (#[trigger] s[i])@ == cid
}

/// Whether a property map holds a key.
pub open spec fn spec_props_contain(s: Seq<(Seq<char>, PropertyValue)>, k: Seq<char>) -> bool {
    exists|i: int| 0 <= i < s.len() && (#[trigger] s[i]).0 == k
}

/// The index of a key in a property map; meaningful when present, unique
/// when keys are distinct.
pub open spec fn spec_prop_index(s: Seq<(Seq<char>, PropertyValue)>, k: Seq<char>) -> int {
    choose|i: int| 0 <= i < s.len() && (#[trigger] s[i]).0 == k
}

/// A property write, last-write-wins per key: an existing entry is replaced
/// in place, a new key is appended.
pub open spec fn spec_prop_upsert(
    s: Seq<(Seq<char>, PropertyValue)>,
    k: Seq<char>,
    v: PropertyValue,
) -> Seq<(Seq<char>, PropertyValue)> {
    if spec_props_contain(s, k) {
        s.update(spec_prop_index(s, k), (k, v))
    } else {
        s.push((k, v))
    }
}

/// The model of an edge aggregate: its fields with lists read as sequences
/// and property keys read as text. The reducer is specified as a total
/// function on this model.
pub struct EdgeModel {
    /// Unique identifier.
    pub id: RelationshipId,
    /// Concept identifier in the conceptual space.
    pub concept_id: ConceptId,
    /// Source entity.
    pub source: EntityRef,
    /// Target entity.
    pub target: EntityRef,
    /// Category of the relationship.
    pub category: RelationshipCategory,
    /// Human-readable name.
    pub name: String,
    /// Description, if any.
    pub description: Option<String>,
    /// Quality profile.
    pub quality: RelationshipQuality,
    /// Derived 3-projection of the quality.
    pub position: Position3,
    /// Knowledge level.
    pub knowledge_level: KnowledgeLevel,
    /// Confidence, milli-units of [0, 1].
    pub confidence: u32,
    /// Evidence content-identifiers, in insertion order, no duplicates.
    pub evidence: Seq<String>,
    /// Lifecycle state.
    pub state: EdgeState,
    /// Validity period.
    pub validity: ValidityPeriod,
    /// Property map, keyed by text, last write wins.
    pub properties: Seq<(Seq<char>, PropertyValue)>,
    /// Number of events applied after the creating one.
    pub version: u64,
    /// Creation timestamp.
    pub created_at: i64,
    /// Timestamp of the latest applied event.
    pub updated_at: i64,
}

/// The 3-projection that an edge's position must equal: the quality
/// profile's strength, trust, and formality coordinates.
pub open spec fn spec_position_of(q: RelationshipQuality) -> Position3 {
    Position3 { x: q.strength, y: q.trust, z: q.formality.spec_as_milli() }
}

/// A quality profile as the reducer stores it: real-valued coordinates
/// clamped to the unit interval, rungs and period taken as they are.
pub open spec fn spec_quality_clamped(q: RelationshipQuality) -> RelationshipQuality {
    RelationshipQuality {
        strength: if q.strength > MILLI_ONE {
            MILLI_ONE as u32
        } else {
            q.strength
        },
        trust: if q.trust > MILLI_ONE {
            MILLI_ONE as u32
        } else {
            q.trust
        },
        formality: q.formality,
        duration: q.duration,
        reciprocity: if q.reciprocity > MILLI_ONE {
            MILLI_ONE as u32
        } else {
            q.reciprocity
        },
    }
}

impl EdgeModel {
    /// The aggregate invariants: the endpoints differ, the name is
    /// non-empty, the quality profile and validity period are well-formed,
    /// the position is the quality's 3-projection, the confidence lies in
    /// the unit interval, the update stamp never precedes creation, no
    /// evidence identifier repeats, and no property key repeats.
    pub open spec fn wf(self) -> bool {
        &&& !spec_ref_eq(self.source, self.target)
        &&& self.name@.len() > 0
        &&& self.quality.wf()
        &&& self.position == spec_position_of(self.quality)
        &&& self.confidence <= MILLI_ONE
        &&& self.validity.wf()
        &&& 0 <= self.created_at <= self.updated_at
        &&& forall|i: int, j: int|
            0 <= i < j < self.evidence.len() ==> (#[trigger] self.evidence[i])@ != (
            #[trigger] self.evidence[j])@
        &&& forall|i: int, j: int|
            0 <= i < j < self.properties.len() ==> (#[trigger] self.properties[i]).0 != (
            #[trigger] self.properties[j]).0
    }
}

/// Whether a creating event is acceptable: distinct endpoints, a non-empty
/// name, and a creation instant at or after the epoch.
pub open spec fn spec_created_ok(c: EdgeCreated) -> bool {
    &&& !spec_ref_eq(c.source, c.target)
    &&& c.name@.len() > 0
    &&& 0 <= c.created_at
}

/// The default quality profile the reducer gives a freshly replayed edge:
/// balanced coordinates, formal, ongoing since the edge's creation.
pub open spec fn spec_initial_quality(created_at: i64) -> RelationshipQuality {
    RelationshipQuality {
        strength: 500,
        trust: 500,
        formality: Formality::Formal,
        duration: ValidityPeriod { starts_at: created_at, ends_at: None, end_reason: None },
        reciprocity: 500,
    }
}

/// The model a creating event establishes.
pub open spec fn spec_edge_init(c: EdgeCreated) -> EdgeModel {
    EdgeModel {
        id: c.edge_id,
        concept_id: c.concept_id,
        source: c.source,
        target: c.target,
        category: c.category,
        name: c.name,
        description: None,
        quality: spec_initial_quality(c.created_at),
        position: spec_position_of(spec_initial_quality(c.created_at)),
        knowledge_level: KnowledgeLevel::Unknown,
        confidence: 0,
        evidence: Seq::empty(),
        state: EdgeState::Proposed,
        validity: ValidityPeriod { starts_at: c.created_at, ends_at: None, end_reason: None },
        properties: Seq::empty(),
        version: 0,
        created_at: c.created_at,
        updated_at: c.created_at,
    }
}

/// The reducer, as a total function on the model: `Some` of the next model
/// when the event applies, `None` when the event is structurally invalid
/// for this aggregate. Every applied event raises the version by one and
/// refreshes the update stamp; a creating event re-establishes identity; any
/// other event must carry the aggregate's identifier.
pub open spec fn spec_apply_edge(s: EdgeModel, e: EdgeEvent, now: i64) -> Option<EdgeModel> {
    match e {
        EdgeEvent::EdgeCreated(c) => if spec_created_ok(c) {
            Some(
                EdgeModel {
                    id: c.edge_id,
                    concept_id: c.concept_id,
                    source: c.source,
                    target: c.target,
                    category: c.category,
                    name: c.name,
                    state: EdgeState::Proposed,
                    created_at: c.created_at,
                    version: (s.version + 1) as u64,
                    updated_at: spec_stamp(now, c.created_at),
                    ..s
                },
            )
        } else {
            None
        },
        EdgeEvent::EdgeActivated(a) => if a.edge_id == s.id {
            Some(
                EdgeModel {
                    state: EdgeState::Active,
                    version: (s.version + 1) as u64,
                    updated_at: spec_stamp(now, s.created_at),
                    ..s
                },
            )
        } else {
            None
        },
        EdgeEvent::EdgeSuspended(v) => if v.edge_id == s.id {
            Some(
                EdgeModel {
                    state: EdgeState::Suspended,
                    properties: match v.reason {
                        Some(reason) => spec_prop_upsert(
                            s.properties,
                            "suspension_reason"@,
                            PropertyValue::Text(reason),
                        ),
                        None => s.properties,
                    },
                    version: (s.version + 1) as u64,
                    updated_at: spec_stamp(now, s.created_at),
                    ..s
                },
            )
        } else {
            None
        },
        EdgeEvent::EdgeTerminated(t) => if t.edge_id == s.id {
            Some(
                EdgeModel {
                    state: EdgeState::Terminated,
                    validity: s.validity.spec_end(t.terminated_at, t.reason),
                    version: (s.version + 1) as u64,
                    updated_at: spec_stamp(now, s.created_at),
                    ..s
                },
            )
        } else {
            None
        },
        EdgeEvent::EdgeRejected(v) => if v.edge_id == s.id {
            Some(
                EdgeModel {
                    state: EdgeState::Rejected,
                    properties: match v.reason {
                        Some(reason) => spec_prop_upsert(
                            s.properties,
                            "rejection_reason"@,
                            PropertyValue::Text(reason),
                        ),
                        None => s.properties,
                    },
                    version: (s.version + 1) as u64,
                    updated_at: spec_stamp(now, s.created_at),
                    ..s
                },
            )
        } else {
            None
        },
        EdgeEvent::QualityUpdated(q) => if q.edge_id == s.id && q.new_quality.duration.wf() {
            Some(
                EdgeModel {
                    quality: spec_quality_clamped(q.new_quality),
                    position: spec_position_of(spec_quality_clamped(q.new_quality)),
                    version: (s.version + 1) as u64,
                    updated_at: spec_stamp(now, s.created_at),
                    ..s
                },
            )
        } else {
            None
        },
        EdgeEvent::EvidenceAdded(a) => if a.edge_id == s.id {
            let evidence = if spec_evidence_contains(s.evidence, a.evidence_cid@) {
                s.evidence
            } else {
                s.evidence.push(a.evidence_cid)
            };
            Some(
                EdgeModel {
                    evidence,
                    confidence: spec_conf_of(evidence.len() as int),
                    version: (s.version + 1) as u64,
                    updated_at: spec_stamp(now, s.created_at),
                    ..s
                },
            )
        } else {
            None
        },
        EdgeEvent::KnowledgeProgressed(k) => if k.edge_id == s.id {
            Some(
                EdgeModel {
                    knowledge_level: k.to_level,
                    confidence: spec_clamp_milli(k.new_confidence),
                    version: (s.version + 1) as u64,
                    updated_at: spec_stamp(now, s.created_at),
                    ..s
                },
            )
        } else {
            None
        },
        EdgeEvent::PropertyUpdated(p) => if p.edge_id == s.id {
            Some(
                EdgeModel {
                    properties: spec_prop_upsert(s.properties, p.key@, PropertyValue::Json(p.value)),
                    version: (s.version + 1) as u64,
                    updated_at: spec_stamp(now, s.created_at),
                    ..s
                },
            )
        } else {
            None
        },
    }
}

/// Replaying a log: the empty log and a log that does not begin with a
/// creating event rebuild nothing; otherwise the creating event establishes
/// the aggregate and the remaining events fold through the reducer.
pub open spec fn spec_edge_replay(events: Seq<EdgeEvent>, now: i64) -> Option<EdgeModel>
    decreases events.len(),
{
    if events.len() == 0 {
        None
    } else if events.len() == 1 {
        match events[0] {
            EdgeEvent::EdgeCreated(c) => if spec_created_ok(c) {
                Some(spec_edge_init(c))
            } else {
                None
            },
            _ => None,
        }
    } else {
        match spec_edge_replay(events.drop_last(), now) {
            Some(m) => spec_apply_edge(m, events.last(), now),
            None => None,
        }
    }
}

// ============================================================================
// The edge aggregate
// ============================================================================

/// A binary relationship between two entities, as a concept in the quality
/// space: endpoints, category, quality profile with its derived
/// 3-projection, knowledge state with evidence, lifecycle state, validity,
/// a property bag, and a monotonic version counter.
#[derive(Debug)]
pub struct EdgeConcept {
    /// Unique identifier of this edge.
    pub id: RelationshipId,
    /// Concept identifier in the conceptual space.
    pub concept_id: ConceptId,
    /// Source entity (the `from` end).
    pub source: EntityRef,
    /// Target entity (the `to` end).
    pub target: EntityRef,
    /// Category of this relationship.
    pub category: RelationshipCategory,
    /// Human-readable name.
    pub name: String,
    /// Description of the relationship.
    pub description: Option<String>,
    /// Quality profile.
    pub quality: RelationshipQuality,
    /// Position for visualization, derived from the quality.
    pub position: Position3,
    /// How well-known this relationship is.
    pub knowledge_level: KnowledgeLevel,
    /// Confidence score, milli-units of [0, 1].
    pub confidence: u32,
    /// Evidence content-identifiers supporting this relationship, in
    /// insertion order, without duplicates.
    pub evidence_cids: Vec<String>,
    /// Current lifecycle state.
    pub state: EdgeState,
    /// Validity period.
    pub validity: ValidityPeriod,
    /// Additional properties, last write per key.
    pub properties: Vec<(String, PropertyValue)>,
    /// Number of events applied after the creating one.
    pub version: u64,
    /// Creation timestamp, milliseconds since the epoch.
    pub created_at: i64,
    /// Timestamp of the latest applied event.
    pub updated_at: i64,
}

/// A property list read as the model reads it: keys by their text.
pub open spec fn spec_props_model(s: Seq<(String, PropertyValue)>) -> Seq<(Seq<char>, PropertyValue)> {
    s.map_values(|kv: (String, PropertyValue)| (kv.0@, kv.1))
}

impl EdgeConcept {
    /// The mathematical model of this aggregate.
    pub open spec fn model(self) -> EdgeModel {
        EdgeModel {
            id: self.id,
            concept_id: self.concept_id,
            source: self.source,
            target: self.target,
            category: self.category,
            name: self.name,
            description: self.description,
            quality: self.quality,
            position: self.position,
            knowledge_level: self.knowledge_level,
            confidence: self.confidence,
            evidence: self.evidence_cids@,
            state: self.state,
            validity: self.validity,
            properties: spec_props_model(self.properties@),
            version: self.version,
            created_at: self.created_at,
            updated_at: self.updated_at,
        }
    }

    /// Well-formedness: the model invariants hold.
    pub open spec fn wf(self) -> bool {
        self.model().wf()
    }
}

impl Clone for EdgeConcept {
    /// A clone has the same model.
    fn clone(&self) -> (r: Self)
        ensures
            r.model() == self.model(),
    {
        let r = EdgeConcept {
            id: self.id,
            concept_id: self.concept_id,
            source: self.source.clone(),
            target: self.target.clone(),
            category: self.category.clone(),
            name: self.name.clone(),
            description: match &self.description {
                Some(d) => Some(d.clone()),
                None => None,
            },
            quality: self.quality.clone(),
            position: self.position,
            knowledge_level: self.knowledge_level,
            confidence: self.confidence,
            evidence_cids: clone_texts(&self.evidence_cids),
            state: self.state,
            validity: self.validity.clone(),
            properties: clone_props(&self.properties),
            version: self.version,
            created_at: self.created_at,
            updated_at: self.updated_at,
        };
        proof {
            assert(spec_props_model(r.properties@) =~= spec_props_model(self.properties@));
        }
        r
    }
}

/// Clone a list of strings, element for element.
pub(crate) fn clone_texts(v: &Vec<String>) -> (r: Vec<String>)
    ensures
        r@ == v@,
{
    let mut out: Vec<String> = Vec::new();
    let mut i: usize = 0;
    while i < v.len()
        invariant
            0 <= i <= v.len(),
            out@ =~= v@.subrange(0, i as int),
        decreases v.len() - i,
    {
        out.push(v[i].clone());
        i = i + 1;
    }
    proof {
        assert(out@ =~= v@);
    }
    out
}

/// Clone a property list, entry for entry.
pub(crate) fn clone_props(v: &Vec<(String, PropertyValue)>) -> (r: Vec<(String, PropertyValue)>)
    ensures
        r@ == v@,
{
    let mut out: Vec<(String, PropertyValue)> = Vec::new();
    let mut i: usize = 0;
    while i < v.len()
        invariant
            0 <= i <= v.len(),
            out@ =~= v@.subrange(0, i as int),
        decreases v.len() - i,
    {
        let kv = (v[i].0.clone(), v[i].1.clone());
        out.push(kv);
        i = i + 1;
    }
    proof {
        assert(out@ =~= v@);
    }
    out
}

/// The timestamp an event application writes; see `spec_stamp`.
pub(crate) fn stamp(now: i64, created_at: i64) -> (r: i64)
    ensures
        r == spec_stamp(now, created_at),
{
    if now < created_at {
        created_at
    } else {
        now
    }
}

/// The confidence derived from an evidence count; see `spec_conf_of`.
fn conf_of(count: usize) -> (r: u32)
    ensures
        r == spec_conf_of(count as int),
        r <= MILLI_ONE,
{
    if count >= 10 {
        1000
    } else {
        (count as u32) * 100
    }
}

/// Whether an evidence list holds an identifier with this text.
pub(crate) fn evidence_contains(v: &Vec<String>, cid: &String) -> (r: bool)
    ensures
        r == spec_evidence_contains(v@, cid@),
{
    let mut i: usize = 0;
    while i < v.len()
        invariant
            0 <= i <= v.len(),
            forall|j: int| 0 <= j < i ==> (#[trigger] v@[j])@ != cid@,
        decreases v.len() - i,
    {
        if v[i] == *cid {
            return true;
        }
        i = i + 1;
    }
    false
}

/// Whether the property keys of a list are pairwise distinct.
pub open spec fn spec_props_distinct(s: Seq<(Seq<char>, PropertyValue)>) -> bool {
    forall|i: int, j: int| 0 <= i < j < s.len() ==> (#[trigger] s[i]).0 != (#[trigger] s[j]).0
}

/// Write a property, last-write-wins per key; see `spec_prop_upsert`.
fn prop_upsert(props: &mut Vec<(String, PropertyValue)>, key: String, value: PropertyValue)
    requires
        spec_props_distinct(spec_props_model(old(props)@)),
    ensures
        spec_props_model(final(props)@) == spec_prop_upsert(
            spec_props_model(old(props)@),
            key@,
            value,
        ),
        spec_props_distinct(spec_props_model(final(props)@)),
{
    let ghost m = spec_props_model(props@);
    let mut i: usize = 0;
    while i < props.len()
        invariant
            0 <= i <= props.len(),
            m == spec_props_model(props@),
            m == spec_props_model(old(props)@),
            spec_props_distinct(m),
            forall|j: int| 0 <= j < i ==> (#[trigger] m[j]).0 != key@,
        decreases props.len() - i,
    {
        proof {
            assert(m[i as int] == (props@[i as int].0@, props@[i as int].1));
        }
        if props[i].0 == key {
            proof {
                assert(spec_props_contain(m, key@));
                let k = spec_prop_index(m, key@);
                assert(0 <= k < m.len() && m[k].0 == key@);
                if k != i as int {
                    assert(m[k].0 == m[i as int].0);
                    assert(false);
                }
            }
            props.remove(i);
            props.insert(i, (key, value));
            proof {
                assert(spec_props_model(props@) =~= m.update(i as int, (key@, value)));
            }
            return ;
        }
        i = i + 1;
    }
    proof {
        assert(!spec_props_contain(m, key@));
    }
    props.push((key, value));
    proof {
        assert(spec_props_model(props@) =~= m.push((key@, value)));
    }
}

// ============================================================================
// Invariant preservation
// ============================================================================

/// An upsert keeps property keys distinct.
proof fn lemma_upsert_distinct(s: Seq<(Seq<char>, PropertyValue)>, k: Seq<char>, v: PropertyValue)
    requires
        spec_props_distinct(s),
    ensures
        spec_props_distinct(spec_prop_upsert(s, k, v)),
{
    if spec_props_contain(s, k) {
        let i = spec_prop_index(s, k);
        assert(0 <= i < s.len() && s[i].0 == k);
    }
}

/// Law: the reducer preserves the aggregate invariants. Whatever event it
/// applies to a well-formed aggregate, the result is well-formed: endpoints
/// stay distinct, the position stays the quality's 3-projection, the
/// confidence and the quality coordinates stay in the unit interval, the
/// update stamp never precedes creation, and no evidence identifier or
/// property key repeats.
pub proof fn lemma_apply_preserves_wf(s: EdgeModel, e: EdgeEvent, now: i64)
    requires
        s.wf(),
    ensures
        spec_apply_edge(s, e, now) is Some ==> spec_apply_edge(s, e, now)->Some_0.wf(),
{
    match e {
        EdgeEvent::EdgeSuspended(v) => {
            match v.reason {
                Some(reason) => {
                    lemma_upsert_distinct(
                        s.properties,
                        "suspension_reason"@,
                        PropertyValue::Text(reason),
                    );
                },
                None => {},
            }
        },
        EdgeEvent::EdgeRejected(v) => {
            match v.reason {
                Some(reason) => {
                    lemma_upsert_distinct(
                        s.properties,
                        "rejection_reason"@,
                        PropertyValue::Text(reason),
                    );
                },
                None => {},
            }
        },
        EdgeEvent::PropertyUpdated(p) => {
            if p.edge_id == s.id {
                lemma_upsert_distinct(s.properties, p.key@, PropertyValue::Json(p.value));
            }
        },
        _ => {},
    }
}

/// Law: every applied event raises the version by exactly one and refreshes
/// the update stamp to the application instant, clamped to never precede the
/// aggregate's creation.
pub proof fn lemma_apply_version_and_stamp(s: EdgeModel, e: EdgeEvent, now: i64)
    ensures
        spec_apply_edge(s, e, now) is Some ==> ({
            let n = spec_apply_edge(s, e, now)->Some_0;
            &&& n.version == ((s.version + 1) as u64)
            &&& n.updated_at == spec_stamp(now, n.created_at)
            &&& n.created_at <= n.updated_at
            &&& now >= n.created_at ==> n.updated_at == now
        }),
{
}

/// Law: every aggregate a replay rebuilds satisfies the invariants.
pub proof fn lemma_replay_wf(events: Seq<EdgeEvent>, now: i64)
    ensures
        spec_edge_replay(events, now) is Some ==> spec_edge_replay(events, now)->Some_0.wf(),
    decreases events.len(),
{
    if events.len() > 1 {
        lemma_replay_wf(events.drop_last(), now);
        match spec_edge_replay(events.drop_last(), now) {
            Some(m) => {
                lemma_apply_preserves_wf(m, events.last(), now);
            },
            None => {},
        }
    }
}

/// A replay that has already failed on a prefix fails on the whole log.
proof fn lemma_replay_none_extends(events: Seq<EdgeEvent>, now: i64, k: int)
    requires
        1 <= k <= events.len(),
        spec_edge_replay(events.subrange(0, k), now) is None,
    ensures
        spec_edge_replay(events, now) is None,
    decreases events.len() - k,
{
    if k == events.len() {
        assert(events.subrange(0, k) =~= events);
    } else {
        let p = events.subrange(0, k + 1);
        assert(p.drop_last() =~= events.subrange(0, k));
        assert(spec_edge_replay(p, now) is None);
        lemma_replay_none_extends(events, now, k + 1);
    }
}

/// Law: the version counts the applied events. A replayed aggregate's
/// version is the length of its log less the creating event.
pub proof fn lemma_replay_version(events: Seq<EdgeEvent>, now: i64)
    requires
        events.len() <= u64::MAX,
    ensures
        spec_edge_replay(events, now) is Some ==> spec_edge_replay(events, now)->Some_0.version
            as int == events.len() - 1,
    decreases events.len(),
{
    if events.len() > 1 {
        lemma_replay_version(events.drop_last(), now);
    }
}

/// Law: reduction is deterministic. Identical event logs under identical
/// injected clocks rebuild identical models.
pub proof fn lemma_reducer_deterministic(
    events1: Seq<EdgeEvent>,
    events2: Seq<EdgeEvent>,
    now1: i64,
    now2: i64,
)
    requires
        events1 == events2,
        now1 == now2,
    ensures
        spec_edge_replay(events1, now1) == spec_edge_replay(events2, now2),
{
}

/// Law: confidence follows the evidence. After an evidence event is applied,
/// the confidence is a tenth per attached piece of evidence, capped at one —
/// until a later knowledge progression overrides it.
pub proof fn lemma_confidence_from_evidence(
    s: EdgeModel,
    e: crate::events::EdgeEvidenceAdded,
    now: i64,
)
    requires
        spec_apply_edge(s, EdgeEvent::EvidenceAdded(e), now) is Some,
    ensures
        ({
            let n = spec_apply_edge(s, EdgeEvent::EvidenceAdded(e), now)->Some_0;
            n.confidence == spec_conf_of(n.evidence.len() as int) && n.confidence <= MILLI_ONE
        }),
{
}

/// Law: evidence is idempotent. Applying the same evidence event twice
/// yields the same aggregate as applying it once, apart from the version
/// counter and the update stamp, which advance with every applied event.
pub proof fn lemma_evidence_idempotent(s: EdgeModel, e: crate::events::EdgeEvidenceAdded, now: i64)
    requires
        s.wf(),
        spec_apply_edge(s, EdgeEvent::EvidenceAdded(e), now) is Some,
    ensures
        ({
            let once = spec_apply_edge(s, EdgeEvent::EvidenceAdded(e), now)->Some_0;
            let twice_opt = spec_apply_edge(once, EdgeEvent::EvidenceAdded(e), now);
            &&& twice_opt is Some
            &&& (EdgeModel { version: 0, updated_at: 0, ..twice_opt->Some_0 }) == (EdgeModel {
                version: 0,
                updated_at: 0,
                ..once
            })
        }),
{
    let once = spec_apply_edge(s, EdgeEvent::EvidenceAdded(e), now)->Some_0;
    if !spec_evidence_contains(s.evidence, e.evidence_cid@) {
        assert(once.evidence == s.evidence.push(e.evidence_cid));
        assert(once.evidence[once.evidence.len() - 1]@ == e.evidence_cid@);
        assert(spec_evidence_contains(once.evidence, e.evidence_cid@));
    }
}

// ============================================================================
// The aggregate's methods
// ============================================================================

/// The outcome of an attempted transition: when legal, the machine advances
/// to the target and refreshes its stamp; when illegal, the aggregate is
/// unchanged and the failure names the two states.
pub open spec fn spec_transition_outcome(
    old_m: EdgeModel,
    new_m: EdgeModel,
    to: EdgeState,
    now: i64,
    r: Result<(), RelationshipError>,
) -> bool {
    &&& old_m.state.spec_can_transition(to) ==> r is Ok && new_m == (EdgeModel {
        state: to,
        updated_at: spec_stamp(now, old_m.created_at),
        ..old_m
    })
    &&& !old_m.state.spec_can_transition(to) ==> new_m == old_m && (match r {
        Err(RelationshipError::InvalidStateTransition(f, t)) => f@ == old_m.state.spec_name() && t@
            == to.spec_name(),
        _ => false,
    })
}

/// The similarity derived from a squared distance: one minus the distance
/// over the diameter of the quality space, floored at zero. In milli-units.
pub open spec fn spec_similarity_of(dsq: int) -> int {
    let scaled = sqrt_floor(dsq) * 1000 / 2236;
    1000 - (if scaled > 1000 {
        1000
    } else {
        scaled
    })
}

impl EdgeConcept {
    /// Create a new edge concept, proposed, with the default quality profile
    /// and fresh identifiers. Creation is rejected when the name is empty or
    /// the two endpoints are the same entity (no reflexive relationships).
    pub fn new(
        name: String,
        source: EntityRef,
        target: EntityRef,
        category: RelationshipCategory,
    ) -> (r: RelationshipResult<EdgeConcept>)
        ensures
            (name@.len() == 0 || spec_ref_eq(source, target)) <==> (match r {
                Err(RelationshipError::InvalidRelationship(_)) => true,
                _ => false,
            }),
            (name@.len() > 0 && !spec_ref_eq(source, target)) ==> ({
                let n = r->Ok_0;
                &&& r is Ok
                &&& n.wf()
                &&& n.source == source
                &&& n.target == target
                &&& n.category == category
                &&& n.name == name
                &&& n.description is None
                &&& n.state == EdgeState::Proposed
                &&& n.version == 0
                &&& n.confidence == 0
                &&& n.knowledge_level == KnowledgeLevel::Unknown
                &&& n.evidence_cids@ == Seq::<String>::empty()
                &&& n.properties@ == Seq::<(String, PropertyValue)>::empty()
                &&& n.created_at == n.updated_at
                &&& n.validity.starts_at == n.created_at
                &&& n.validity.ends_at is None
                &&& n.quality == spec_initial_quality(n.created_at)
                &&& n.position == spec_position_of(n.quality)
            }),
    {
        if name.as_str().is_empty() {
            return Err(
                RelationshipError::InvalidRelationship(
                    String::from_str("relationship name must not be empty"),
                ),
            );
        }
        if ref_eq(&source, &target) {
            return Err(
                RelationshipError::InvalidRelationship(
                    String::from_str("source and target must differ"),
                ),
            );
        }
        let t = crate::trusted::now_millis();
        let t = if t < 0 {
            0
        } else {
            t
        };
        let quality = RelationshipQuality {
            strength: 500,
            trust: 500,
            formality: Formality::Formal,
            duration: ValidityPeriod::ongoing(t),
            reciprocity: 500,
        };
        let n = EdgeConcept {
            id: RelationshipId::new(),
            concept_id: ConceptId::new(),
            source,
            target,
            category,
            name,
            description: None,
            quality,
            position: Position3 { x: 500, y: 500, z: 500 },
            knowledge_level: KnowledgeLevel::Unknown,
            confidence: 0,
            evidence_cids: Vec::new(),
            state: EdgeState::Proposed,
            validity: ValidityPeriod::ongoing(t),
            properties: Vec::new(),
            version: 0,
            created_at: t,
            updated_at: t,
        };
        proof {
            assert(spec_props_model(n.properties@) =~= Seq::<(Seq<char>, PropertyValue)>::empty());
        }
        Ok(n)
    }

    /// Replace the quality profile; the position follows it.
    pub fn with_quality(self, quality: RelationshipQuality) -> (r: Self)
        requires
            quality.wf(),
        ensures
            r.model() == (EdgeModel {
                quality,
                position: spec_position_of(quality),
                ..self.model()
            }),
            self.wf() ==> r.wf(),
    {
        let position = Position3 { x: quality.strength, y: quality.trust, z: quality.formality.as_milli() };
        EdgeConcept { quality, position, ..self }
    }

    /// Set the description.
    pub fn with_description(self, description: String) -> (r: Self)
        ensures
            r.model() == (EdgeModel { description: Some(description), ..self.model() }),
            self.wf() ==> r.wf(),
    {
        EdgeConcept { description: Some(description), ..self }
    }

    /// Set the validity period.
    pub fn with_validity(self, validity: ValidityPeriod) -> (r: Self)
        requires
            validity.wf(),
        ensures
            r.model() == (EdgeModel { validity, ..self.model() }),
            self.wf() ==> r.wf(),
    {
        EdgeConcept { validity, ..self }
    }

    /// Write a property, last-write-wins per key.
    pub fn with_property(self, key: String, value: serde_json::Value) -> (r: Self)
        requires
            self.wf(),
        ensures
            r.model() == (EdgeModel {
                properties: spec_prop_upsert(
                    self.model().properties,
                    key@,
                    PropertyValue::Json(value),
                ),
                ..self.model()
            }),
            r.wf(),
    {
        let mut n = self;
        proof {
            lemma_upsert_distinct(n.model().properties, key@, PropertyValue::Json(value));
        }
        prop_upsert(&mut n.properties, key, PropertyValue::Json(value));
        n
    }

    /// Attempt a transition of the lifecycle state machine. A legal
    /// transition advances the state and refreshes the update stamp; an
    /// illegal one leaves the aggregate unchanged and reports the two states.
    pub fn transition_to(&mut self, new_state: EdgeState, now: i64) -> (r: RelationshipResult<()>)
        requires
            old(self).wf(),
        ensures
            spec_transition_outcome(old(self).model(), final(self).model(), new_state, now, r),
            final(self).wf(),
    {
        if self.state.can_transition_to(&new_state) {
            self.state = new_state;
            self.updated_at = stamp(now, self.created_at);
            Ok(())
        } else {
            Err(
                RelationshipError::InvalidStateTransition(
                    String::from_str(self.state.name()),
                    String::from_str(new_state.name()),
                ),
            )
        }
    }

    /// Activate the edge (legal from Proposed or Suspended).
    pub fn activate(&mut self, now: i64) -> (r: RelationshipResult<()>)
        requires
            old(self).wf(),
        ensures
            spec_transition_outcome(old(self).model(), final(self).model(), EdgeState::Active, now, r),
            final(self).wf(),
    {
        self.transition_to(EdgeState::Active, now)
    }

    /// Suspend the edge (legal from Active).
    pub fn suspend(&mut self, now: i64) -> (r: RelationshipResult<()>)
        requires
            old(self).wf(),
        ensures
            spec_transition_outcome(
                old(self).model(),
                final(self).model(),
                EdgeState::Suspended,
                now,
                r,
            ),
            final(self).wf(),
    {
        self.transition_to(EdgeState::Suspended, now)
    }

    /// Resume the edge from suspension (legal from Suspended).
    pub fn resume(&mut self, now: i64) -> (r: RelationshipResult<()>)
        requires
            old(self).wf(),
        ensures
            spec_transition_outcome(old(self).model(), final(self).model(), EdgeState::Active, now, r),
            final(self).wf(),
    {
        self.transition_to(EdgeState::Active, now)
    }

    /// Terminate the edge, recording the reason in the validity period
    /// (legal from Active or Suspended).
    pub fn terminate(&mut self, reason: String, now: i64) -> (r: RelationshipResult<()>)
        requires
            old(self).wf(),
        ensures
            old(self).state.spec_can_transition(EdgeState::Terminated) ==> r is Ok
                && final(self).model() == (EdgeModel {
                state: EdgeState::Terminated,
                validity: old(self).validity.spec_end(now, reason),
                updated_at: spec_stamp(now, old(self).created_at),
                ..old(self).model()
            }),
            !old(self).state.spec_can_transition(EdgeState::Terminated) ==> final(self).model()
                == old(self).model() && (match r {
                Err(RelationshipError::InvalidStateTransition(f, t)) => f@
                    == old(self).state.spec_name() && t@ == EdgeState::Terminated.spec_name(),
                _ => false,
            }),
            final(self).wf(),
    {
        if self.state.can_transition_to(&EdgeState::Terminated) {
            let v = self.validity.clone();
            self.validity = v.end(now, reason);
            self.state = EdgeState::Terminated;
            self.updated_at = stamp(now, self.created_at);
            Ok(())
        } else {
            Err(
                RelationshipError::InvalidStateTransition(
                    String::from_str(self.state.name()),
                    String::from_str(EdgeState::Terminated.name()),
                ),
            )
        }
    }

    /// Reject the edge (legal from Proposed).
    pub fn reject(&mut self, now: i64) -> (r: RelationshipResult<()>)
        requires
            old(self).wf(),
        ensures
            spec_transition_outcome(
                old(self).model(),
                final(self).model(),
                EdgeState::Rejected,
                now,
                r,
            ),
            final(self).wf(),
    {
        self.transition_to(EdgeState::Rejected, now)
    }

    /// Whether the edge is active at an instant: its state is Active and its
    /// validity period covers the instant.
    pub open spec fn spec_active_at(self, now: i64) -> bool {
        self.state is Active && self.validity.spec_active_at(now)
    }

    /// Whether the edge is active at the given instant.
    pub fn is_active_at(&self, now: i64) -> (r: bool)
        ensures
            r == self.spec_active_at(now),
    {
        match self.state {
            EdgeState::Active => self.validity.is_active_at(now),
            _ => false,
        }
    }

    /// Check if the edge is currently active (wall clock). The result is the
    /// edge's activity at some instant.
    pub fn is_active(&self) -> (r: bool)
        ensures
            exists|t: i64| r == self.spec_active_at(t),
    {
        let t = crate::trusted::now_millis();
        let r = self.is_active_at(t);
        proof {
            assert(r == self.spec_active_at(t));
        }
        r
    }

    /// Check if this is a symmetric (bidirectional) relationship.
    pub fn is_symmetric(&self) -> (r: bool)
        ensures
            r == self.category.spec_is_symmetric(),
    {
        self.category.is_symmetric()
    }

    /// The edge's point in the quality space at the given instant.
    pub fn quality_point_at(&self, now: i64) -> (r: QualityPoint)
        requires
            self.wf(),
        ensures
            r == self.quality.spec_quality_point_at(now),
            r.wf(),
    {
        self.quality.to_quality_point_at(now)
    }

    /// Get the edge's point in the quality space (wall clock). The result is
    /// the edge's quality point at some instant.
    pub fn quality_point(&self) -> (r: QualityPoint)
        requires
            self.wf(),
        ensures
            exists|t: i64| r == self.quality.spec_quality_point_at(t),
            r.wf(),
    {
        self.quality.to_quality_point()
    }

    /// The similarity of two edges at an instant: one minus their quality
    /// distance over the diameter of the quality space. In milli-units;
    /// identical profiles give 1000.
    pub fn similarity_at(&self, other: &EdgeConcept, now: i64) -> (r: u32)
        requires
            self.wf(),
            other.wf(),
        ensures
            r as int == spec_similarity_of(
                spec_dist_sq(
                    self.quality.spec_quality_point_at(now),
                    other.quality.spec_quality_point_at(now),
                ),
            ),
            r <= MILLI_ONE,
    {
        let p = self.quality.to_quality_point_at(now);
        let q = other.quality.to_quality_point_at(now);
        let d = p.distance(&q);
        let scaled = (d as u64) * 1000 / 2236;
        let scaled = if scaled > 1000 {
            1000u64
        } else {
            scaled
        };
        1000 - (scaled as u32)
    }

    /// Apply an event, producing the next aggregate (pure, with an injected
    /// clock). The outcome is exactly `spec_apply_edge` on the model: every
    /// applied event raises the version by one and refreshes the update
    /// stamp; a structurally invalid event — a creating event with equal
    /// endpoints, an empty name or a pre-epoch instant, a quality update
    /// whose period is malformed, or any other event carrying a foreign
    /// identifier — is rejected and the aggregate is left untouched.
    pub fn apply_event_pure(&self, event: &EdgeEvent, now: i64) -> (r: RelationshipResult<
        EdgeConcept,
    >)
        requires
            self.wf(),
            self.version < u64::MAX,
        ensures
            match spec_apply_edge(self.model(), *event, now) {
                Some(m) => r is Ok && r->Ok_0.model() == m && r->Ok_0.wf(),
                None => match r {
                    Err(RelationshipError::InvalidRelationship(_)) => true,
                    _ => false,
                },
            },
    {
        proof {
            lemma_apply_preserves_wf(self.model(), *event, now);
        }
        let mut next = self.clone();
        next.version = next.version + 1;
        match event {
            EdgeEvent::EdgeCreated(c) => {
                if c.created_at < 0 || c.name.as_str().is_empty() || ref_eq(&c.source, &c.target) {
                    return Err(
                        RelationshipError::InvalidRelationship(
                            String::from_str("creating event is malformed"),
                        ),
                    );
                }
                next.id = c.edge_id;
                next.concept_id = c.concept_id;
                next.source = c.source.clone();
                next.target = c.target.clone();
                next.category = c.category.clone();
                next.name = c.name.clone();
                next.state = EdgeState::Proposed;
                next.created_at = c.created_at;
                next.updated_at = stamp(now, c.created_at);
            },
            EdgeEvent::EdgeActivated(a) => {
                if a.edge_id != self.id {
                    return Err(
                        RelationshipError::InvalidRelationship(
                            String::from_str("event does not apply to this aggregate"),
                        ),
                    );
                }
                next.state = EdgeState::Active;
                next.updated_at = stamp(now, next.created_at);
            },
            EdgeEvent::EdgeSuspended(v) => {
                if v.edge_id != self.id {
                    return Err(
                        RelationshipError::InvalidRelationship(
                            String::from_str("event does not apply to this aggregate"),
                        ),
                    );
                }
                next.state = EdgeState::Suspended;
                match &v.reason {
                    Some(reason) => {
                        prop_upsert(
                            &mut next.properties,
                            String::from_str("suspension_reason"),
                            PropertyValue::Text(reason.clone()),
                        );
                    },
                    None => {},
                }
                next.updated_at = stamp(now, next.created_at);
            },
            EdgeEvent::EdgeTerminated(t) => {
                if t.edge_id != self.id {
                    return Err(
                        RelationshipError::InvalidRelationship(
                            String::from_str("event does not apply to this aggregate"),
                        ),
                    );
                }
                next.state = EdgeState::Terminated;
                let v = next.validity.clone();
                next.validity = v.end(t.terminated_at, t.reason.clone());
                next.updated_at = stamp(now, next.created_at);
            },
            EdgeEvent::EdgeRejected(v) => {
                if v.edge_id != self.id {
                    return Err(
                        RelationshipError::InvalidRelationship(
                            String::from_str("event does not apply to this aggregate"),
                        ),
                    );
                }
                next.state = EdgeState::Rejected;
                match &v.reason {
                    Some(reason) => {
                        prop_upsert(
                            &mut next.properties,
                            String::from_str("rejection_reason"),
                            PropertyValue::Text(reason.clone()),
                        );
                    },
                    None => {},
                }
                next.updated_at = stamp(now, next.created_at);
            },
            EdgeEvent::QualityUpdated(q) => {
                if q.edge_id != self.id || !q.new_quality.duration.check_wf() {
                    return Err(
                        RelationshipError::InvalidRelationship(
                            String::from_str("quality update is malformed"),
                        ),
                    );
                }
                let nq = RelationshipQuality {
                    strength: if q.new_quality.strength > 1000 {
                        1000
                    } else {
                        q.new_quality.strength
                    },
                    trust: if q.new_quality.trust > 1000 {
                        1000
                    } else {
                        q.new_quality.trust
                    },
                    formality: q.new_quality.formality,
                    duration: q.new_quality.duration.clone(),
                    reciprocity: if q.new_quality.reciprocity > 1000 {
                        1000
                    } else {
                        q.new_quality.reciprocity
                    },
                };
                next.position = Position3 { x: nq.strength, y: nq.trust, z: nq.formality.as_milli() };
                next.quality = nq;
                next.updated_at = stamp(now, next.created_at);
            },
            EdgeEvent::EvidenceAdded(a) => {
                if a.edge_id != self.id {
                    return Err(
                        RelationshipError::InvalidRelationship(
                            String::from_str("event does not apply to this aggregate"),
                        ),
                    );
                }
                if !evidence_contains(&next.evidence_cids, &a.evidence_cid) {
                    next.evidence_cids.push(a.evidence_cid.clone());
                }
                next.confidence = conf_of(next.evidence_cids.len());
                next.updated_at = stamp(now, next.created_at);
            },
            EdgeEvent::KnowledgeProgressed(k) => {
                if k.edge_id != self.id {
                    return Err(
                        RelationshipError::InvalidRelationship(
                            String::from_str("event does not apply to this aggregate"),
                        ),
                    );
                }
                next.knowledge_level = k.to_level;
                next.confidence = crate::value_objects::clamp_milli(k.new_confidence);
                next.updated_at = stamp(now, next.created_at);
            },
            EdgeEvent::PropertyUpdated(p) => {
                if p.edge_id != self.id {
                    return Err(
                        RelationshipError::InvalidRelationship(
                            String::from_str("event does not apply to this aggregate"),
                        ),
                    );
                }
                prop_upsert(&mut next.properties, p.key.clone(), PropertyValue::Json(p.value.clone()));
                next.updated_at = stamp(now, next.created_at);
            },
        }
        Ok(next)
    }

    /// Rebuild an aggregate from its event history: the log must begin with
    /// a well-formed creating event, and the remaining events fold through
    /// the reducer, all under one injected clock. The outcome is exactly
    /// `spec_edge_replay` on the log.
    pub fn from_events(events: &Vec<EdgeEvent>, now: i64) -> (r: RelationshipResult<EdgeConcept>)
        ensures
            match spec_edge_replay(events@, now) {
                Some(m) => r is Ok && r->Ok_0.model() == m && r->Ok_0.wf(),
                None => match r {
                    Err(RelationshipError::InvalidRelationship(_)) => true,
                    _ => false,
                },
            },
    {
        proof {
            lemma_replay_wf(events@, now);
        }
        if events.len() == 0 {
            return Err(
                RelationshipError::InvalidRelationship(String::from_str("no events provided")),
            );
        }
        let mut edge = match &events[0] {
            EdgeEvent::EdgeCreated(c) => {
                if c.created_at < 0 || c.name.as_str().is_empty() || ref_eq(&c.source, &c.target) {
                    proof {
                        assert(spec_edge_replay(events@.subrange(0, 1), now) is None);
                        if events@.len() > 1 {
                            lemma_replay_none_extends(events@, now, 1);
                        } else {
                            assert(events@.subrange(0, 1) =~= events@);
                        }
                    }
                    return Err(
                        RelationshipError::InvalidRelationship(
                            String::from_str("creating event is malformed"),
                        ),
                    );
                }
                let quality = RelationshipQuality {
                    strength: 500,
                    trust: 500,
                    formality: Formality::Formal,
                    duration: ValidityPeriod::ongoing(c.created_at),
                    reciprocity: 500,
                };
                let e = EdgeConcept {
                    id: c.edge_id,
                    concept_id: c.concept_id,
                    source: c.source.clone(),
                    target: c.target.clone(),
                    category: c.category.clone(),
                    name: c.name.clone(),
                    description: None,
                    quality,
                    position: Position3 { x: 500, y: 500, z: 500 },
                    knowledge_level: KnowledgeLevel::Unknown,
                    confidence: 0,
                    evidence_cids: Vec::new(),
                    state: EdgeState::Proposed,
                    validity: ValidityPeriod::ongoing(c.created_at),
                    properties: Vec::new(),
                    version: 0,
                    created_at: c.created_at,
                    updated_at: c.created_at,
                };
                proof {
                    assert(spec_props_model(e.properties@) =~= Seq::<(
                        Seq<char>,
                        PropertyValue,
                    )>::empty());
                    assert(e.model() == spec_edge_init(*c));
                }
                e
            },
            _ => {
                proof {
                    assert(spec_edge_replay(events@.subrange(0, 1), now) is None);
                    if events@.len() > 1 {
                        lemma_replay_none_extends(events@, now, 1);
                    } else {
                        assert(events@.subrange(0, 1) =~= events@);
                    }
                }
                return Err(
                    RelationshipError::InvalidRelationship(
                        String::from_str("first event must be a creating event"),
                    ),
                );
            },
        };
        let mut i: usize = 1;
        proof {
            assert(events@.subrange(0, 1) =~= seq![events@[0]]);
            assert(spec_edge_replay(events@.subrange(0, 1), now) == Some(edge.model()));
        }
        while i < events.len()
            invariant
                1 <= i <= events@.len(),
                spec_edge_replay(events@.subrange(0, i as int), now) == Some(edge.model()),
                edge.wf(),
            decreases events@.len() - i,
        {
            proof {
                lemma_replay_version(events@.subrange(0, i as int), now);
                assert(edge.model().version as int == i - 1);
            }
            let stepped = edge.apply_event_pure(&events[i], now);
            proof {
                let p = events@.subrange(0, i as int + 1);
                assert(p.drop_last() =~= events@.subrange(0, i as int));
                assert(p.last() == events@[i as int]);
            }
            match stepped {
                Ok(n) => {
                    edge = n;
                },
                Err(err) => {
                    proof {
                        assert(spec_edge_replay(events@.subrange(0, i as int + 1), now) is None);
                        if i as int + 1 < events@.len() {
                            lemma_replay_none_extends(events@, now, i as int + 1);
                        } else {
                            assert(events@.subrange(0, i as int + 1) =~= events@);
                        }
                    }
                    return Err(err);
                },
            }
            i = i + 1;
        }
        proof {
            assert(events@.subrange(0, events@.len() as int) =~= events@);
        }
        Ok(edge)
    }

    /// Calculate the similarity to another edge (wall clock, one instant for
    /// both). The result is the similarity of the two edges at some instant.
    pub fn similarity(&self, other: &EdgeConcept) -> (r: u32)
        requires
            self.wf(),
            other.wf(),
        ensures
            exists|t: i64|
                r as int == spec_similarity_of(
                    spec_dist_sq(
                        self.quality.spec_quality_point_at(t),
                        other.quality.spec_quality_point_at(t),
                    ),
                ),
            r <= MILLI_ONE,
    {
        let t = crate::trusted::now_millis();
        let r = self.similarity_at(other, t);
        proof {
            assert(r as int == spec_similarity_of(
                spec_dist_sq(
                    self.quality.spec_quality_point_at(t),
                    other.quality.spec_quality_point_at(t),
                ),
            ));
        }
        r
    }
}

} // verus!
