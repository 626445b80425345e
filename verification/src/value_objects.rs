//! Value types of the relationship domain: entity references, relationship
//! identifiers, categories, formality rungs, validity periods, and the
//! incidence matrix that carries hyperedge membership.

use vstd::prelude::*;

use crate::text::spec_dec;
use crate::text::u64_text;
use crate::trusted::fresh_uuid;
use crate::trusted::now_millis;
use crate::trusted::uuid_text;
use crate::trusted::uuid_text_of;

verus! {

/// One thousandth: quality coordinates live in `0 ..= MILLI_ONE`,
/// standing for the real interval [0, 1].
pub const MILLI_ONE: u32 = 1000;

/// A coordinate clamped to the unit interval, in milli-units.
pub open spec fn spec_clamp_milli(v: i64) -> u32 {
    if v < 0 {
        0
    } else if v > 1000 {
        1000
    } else {
        v as u32
    }
}

/// Clamp a milli-unit coordinate to the unit interval.
pub fn clamp_milli(v: i64) -> (r: u32)
    ensures
        r == spec_clamp_milli(v),
        r <= MILLI_ONE,
{
    if v < 0 {
        0
    } else if v > 1000 {
        1000
    } else {
        v as u32
    }
}

// ============================================================================
// Formality
// ============================================================================

/// Level of formality of a relationship, an ordered five-rung ladder.
#[derive(Debug, Clone, Copy, PartialEq, Eq, Hash, Structural)]
pub enum Formality {
    /// Casual, no documentation.
    Informal,
    /// Documented but not binding.
    SemiFormal,
    /// Official, documented relationship.
    Formal,
    /// Contract-based relationship.
    Contractual,
    /// Legally binding relationship.
    Legal,
}

impl Formality {
    /// The rung's coordinate on the formality quality dimension, in
    /// milli-units: Informal 0, SemiFormal 250, Formal 500, Contractual 750,
    /// Legal 1000.
    pub open spec fn spec_as_milli(self) -> u32 {
        match self {
            Formality::Informal => 0,
            Formality::SemiFormal => 250,
            Formality::Formal => 500,
            Formality::Contractual => 750,
            Formality::Legal => 1000,
        }
    }

    /// Convert the rung to its quality-space coordinate (milli-units).
    pub fn as_milli(&self) -> (r: u32)
        ensures
            r == self.spec_as_milli(),
    {
        match self {
            Formality::Informal => 0,
            Formality::SemiFormal => 250,
            Formality::Formal => 500,
            Formality::Contractual => 750,
            Formality::Legal => 1000,
        }
    }

    /// The rung whose bucket contains a coordinate; bucket boundaries are the
    /// midpoints 125, 375, 625, 875 (that is, 1/8, 3/8, 5/8, 7/8).
    pub open spec fn spec_from_milli(value: i64) -> Formality {
        if value < 125 {
            Formality::Informal
        } else if value < 375 {
            Formality::SemiFormal
        } else if value < 625 {
            Formality::Formal
        } else if value < 875 {
            Formality::Contractual
        } else {
            Formality::Legal
        }
    }

    /// Create a rung from a quality-space coordinate (milli-units).
    pub fn from_milli(value: i64) -> (r: Formality)
        ensures
            r == Self::spec_from_milli(value),
    {
        if value < 125 {
            Formality::Informal
        } else if value < 375 {
            Formality::SemiFormal
        } else if value < 625 {
            Formality::Formal
        } else if value < 875 {
            Formality::Contractual
        } else {
            Formality::Legal
        }
    }
}

/// Law: the formality ladder round-trips. For every rung, reading the rung's
/// own coordinate back through the bucket boundaries yields that rung.
pub proof fn lemma_formality_round_trip(rung: Formality)
    ensures
        Formality::spec_from_milli(rung.spec_as_milli() as i64) == rung,
{
}

// ============================================================================
// Relationship identifier
// ============================================================================

/// Unique identifier of a relationship (edge or hyperedge): a time-ordered
/// 128-bit value, carried big-endian. The compile-time endpoint parameters of
/// the wire format are erased here; `erase_types` is kept for callers that
/// move an identifier into storage.
#[derive(Debug, Clone, Copy, PartialEq, Eq, Hash, Structural)]
pub struct RelationshipId {
    id: u128,
}

impl RelationshipId {
    /// The raw 128-bit value.
    pub closed spec fn spec_id(self) -> u128 {
        self.id
    }

    /// Mint a new time-ordered relationship identifier.
    pub fn new() -> Self {
        RelationshipId { id: fresh_uuid() }
    }

    /// Create from an existing 128-bit identifier value.
    pub fn from_uuid(id: u128) -> (r: Self)
        ensures
            r.spec_id() == id,
    {
        RelationshipId { id }
    }

    /// Get the inner 128-bit identifier value.
    pub fn as_uuid(&self) -> (r: u128)
        ensures
            r == self.spec_id(),
    {
        self.id
    }

    /// Erase endpoint type information for storage; the value is unchanged.
    pub fn erase_types(self) -> (r: Self)
        ensures
            r == self,
    {
        self
    }
}

// ============================================================================
// Conceptual-space identifiers and knowledge state
// ============================================================================

/// Identifier of a concept in a conceptual space, minted on behalf of the
/// conceptual-space collaborator.
#[derive(Debug, Clone, Copy, PartialEq, Eq, Hash, Structural)]
pub struct ConceptId {
    id: u128,
}

impl ConceptId {
    /// The raw 128-bit value.
    pub closed spec fn spec_id(self) -> u128 {
        self.id
    }

    /// Mint a new concept identifier.
    pub fn new() -> Self {
        ConceptId { id: fresh_uuid() }
    }

    /// Create from an existing 128-bit identifier value.
    pub fn from_uuid(id: u128) -> (r: Self)
        ensures
            r.spec_id() == id,
    {
        ConceptId { id }
    }

    /// Get the inner 128-bit identifier value.
    pub fn as_uuid(&self) -> (r: u128)
        ensures
            r == self.spec_id(),
    {
        self.id
    }
}

/// Identifier of a conceptual space.
#[derive(Debug, Clone, Copy, PartialEq, Eq, Hash, Structural)]
pub struct ConceptualSpaceId {
    id: u128,
}

impl ConceptualSpaceId {
    /// The raw 128-bit value.
    pub closed spec fn spec_id(self) -> u128 {
        self.id
    }

    /// Mint a new conceptual-space identifier.
    pub fn new() -> Self {
        ConceptualSpaceId { id: fresh_uuid() }
    }
}

/// Identifier of a topological space backing a conceptual space.
#[derive(Debug, Clone, Copy, PartialEq, Eq, Hash, Structural)]
pub struct TopologicalSpaceId {
    id: u128,
}

impl TopologicalSpaceId {
    /// The raw 128-bit value.
    pub closed spec fn spec_id(self) -> u128 {
        self.id
    }

    /// Mint a new topological-space identifier.
    pub fn new() -> Self {
        TopologicalSpaceId { id: fresh_uuid() }
    }
}

/// Ordinal confidence status of a relationship's existence.
#[derive(Debug, Clone, Copy, PartialEq, Eq, Hash, Structural)]
pub enum KnowledgeLevel {
    /// Nothing is known of the relationship.
    Unknown,
    /// The relationship is suspected from partial evidence.
    Suspected,
    /// The relationship is established.
    Known,
}

/// A property value attached to a relationship: either plain text written by
/// the core itself, or an arbitrary structured value carried through from an
/// event.
#[derive(Debug)]
pub enum PropertyValue {
    /// Plain text.
    Text(String),
    /// A structured value, carried through opaquely.
    Json(serde_json::Value),
}

impl Clone for PropertyValue {
    /// Clones preserve the value exactly.
    fn clone(&self) -> (r: Self)
        ensures
            r == *self,
    {
        match self {
            PropertyValue::Text(s) => PropertyValue::Text(s.clone()),
            PropertyValue::Json(v) => PropertyValue::Json(v.clone()),
        }
    }
}

// ============================================================================
// Entity types
// ============================================================================

/// Kind of entity an `EntityRef` points at.
#[derive(Debug, PartialEq, Eq, Hash)]
pub enum EntityType {
    /// A person.
    Person,
    /// An organization.
    Organization,
    /// A location.
    Location,
    /// An agent.
    Agent,
    /// A policy.
    Policy,
    /// A concept of some conceptual space.
    Concept,
    /// Another relationship (relationship-to-relationship edges).
    Relationship,
    /// A custom domain entity.
    Custom(String),
}

impl EntityType {
    /// The subject prefix used on the message bus for this entity type.
    /// Every custom entity type shares the prefix `custom`.
    pub open spec fn spec_subject_prefix(self) -> Seq<char> {
        match self {
            EntityType::Person => "person"@,
            EntityType::Organization => "organization"@,
            EntityType::Location => "location"@,
            EntityType::Agent => "agent"@,
            EntityType::Policy => "policy"@,
            EntityType::Concept => "concept"@,
            EntityType::Relationship => "relationship"@,
            EntityType::Custom(_) => "custom"@,
        }
    }

    /// Get the bus subject prefix for this entity type.
    pub fn nats_subject_prefix(&self) -> (r: &'static str)
        ensures
            r@ == self.spec_subject_prefix(),
    {
        match self {
            EntityType::Person => "person",
            EntityType::Organization => "organization",
            EntityType::Location => "location",
            EntityType::Agent => "agent",
            EntityType::Policy => "policy",
            EntityType::Concept => "concept",
            EntityType::Relationship => "relationship",
            EntityType::Custom(_) => "custom",
        }
    }
}

impl Clone for EntityType {
    /// Clones preserve the value exactly.
    fn clone(&self) -> (r: Self)
        ensures
            r == *self,
    {
        match self {
            EntityType::Person => EntityType::Person,
            EntityType::Organization => EntityType::Organization,
            EntityType::Location => EntityType::Location,
            EntityType::Agent => EntityType::Agent,
            EntityType::Policy => EntityType::Policy,
            EntityType::Concept => EntityType::Concept,
            EntityType::Relationship => EntityType::Relationship,
            EntityType::Custom(name) => EntityType::Custom(name.clone()),
        }
    }
}

// ============================================================================
// Relationship categories
// ============================================================================

/// High-level classification of relationship types. Each category defines a
/// default formality and a symmetry flag.
#[derive(Debug, PartialEq, Eq, Hash)]
pub enum RelationshipCategory {
    /// Employment (person to organization).
    Employment,
    /// Membership (person to group or organization).
    Membership,
    /// Ownership (entity to asset).
    Ownership,
    /// Management (person to person or team).
    Management,
    /// Friendship (person to person).
    Friendship,
    /// Professional contact (person to person).
    ProfessionalContact,
    /// Mentorship (person to person).
    Mentorship,
    /// Part-of (component to whole).
    PartOf,
    /// Contains (container to contents).
    Contains,
    /// Depends-on (dependent to dependency).
    DependsOn,
    /// Implements (implementation to specification).
    Implements,
    /// Precedes (event to event).
    Precedes,
    /// Triggers (cause to effect).
    Triggers,
    /// References (document to document).
    References,
    /// Derives-from (derivative to source).
    DerivesFrom,
    /// A domain-specific category; defaults to Formal and asymmetric.
    Custom(String),
}

impl Clone for RelationshipCategory {
    /// Clones preserve the value exactly.
    fn clone(&self) -> (r: Self)
        ensures
            r == *self,
    {
        match self {
            RelationshipCategory::Employment => RelationshipCategory::Employment,
            RelationshipCategory::Membership => RelationshipCategory::Membership,
            RelationshipCategory::Ownership => RelationshipCategory::Ownership,
            RelationshipCategory::Management => RelationshipCategory::Management,
            RelationshipCategory::Friendship => RelationshipCategory::Friendship,
            RelationshipCategory::ProfessionalContact => RelationshipCategory::ProfessionalContact,
            RelationshipCategory::Mentorship => RelationshipCategory::Mentorship,
            RelationshipCategory::PartOf => RelationshipCategory::PartOf,
            RelationshipCategory::Contains => RelationshipCategory::Contains,
            RelationshipCategory::DependsOn => RelationshipCategory::DependsOn,
            RelationshipCategory::Implements => RelationshipCategory::Implements,
            RelationshipCategory::Precedes => RelationshipCategory::Precedes,
            RelationshipCategory::Triggers => RelationshipCategory::Triggers,
            RelationshipCategory::References => RelationshipCategory::References,
            RelationshipCategory::DerivesFrom => RelationshipCategory::DerivesFrom,
            RelationshipCategory::Custom(name) => RelationshipCategory::Custom(name.clone()),
        }
    }
}

impl RelationshipCategory {
    /// The default formality rung of this category.
    pub open spec fn spec_default_formality(self) -> Formality {
        match self {
            RelationshipCategory::Employment => Formality::Contractual,
            RelationshipCategory::Ownership => Formality::Legal,
            RelationshipCategory::Membership => Formality::Formal,
            RelationshipCategory::Friendship => Formality::Informal,
            RelationshipCategory::ProfessionalContact => Formality::SemiFormal,
            _ => Formality::Formal,
        }
    }

    /// Get the default formality for this category.
    pub fn default_formality(&self) -> (r: Formality)
        ensures
            r == self.spec_default_formality(),
    {
        match self {
            RelationshipCategory::Employment => Formality::Contractual,
            RelationshipCategory::Ownership => Formality::Legal,
            RelationshipCategory::Membership => Formality::Formal,
            RelationshipCategory::Friendship => Formality::Informal,
            RelationshipCategory::ProfessionalContact => Formality::SemiFormal,
            _ => Formality::Formal,
        }
    }

    /// Whether this category is typically bidirectional; only Friendship and
    /// ProfessionalContact are.
    pub open spec fn spec_is_symmetric(self) -> bool {
        self is Friendship || self is ProfessionalContact
    }

    /// Check if this relationship type is typically bidirectional.
    pub fn is_symmetric(&self) -> (r: bool)
        ensures
            r == self.spec_is_symmetric(),
    {
        match self {
            RelationshipCategory::Friendship => true,
            RelationshipCategory::ProfessionalContact => true,
            _ => false,
        }
    }

    /// The human-readable name of the category; a custom category is named by
    /// its own string.
    pub open spec fn spec_display_name(self) -> Seq<char> {
        match self {
            RelationshipCategory::Employment => "employment"@,
            RelationshipCategory::Membership => "membership"@,
            RelationshipCategory::Ownership => "ownership"@,
            RelationshipCategory::Management => "management"@,
            RelationshipCategory::Friendship => "friendship"@,
            RelationshipCategory::ProfessionalContact => "professional contact"@,
            RelationshipCategory::Mentorship => "mentorship"@,
            RelationshipCategory::PartOf => "part of"@,
            RelationshipCategory::Contains => "contains"@,
            RelationshipCategory::DependsOn => "depends on"@,
            RelationshipCategory::Implements => "implements"@,
            RelationshipCategory::Precedes => "precedes"@,
            RelationshipCategory::Triggers => "triggers"@,
            RelationshipCategory::References => "references"@,
            RelationshipCategory::DerivesFrom => "derives from"@,
            RelationshipCategory::Custom(name) => name@,
        }
    }

    /// Get the human-readable name.
    pub fn display_name(&self) -> (r: String)
        ensures
            r@ == self.spec_display_name(),
    {
        match self {
            RelationshipCategory::Employment => String::from_str("employment"),
            RelationshipCategory::Membership => String::from_str("membership"),
            RelationshipCategory::Ownership => String::from_str("ownership"),
            RelationshipCategory::Management => String::from_str("management"),
            RelationshipCategory::Friendship => String::from_str("friendship"),
            RelationshipCategory::ProfessionalContact => String::from_str("professional contact"),
            RelationshipCategory::Mentorship => String::from_str("mentorship"),
            RelationshipCategory::PartOf => String::from_str("part of"),
            RelationshipCategory::Contains => String::from_str("contains"),
            RelationshipCategory::DependsOn => String::from_str("depends on"),
            RelationshipCategory::Implements => String::from_str("implements"),
            RelationshipCategory::Precedes => String::from_str("precedes"),
            RelationshipCategory::Triggers => String::from_str("triggers"),
            RelationshipCategory::References => String::from_str("references"),
            RelationshipCategory::DerivesFrom => String::from_str("derives from"),
            RelationshipCategory::Custom(name) => name.clone(),
        }
    }
}

// ============================================================================
// Entity reference
// ============================================================================

/// Content-addressed reference to a domain entity. The reference may be
/// pinned to a specific immutable version, either through a content
/// identifier or through a version counter; both may coexist. Equality uses
/// all four fields.
#[derive(Debug, PartialEq, Eq, Hash)]
pub struct EntityRef {
    /// Kind of entity being referenced.
    pub entity_type: EntityType,
    /// The entity's unique identifier (a time-ordered 128-bit value).
    pub entity_id: u128,
    /// Optional content identifier; when present, pins a specific version.
    pub cid: Option<String>,
    /// Optional version number.
    pub version: Option<u64>,
}

impl Clone for EntityRef {
    /// Clones preserve the value exactly.
    fn clone(&self) -> (r: Self)
        ensures
            r == *self,
    {
        EntityRef {
            entity_type: self.entity_type.clone(),
            entity_id: self.entity_id,
            cid: match &self.cid {
                Some(c) => Some(c.clone()),
                None => None,
            },
            version: self.version,
        }
    }
}

/// The leading characters of a content identifier as they appear in a
/// rendered reference: the first eight, or the whole identifier when it is
/// shorter.
pub open spec fn spec_short_cid(s: Seq<char>) -> Seq<char> {
    if s.len() >= 8 {
        s.subrange(0, 8)
    } else {
        s
    }
}

impl EntityRef {
    /// The pin suffix of the rendered reference: `@` and the leading
    /// characters of the content identifier when one is present, else `@v`
    /// and the version number when one is present, else nothing. A content
    /// identifier takes precedence over a version number, as in the rendered
    /// form.
    pub open spec fn spec_pin_text(self) -> Seq<char> {
        match self.cid {
            Some(c) => "@"@ + spec_short_cid(c@),
            None => match self.version {
                Some(v) => "@v"@ + spec_dec(v as nat),
                None => Seq::<char>::empty(),
            },
        }
    }

    /// The rendered form of the reference: subject prefix, `:`, the
    /// hyphenated identifier, and the pin suffix.
    pub open spec fn spec_display(self) -> Seq<char> {
        self.entity_type.spec_subject_prefix() + ":"@ + uuid_text_of(self.entity_id)
            + self.spec_pin_text()
    }

    /// Create a new entity reference, unpinned.
    pub fn new(entity_type: EntityType, entity_id: u128) -> (r: Self)
        ensures
            r == (EntityRef { entity_type, entity_id, cid: None, version: None }),
    {
        EntityRef { entity_type, entity_id, cid: None, version: None }
    }

    /// Create a reference to a person.
    pub fn person(id: u128) -> (r: Self)
        ensures
            r == (EntityRef { entity_type: EntityType::Person, entity_id: id, cid: None, version: None }),
    {
        Self::new(EntityType::Person, id)
    }

    /// Create a reference to an organization.
    pub fn organization(id: u128) -> (r: Self)
        ensures
            r == (EntityRef {
                entity_type: EntityType::Organization,
                entity_id: id,
                cid: None,
                version: None,
            }),
    {
        Self::new(EntityType::Organization, id)
    }

    /// Create a reference to a location.
    pub fn location(id: u128) -> (r: Self)
        ensures
            r == (EntityRef { entity_type: EntityType::Location, entity_id: id, cid: None, version: None }),
    {
        Self::new(EntityType::Location, id)
    }

    /// Create a reference to an agent.
    pub fn agent(id: u128) -> (r: Self)
        ensures
            r == (EntityRef { entity_type: EntityType::Agent, entity_id: id, cid: None, version: None }),
    {
        Self::new(EntityType::Agent, id)
    }

    /// Create a reference to a concept.
    pub fn concept(id: u128) -> (r: Self)
        ensures
            r == (EntityRef { entity_type: EntityType::Concept, entity_id: id, cid: None, version: None }),
    {
        Self::new(EntityType::Concept, id)
    }

    /// Create a reference to another relationship.
    pub fn relationship(id: u128) -> (r: Self)
        ensures
            r == (EntityRef {
                entity_type: EntityType::Relationship,
                entity_id: id,
                cid: None,
                version: None,
            }),
    {
        Self::new(EntityType::Relationship, id)
    }

    /// Add a content identifier for content-addressed pinning.
    pub fn with_cid(self, cid: String) -> (r: Self)
        ensures
            r == (EntityRef { cid: Some(cid), ..self }),
    {
        EntityRef { cid: Some(cid), ..self }
    }

    /// Add a version number.
    pub fn with_version(self, version: u64) -> (r: Self)
        ensures
            r == (EntityRef { version: Some(version), ..self }),
    {
        EntityRef { version: Some(version), ..self }
    }

    /// Generate the bus subject for fetching this entity:
    /// the subject prefix, `.query.get.`, and the identifier.
    pub fn to_nats_subject(&self) -> (r: String)
        ensures
            r@ == self.entity_type.spec_subject_prefix() + ".query.get."@ + uuid_text_of(
                self.entity_id,
            ),
    {
        let s = String::from_str(self.entity_type.nats_subject_prefix());
        let s = s.concat(".query.get.");
        let id = uuid_text(self.entity_id);
        let r = s.concat(id.as_str());
        assert(r@ =~= self.entity_type.spec_subject_prefix() + ".query.get."@ + uuid_text_of(
            self.entity_id,
        ));
        r
    }

    /// Check if this reference is pinned to a specific version.
    pub fn is_pinned(&self) -> (r: bool)
        ensures
            r == (self.cid is Some || self.version is Some),
    {
        self.cid.is_some() || self.version.is_some()
    }

    /// Render the reference: subject prefix, `:`, identifier, pin suffix.
    pub fn to_display_string(&self) -> (r: String)
        ensures
            r@ == self.spec_display(),
    {
        let s = String::from_str(self.entity_type.nats_subject_prefix());
        let s = s.concat(":");
        let id = uuid_text(self.entity_id);
        let s = s.concat(id.as_str());
        let r = match &self.cid {
            Some(c) => {
                let s = s.concat("@");
                let short = short_cid(c);
                s.concat(short.as_str())
            },
            None => match &self.version {
                Some(v) => {
                    let s = s.concat("@v");
                    let num = u64_text(*v);
                    s.concat(num.as_str())
                },
                None => s,
            },
        };
        assert(r@ =~= self.spec_display());
        r
    }
}

/// The leading characters of a content identifier, as rendered.
fn short_cid(c: &String) -> (r: String)
    ensures
        r@ == spec_short_cid(c@),
{
    let len = c.as_str().unicode_len();
    if len >= 8 {
        String::from_str(c.as_str().substring_char(0, 8))
    } else {
        c.clone()
    }
}

/// Whether two entity types are the same; custom types compare by the text
/// of their names.
pub open spec fn spec_type_eq(a: EntityType, b: EntityType) -> bool {
    match (a, b) {
        (EntityType::Custom(x), EntityType::Custom(y)) => x@ == y@,
        (x, y) => x == y,
    }
}

/// Whether two entity references are equal, using all four fields; text
/// fields compare by their text.
pub open spec fn spec_ref_eq(a: EntityRef, b: EntityRef) -> bool {
    &&& spec_type_eq(a.entity_type, b.entity_type)
    &&& a.entity_id == b.entity_id
    &&& match (a.cid, b.cid) {
        (Some(x), Some(y)) => x@ == y@,
        (None, None) => true,
        _ => false,
    }
    &&& a.version == b.version
}

/// Decide whether two entity references are equal.
pub fn ref_eq(a: &EntityRef, b: &EntityRef) -> (r: bool)
    ensures
        r == spec_ref_eq(*a, *b),
{
    let types_eq = match (&a.entity_type, &b.entity_type) {
        (EntityType::Person, EntityType::Person) => true,
        (EntityType::Organization, EntityType::Organization) => true,
        (EntityType::Location, EntityType::Location) => true,
        (EntityType::Agent, EntityType::Agent) => true,
        (EntityType::Policy, EntityType::Policy) => true,
        (EntityType::Concept, EntityType::Concept) => true,
        (EntityType::Relationship, EntityType::Relationship) => true,
        (EntityType::Custom(x), EntityType::Custom(y)) => *x == *y,
        _ => false,
    };
    if !types_eq {
        return false;
    }
    if a.entity_id != b.entity_id {
        return false;
    }
    let cids_eq = match (&a.cid, &b.cid) {
        (Some(x), Some(y)) => *x == *y,
        (None, None) => true,
        _ => false,
    };
    if !cids_eq {
        return false;
    }
    match (&a.version, &b.version) {
        (Some(u), Some(v)) => *u == *v,
        (None, None) => true,
        _ => false,
    }
}

/// Whether two references name the same participant of a hyperedge:
/// their rendered forms read the same — same subject prefix (every custom
/// entity type shares one), same identifier, and the same pin as rendered
/// (content identifiers compare by their leading characters, and a content
/// identifier outranks a version number).
pub open spec fn spec_same_participant(a: EntityRef, b: EntityRef) -> bool {
    &&& a.entity_type.spec_subject_prefix() == b.entity_type.spec_subject_prefix()
    &&& a.entity_id == b.entity_id
    &&& match (a.cid, b.cid) {
        (Some(x), Some(y)) => spec_short_cid(x@) == spec_short_cid(y@),
        (None, None) => a.version == b.version,
        _ => false,
    }
}

/// Decide whether two references name the same participant.
pub fn same_participant(a: &EntityRef, b: &EntityRef) -> (r: bool)
    ensures
        r == spec_same_participant(*a, *b),
{
    let pa = String::from_str(a.entity_type.nats_subject_prefix());
    let pb = String::from_str(b.entity_type.nats_subject_prefix());
    if !(pa == pb) {
        return false;
    }
    if a.entity_id != b.entity_id {
        return false;
    }
    match (&a.cid, &b.cid) {
        (Some(x), Some(y)) => {
            let sx = short_cid(x);
            let sy = short_cid(y);
            sx == sy
        },
        (None, None) => match (&a.version, &b.version) {
            (Some(u), Some(v)) => *u == *v,
            (None, None) => true,
            _ => false,
        },
        _ => false,
    }
}

// ============================================================================
// Validity period
// ============================================================================

/// Milliseconds in one day.
pub const MILLIS_PER_DAY: i64 = 86_400_000;

/// Temporal bounds of a relationship, in milliseconds since the Unix epoch.
/// Supports open-ended (ongoing), fixed-term, and ended periods. Once an end
/// is set it is immutable: a period is never re-opened.
#[derive(Debug, PartialEq, Eq)]
pub struct ValidityPeriod {
    /// When the relationship started.
    pub starts_at: i64,
    /// When the relationship ends; `None` means ongoing.
    pub ends_at: Option<i64>,
    /// Why the relationship ended, if it has.
    pub end_reason: Option<String>,
}

impl Clone for ValidityPeriod {
    /// Clones preserve the value exactly.
    fn clone(&self) -> (r: Self)
        ensures
            r == *self,
    {
        ValidityPeriod {
            starts_at: self.starts_at,
            ends_at: self.ends_at,
            end_reason: match &self.end_reason {
                Some(s) => Some(s.clone()),
                None => None,
            },
        }
    }
}

impl ValidityPeriod {
    /// Well-formedness: the start is a non-negative timestamp and never
    /// follows the end.
    pub open spec fn wf(self) -> bool {
        &&& 0 <= self.starts_at
        &&& match self.ends_at {
            Some(e) => self.starts_at <= e,
            None => true,
        }
    }

    /// Whether the period is active at an instant: the start has passed and
    /// the end, if any, has not.
    pub open spec fn spec_active_at(self, now: i64) -> bool {
        self.starts_at <= now && match self.ends_at {
            Some(e) => now < e,
            None => true,
        }
    }

    /// Whether the period has ended by an instant.
    pub open spec fn spec_ended_at(self, now: i64) -> bool {
        match self.ends_at {
            Some(e) => e <= now,
            None => false,
        }
    }

    /// The period after an attempt to end it: an already-ended period is
    /// unchanged; otherwise the end is set, no earlier than the start, with
    /// the reason recorded.
    pub open spec fn spec_end(self, ends_at: i64, reason: String) -> ValidityPeriod {
        if self.ends_at is Some {
            self
        } else {
            ValidityPeriod {
                starts_at: self.starts_at,
                ends_at: Some(if ends_at < self.starts_at { self.starts_at } else { ends_at }),
                end_reason: Some(reason),
            }
        }
    }

    /// Create an ongoing relationship starting now (wall clock; a clock
    /// reading before the epoch is treated as the epoch).
    pub fn ongoing_now() -> (r: Self)
        ensures
            r.wf(),
            r.ends_at is None,
            r.end_reason is None,
    {
        let t = now_millis();
        let t = if t < 0 { 0 } else { t };
        ValidityPeriod { starts_at: t, ends_at: None, end_reason: None }
    }

    /// Create an ongoing relationship starting at a specific time.
    pub fn ongoing(starts_at: i64) -> (r: Self)
        requires
            0 <= starts_at,
        ensures
            r == (ValidityPeriod { starts_at, ends_at: None, end_reason: None }),
    {
        ValidityPeriod { starts_at, ends_at: None, end_reason: None }
    }

    /// Create a fixed-term relationship.
    pub fn fixed_term(starts_at: i64, ends_at: i64) -> (r: Self)
        requires
            0 <= starts_at <= ends_at,
        ensures
            r == (ValidityPeriod { starts_at, ends_at: Some(ends_at), end_reason: None }),
    {
        ValidityPeriod { starts_at, ends_at: Some(ends_at), end_reason: None }
    }

    /// End an ongoing relationship; see `spec_end` for the exact outcome.
    pub fn end(self, ends_at: i64, reason: String) -> (r: Self)
        ensures
            r == self.spec_end(ends_at, reason),
            self.wf() ==> r.wf(),
    {
        match self.ends_at {
            Some(_) => self,
            None => {
                let e = if ends_at < self.starts_at {
                    self.starts_at
                } else {
                    ends_at
                };
                ValidityPeriod {
                    starts_at: self.starts_at,
                    ends_at: Some(e),
                    end_reason: Some(reason),
                }
            },
        }
    }

    /// Decide whether the period is well-formed.
    pub fn check_wf(&self) -> (r: bool)
        ensures
            r == self.wf(),
    {
        0 <= self.starts_at && match self.ends_at {
            Some(e) => self.starts_at <= e,
            None => true,
        }
    }

    /// Whether the period is active at the given instant.
    pub fn is_active_at(&self, now: i64) -> (r: bool)
        ensures
            r == self.spec_active_at(now),
    {
        self.starts_at <= now && match self.ends_at {
            Some(e) => now < e,
            None => true,
        }
    }

    /// Check if the relationship is currently active (wall clock). The result
    /// is the activity of the period at some instant.
    pub fn is_active(&self) -> (r: bool)
        ensures
            exists|t: i64| r == self.spec_active_at(t),
    {
        let t = now_millis();
        let r = self.is_active_at(t);
        assert(r == self.spec_active_at(t));
        r
    }

    /// Whether the period has ended by the given instant.
    pub fn has_ended_at(&self, now: i64) -> (r: bool)
        ensures
            r == self.spec_ended_at(now),
    {
        match self.ends_at {
            Some(e) => e <= now,
            None => false,
        }
    }

    /// Check if the relationship has ended (wall clock). The result is
    /// whether the period had ended at some instant.
    pub fn has_ended(&self) -> (r: bool)
        ensures
            exists|t: i64| r == self.spec_ended_at(t),
    {
        let t = now_millis();
        let r = self.has_ended_at(t);
        assert(r == self.spec_ended_at(t));
        r
    }

    /// The period's length in whole days, `None` while it is ongoing.
    pub fn duration_days(&self) -> (r: Option<i64>)
        requires
            self.wf(),
        ensures
            r == match self.ends_at {
                Some(e) => Some::<i64>((((e - self.starts_at) / (MILLIS_PER_DAY as int)) as i64)),
                None => None::<i64>,
            },
    {
        match self.ends_at {
            Some(e) => {
                let diff = (e - self.starts_at) as u64;
                Some((diff / (MILLIS_PER_DAY as u64)) as i64)
            },
            None => None,
        }
    }
}

impl Default for ValidityPeriod {
    /// An ongoing period starting now (wall clock).
    fn default() -> (r: ValidityPeriod)
        ensures
            r.wf(),
            r.ends_at is None,
            r.end_reason is None,
    {
        ValidityPeriod::ongoing_now()
    }
}

// ============================================================================
// Participant roles
// ============================================================================

/// Role of a participant in a hyperedge.
#[derive(Debug, PartialEq, Eq, Hash)]
pub enum ParticipantRole {
    /// Primary entity in the relationship.
    Primary,
    /// Secondary entity in the relationship.
    Secondary,
    /// Observer of the relationship.
    Observer,
    /// Facilitator of the relationship.
    Facilitator,
    /// Leader of a team or group.
    Leader,
    /// Member of a team or group.
    Member,
    /// Contributor to a project.
    Contributor,
    /// Stakeholder with interest.
    Stakeholder,
    /// Author of a document.
    Author,
    /// Examines a document before approval.
    Reviewer,
    /// Approver of a document.
    Approver,
    /// Domain-specific role, named by its string.
    Custom(String),
}

impl Clone for ParticipantRole {
    /// Clones preserve the value exactly.
    fn clone(&self) -> (r: Self)
        ensures
            r == *self,
    {
        match self {
            ParticipantRole::Primary => ParticipantRole::Primary,
            ParticipantRole::Secondary => ParticipantRole::Secondary,
            ParticipantRole::Observer => ParticipantRole::Observer,
            ParticipantRole::Facilitator => ParticipantRole::Facilitator,
            ParticipantRole::Leader => ParticipantRole::Leader,
            ParticipantRole::Member => ParticipantRole::Member,
            ParticipantRole::Contributor => ParticipantRole::Contributor,
            ParticipantRole::Stakeholder => ParticipantRole::Stakeholder,
            ParticipantRole::Author => ParticipantRole::Author,
            ParticipantRole::Reviewer => ParticipantRole::Reviewer,
            ParticipantRole::Approver => ParticipantRole::Approver,
            ParticipantRole::Custom(name) => ParticipantRole::Custom(name.clone()),
        }
    }
}

/// Whether two roles are the same; custom roles compare by the text of their
/// names.
pub open spec fn spec_role_eq(a: ParticipantRole, b: ParticipantRole) -> bool {
    match (a, b) {
        (ParticipantRole::Custom(x), ParticipantRole::Custom(y)) => x@ == y@,
        (x, y) => x == y,
    }
}

/// Decide whether two roles are the same.
pub fn role_eq(a: &ParticipantRole, b: &ParticipantRole) -> (r: bool)
    ensures
        r == spec_role_eq(*a, *b),
{
    match (a, b) {
        (ParticipantRole::Primary, ParticipantRole::Primary) => true,
        (ParticipantRole::Secondary, ParticipantRole::Secondary) => true,
        (ParticipantRole::Observer, ParticipantRole::Observer) => true,
        (ParticipantRole::Facilitator, ParticipantRole::Facilitator) => true,
        (ParticipantRole::Leader, ParticipantRole::Leader) => true,
        (ParticipantRole::Member, ParticipantRole::Member) => true,
        (ParticipantRole::Contributor, ParticipantRole::Contributor) => true,
        (ParticipantRole::Stakeholder, ParticipantRole::Stakeholder) => true,
        (ParticipantRole::Author, ParticipantRole::Author) => true,
        (ParticipantRole::Reviewer, ParticipantRole::Reviewer) => true,
        (ParticipantRole::Approver, ParticipantRole::Approver) => true,
        (ParticipantRole::Custom(x), ParticipantRole::Custom(y)) => *x == *y,
        _ => false,
    }
}

impl ParticipantRole {
    /// The human-readable name of the role; a custom role is named by its
    /// own string.
    pub open spec fn spec_display_name(self) -> Seq<char> {
        match self {
            ParticipantRole::Primary => "primary"@,
            ParticipantRole::Secondary => "secondary"@,
            ParticipantRole::Observer => "observer"@,
            ParticipantRole::Facilitator => "facilitator"@,
            ParticipantRole::Leader => "leader"@,
            ParticipantRole::Member => "member"@,
            ParticipantRole::Contributor => "contributor"@,
            ParticipantRole::Stakeholder => "stakeholder"@,
            ParticipantRole::Author => "author"@,
            ParticipantRole::Reviewer => "examiner"@,
            ParticipantRole::Approver => "approver"@,
            ParticipantRole::Custom(name) => name@,
        }
    }

    /// Get the human-readable name.
    pub fn display_name(&self) -> (r: String)
        ensures
            r@ == self.spec_display_name(),
    {
        match self {
            ParticipantRole::Primary => String::from_str("primary"),
            ParticipantRole::Secondary => String::from_str("secondary"),
            ParticipantRole::Observer => String::from_str("observer"),
            ParticipantRole::Facilitator => String::from_str("facilitator"),
            ParticipantRole::Leader => String::from_str("leader"),
            ParticipantRole::Member => String::from_str("member"),
            ParticipantRole::Contributor => String::from_str("contributor"),
            ParticipantRole::Stakeholder => String::from_str("stakeholder"),
            ParticipantRole::Author => String::from_str("author"),
            ParticipantRole::Reviewer => String::from_str("examiner"),
            ParticipantRole::Approver => String::from_str("approver"),
            ParticipantRole::Custom(name) => name.clone(),
        }
    }
}

// ============================================================================
// Incidence matrix
// ============================================================================

/// Entry in the incidence matrix: one participant of a hyperedge.
#[derive(Debug, PartialEq, Eq)]
pub struct ParticipantEntry {
    /// Reference to the participating entity.
    pub entity_ref: EntityRef,
    /// Role in this hyperedge.
    pub role: ParticipantRole,
    /// Participation weight in milli-units (0 ..= 1000, standing for [0, 1]).
    pub weight: u32,
    /// When this participant joined, in milliseconds since the epoch.
    pub joined_at: i64,
}

impl Clone for ParticipantEntry {
    /// Clones preserve the value exactly.
    fn clone(&self) -> (r: Self)
        ensures
            r == *self,
    {
        ParticipantEntry {
            entity_ref: self.entity_ref.clone(),
            role: self.role.clone(),
            weight: self.weight,
            joined_at: self.joined_at,
        }
    }
}

/// Naming the same participant is transitive: two references that both read
/// the same as a third read the same as each other.
pub proof fn lemma_same_participant_trans(a: EntityRef, b: EntityRef, c: EntityRef)
    requires
        spec_same_participant(a, c),
        spec_same_participant(b, c),
    ensures
        spec_same_participant(a, b),
{
}

/// Whether a sequence of entries holds a participant with the given
/// reference.
pub open spec fn spec_contains_participant(s: Seq<ParticipantEntry>, r: EntityRef) -> bool {
    exists|i: int| 0 <= i < s.len() && spec_same_participant(s[i].entity_ref, r)
}

/// The index of the participant with the given reference; meaningful only
/// when the sequence contains one, and unique when the entries are pairwise
/// distinct.
pub open spec fn spec_participant_index(s: Seq<ParticipantEntry>, r: EntityRef) -> int {
    choose|i: int| 0 <= i < s.len() && spec_same_participant(s[i].entity_ref, r)
}

/// Sparse incidence matrix for hyperedge membership: the participants of a
/// hyperedge, each with a role, a clamped weight, and a join timestamp. No
/// participant appears twice; identity is the rendered form of the entity
/// reference (see `spec_same_participant`). Iteration order carries no
/// meaning.
#[derive(Debug, PartialEq, Eq)]
pub struct IncidenceMatrix {
    entries: Vec<ParticipantEntry>,
}

impl Clone for IncidenceMatrix {
    /// A clone holds exactly the same participants.
    fn clone(&self) -> (r: Self)
        ensures
            r.participants_seq() == self.participants_seq(),
    {
        let mut out: Vec<ParticipantEntry> = Vec::new();
        let mut i: usize = 0;
        while i < self.entries.len()
            invariant
                0 <= i <= self.entries.len(),
                out@ =~= self.entries@.subrange(0, i as int),
            decreases self.entries.len() - i,
        {
            out.push(self.entries[i].clone());
            i = i + 1;
        }
        assert(out@ =~= self.entries@);
        IncidenceMatrix { entries: out }
    }
}

/// Well-formedness of a participant list: no participant appears twice, and
/// every weight lies in the unit interval.
pub open spec fn spec_participants_wf(s: Seq<ParticipantEntry>) -> bool {
    &&& forall|i: int, j: int|
        0 <= i < j < s.len() ==> !spec_same_participant(
            (#[trigger] s[i]).entity_ref,
            (#[trigger] s[j]).entity_ref,
        )
    &&& forall|i: int| 0 <= i < s.len() ==> #[trigger] s[i].weight <= MILLI_ONE
}

/// Adding a participant to a list: an entry naming a present participant
/// replaces that participant's entry in place; a new participant's entry is
/// appended.
pub open spec fn spec_participants_add(
    s: Seq<ParticipantEntry>,
    e: ParticipantEntry,
) -> Seq<ParticipantEntry> {
    if spec_contains_participant(s, e.entity_ref) {
        s.update(spec_participant_index(s, e.entity_ref), e)
    } else {
        s.push(e)
    }
}

impl Default for IncidenceMatrix {
    /// An empty incidence matrix.
    fn default() -> (r: IncidenceMatrix)
        ensures
            r.participants_seq() == Seq::<ParticipantEntry>::empty(),
            r.wf(),
    {
        IncidenceMatrix::new()
    }
}

impl IncidenceMatrix {
    /// The participants, as a sequence; its order carries no meaning.
    pub closed spec fn participants_seq(self) -> Seq<ParticipantEntry> {
        self.entries@
    }

    /// Well-formedness: no participant appears twice, and every weight lies
    /// in the unit interval.
    pub open spec fn wf(self) -> bool {
        spec_participants_wf(self.participants_seq())
    }

    /// Decide whether the matrix is well-formed.
    pub fn check_wf(&self) -> (r: bool)
        ensures
            r == self.wf(),
    {
        let mut i: usize = 0;
        while i < self.entries.len()
            invariant
                0 <= i <= self.entries.len(),
                forall|p: int, q: int|
                    0 <= p < q < self.entries@.len() && p < i ==> !spec_same_participant(
                        (#[trigger] self.entries@[p]).entity_ref,
                        (#[trigger] self.entries@[q]).entity_ref,
                    ),
                forall|p: int|
                    0 <= p < i ==> (#[trigger] self.entries@[p]).weight <= MILLI_ONE,
            decreases self.entries.len() - i,
        {
            if self.entries[i].weight > MILLI_ONE {
                return false;
            }
            let mut j: usize = i + 1;
            while j < self.entries.len()
                invariant
                    i < j <= self.entries.len(),
                    i < self.entries.len(),
                    forall|q: int|
                        i < q < j ==> !spec_same_participant(
                            self.entries@[i as int].entity_ref,
                            (#[trigger] self.entries@[q]).entity_ref,
                        ),
                decreases self.entries.len() - j,
            {
                if same_participant(&self.entries[i].entity_ref, &self.entries[j].entity_ref) {
                    return false;
                }
                j = j + 1;
            }
            i = i + 1;
        }
        true
    }

    /// Create an empty incidence matrix.
    pub fn new() -> (r: Self)
        ensures
            r.participants_seq() == Seq::<ParticipantEntry>::empty(),
            r.wf(),
    {
        let r = IncidenceMatrix { entries: Vec::new() };
        proof {
            assert(r.participants_seq() =~= Seq::<ParticipantEntry>::empty());
        }
        r
    }

    /// The index of the participant with this reference, if present.
    fn find_index(&self, entity_ref: &EntityRef) -> (r: Option<usize>)
        ensures
            match r {
                Some(i) => i < self.participants_seq().len() && spec_same_participant(
                    self.participants_seq()[i as int].entity_ref,
                    *entity_ref,
                ),
                None => !spec_contains_participant(self.participants_seq(), *entity_ref),
            },
    {
        let mut i: usize = 0;
        while i < self.entries.len()
            invariant
                0 <= i <= self.entries.len(),
                forall|j: int|
                    0 <= j < i ==> !spec_same_participant(
                        (#[trigger] self.entries@[j]).entity_ref,
                        *entity_ref,
                    ),
            decreases self.entries.len() - i,
        {
            if same_participant(&self.entries[i].entity_ref, entity_ref) {
                return Some(i);
            }
            i = i + 1;
        }
        None
    }

    /// Add a participant. The weight is clamped to the unit interval. Adding
    /// a participant that is already present replaces its entry wholly, in
    /// place; otherwise the entry is appended.
    pub fn add_participant(
        &mut self,
        entity_ref: EntityRef,
        role: ParticipantRole,
        weight: i64,
        joined_at: i64,
    )
        requires
            old(self).wf(),
        ensures
            final(self).wf(),
            ({
                let s = old(self).participants_seq();
                let e = ParticipantEntry {
                    entity_ref,
                    role,
                    weight: spec_clamp_milli(weight),
                    joined_at,
                };
                if spec_contains_participant(s, entity_ref) {
                    final(self).participants_seq() == s.update(
                        spec_participant_index(s, entity_ref),
                        e,
                    )
                } else {
                    final(self).participants_seq() == s.push(e)
                }
            }),
    {
        let entry = ParticipantEntry { entity_ref, role, weight: clamp_milli(weight), joined_at };
        let ghost e = entry;
        let ghost s = self.participants_seq();
        let found = self.find_index(&entry.entity_ref);
        match found {
            Some(i) => {
                proof {
                    assert(spec_contains_participant(s, e.entity_ref));
                    let k = spec_participant_index(s, e.entity_ref);
                    assert(0 <= k < s.len() && spec_same_participant(s[k].entity_ref, e.entity_ref));
                    if k != i as int {
                        lemma_same_participant_trans(
                            s[k].entity_ref,
                            s[i as int].entity_ref,
                            e.entity_ref,
                        );
                        assert(false);
                    }
                }
                self.entries.remove(i);
                self.entries.insert(i, entry);
                proof {
                    assert(self.participants_seq() =~= s.update(i as int, e));
                }
            },
            None => {
                self.entries.push(entry);
            },
        }
    }

    /// Remove a participant, returning its entry when one was present.
    pub fn remove_participant(&mut self, entity_ref: &EntityRef) -> (r: Option<ParticipantEntry>)
        requires
            old(self).wf(),
        ensures
            final(self).wf(),
            ({
                let s = old(self).participants_seq();
                if spec_contains_participant(s, *entity_ref) {
                    let k = spec_participant_index(s, *entity_ref);
                    r == Some(s[k]) && final(self).participants_seq() == s.remove(k)
                } else {
                    r is None && *final(self) == *old(self)
                }
            }),
    {
        let ghost s = self.participants_seq();
        let found = self.find_index(entity_ref);
        match found {
            Some(i) => {
                proof {
                    assert(spec_contains_participant(s, *entity_ref));
                    let k = spec_participant_index(s, *entity_ref);
                    assert(0 <= k < s.len() && spec_same_participant(s[k].entity_ref, *entity_ref));
                    if k != i as int {
                        lemma_same_participant_trans(
                            s[k].entity_ref,
                            s[i as int].entity_ref,
                            *entity_ref,
                        );
                        assert(false);
                    }
                }
                let e = self.entries.remove(i);
                Some(e)
            },
            None => None,
        }
    }

    /// Get the participant count.
    pub fn participant_count(&self) -> (r: usize)
        ensures
            r == self.participants_seq().len(),
    {
        self.entries.len()
    }

    /// Get all participants. The order of the returned entries carries no
    /// meaning.
    pub fn participants(&self) -> (r: &Vec<ParticipantEntry>)
        ensures
            r@ == self.participants_seq(),
    {
        &self.entries
    }

    /// Get the participants holding a role.
    pub fn participants_with_role(&self, role: &ParticipantRole) -> (r: Vec<ParticipantEntry>)
        ensures
            r@ == self.participants_seq().filter(
                |e: ParticipantEntry| spec_role_eq(e.role, *role),
            ),
    {
        let mut out: Vec<ParticipantEntry> = Vec::new();
        let mut i: usize = 0;
        proof {
            reveal(Seq::filter);
            assert(self.participants_seq().subrange(0, 0).filter(
                |e: ParticipantEntry| spec_role_eq(e.role, *role),
            ) =~= Seq::<ParticipantEntry>::empty());
        }
        while i < self.entries.len()
            invariant
                0 <= i <= self.entries.len(),
                out@ == self.entries@.subrange(0, i as int).filter(
                    |e: ParticipantEntry| spec_role_eq(e.role, *role),
                ),
            decreases self.entries.len() - i,
        {
            proof {
                reveal(Seq::filter);
                let s1 = self.entries@.subrange(0, i as int + 1);
                assert(s1.drop_last() =~= self.entries@.subrange(0, i as int));
                assert(s1.last() == self.entries@[i as int]);
            }
            if role_eq(&self.entries[i].role, role) {
                out.push(self.entries[i].clone());
            }
            i = i + 1;
        }
        proof {
            assert(self.entries@.subrange(0, self.entries@.len() as int) =~= self.entries@);
        }
        out
    }

    /// Get the entry of a participant, if present.
    pub fn get_participant(&self, entity_ref: &EntityRef) -> (r: Option<&ParticipantEntry>)
        requires
            self.wf(),
        ensures
            match r {
                Some(e) => spec_contains_participant(self.participants_seq(), *entity_ref) && *e
                    == self.participants_seq()[spec_participant_index(
                    self.participants_seq(),
                    *entity_ref,
                )],
                None => !spec_contains_participant(self.participants_seq(), *entity_ref),
            },
    {
        let ghost s = self.participants_seq();
        let found = self.find_index(entity_ref);
        match found {
            Some(i) => {
                proof {
                    assert(spec_contains_participant(s, *entity_ref));
                    let k = spec_participant_index(s, *entity_ref);
                    assert(0 <= k < s.len() && spec_same_participant(s[k].entity_ref, *entity_ref));
                    if k != i as int {
                        lemma_same_participant_trans(
                            s[k].entity_ref,
                            s[i as int].entity_ref,
                            *entity_ref,
                        );
                        assert(false);
                    }
                }
                Some(&self.entries[i])
            },
            None => None,
        }
    }

    /// Check if an entity is a participant.
    pub fn contains(&self, entity_ref: &EntityRef) -> (r: bool)
        ensures
            r == spec_contains_participant(self.participants_seq(), *entity_ref),
    {
        let found = self.find_index(entity_ref);
        match found {
            Some(i) => {
                proof {
                    let s = self.participants_seq();
                    assert(spec_same_participant(s[i as int].entity_ref, *entity_ref));
                }
                true
            },
            None => false,
        }
    }
}

} // verus!
