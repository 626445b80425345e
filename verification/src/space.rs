//! The relationship space: an in-memory container that indexes edge and
//! hyperedge concepts by identifier, answers similarity queries over the
//! quality space, and caches a Voronoi tessellation computed by an external
//! collaborator. Any structural change invalidates the cache and bumps the
//! space's version.

use vstd::prelude::*;

use crate::edge::EdgeConcept;
use crate::hyperedge::HyperEdgeConcept;
use crate::quality::spec_dist_sq;
use crate::quality::sqrt_floor;
use crate::quality::Position3;
use crate::quality::QualityPoint;
use crate::value_objects::ConceptualSpaceId;
use crate::value_objects::RelationshipId;
use crate::value_objects::TopologicalSpaceId;
use crate::trusted::now_millis;

verus! {

/// A Voronoi tessellation of the 3-projection space: the partition into
/// cells nearest to each generator point. Its computation is delegated to an
/// external collaborator; the space only caches the result.
#[derive(Debug, Clone, PartialEq, Eq)]
pub struct VoronoiTessellation {
    /// The generator points, one cell each.
    pub generators: Vec<Position3>,
}

/// Whether a sequence of edges holds one with the given identifier.
pub open spec fn spec_contains_edge(s: Seq<EdgeConcept>, id: RelationshipId) -> bool {
    exists|i: int| 0 <= i < s.len() && (#[trigger] s[i]).id == id
}

/// The index of the edge with the given identifier; meaningful when present,
/// unique when identifiers are distinct.
pub open spec fn spec_edge_index(s: Seq<EdgeConcept>, id: RelationshipId) -> int {
    choose|i: int| 0 <= i < s.len() && (#[trigger] s[i]).id == id
}

/// Whether a sequence of hyperedges holds one with the given identifier.
pub open spec fn spec_contains_hyperedge(s: Seq<HyperEdgeConcept>, id: RelationshipId) -> bool {
    exists|i: int| 0 <= i < s.len() && (#[trigger] s[i]).id == id
}

/// The index of the hyperedge with the given identifier.
pub open spec fn spec_hyperedge_index(s: Seq<HyperEdgeConcept>, id: RelationshipId) -> int {
    choose|i: int| 0 <= i < s.len() && (#[trigger] s[i]).id == id
}

/// A conceptual space of relationships: edges and hyperedges indexed by
/// identifier, with a cached tessellation.
#[derive(Debug)]
pub struct RelationshipSpace {
    /// Unique identifier of this space.
    pub id: ConceptualSpaceId,
    /// Name of this relationship space.
    pub name: String,
    /// The topological space this space is associated with.
    pub topology_id: TopologicalSpaceId,
    /// The edge concepts of the space; treat through the space's methods so
    /// that identifiers stay unique.
    pub edges: Vec<EdgeConcept>,
    /// The hyperedge concepts of the space.
    pub hyperedges: Vec<HyperEdgeConcept>,
    /// The cached Voronoi tessellation, cleared on any structural change.
    pub tessellation: Option<VoronoiTessellation>,
    /// Number of structural mutations applied to the space.
    pub version: u64,
    /// Creation timestamp, milliseconds since the epoch.
    pub created_at: i64,
    /// Timestamp of the latest structural mutation.
    pub updated_at: i64,
}

impl RelationshipSpace {
    /// The edges of the space, as a sequence; its order carries no meaning.
    pub open spec fn edges_seq(self) -> Seq<EdgeConcept> {
        self.edges@
    }

    /// The hyperedges of the space, as a sequence.
    pub open spec fn hyperedges_seq(self) -> Seq<HyperEdgeConcept> {
        self.hyperedges@
    }

    /// The cached tessellation, if one is current.
    pub open spec fn tessellation_slot(self) -> Option<VoronoiTessellation> {
        self.tessellation
    }

    /// Well-formedness: identifiers are unique per kind, every member is
    /// well-formed, and the member count fits the machine.
    pub open spec fn wf(self) -> bool {
        &&& forall|i: int, j: int|
            0 <= i < j < self.edges_seq().len() ==> (#[trigger] self.edges_seq()[i]).id != (
            #[trigger] self.edges_seq()[j]).id
        &&& forall|i: int, j: int|
            0 <= i < j < self.hyperedges_seq().len() ==> (#[trigger] self.hyperedges_seq()[i]).id
                != (#[trigger] self.hyperedges_seq()[j]).id
        &&& forall|i: int| 0 <= i < self.edges_seq().len() ==> (#[trigger] self.edges_seq()[i]).wf()
        &&& forall|i: int|
            0 <= i < self.hyperedges_seq().len() ==> (#[trigger] self.hyperedges_seq()[i]).wf()
        &&& self.edges_seq().len() + self.hyperedges_seq().len() <= usize::MAX
    }

    /// The index of the edge with this identifier, if present.
    fn edge_pos(&self, id: &RelationshipId) -> (r: Option<usize>)
        ensures
            match r {
                Some(i) => i < self.edges_seq().len() && self.edges_seq()[i as int].id == *id,
                None => !spec_contains_edge(self.edges_seq(), *id),
            },
    {
        let mut i: usize = 0;
        while i < self.edges.len()
            invariant
                0 <= i <= self.edges@.len(),
                forall|j: int| 0 <= j < i ==> (#[trigger] self.edges@[j]).id != *id,
            decreases self.edges@.len() - i,
        {
            if self.edges[i].id == *id {
                return Some(i);
            }
            i = i + 1;
        }
        None
    }

    /// The index of the hyperedge with this identifier, if present.
    fn hyperedge_pos(&self, id: &RelationshipId) -> (r: Option<usize>)
        ensures
            match r {
                Some(i) => i < self.hyperedges_seq().len() && self.hyperedges_seq()[i as int].id
                    == *id,
                None => !spec_contains_hyperedge(self.hyperedges_seq(), *id),
            },
    {
        let mut i: usize = 0;
        while i < self.hyperedges.len()
            invariant
                0 <= i <= self.hyperedges@.len(),
                forall|j: int| 0 <= j < i ==> (#[trigger] self.hyperedges@[j]).id != *id,
            decreases self.hyperedges@.len() - i,
        {
            if self.hyperedges[i].id == *id {
                return Some(i);
            }
            i = i + 1;
        }
        None
    }

    /// Create a new, empty relationship space (wall clock; a reading before
    /// the epoch is treated as the epoch).
    pub fn new(name: String, topology_id: TopologicalSpaceId) -> (r: RelationshipSpace)
        ensures
            r.wf(),
            r.name == name,
            r.topology_id == topology_id,
            r.edges_seq() == Seq::<EdgeConcept>::empty(),
            r.hyperedges_seq() == Seq::<HyperEdgeConcept>::empty(),
            r.tessellation_slot() is None,
            r.version == 0,
            r.created_at == r.updated_at,
    {
        let t = now_millis();
        let t = if t < 0 {
            0
        } else {
            t
        };
        let r = RelationshipSpace {
            id: ConceptualSpaceId::new(),
            name,
            topology_id,
            edges: Vec::new(),
            hyperedges: Vec::new(),
            tessellation: None,
            version: 0,
            created_at: t,
            updated_at: t,
        };
        proof {
            assert(r.edges_seq() =~= Seq::<EdgeConcept>::empty());
            assert(r.hyperedges_seq() =~= Seq::<HyperEdgeConcept>::empty());
        }
        r
    }

    /// Add an edge to the space, replacing any edge with the same
    /// identifier. The tessellation cache is cleared and the space version
    /// bumped.
    pub fn add_edge(&mut self, edge: EdgeConcept, now: i64)
        requires
            old(self).wf(),
            edge.wf(),
            old(self).version < u64::MAX,
            old(self).edges_seq().len() + old(self).hyperedges_seq().len() < usize::MAX,
        ensures
            final(self).wf(),
            final(self).edges_seq() == (if spec_contains_edge(old(self).edges_seq(), edge.id) {
                old(self).edges_seq().update(spec_edge_index(old(self).edges_seq(), edge.id), edge)
            } else {
                old(self).edges_seq().push(edge)
            }),
            final(self).hyperedges_seq() == old(self).hyperedges_seq(),
            final(self).tessellation_slot() is None,
            final(self).version == old(self).version + 1,
            final(self).updated_at == now,
            final(self).id == old(self).id,
            final(self).name == old(self).name,
            final(self).topology_id == old(self).topology_id,
            final(self).created_at == old(self).created_at,
    {
        let ghost s = self.edges@;
        let found = self.edge_pos(&edge.id);
        proof {
            if found is Some {
                assert(spec_contains_edge(s, edge.id));
                let k = spec_edge_index(s, edge.id);
                assert(0 <= k < s.len() && s[k].id == edge.id);
                if k != found->Some_0 as int {
                    assert(false);
                }
            }
        }
        match found {
            Some(k) => {
                self.edges.remove(k);
                self.edges.insert(k, edge);
                proof {
                    assert(self.edges@ =~= s.update(k as int, self.edges@[k as int]));
                }
            },
            None => {
                self.edges.push(edge);
            },
        }
        self.tessellation = None;
        self.version = self.version + 1;
        self.updated_at = now;
    }

    /// Add a hyperedge to the space, replacing any hyperedge with the same
    /// identifier. The tessellation cache is cleared and the space version
    /// bumped.
    pub fn add_hyperedge(&mut self, hyperedge: HyperEdgeConcept, now: i64)
        requires
            old(self).wf(),
            hyperedge.wf(),
            old(self).version < u64::MAX,
            old(self).edges_seq().len() + old(self).hyperedges_seq().len() < usize::MAX,
        ensures
            final(self).wf(),
            final(self).hyperedges_seq() == (if spec_contains_hyperedge(
                old(self).hyperedges_seq(),
                hyperedge.id,
            ) {
                old(self).hyperedges_seq().update(
                    spec_hyperedge_index(old(self).hyperedges_seq(), hyperedge.id),
                    hyperedge,
                )
            } else {
                old(self).hyperedges_seq().push(hyperedge)
            }),
            final(self).edges_seq() == old(self).edges_seq(),
            final(self).tessellation_slot() is None,
            final(self).version == old(self).version + 1,
            final(self).updated_at == now,
            final(self).id == old(self).id,
            final(self).name == old(self).name,
            final(self).topology_id == old(self).topology_id,
            final(self).created_at == old(self).created_at,
    {
        let ghost s = self.hyperedges@;
        let found = self.hyperedge_pos(&hyperedge.id);
        proof {
            if found is Some {
                assert(spec_contains_hyperedge(s, hyperedge.id));
                let k = spec_hyperedge_index(s, hyperedge.id);
                assert(0 <= k < s.len() && s[k].id == hyperedge.id);
                if k != found->Some_0 as int {
                    assert(false);
                }
            }
        }
        match found {
            Some(k) => {
                self.hyperedges.remove(k);
                self.hyperedges.insert(k, hyperedge);
                proof {
                    assert(self.hyperedges@ =~= s.update(k as int, self.hyperedges@[k as int]));
                }
            },
            None => {
                self.hyperedges.push(hyperedge);
            },
        }
        self.tessellation = None;
        self.version = self.version + 1;
        self.updated_at = now;
    }

    /// Get an edge by identifier.
    pub fn get_edge(&self, id: &RelationshipId) -> (r: Option<&EdgeConcept>)
        requires
            self.wf(),
        ensures
            match r {
                Some(e) => spec_contains_edge(self.edges_seq(), *id) && *e == self.edges_seq()[spec_edge_index(self.edges_seq(), *id)],
                None => !spec_contains_edge(self.edges_seq(), *id),
            },
    {
        let ghost s = self.edges@;
        let found = self.edge_pos(id);
        proof {
            if found is Some {
                assert(spec_contains_edge(s, *id));
                let k = spec_edge_index(s, *id);
                assert(0 <= k < s.len() && s[k].id == *id);
                if k != found->Some_0 as int {
                    assert(false);
                }
            }
        }
        match found {
            Some(i) => Some(&self.edges[i]),
            None => None,
        }
    }

    /// Get a hyperedge by identifier.
    pub fn get_hyperedge(&self, id: &RelationshipId) -> (r: Option<&HyperEdgeConcept>)
        requires
            self.wf(),
        ensures
            match r {
                Some(e) => spec_contains_hyperedge(self.hyperedges_seq(), *id) && *e
                    == self.hyperedges_seq()[spec_hyperedge_index(self.hyperedges_seq(), *id)],
                None => !spec_contains_hyperedge(self.hyperedges_seq(), *id),
            },
    {
        let ghost s = self.hyperedges@;
        let found = self.hyperedge_pos(id);
        proof {
            if found is Some {
                assert(spec_contains_hyperedge(s, *id));
                let k = spec_hyperedge_index(s, *id);
                assert(0 <= k < s.len() && s[k].id == *id);
                if k != found->Some_0 as int {
                    assert(false);
                }
            }
        }
        match found {
            Some(i) => Some(&self.hyperedges[i]),
            None => None,
        }
    }

    /// The total number of relationships in the space.
    pub fn relationship_count(&self) -> (r: usize)
        requires
            self.wf(),
        ensures
            r == self.edges_seq().len() + self.hyperedges_seq().len(),
    {
        self.edges.len() + self.hyperedges.len()
    }

    /// Find the edges whose quality point at the given instant lies within
    /// `max_distance` (milli-units, rounded down) of a point. The order of
    /// the result carries no meaning.
    pub fn find_similar_edges(&self, point: &QualityPoint, max_distance: u32, now: i64) -> (r: Vec<
        &EdgeConcept,
    >)
        requires
            self.wf(),
            point.wf(),
        ensures
            r@.map_values(|e: &EdgeConcept| *e) == self.edges_seq().filter(
                |e: EdgeConcept|
                    sqrt_floor(
                        spec_dist_sq(e.quality.spec_quality_point_at(now), *point),
                    ) <= max_distance,
            ),
    {
        let mut out: Vec<&EdgeConcept> = Vec::new();
        let mut i: usize = 0;
        proof {
            reveal(Seq::filter);
            assert(out@.map_values(|e: &EdgeConcept| *e) =~= self.edges@.subrange(0, 0).filter(
                |e: EdgeConcept|
                    sqrt_floor(
                        spec_dist_sq(e.quality.spec_quality_point_at(now), *point),
                    ) <= max_distance,
            ));
        }
        while i < self.edges.len()
            invariant
                0 <= i <= self.edges@.len(),
                self.wf(),
                point.wf(),
                out@.map_values(|e: &EdgeConcept| *e) == self.edges@.subrange(0, i as int).filter(
                    |e: EdgeConcept|
                        sqrt_floor(
                            spec_dist_sq(e.quality.spec_quality_point_at(now), *point),
                        ) <= max_distance,
                ),
            decreases self.edges@.len() - i,
        {
            proof {
                reveal(Seq::filter);
                let s1 = self.edges@.subrange(0, i as int + 1);
                assert(s1.drop_last() =~= self.edges@.subrange(0, i as int));
                assert(s1.last() == self.edges@[i as int]);
            }
            let p = self.edges[i].quality_point_at(now);
            let d = p.distance(point);
            if d <= max_distance {
                out.push(&self.edges[i]);
                proof {
                    assert(out@.map_values(|e: &EdgeConcept| *e) =~= self.edges@.subrange(
                        0,
                        i as int + 1,
                    ).filter(
                        |e: EdgeConcept|
                            sqrt_floor(
                                spec_dist_sq(e.quality.spec_quality_point_at(now), *point),
                            ) <= max_distance,
                    ));
                }
            } else {
                proof {
                    assert(out@.map_values(|e: &EdgeConcept| *e) =~= self.edges@.subrange(
                        0,
                        i as int + 1,
                    ).filter(
                        |e: EdgeConcept|
                            sqrt_floor(
                                spec_dist_sq(e.quality.spec_quality_point_at(now), *point),
                            ) <= max_distance,
                    ));
                }
            }
            i = i + 1;
        }
        proof {
            assert(self.edges@.subrange(0, self.edges@.len() as int) =~= self.edges@);
        }
        out
    }

    /// The edges that are active at the given instant. The order of the
    /// result carries no meaning.
    pub fn active_edges(&self, now: i64) -> (r: Vec<&EdgeConcept>)
        requires
            self.wf(),
        ensures
            r@.map_values(|e: &EdgeConcept| *e) == self.edges_seq().filter(
                |e: EdgeConcept| e.spec_active_at(now),
            ),
    {
        let mut out: Vec<&EdgeConcept> = Vec::new();
        let mut i: usize = 0;
        proof {
            reveal(Seq::filter);
            assert(out@.map_values(|e: &EdgeConcept| *e) =~= self.edges@.subrange(0, 0).filter(
                |e: EdgeConcept| e.spec_active_at(now),
            ));
        }
        while i < self.edges.len()
            invariant
                0 <= i <= self.edges@.len(),
                out@.map_values(|e: &EdgeConcept| *e) == self.edges@.subrange(0, i as int).filter(
                    |e: EdgeConcept| e.spec_active_at(now),
                ),
            decreases self.edges@.len() - i,
        {
            proof {
                reveal(Seq::filter);
                let s1 = self.edges@.subrange(0, i as int + 1);
                assert(s1.drop_last() =~= self.edges@.subrange(0, i as int));
                assert(s1.last() == self.edges@[i as int]);
            }
            if self.edges[i].is_active_at(now) {
                out.push(&self.edges[i]);
            }
            proof {
                assert(out@.map_values(|e: &EdgeConcept| *e) =~= self.edges@.subrange(
                    0,
                    i as int + 1,
                ).filter(|e: EdgeConcept| e.spec_active_at(now)));
            }
            i = i + 1;
        }
        proof {
            assert(self.edges@.subrange(0, self.edges@.len() as int) =~= self.edges@);
        }
        out
    }

    /// The hyperedges that are active at the given instant. The order of the
    /// result carries no meaning.
    pub fn active_hyperedges(&self, now: i64) -> (r: Vec<&HyperEdgeConcept>)
        requires
            self.wf(),
        ensures
            r@.map_values(|e: &HyperEdgeConcept| *e) == self.hyperedges_seq().filter(
                |e: HyperEdgeConcept| e.spec_active_at(now),
            ),
    {
        let mut out: Vec<&HyperEdgeConcept> = Vec::new();
        let mut i: usize = 0;
        proof {
            reveal(Seq::filter);
            assert(out@.map_values(|e: &HyperEdgeConcept| *e) =~= self.hyperedges@.subrange(
                0,
                0,
            ).filter(|e: HyperEdgeConcept| e.spec_active_at(now)));
        }
        while i < self.hyperedges.len()
            invariant
                0 <= i <= self.hyperedges@.len(),
                out@.map_values(|e: &HyperEdgeConcept| *e) == self.hyperedges@.subrange(
                    0,
                    i as int,
                ).filter(|e: HyperEdgeConcept| e.spec_active_at(now)),
            decreases self.hyperedges@.len() - i,
        {
            proof {
                reveal(Seq::filter);
                let s1 = self.hyperedges@.subrange(0, i as int + 1);
                assert(s1.drop_last() =~= self.hyperedges@.subrange(0, i as int));
                assert(s1.last() == self.hyperedges@[i as int]);
            }
            if self.hyperedges[i].is_active_at(now) {
                out.push(&self.hyperedges[i]);
            }
            proof {
                assert(out@.map_values(|e: &HyperEdgeConcept| *e) =~= self.hyperedges@.subrange(
                    0,
                    i as int + 1,
                ).filter(|e: HyperEdgeConcept| e.spec_active_at(now)));
            }
            i = i + 1;
        }
        proof {
            assert(self.hyperedges@.subrange(0, self.hyperedges@.len() as int)
                =~= self.hyperedges@);
        }
        out
    }

    /// The cached tessellation, or `None` when a structural change has
    /// invalidated it.
    pub fn tessellation(&self) -> (r: Option<&VoronoiTessellation>)
        ensures
            match r {
                Some(t) => self.tessellation_slot() == Some(*t),
                None => self.tessellation_slot() is None,
            },
    {
        match &self.tessellation {
            Some(t) => Some(t),
            None => None,
        }
    }

    /// Store a tessellation computed by the external tessellator. Nothing
    /// else changes.
    pub fn set_tessellation(&mut self, t: VoronoiTessellation)
        requires
            old(self).wf(),
        ensures
            final(self).wf(),
            final(self).tessellation_slot() == Some(t),
            final(self).edges_seq() == old(self).edges_seq(),
            final(self).hyperedges_seq() == old(self).hyperedges_seq(),
            final(self).version == old(self).version,
            final(self).id == old(self).id,
            final(self).name == old(self).name,
            final(self).topology_id == old(self).topology_id,
            final(self).created_at == old(self).created_at,
            final(self).updated_at == old(self).updated_at,
    {
        self.tessellation = Some(t);
    }
}

} // verus!
