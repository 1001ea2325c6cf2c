//! The ground: a closed ring of fixed-point vertices. The vertex after the
//! last one is the first one again.

use crate::fixed::Point;
use vstd::arithmetic::div_mod::lemma_add_mod_noop;
use vstd::arithmetic::div_mod::lemma_mod_twice;
use vstd::arithmetic::div_mod::lemma_small_mod;
use vstd::prelude::*;

verus! {

/// A sequence of vertices that can close into a ring: it is not empty, and
/// every vertex lies in the world.
pub open spec fn is_ring(vertices: Seq<Point>) -> bool {
    &&& vertices.len() > 0
    &&& forall|i: int| 0 <= i < vertices.len() ==> (#[trigger] vertices[i]).in_world()
}

/// The vertex at `index`, counted round the ring.
pub open spec fn vertex_at(ring: Seq<Point>, index: int) -> Point {
    ring[index % ring.len() as int]
}

/// The ring that starts `by` vertices later and is otherwise the same.
pub open spec fn rotated(ring: Seq<Point>, by: nat) -> Seq<Point> {
    Seq::new(ring.len(), |i: int| ring[(i + by) % ring.len() as int])
}

/// Counting round the ring, a whole turn more names the same vertex.
pub proof fn lemma_vertex_at_periodic(ring: Seq<Point>, index: int)
    requires
        ring.len() > 0,
    ensures
        vertex_at(ring, index + ring.len()) == vertex_at(ring, index),
{
    let n = ring.len() as int;
    lemma_add_mod_noop(index, n, n);
    lemma_mod_twice(index, n);
    assert(n % n == 0) by (nonlinear_arith)
        requires
            n > 0,
    ;
}

/// The vertex after the last one is the first one.
pub proof fn lemma_vertex_after_last(ring: Seq<Point>)
    requires
        ring.len() > 0,
    ensures
        vertex_at(ring, ring.len() as int) == ring[0],
        vertex_at(ring, ring.len() - 1) == ring[ring.len() - 1],
{
    lemma_vertex_at_periodic(ring, 0);
    lemma_small_mod(0, ring.len());
    lemma_small_mod((ring.len() - 1) as nat, ring.len());
}

/// A vertex of the rotated ring is the vertex of the ring itself `by`
/// places later.
pub proof fn lemma_vertex_at_rotated(ring: Seq<Point>, by: nat, index: int)
    requires
        ring.len() > 0,
    ensures
        vertex_at(rotated(ring, by), index) == vertex_at(ring, index + by),
        is_ring(ring) ==> is_ring(rotated(ring, by)),
{
    let n = ring.len() as int;
    lemma_add_mod_noop(index, by as int, n);
    lemma_add_mod_noop(index % n, by as int, n);
    lemma_mod_twice(index, n);
    if is_ring(ring) {
        assert forall|i: int| 0 <= i < n implies (#[trigger] rotated(ring, by)[i]).in_world() by {
            assert(0 <= (i + by) % n < n);
        }
    }
}

/// The terrain of a world: the ring of its surface vertices.
#[derive(Debug)]
pub struct Terrain {
    vertices: Vec<Point>,
}

impl View for Terrain {
    type V = Seq<Point>;

    closed spec fn view(&self) -> Seq<Point> {
        self.vertices@
    }
}

impl Terrain {
    #[verifier::type_invariant]
    spec fn closes(self) -> bool {
        is_ring(self.vertices@)
    }

    /// Takes the vertices of a terrain in order. There is no terrain without
    /// a vertex, and none with a vertex outside the world.
    pub fn new(vertices: Vec<Point>) -> (terrain: Option<Terrain>)
        ensures
            terrain is Some <==> is_ring(vertices@),
            terrain matches Some(t) ==> t@ == vertices@,
    {
        if vertices.len() == 0 {
            return None;
        }
        let mut i: usize = 0;
        while i < vertices.len()
            invariant
                i <= vertices.len(),
                forall|j: int| 0 <= j < i ==> (#[trigger] vertices@[j]).in_world(),
            decreases vertices.len() - i,
        {
            if !vertices[i].is_in_world() {
                return None;
            }
            i += 1;
        }
        Some(Terrain { vertices })
    }

    /// The number of vertices, which is the number of segments too.
    pub fn len(&self) -> (n: usize)
        ensures
            n == self@.len(),
            n > 0,
    {
        proof {
            use_type_invariant(self);
        }
        self.vertices.len()
    }

    /// The vertex at `index`, counted round the ring.
    pub fn surface(&self, index: usize) -> (vertex: Point)
        ensures
            vertex == vertex_at(self@, index as int),
            vertex.in_world(),
            is_ring(self@),
    {
        proof {
            use_type_invariant(self);
        }
        self.vertices[index % self.vertices.len()]
    }

    /// The vertex that follows the one at `index`: for the last vertex, the
    /// first.
    pub fn surface_after(&self, index: usize) -> (vertex: Point)
        ensures
            vertex == vertex_at(self@, index + 1),
            vertex.in_world(),
            is_ring(self@),
    {
        proof {
            use_type_invariant(self);
            let n = self.vertices@.len() as int;
            lemma_add_mod_noop(index as int, 1, n);
            assert(1int % n == if n == 1 { 0int } else { 1int }) by (nonlinear_arith)
                requires
                    n >= 1,
            ;
            let here = index as int % n;
            if here + 1 == n {
                assert(n % n == 0) by (nonlinear_arith)
                    requires
                        n > 0,
                ;
                assert((index + 1) % n == 0);
            } else {
                lemma_small_mod((here + 1) as nat, n as nat);
            }
        }
        let n = self.vertices.len();
        let here = index % n;
        let next = if here + 1 == n { 0 } else { here + 1 };
        self.vertices[next]
    }
}

} // verus!
