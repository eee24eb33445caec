//! The fixed cube model: eight unit-cube vertices and the twelve edges
//! that connect them, immutable for the life of the viewer.

use vstd::prelude::*;

verus! {

/// A corner of the cube. Every coordinate is -1 or 1, so the eight
/// vertices form a cube of side two centered at the origin; the host
/// converts them to its own scalar type before rotating them.
#[derive(Clone, Copy, PartialEq, Eq, Structural, Debug)]
pub struct Vertex {
    pub x: i8,
    pub y: i8,
    pub z: i8,
}

/// An edge of the cube, as an unordered pair of indices into the vertex
/// list.
#[derive(Clone, Copy, PartialEq, Eq, Structural, Debug)]
pub struct Edge {
    pub a: usize,
    pub b: usize,
}

/// The eight cube vertices, in their fixed order: the front face
/// (z = -1) counterclockwise from the bottom-left corner, then the back
/// face (z = 1) in the same order.
pub open spec fn cube_vertices() -> Seq<Vertex> {
    seq![
        Vertex { x: -1i8, y: -1i8, z: -1i8 },
        Vertex { x: 1i8, y: -1i8, z: -1i8 },
        Vertex { x: 1i8, y: 1i8, z: -1i8 },
        Vertex { x: -1i8, y: 1i8, z: -1i8 },
        Vertex { x: -1i8, y: -1i8, z: 1i8 },
        Vertex { x: 1i8, y: -1i8, z: 1i8 },
        Vertex { x: 1i8, y: 1i8, z: 1i8 },
        Vertex { x: -1i8, y: 1i8, z: 1i8 },
    ]
}

/// The twelve cube edges, in their fixed order: the four front-face
/// edges, the four back-face edges, then the four edges connecting the
/// two faces.
pub open spec fn cube_edges() -> Seq<Edge> {
    seq![
        Edge { a: 0, b: 1 },
        Edge { a: 1, b: 2 },
        Edge { a: 2, b: 3 },
        Edge { a: 3, b: 0 },
        Edge { a: 4, b: 5 },
        Edge { a: 5, b: 6 },
        Edge { a: 6, b: 7 },
        Edge { a: 7, b: 4 },
        Edge { a: 0, b: 4 },
        Edge { a: 1, b: 5 },
        Edge { a: 2, b: 6 },
        Edge { a: 3, b: 7 },
    ]
}

/// Every coordinate of a unit-cube corner is -1 or 1.
pub open spec fn is_unit_corner(v: Vertex) -> bool {
    (v.x == -1 || v.x == 1) && (v.y == -1 || v.y == 1) && (v.z == -1 || v.z == 1)
}

/// An edge joins two distinct vertices of the eight-vertex list.
pub open spec fn edge_in_bounds(e: Edge) -> bool {
    e.a < 8 && e.b < 8 && e.a != e.b
}

/// Whether edge `e` has vertex index `v` as one of its endpoints.
pub open spec fn edge_touches(e: Edge, v: int) -> bool {
    e.a == v || e.b == v
}

/// Vertex index `v` is an endpoint of at least three distinct edges of
/// the edge list.
pub open spec fn vertex_in_three_edges(v: int) -> bool {
    exists|j1: int, j2: int, j3: int|
        #![trigger edge_touches(cube_edges()[j1], v), edge_touches(cube_edges()[j2], v), edge_touches(cube_edges()[j3], v)]
        0 <= j1 < j2 < j3 < 12 && edge_touches(cube_edges()[j1], v) && edge_touches(
            cube_edges()[j2],
            v,
        ) && edge_touches(cube_edges()[j3], v)
}

/// The cube model: the vertex and edge lists, built once and never
/// mutated afterwards.
#[derive(Clone, Copy, PartialEq, Eq, Debug)]
pub struct Cube {
    pub vertices: [Vertex; 8],
    pub edges: [Edge; 12],
}

impl Cube {
    /// A well-formed cube holds exactly the fixed vertex and edge lists.
    pub open spec fn wf(self) -> bool {
        self.vertices@ == cube_vertices() && self.edges@ == cube_edges()
    }

    /// Builds the cube model.
    pub fn new() -> (c: Cube)
        ensures
            c.wf(),
    {
        let vertices: [Vertex; 8] = [
            Vertex { x: -1, y: -1, z: -1 },
            Vertex { x: 1, y: -1, z: -1 },
            Vertex { x: 1, y: 1, z: -1 },
            Vertex { x: -1, y: 1, z: -1 },
            Vertex { x: -1, y: -1, z: 1 },
            Vertex { x: 1, y: -1, z: 1 },
            Vertex { x: 1, y: 1, z: 1 },
            Vertex { x: -1, y: 1, z: 1 },
        ];
        let edges: [Edge; 12] = [
            Edge { a: 0, b: 1 },
            Edge { a: 1, b: 2 },
            Edge { a: 2, b: 3 },
            Edge { a: 3, b: 0 },
            Edge { a: 4, b: 5 },
            Edge { a: 5, b: 6 },
            Edge { a: 6, b: 7 },
            Edge { a: 7, b: 4 },
            Edge { a: 0, b: 4 },
            Edge { a: 1, b: 5 },
            Edge { a: 2, b: 6 },
            Edge { a: 3, b: 7 },
        ];
        let c = Cube { vertices, edges };
        proof {
            assert(c.vertices@ =~= cube_vertices());
            assert(c.edges@ =~= cube_edges());
        }
        c
    }

    /// The ordered vertex list.
    pub fn vertex_list(&self) -> (r: &[Vertex; 8])
        requires
            self.wf(),
        ensures
            r@ == cube_vertices(),
    {
        &self.vertices
    }

    /// The ordered edge list; every index it holds is a valid vertex
    /// index, so the endpoints of each edge may be looked up without
    /// further checks.
    pub fn edge_list(&self) -> (r: &[Edge; 12])
        requires
            self.wf(),
        ensures
            r@ == cube_edges(),
            forall|j: int| 0 <= j < 12 ==> edge_in_bounds(#[trigger] r@[j]),
    {
        proof {
            lemma_cube_well_formed();
        }
        &self.edges
    }
}

/// Law: the cube model is well formed. It has exactly eight vertices,
/// each with every coordinate -1 or 1; exactly twelve edges, each
/// joining two distinct in-range vertex indices; and every vertex index
/// appears in at least three edges, giving the connectivity of a cube.
pub proof fn lemma_cube_well_formed()
    ensures
        cube_vertices().len() == 8,
        forall|i: int| 0 <= i < 8 ==> is_unit_corner(#[trigger] cube_vertices()[i]),
        cube_edges().len() == 12,
        forall|j: int| 0 <= j < 12 ==> edge_in_bounds(#[trigger] cube_edges()[j]),
        forall|v: int| 0 <= v < 8 ==> #[trigger] vertex_in_three_edges(v),
{
    assert forall|v: int| 0 <= v < 8 implies #[trigger] vertex_in_three_edges(v) by {
        let e = cube_edges();
        if v == 0 {
            assert(edge_touches(e[0], v) && edge_touches(e[3], v) && edge_touches(e[8], v));
        } else if v == 1 {
            assert(edge_touches(e[0], v) && edge_touches(e[1], v) && edge_touches(e[9], v));
        } else if v == 2 {
            assert(edge_touches(e[1], v) && edge_touches(e[2], v) && edge_touches(e[10], v));
        } else if v == 3 {
            assert(edge_touches(e[2], v) && edge_touches(e[3], v) && edge_touches(e[11], v));
        } else if v == 4 {
            assert(edge_touches(e[4], v) && edge_touches(e[7], v) && edge_touches(e[8], v));
        } else if v == 5 {
            assert(edge_touches(e[4], v) && edge_touches(e[5], v) && edge_touches(e[9], v));
        } else if v == 6 {
            assert(edge_touches(e[5], v) && edge_touches(e[6], v) && edge_touches(e[10], v));
        } else {
            assert(edge_touches(e[6], v) && edge_touches(e[7], v) && edge_touches(e[11], v));
        }
    }
}

} // verus!
