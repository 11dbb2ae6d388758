//! The scene entities: vertex lists, 16-bit triangle index lists and a
//! model transform each. Coordinates and colors are stored doubled so the
//! half-unit corners stay integral: a stored value of 1 stands for one half.
//! The device-facing shell halves them when it fills the vertex buffers.

use vstd::prelude::*;
use crate::mat4::{Mat4, identity4_spec};
use crate::mat5::{Mat5, identity5_spec};

verus! {

/// A vertex in 4-space: a position and a color, in doubled units.
#[derive(Clone, Copy, Debug, PartialEq, Eq)]
pub struct Vertex {
    pub pos: [i64; 4],
    pub color: [i64; 3],
}

/// A vertex in 3-space, for the three-dimensional entities.
#[derive(Clone, Copy, Debug, PartialEq, Eq)]
pub struct Vertex3 {
    pub pos: [i64; 3],
    pub color: [i64; 3],
}

/// The 4-simplex: five vertices and ten triangles spanning every face.
pub struct Simplex {
    vertices: Vec<Vertex>,
    indices: Vec<u16>,
    transform: Mat5,
}

/// The vertex list of the simplex, in doubled units.
pub open spec fn simplex_vertices_spec() -> Seq<Vertex> {
    seq![
            Vertex { pos: [-1i64, -1i64, -1i64, -1i64], color: [2i64, 0i64, 0i64] },
            Vertex { pos: [1i64, -1i64, 1i64, -1i64], color: [0i64, 2i64, 0i64] },
            Vertex { pos: [-1i64, 1i64, 1i64, -1i64], color: [0i64, 0i64, 2i64] },
            Vertex { pos: [-1i64, 1i64, -1i64, 1i64], color: [2i64, 2i64, 2i64] },
            Vertex { pos: [1i64, -1i64, -1i64, 1i64], color: [2i64, 0i64, 0i64] }
    ]
}

/// The triangle index list of the simplex.
pub open spec fn simplex_indices_spec() -> Seq<u16> {
    seq![
            0u16, 1, 2, 0, 1, 3, 0, 2, 3, 1, 2, 3,
            0, 1, 4, 0, 2, 4, 0, 3, 4, 1, 2, 4,
            1, 3, 4, 2, 3, 4,
    ]
}

impl Simplex {
    pub closed spec fn vertices_view(&self) -> Seq<Vertex> {
        self.vertices@
    }

    pub closed spec fn indices_view(&self) -> Seq<u16> {
        self.indices@
    }

    pub closed spec fn transform_view(&self) -> Seq<int> {
        self.transform@
    }

    /// The entity with its authored geometry and the identity transform.
    pub fn new() -> (r: Simplex)
        ensures
            r.vertices_view() == simplex_vertices_spec(),
            r.indices_view() == simplex_indices_spec(),
            r.transform_view() == identity5_spec(),
    {
        let vertices: Vec<Vertex> = vec![
            Vertex { pos: [-1i64, -1i64, -1i64, -1i64], color: [2i64, 0i64, 0i64] },
            Vertex { pos: [1i64, -1i64, 1i64, -1i64], color: [0i64, 2i64, 0i64] },
            Vertex { pos: [-1i64, 1i64, 1i64, -1i64], color: [0i64, 0i64, 2i64] },
            Vertex { pos: [-1i64, 1i64, -1i64, 1i64], color: [2i64, 2i64, 2i64] },
            Vertex { pos: [1i64, -1i64, -1i64, 1i64], color: [2i64, 0i64, 0i64] },
        ];
        let indices: Vec<u16> = vec![
            0, 1, 2, 0, 1, 3, 0, 2, 3, 1, 2, 3,
            0, 1, 4, 0, 2, 4, 0, 3, 4, 1, 2, 4,
            1, 3, 4, 2, 3, 4,
        ];
        let transform = Mat5::identity();
        proof {
            assert(vertices@ =~= simplex_vertices_spec());
            assert(indices@ =~= simplex_indices_spec());
        }
        Simplex { vertices, indices, transform }
    }

    /// A copy of the vertex list.
    pub fn vertices(&self) -> (r: Vec<Vertex>)
        ensures
            r@ == self.vertices_view(),
    {
        self.vertices.clone()
    }

    /// A copy of the index list.
    pub fn indices(&self) -> (r: Vec<u16>)
        ensures
            r@ == self.indices_view(),
    {
        self.indices.clone()
    }

    /// The current model transform.
    pub fn transform(&self) -> (r: Mat5)
        ensures
            r@ == self.transform_view(),
    {
        self.transform
    }
}

/// The hypercube: sixteen vertices and the two triangles of each of the twenty-four square faces.
pub struct Hypercube {
    vertices: Vec<Vertex>,
    indices: Vec<u16>,
    transform: Mat5,
}

/// The vertex list of the hypercube, in doubled units.
pub open spec fn hypercube_vertices_spec() -> Seq<Vertex> {
    seq![
            Vertex { pos: [-1i64, -1i64, -1i64, -1i64], color: [2i64, 0i64, 0i64] },
            Vertex { pos: [-1i64, -1i64, -1i64, 1i64], color: [0i64, 2i64, 0i64] },
            Vertex { pos: [-1i64, -1i64, 1i64, -1i64], color: [0i64, 0i64, 2i64] },
            Vertex { pos: [-1i64, -1i64, 1i64, 1i64], color: [2i64, 2i64, 2i64] },
            Vertex { pos: [-1i64, 1i64, -1i64, -1i64], color: [2i64, 0i64, 0i64] },
            Vertex { pos: [-1i64, 1i64, -1i64, 1i64], color: [0i64, 2i64, 0i64] },
            Vertex { pos: [-1i64, 1i64, 1i64, -1i64], color: [0i64, 0i64, 2i64] },
            Vertex { pos: [-1i64, 1i64, 1i64, 1i64], color: [2i64, 2i64, 2i64] },
            Vertex { pos: [1i64, -1i64, -1i64, -1i64], color: [2i64, 0i64, 0i64] },
            Vertex { pos: [1i64, -1i64, -1i64, 1i64], color: [0i64, 2i64, 0i64] },
            Vertex { pos: [1i64, -1i64, 1i64, -1i64], color: [0i64, 0i64, 2i64] },
            Vertex { pos: [1i64, -1i64, 1i64, 1i64], color: [2i64, 2i64, 2i64] },
            Vertex { pos: [1i64, 1i64, -1i64, -1i64], color: [2i64, 0i64, 0i64] },
            Vertex { pos: [1i64, 1i64, -1i64, 1i64], color: [0i64, 2i64, 0i64] },
            Vertex { pos: [1i64, 1i64, 1i64, -1i64], color: [0i64, 0i64, 2i64] },
            Vertex { pos: [1i64, 1i64, 1i64, 1i64], color: [2i64, 2i64, 2i64] }
    ]
}

/// The triangle index list of the hypercube.
pub open spec fn hypercube_indices_spec() -> Seq<u16> {
    seq![
            0u16, 1, 2, 1, 2, 3, 4, 5, 6, 5, 6, 7,
            8, 9, 10, 9, 10, 11, 12, 13, 14, 13, 14, 15,
            0, 1, 4, 1, 4, 5, 2, 3, 6, 3, 6, 7,
            8, 9, 12, 9, 12, 13, 10, 11, 14, 11, 14, 15,
            0, 1, 8, 1, 8, 9, 2, 3, 10, 3, 10, 11,
            4, 5, 12, 5, 12, 13, 6, 7, 14, 7, 14, 15,
            0, 2, 4, 2, 4, 6, 1, 3, 5, 3, 5, 7,
            8, 10, 12, 10, 12, 14, 9, 11, 13, 11, 13, 15,
            0, 2, 8, 2, 8, 10, 1, 3, 9, 3, 9, 11,
            4, 6, 12, 6, 12, 14, 5, 7, 13, 7, 13, 15,
            0, 4, 8, 4, 8, 12, 1, 5, 9, 5, 9, 13,
            2, 6, 10, 6, 10, 14, 3, 7, 11, 7, 11, 15,
    ]
}

impl Hypercube {
    pub closed spec fn vertices_view(&self) -> Seq<Vertex> {
        self.vertices@
    }

    pub closed spec fn indices_view(&self) -> Seq<u16> {
        self.indices@
    }

    pub closed spec fn transform_view(&self) -> Seq<int> {
        self.transform@
    }

    /// The entity with its authored geometry and the identity transform.
    #[verifier::rlimit(100)]
    pub fn new() -> (r: Hypercube)
        ensures
            r.vertices_view() == hypercube_vertices_spec(),
            r.indices_view() == hypercube_indices_spec(),
            r.transform_view() == identity5_spec(),
    {
        let vertices: Vec<Vertex> = vec![
            Vertex { pos: [-1i64, -1i64, -1i64, -1i64], color: [2i64, 0i64, 0i64] },
            Vertex { pos: [-1i64, -1i64, -1i64, 1i64], color: [0i64, 2i64, 0i64] },
            Vertex { pos: [-1i64, -1i64, 1i64, -1i64], color: [0i64, 0i64, 2i64] },
            Vertex { pos: [-1i64, -1i64, 1i64, 1i64], color: [2i64, 2i64, 2i64] },
            Vertex { pos: [-1i64, 1i64, -1i64, -1i64], color: [2i64, 0i64, 0i64] },
            Vertex { pos: [-1i64, 1i64, -1i64, 1i64], color: [0i64, 2i64, 0i64] },
            Vertex { pos: [-1i64, 1i64, 1i64, -1i64], color: [0i64, 0i64, 2i64] },
            Vertex { pos: [-1i64, 1i64, 1i64, 1i64], color: [2i64, 2i64, 2i64] },
            Vertex { pos: [1i64, -1i64, -1i64, -1i64], color: [2i64, 0i64, 0i64] },
            Vertex { pos: [1i64, -1i64, -1i64, 1i64], color: [0i64, 2i64, 0i64] },
            Vertex { pos: [1i64, -1i64, 1i64, -1i64], color: [0i64, 0i64, 2i64] },
            Vertex { pos: [1i64, -1i64, 1i64, 1i64], color: [2i64, 2i64, 2i64] },
            Vertex { pos: [1i64, 1i64, -1i64, -1i64], color: [2i64, 0i64, 0i64] },
            Vertex { pos: [1i64, 1i64, -1i64, 1i64], color: [0i64, 2i64, 0i64] },
            Vertex { pos: [1i64, 1i64, 1i64, -1i64], color: [0i64, 0i64, 2i64] },
            Vertex { pos: [1i64, 1i64, 1i64, 1i64], color: [2i64, 2i64, 2i64] },
        ];
        let indices: Vec<u16> = vec![
            0, 1, 2, 1, 2, 3, 4, 5, 6, 5, 6, 7,
            8, 9, 10, 9, 10, 11, 12, 13, 14, 13, 14, 15,
            0, 1, 4, 1, 4, 5, 2, 3, 6, 3, 6, 7,
            8, 9, 12, 9, 12, 13, 10, 11, 14, 11, 14, 15,
            0, 1, 8, 1, 8, 9, 2, 3, 10, 3, 10, 11,
            4, 5, 12, 5, 12, 13, 6, 7, 14, 7, 14, 15,
            0, 2, 4, 2, 4, 6, 1, 3, 5, 3, 5, 7,
            8, 10, 12, 10, 12, 14, 9, 11, 13, 11, 13, 15,
            0, 2, 8, 2, 8, 10, 1, 3, 9, 3, 9, 11,
            4, 6, 12, 6, 12, 14, 5, 7, 13, 7, 13, 15,
            0, 4, 8, 4, 8, 12, 1, 5, 9, 5, 9, 13,
            2, 6, 10, 6, 10, 14, 3, 7, 11, 7, 11, 15,
        ];
        let transform = Mat5::identity();
        proof {
            assert(vertices@.len() == 16);
            assert forall|k: int| 0 <= k < 16 implies
                vertices@[k] == #[trigger] hypercube_vertices_spec()[k] by {
            }
            assert(vertices@ =~= hypercube_vertices_spec());
            assert(indices@.len() == 144);
            assert forall|k: int| 0 <= k < 144 implies
                indices@[k] == #[trigger] hypercube_indices_spec()[k] by {
            }
            assert(indices@ =~= hypercube_indices_spec());
        }
        Hypercube { vertices, indices, transform }
    }

    /// A copy of the vertex list.
    pub fn vertices(&self) -> (r: Vec<Vertex>)
        ensures
            r@ == self.vertices_view(),
    {
        self.vertices.clone()
    }

    /// A copy of the index list.
    pub fn indices(&self) -> (r: Vec<u16>)
        ensures
            r@ == self.indices_view(),
    {
        self.indices.clone()
    }

    /// The current model transform.
    pub fn transform(&self) -> (r: Mat5)
        ensures
            r@ == self.transform_view(),
    {
        self.transform
    }
}


/// The 4x4 rotation about the x axis with cosine `c` and sine `s`.
pub open spec fn rot_x4_spec(c: int, s: int) -> Seq<int> {
    seq![
        1, 0, 0, 0,
        0, c, -s, 0,
        0, s, c, 0,
        0, 0, 0, 1,
    ]
}

/// The cube: eight vertices and the two triangles of each of the six faces.
pub struct Cube {
    vertices: Vec<Vertex3>,
    indices: Vec<u16>,
    transform: Mat4,
}

/// The vertex list of the cube, in doubled units.
pub open spec fn cube_vertices_spec() -> Seq<Vertex3> {
    seq![
            Vertex3 { pos: [-1i64, -1i64, -1i64], color: [2i64, 0i64, 0i64] },
            Vertex3 { pos: [-1i64, -1i64, 1i64], color: [0i64, 2i64, 0i64] },
            Vertex3 { pos: [-1i64, 1i64, -1i64], color: [0i64, 0i64, 2i64] },
            Vertex3 { pos: [-1i64, 1i64, 1i64], color: [2i64, 2i64, 2i64] },
            Vertex3 { pos: [1i64, -1i64, -1i64], color: [2i64, 0i64, 0i64] },
            Vertex3 { pos: [1i64, -1i64, 1i64], color: [0i64, 2i64, 0i64] },
            Vertex3 { pos: [1i64, 1i64, -1i64], color: [0i64, 0i64, 2i64] },
            Vertex3 { pos: [1i64, 1i64, 1i64], color: [2i64, 2i64, 2i64] }
    ]
}

/// The triangle index list of the cube.
pub open spec fn cube_indices_spec() -> Seq<u16> {
    seq![
            1u16, 0, 2, 2, 3, 1, 4, 5, 6, 7, 6, 5,
            5, 4, 0, 0, 1, 5, 6, 7, 2, 3, 2, 7,
            2, 0, 4, 4, 6, 2, 1, 3, 5, 7, 5, 3,
    ]
}

impl Cube {
    pub closed spec fn vertices_view(&self) -> Seq<Vertex3> {
        self.vertices@
    }

    pub closed spec fn indices_view(&self) -> Seq<u16> {
        self.indices@
    }

    pub closed spec fn transform_view(&self) -> Seq<int> {
        self.transform@
    }

    /// The entity with its authored geometry and the identity transform.
    pub fn new() -> (r: Cube)
        ensures
            r.vertices_view() == cube_vertices_spec(),
            r.indices_view() == cube_indices_spec(),
            r.transform_view() == identity4_spec(),
    {
        let vertices: Vec<Vertex3> = vec![
            Vertex3 { pos: [-1i64, -1i64, -1i64], color: [2i64, 0i64, 0i64] },
            Vertex3 { pos: [-1i64, -1i64, 1i64], color: [0i64, 2i64, 0i64] },
            Vertex3 { pos: [-1i64, 1i64, -1i64], color: [0i64, 0i64, 2i64] },
            Vertex3 { pos: [-1i64, 1i64, 1i64], color: [2i64, 2i64, 2i64] },
            Vertex3 { pos: [1i64, -1i64, -1i64], color: [2i64, 0i64, 0i64] },
            Vertex3 { pos: [1i64, -1i64, 1i64], color: [0i64, 2i64, 0i64] },
            Vertex3 { pos: [1i64, 1i64, -1i64], color: [0i64, 0i64, 2i64] },
            Vertex3 { pos: [1i64, 1i64, 1i64], color: [2i64, 2i64, 2i64] },
        ];
        let indices: Vec<u16> = vec![
            1, 0, 2, 2, 3, 1, 4, 5, 6, 7, 6, 5,
            5, 4, 0, 0, 1, 5, 6, 7, 2, 3, 2, 7,
            2, 0, 4, 4, 6, 2, 1, 3, 5, 7, 5, 3,
        ];
        let transform = Mat4::identity();
        proof {
            assert(vertices@ =~= cube_vertices_spec());
            assert(indices@ =~= cube_indices_spec());
        }
        Cube { vertices, indices, transform }
    }

    /// A copy of the vertex list.
    pub fn vertices(&self) -> (r: Vec<Vertex3>)
        ensures
            r@ == self.vertices_view(),
    {
        self.vertices.clone()
    }

    /// A copy of the index list.
    pub fn indices(&self) -> (r: Vec<u16>)
        ensures
            r@ == self.indices_view(),
    {
        self.indices.clone()
    }

    /// The current model transform.
    pub fn transform(&self) -> (r: Mat4)
        ensures
            r@ == self.transform_view(),
    {
        self.transform
    }

    /// Replaces the model transform by the rotation about the x axis whose
    /// cosine and sine the animation clock supplies for the elapsed time.
    pub fn update(&mut self, c: i64, s: i64)
        requires
            i64::MIN < s,
        ensures
            final(self).transform_view() == rot_x4_spec(c as int, s as int),
            final(self).vertices_view() == old(self).vertices_view(),
            final(self).indices_view() == old(self).indices_view(),
    {
        let e: [i64; 16] = [
            1, 0, 0, 0,
            0, c, -s, 0,
            0, s, c, 0,
            0, 0, 0, 1,
        ];
        self.transform = Mat4 { e };
        proof {
            assert(self.transform@ =~= rot_x4_spec(c as int, s as int));
        }
    }
}

/// A single triangle in 3-space.
pub struct Triangle {
    vertices: Vec<Vertex3>,
    indices: Vec<u16>,
    transform: Mat4,
}

/// The vertex list of the triangle, in doubled units.
pub open spec fn triangle_vertices_spec() -> Seq<Vertex3> {
    seq![
            Vertex3 { pos: [0i64, -1i64, 0i64], color: [2i64, 0i64, 0i64] },
            Vertex3 { pos: [-1i64, 1i64, 0i64], color: [0i64, 2i64, 0i64] },
            Vertex3 { pos: [1i64, 1i64, 0i64], color: [0i64, 0i64, 2i64] }
    ]
}

/// The triangle index list of the triangle.
pub open spec fn triangle_indices_spec() -> Seq<u16> {
    seq![
            0u16, 1, 2,
    ]
}

impl Triangle {
    pub closed spec fn vertices_view(&self) -> Seq<Vertex3> {
        self.vertices@
    }

    pub closed spec fn indices_view(&self) -> Seq<u16> {
        self.indices@
    }

    pub closed spec fn transform_view(&self) -> Seq<int> {
        self.transform@
    }

    /// The entity with its authored geometry and the identity transform.
    pub fn new() -> (r: Triangle)
        ensures
            r.vertices_view() == triangle_vertices_spec(),
            r.indices_view() == triangle_indices_spec(),
            r.transform_view() == identity4_spec(),
    {
        let vertices: Vec<Vertex3> = vec![
            Vertex3 { pos: [0i64, -1i64, 0i64], color: [2i64, 0i64, 0i64] },
            Vertex3 { pos: [-1i64, 1i64, 0i64], color: [0i64, 2i64, 0i64] },
            Vertex3 { pos: [1i64, 1i64, 0i64], color: [0i64, 0i64, 2i64] },
        ];
        let indices: Vec<u16> = vec![
            0, 1, 2,
        ];
        let transform = Mat4::identity();
        proof {
            assert(vertices@ =~= triangle_vertices_spec());
            assert(indices@ =~= triangle_indices_spec());
        }
        Triangle { vertices, indices, transform }
    }

    /// A copy of the vertex list.
    pub fn vertices(&self) -> (r: Vec<Vertex3>)
        ensures
            r@ == self.vertices_view(),
    {
        self.vertices.clone()
    }

    /// A copy of the index list.
    pub fn indices(&self) -> (r: Vec<u16>)
        ensures
            r@ == self.indices_view(),
    {
        self.indices.clone()
    }

    /// The current model transform.
    pub fn transform(&self) -> (r: Mat4)
        ensures
            r@ == self.transform_view(),
    {
        self.transform
    }
}

} // verus!
