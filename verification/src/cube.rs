use vstd::prelude::*;

use crate::bytes::{u32s_as_bytes, words_bytes};

verus! {

/// A cube mesh: eight corner positions, one colour per corner, and an index
/// buffer of twelve triangles (three indices each).
///
/// The mesh is generic in the scalar type of its coordinates. The library
/// builds it with `i32` scalars counted in tenths (a coordinate of `5` is
/// `0.5`, a colour channel of `3` is `0.3`), which stands for the floating
/// point values that a renderer uploads.
pub struct Cube<T> {
    pub positions: [[T; 3]; 8],
    pub indices: [u32; 36],
    pub colors: [[T; 3]; 8],
}

/// Scalars per unit in the integer representation of the cube.
pub const TENTHS_PER_UNIT: i32 = 10;

/// Half the edge of the unit cube, in tenths.
pub const HALF_EDGE: i32 = 5;

/// The corner positions of the unit cube centred on the origin, in tenths.
pub open spec fn unit_positions() -> Seq<Seq<i32>> {
    seq![
        seq![-5i32, -5i32, 5i32],
        seq![5i32, -5i32, 5i32],
        seq![5i32, 5i32, 5i32],
        seq![-5i32, 5i32, 5i32],
        seq![5i32, -5i32, -5i32],
        seq![5i32, 5i32, -5i32],
        seq![-5i32, -5i32, -5i32],
        seq![-5i32, 5i32, -5i32],
    ]
}

/// The index buffer of the unit cube: two triangles per face.
pub open spec fn unit_indices() -> Seq<u32> {
    seq![
        0u32, 1, 2, 0, 2, 3,
        1, 4, 5, 1, 5, 2,
        3, 2, 5, 3, 5, 7,
        6, 4, 1, 6, 1, 0,
        4, 6, 7, 4, 7, 5,
        6, 0, 3, 6, 3, 7,
    ]
}

/// The corner colours of the unit cube, in tenths of full intensity.
pub open spec fn unit_colors() -> Seq<Seq<i32>> {
    seq![
        seq![10i32, 0i32, 0i32],
        seq![10i32, 0i32, 0i32],
        seq![0i32, 3i32, 6i32],
        seq![3i32, 3i32, 3i32],
        seq![0i32, 10i32, 0i32],
        seq![0i32, 10i32, 0i32],
        seq![0i32, 10i32, 0i32],
        seq![0i32, 10i32, 0i32],
    ]
}

/// The rows of an array of three-component vectors, as sequences.
pub open spec fn rows<T, const N: usize>(a: [[T; 3]; N]) -> Seq<Seq<T>> {
    a@.map_values(|r: [T; 3]| r@)
}

impl<T> Cube<T> {
    /// Index of corner `j` (0, 1 or 2) of triangle `t`.
    pub open spec fn corner(self, t: int, j: int) -> int {
        self.indices[3 * t + j] as int
    }

    /// Every index names one of the eight corners.
    pub open spec fn indices_in_range(self) -> bool {
        forall|k: int| 0 <= k < 36 ==> #[trigger] self.indices[k] < 8
    }
}

/// The dot product of `p0` with the right-handed normal `(p1 - p0) x (p2 - p0)`
/// of the triangle `p0 p1 p2`: positive exactly when the triangle is wound
/// counter-clockwise as seen from the side away from the origin.
pub open spec fn outwardness(p0: (int, int, int), p1: (int, int, int), p2: (int, int, int)) -> int {
    ((p1.1 - p0.1) * (p2.2 - p0.2) - (p1.2 - p0.2) * (p2.1 - p0.1)) * p0.0 + ((p1.2 - p0.2) * (
    p2.0 - p0.0) - (p1.0 - p0.0) * (p2.2 - p0.2)) * p0.1 + ((p1.0 - p0.0) * (p2.1 - p0.1) - (p1.1
        - p0.1) * (p2.0 - p0.0)) * p0.2
}

impl Cube<i32> {
    /// Corner `v` as a point.
    pub open spec fn point(self, v: int) -> (int, int, int) {
        (self.positions[v][0] as int, self.positions[v][1] as int, self.positions[v][2] as int)
    }

    /// Corner `j` of triangle `t` as a point.
    pub open spec fn tri_point(self, t: int, j: int) -> (int, int, int) {
        self.point(self.corner(t, j))
    }

    /// Triangle `t` is wound counter-clockwise when seen from outside a body
    /// that contains the origin: its right-handed normal points away from it.
    pub open spec fn faces_outward(self, t: int) -> bool {
        outwardness(self.tri_point(t, 0), self.tri_point(t, 1), self.tri_point(t, 2)) > 0
    }

    /// The three corners of triangle `t` share their coordinate on axis `a`.
    pub open spec fn tri_on_plane(self, t: int, a: int) -> bool {
        &&& self.positions[self.corner(t, 0)][a] == self.positions[self.corner(t, 1)][a]
        &&& self.positions[self.corner(t, 0)][a] == self.positions[self.corner(t, 2)][a]
    }

    /// Triangle `t` lies in a plane normal to one of the axes.
    pub open spec fn tri_axis_aligned(self, t: int) -> bool {
        exists|a: int| 0 <= a < 3 && #[trigger] self.tri_on_plane(t, a)
    }

    /// Every triangle lies in a plane normal to one of the axes.
    pub open spec fn triangles_axis_aligned(self) -> bool {
        forall|t: int| 0 <= t < 12 ==> #[trigger] self.tri_axis_aligned(t)
    }

    /// Triangle `t` has corner `v`.
    pub open spec fn tri_has_corner(self, t: int, v: int) -> bool {
        self.corner(t, 0) == v || self.corner(t, 1) == v || self.corner(t, 2) == v
    }

    /// Some triangle on the plane through corner `v` normal to axis `a` has
    /// `v` as a corner.
    pub open spec fn corner_drawn_on(self, v: int, a: int) -> bool {
        exists|t: int|
            0 <= t < 12 && #[trigger] self.tri_on_plane(t, a) && #[trigger] self.tri_has_corner(t, v)
    }

    /// Each corner is a vertex of some triangle on each of the three faces
    /// that meet at it: no face of the cube is left undrawn.
    pub open spec fn faces_covered(self) -> bool {
        forall|v: int, a: int| 0 <= v < 8 && 0 <= a < 3 ==> #[trigger] self.corner_drawn_on(v, a)
    }

    /// All triangles are wound counter-clockwise seen from outside.
    pub open spec fn all_faces_outward(self) -> bool {
        forall|t: int| 0 <= t < 12 ==> #[trigger] self.faces_outward(t)
    }

    /// Every corner lies at plus or minus half an edge on every axis, and no
    /// two corners coincide: the eight corners are those of the unit cube.
    pub open spec fn corners_of_unit_cube(self) -> bool {
        &&& forall|v: int, a: int|
            0 <= v < 8 && 0 <= a < 3 ==> (#[trigger] self.positions[v][a] == HALF_EDGE
                || self.positions[v][a] == -HALF_EDGE)
        &&& forall|v: int, w: int|
            #![trigger self.positions[v], self.positions[w]]
            0 <= v < 8 && 0 <= w < 8 && v != w ==> self.positions[v] != self.positions[w]
    }
}

/// Full red, in tenths of full intensity.
pub open spec fn red() -> Seq<i32> {
    seq![10i32, 0i32, 0i32]
}

/// Full green, in tenths of full intensity.
pub open spec fn green() -> Seq<i32> {
    seq![0i32, 10i32, 0i32]
}

/// The colour scheme of the cube by where a corner sits: the whole back face
/// (z < 0) is green; on the front face the bottom edge (y < 0) is red, the
/// top-right corner is a blue-green `(0.0, 0.3, 0.6)` and the top-left
/// corner is grey `(0.3, 0.3, 0.3)`.
pub open spec fn color_at(p: (int, int, int)) -> Seq<i32> {
    if p.2 < 0 {
        green()
    } else if p.1 < 0 {
        red()
    } else if p.0 > 0 {
        seq![0i32, 3i32, 6i32]
    } else {
        seq![3i32, 3i32, 3i32]
    }
}

impl Cube<i32> {
    /// Each corner has the colour that the scheme gives its position.
    pub open spec fn colored_by_position(self) -> bool {
        forall|v: int| 0 <= v < 8 ==> #[trigger] self.colors[v]@ == color_at(self.point(v))
    }

    /// Every corner of the back face (z < 0) is green.
    pub open spec fn back_face_green(self) -> bool {
        forall|v: int| 0 <= v < 8 && self.point(v).2 < 0 ==> #[trigger] self.colors[v]@ == green()
    }

    /// Both corners of the front face's bottom edge (z > 0, y < 0) are red.
    pub open spec fn front_bottom_edge_red(self) -> bool {
        forall|v: int|
            0 <= v < 8 && self.point(v).2 > 0 && self.point(v).1 < 0 ==> #[trigger] self.colors[v]@
                == red()
    }
}

/// The unit cube's mesh is a closed, outward-facing surface over the eight
/// corners of the cube.
proof fn lemma_unit_cube_shape(cube: Cube<i32>)
    requires
        rows(cube.positions) == unit_positions(),
        cube.indices@ == unit_indices(),
        rows(cube.colors) == unit_colors(),
    ensures
        cube.indices_in_range(),
        cube.colored_by_position(),
        cube.back_face_green(),
        cube.front_bottom_edge_red(),
        cube.corners_of_unit_cube(),
        cube.triangles_axis_aligned(),
        cube.faces_covered(),
        cube.all_faces_outward(),
{
    assert(cube.point(0) == (-5int, -5int, 5int));
    assert(cube.point(1) == (5int, -5int, 5int));
    assert(cube.point(2) == (5int, 5int, 5int));
    assert(cube.point(3) == (-5int, 5int, 5int));
    assert(cube.point(4) == (5int, -5int, -5int));
    assert(cube.point(5) == (5int, 5int, -5int));
    assert(cube.point(6) == (-5int, -5int, -5int));
    assert(cube.point(7) == (-5int, 5int, -5int));
    assert forall|v: int| 0 <= v < 8 implies #[trigger] cube.colors[v]@ == color_at(cube.point(v)) by {
        assert(rows(cube.colors)[v] == cube.colors[v]@);
        assert(v == 0 || v == 1 || v == 2 || v == 3 || v == 4 || v == 5 || v == 6 || v == 7);
    }
    assert(cube.faces_outward(0)) by {
        assert(outwardness((-5int, -5int, 5int), (5int, -5int, 5int), (5int, 5int, 5int)) > 0) by (nonlinear_arith);
    }
    assert(cube.faces_outward(1)) by {
        assert(outwardness((-5int, -5int, 5int), (5int, 5int, 5int), (-5int, 5int, 5int)) > 0) by (nonlinear_arith);
    }
    assert(cube.faces_outward(2)) by {
        assert(outwardness((5int, -5int, 5int), (5int, -5int, -5int), (5int, 5int, -5int)) > 0) by (nonlinear_arith);
    }
    assert(cube.faces_outward(3)) by {
        assert(outwardness((5int, -5int, 5int), (5int, 5int, -5int), (5int, 5int, 5int)) > 0) by (nonlinear_arith);
    }
    assert(cube.faces_outward(4)) by {
        assert(outwardness((-5int, 5int, 5int), (5int, 5int, 5int), (5int, 5int, -5int)) > 0) by (nonlinear_arith);
    }
    assert(cube.faces_outward(5)) by {
        assert(outwardness((-5int, 5int, 5int), (5int, 5int, -5int), (-5int, 5int, -5int)) > 0) by (nonlinear_arith);
    }
    assert(cube.faces_outward(6)) by {
        assert(outwardness((-5int, -5int, -5int), (5int, -5int, -5int), (5int, -5int, 5int)) > 0) by (nonlinear_arith);
    }
    assert(cube.faces_outward(7)) by {
        assert(outwardness((-5int, -5int, -5int), (5int, -5int, 5int), (-5int, -5int, 5int)) > 0) by (nonlinear_arith);
    }
    assert(cube.faces_outward(8)) by {
        assert(outwardness((5int, -5int, -5int), (-5int, -5int, -5int), (-5int, 5int, -5int)) > 0) by (nonlinear_arith);
    }
    assert(cube.faces_outward(9)) by {
        assert(outwardness((5int, -5int, -5int), (-5int, 5int, -5int), (5int, 5int, -5int)) > 0) by (nonlinear_arith);
    }
    assert(cube.faces_outward(10)) by {
        assert(outwardness((-5int, -5int, -5int), (-5int, -5int, 5int), (-5int, 5int, 5int)) > 0) by (nonlinear_arith);
    }
    assert(cube.faces_outward(11)) by {
        assert(outwardness((-5int, -5int, -5int), (-5int, 5int, 5int), (-5int, 5int, -5int)) > 0) by (nonlinear_arith);
    }
    assert forall|t: int| 0 <= t < 12 implies #[trigger] cube.faces_outward(t) by {
        assert(t == 0 || t == 1 || t == 2 || t == 3 || t == 4 || t == 5 || t == 6 || t == 7 || t
            == 8 || t == 9 || t == 10 || t == 11);
    }
    assert(cube.tri_on_plane(0, 2));
    assert(cube.tri_on_plane(1, 2));
    assert(cube.tri_on_plane(2, 0));
    assert(cube.tri_on_plane(3, 0));
    assert(cube.tri_on_plane(4, 1));
    assert(cube.tri_on_plane(5, 1));
    assert(cube.tri_on_plane(6, 1));
    assert(cube.tri_on_plane(7, 1));
    assert(cube.tri_on_plane(8, 2));
    assert(cube.tri_on_plane(9, 2));
    assert(cube.tri_on_plane(10, 0));
    assert(cube.tri_on_plane(11, 0));
    assert forall|t: int| 0 <= t < 12 implies #[trigger] cube.tri_axis_aligned(t) by {
        assert(t == 0 || t == 1 || t == 2 || t == 3 || t == 4 || t == 5 || t == 6 || t == 7 || t
            == 8 || t == 9 || t == 10 || t == 11);
    }
    assert(cube.tri_has_corner(10, 0));
    assert(cube.tri_has_corner(7, 0));
    assert(cube.tri_has_corner(0, 0));
    assert(cube.tri_has_corner(2, 1));
    assert(cube.tri_has_corner(6, 1));
    assert(cube.tri_has_corner(0, 1));
    assert(cube.tri_has_corner(3, 2));
    assert(cube.tri_has_corner(4, 2));
    assert(cube.tri_has_corner(0, 2));
    assert(cube.tri_has_corner(10, 3));
    assert(cube.tri_has_corner(4, 3));
    assert(cube.tri_has_corner(1, 3));
    assert(cube.tri_has_corner(2, 4));
    assert(cube.tri_has_corner(6, 4));
    assert(cube.tri_has_corner(8, 4));
    assert(cube.tri_has_corner(2, 5));
    assert(cube.tri_has_corner(4, 5));
    assert(cube.tri_has_corner(9, 5));
    assert(cube.tri_has_corner(10, 6));
    assert(cube.tri_has_corner(6, 6));
    assert(cube.tri_has_corner(8, 6));
    assert(cube.tri_has_corner(11, 7));
    assert(cube.tri_has_corner(5, 7));
    assert(cube.tri_has_corner(8, 7));
    assert forall|v: int, a: int| 0 <= v < 8 && 0 <= a < 3 implies #[trigger] cube.corner_drawn_on(v, a) by {
        assert(v == 0 || v == 1 || v == 2 || v == 3 || v == 4 || v == 5 || v == 6 || v == 7);
        assert(a == 0 || a == 1 || a == 2);
    }
}

impl Cube<i32> {
    /// The unit cube centred on the origin, in tenths, with vertices v0..v7:
    ///
    /// ```text
    ///      *-(v7)---------* (v5)
    ///     /              /|
    ///    *--(v3)--------*(v2)
    ///    |    * (v6)    |  * (v4)
    ///    |              | /
    ///    *--------------*
    ///    (v0)           (v1)
    /// ```
    ///
    /// Triangles are wound counter-clockwise seen from outside; Z+ points
    /// towards the camera (right handed).
    pub fn new() -> (cube: Self)
        ensures
            rows(cube.positions) == unit_positions(),
            cube.indices@ == unit_indices(),
            rows(cube.colors) == unit_colors(),
            cube.indices_in_range(),
            cube.corners_of_unit_cube(),
            cube.triangles_axis_aligned(),
            cube.faces_covered(),
            cube.all_faces_outward(),
            cube.colored_by_position(),
            cube.back_face_green(),
            cube.front_bottom_edge_red(),
    {
        let cube = Cube {
            positions: [
                [-5, -5, 5],
                [5, -5, 5],
                [5, 5, 5],
                [-5, 5, 5],
                [5, -5, -5],
                [5, 5, -5],
                [-5, -5, -5],
                [-5, 5, -5],
            ],
            indices: [
                0, 1, 2, 0, 2, 3, 1, 4, 5, 1, 5, 2, 3, 2, 5, 3, 5, 7, 6, 4, 1, 6, 1, 0, 4, 6, 7, 4,
                7, 5, 6, 0, 3, 6, 3, 7,
            ],
            colors: [
                [10, 0, 0],
                [10, 0, 0],
                [0, 3, 6],
                [3, 3, 3],
                [0, 10, 0],
                [0, 10, 0],
                [0, 10, 0],
                [0, 10, 0],
            ],
        };
        assert(rows(cube.positions) =~~= unit_positions());
        assert(cube.indices@ =~= unit_indices());
        assert(rows(cube.colors) =~~= unit_colors());
        proof {
            lemma_unit_cube_shape(cube);
        }
        cube
    }
}

impl<T: Copy> Cube<T> {
    /// The vertex data as one array: the position of corner `i` at `2 * i`,
    /// followed by its colour at `2 * i + 1`.
    pub fn interleaved(&self) -> (result: [[T; 3]; 16])
        ensures
            forall|i: int|
                0 <= i < 8 ==> #[trigger] result[2 * i] == self.positions[i] && result[2 * i + 1]
                    == self.colors[i],
    {
        let mut result: [[T; 3]; 16] = [self.positions[0]; 16];
        let mut i: usize = 0;
        while i < 8
            invariant
                i <= 8,
                forall|j: int|
                    0 <= j < i ==> #[trigger] result[2 * j] == self.positions[j] && result[2 * j + 1]
                        == self.colors[j],
            decreases 8 - i,
        {
            result[i * 2] = self.positions[i];
            result[i * 2 + 1] = self.colors[i];
            i += 1;
        }
        result
    }
}

impl<T> Cube<T> {
    /// The contents of the index buffer: the memory of the indices as bytes,
    /// each index in the machine's byte order.
    pub fn index_bytes(&self) -> (bytes: &[u8])
        ensures
            bytes@ == words_bytes(self.indices@, false) || bytes@ == words_bytes(self.indices@, true),
    {
        u32s_as_bytes(self.indices.as_slice())
    }

    /// The number of indices to draw: three per triangle.
    pub fn index_count(&self) -> (n: u32)
        ensures
            n == 36,
    {
        self.indices.len() as u32
    }
}

} // verus!
