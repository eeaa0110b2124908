//! The cube's fixed geometry: 24 vertices (four per face, so that each face
//! carries its own normal and corner colours) and 36 indices (two triangles
//! per face). Faces come in the order front (+Z), back (-Z), top (+Y),
//! bottom (-Y), right (+X), left (-X).
//!
//! Values are held exactly as integers: a position coordinate in half units
//! (the cube spans -0.5 to 0.5, held as -1 to 1), a colour channel from 0 to
//! 255, and a normal component as -1, 0 or 1.
use vstd::prelude::*;

verus! {

pub const FACE_COUNT: usize = 6;

pub const VERTICES_PER_FACE: usize = 4;

pub const VERTEX_COUNT: usize = 24;

pub const INDEX_COUNT: usize = 36;

/// Corner positions of the 24 vertices, three coordinates each, in half
/// units.
pub open spec fn position_table() -> Seq<int> {
    seq![
        -1, -1, 1, 1, -1, 1, 1, 1, 1, -1, 1, 1,
        -1, -1, -1, -1, 1, -1, 1, 1, -1, 1, -1, -1,
        -1, 1, -1, -1, 1, 1, 1, 1, 1, 1, 1, -1,
        -1, -1, -1, 1, -1, -1, 1, -1, 1, -1, -1, 1,
        1, -1, -1, 1, 1, -1, 1, 1, 1, 1, -1, 1,
        -1, -1, -1, -1, -1, 1, -1, 1, 1, -1, 1, -1,
    ]
}

/// The four colours of a face's corners, red, green, blue and yellow, four
/// channels (RGBA) each.
pub open spec fn palette() -> Seq<u8> {
    seq![
        255u8, 0, 0, 255,
        0, 255, 0, 255,
        0, 0, 255, 255,
        255, 255, 0, 255,
    ]
}

/// Component `axis` of the outward unit normal of face `face`.
pub open spec fn face_normal(face: int, axis: int) -> int {
    let (x, y, z) = if face == 0 {
        (0int, 0int, 1int)
    } else if face == 1 {
        (0, 0, -1)
    } else if face == 2 {
        (0, 1, 0)
    } else if face == 3 {
        (0, -1, 0)
    } else if face == 4 {
        (1, 0, 0)
    } else {
        (-1, 0, 0)
    };
    if axis == 0 {
        x
    } else if axis == 1 {
        y
    } else {
        z
    }
}

/// Corner order within a face: the triangles (0, 1, 2) and (0, 2, 3).
pub open spec fn corner_of_triangles(k: int) -> int {
    if k == 0 || k == 3 {
        0
    } else if k == 1 {
        1
    } else if k == 4 {
        2
    } else if k == 2 {
        2
    } else {
        3
    }
}

/// The flat colour stream: the palette repeated over the six faces.
pub open spec fn color_stream() -> Seq<u8> {
    Seq::new(96, |i: int| palette()[i % 16])
}

/// The flat normal stream: each face's normal, once per corner.
pub open spec fn normal_stream() -> Seq<i8> {
    Seq::new(72, |i: int| face_normal(i / 12, i % 3) as i8)
}

/// The index stream: the corner pattern of each face, offset by four times
/// the face's number.
pub open spec fn index_stream() -> Seq<u16> {
    Seq::new(36, |i: int| (4 * (i / 6) + corner_of_triangles(i % 6)) as u16)
}

/// Component `c` of the normal stored for vertex `v`.
pub open spec fn vertex_normal(v: int, c: int) -> int {
    normal_stream()[3 * v + c] as int
}

/// Vertex `v`'s normal is a unit vector along one axis.
pub open spec fn unit_axis_normal(v: int) -> bool {
    let (x, y, z) = (vertex_normal(v, 0), vertex_normal(v, 1), vertex_normal(v, 2));
    &&& -1 <= x <= 1 && -1 <= y <= 1 && -1 <= z <= 1
    &&& x * x + y * y + z * z == 1
}

/// Vertex `v` lies on the face that its normal points out of: its position
/// (in half units) has component 1 along that normal.
pub open spec fn on_own_face(v: int) -> bool {
    vertex_normal(v, 0) * position_table()[3 * v] + vertex_normal(v, 1) * position_table()[3 * v
        + 1] + vertex_normal(v, 2) * position_table()[3 * v + 2] == 1
}

/// The cube's geometry is consistent: each stream holds 24 vertices, the 36
/// indices all name one of them, the four normals of a face are one and the
/// same axis-aligned unit vector, each vertex lies on the face whose normal
/// it carries, and the corner colours repeat every four vertices.
pub proof fn lemma_cube_geometry()
    ensures
        position_table().len() == 3 * VERTEX_COUNT,
        color_stream().len() == 4 * VERTEX_COUNT,
        normal_stream().len() == 3 * VERTEX_COUNT,
        index_stream().len() == INDEX_COUNT,
        INDEX_COUNT % 3 == 0,
        forall|i: int| 0 <= i < INDEX_COUNT ==> index_stream()[i] < VERTEX_COUNT,
        forall|v: int, c: int|
            0 <= v < VERTEX_COUNT && 0 <= c < 3 ==> #[trigger] vertex_normal(v, c) == vertex_normal(
                4 * (v / 4),
                c,
            ),
        forall|v: int| 0 <= v < VERTEX_COUNT ==> #[trigger] unit_axis_normal(v),
        forall|v: int| 0 <= v < VERTEX_COUNT ==> #[trigger] on_own_face(v),
        forall|i: int|
            0 <= i < 4 * VERTEX_COUNT - 4 * VERTICES_PER_FACE ==> #[trigger] color_stream()[i]
                == color_stream()[i + 4 * VERTICES_PER_FACE],
{
    assert forall|i: int| 0 <= i < INDEX_COUNT implies index_stream()[i] < VERTEX_COUNT by {
        assert(0 <= i / 6 < 6);
    }
    assert forall|v: int, c: int| 0 <= v < VERTEX_COUNT && 0 <= c < 3 implies #[trigger] vertex_normal(v, c)
        == vertex_normal(4 * (v / 4), c) by {
        lemma_vertex_normal(v, c);
        lemma_vertex_normal(4 * (v / 4), c);
    }
    assert forall|v: int| 0 <= v < VERTEX_COUNT implies #[trigger] unit_axis_normal(v) by {
        lemma_unit_axis_normal(v);
    }
    assert forall|v: int| 0 <= v < VERTEX_COUNT implies #[trigger] on_own_face(v) by {
        lemma_on_own_face(v);
    }
    assert forall|i: int| 0 <= i < 4 * VERTEX_COUNT - 4 * VERTICES_PER_FACE implies #[trigger] color_stream()[i]
        == color_stream()[i + 4 * VERTICES_PER_FACE] by {
        assert((i + 16) % 16 == i % 16);
    }
}

proof fn lemma_vertex_normal(v: int, c: int)
    requires
        0 <= v < VERTEX_COUNT,
        0 <= c < 3,
    ensures
        vertex_normal(v, c) == face_normal(v / 4, c),
{
    assert((3 * v + c) / 12 == v / 4 && (3 * v + c) % 3 == c) by (nonlinear_arith)
        requires
            0 <= v,
            0 <= c < 3,
    ;
}

proof fn lemma_unit_axis_normal(v: int)
    requires
        0 <= v < VERTEX_COUNT,
    ensures
        unit_axis_normal(v),
{
    lemma_vertex_normal(v, 0);
    lemma_vertex_normal(v, 1);
    lemma_vertex_normal(v, 2);
    let f = v / 4;
    assert(0 <= f < 6);
    assert(f == 0 || f == 1 || f == 2 || f == 3 || f == 4 || f == 5);
}

#[verifier::rlimit(50)]
proof fn lemma_on_own_face(v: int)
    requires
        0 <= v < VERTEX_COUNT,
    ensures
        on_own_face(v),
{
    lemma_vertex_normal(v, 0);
    lemma_vertex_normal(v, 1);
    lemma_vertex_normal(v, 2);
    let p = position_table();
    assert(p.len() == 72);
    if v < 4 {
        assert(v / 4 == 0);
    } else if v < 8 {
        assert(v / 4 == 1);
    } else if v < 12 {
        assert(v / 4 == 2);
    } else if v < 16 {
        assert(v / 4 == 3);
    } else if v < 20 {
        assert(v / 4 == 4);
    } else {
        assert(v / 4 == 5);
    }
    assert(v == 0 || v == 1 || v == 2 || v == 3 || v == 4 || v == 5 || v == 6 || v == 7 || v == 8
        || v == 9 || v == 10 || v == 11 || v == 12 || v == 13 || v == 14 || v == 15 || v == 16
        || v == 17 || v == 18 || v == 19 || v == 20 || v == 21 || v == 22 || v == 23);
}

/// Vertex positions, three coordinates per vertex, in half units.
pub fn cube_positions() -> (r: Vec<i8>)
    ensures
        r@.len() == position_table().len(),
        forall|i: int| 0 <= i < r@.len() ==> r@[i] as int == position_table()[i],
{
    let r: Vec<i8> = vec![
        -1, -1, 1, 1, -1, 1, 1, 1, 1, -1, 1, 1,
        -1, -1, -1, -1, 1, -1, 1, 1, -1, 1, -1, -1,
        -1, 1, -1, -1, 1, 1, 1, 1, 1, 1, 1, -1,
        -1, -1, -1, 1, -1, -1, 1, -1, 1, -1, -1, 1,
        1, -1, -1, 1, 1, -1, 1, 1, 1, 1, -1, 1,
        -1, -1, -1, -1, -1, 1, -1, 1, 1, -1, 1, -1,
    ];
    r
}

/// Vertex colours, four channels per vertex: the same four corner colours
/// on every face.
pub fn cube_colors() -> (r: Vec<u8>)
    ensures
        r@ == color_stream(),
{
    let corners: Vec<u8> = vec![
        255, 0, 0, 255,
        0, 255, 0, 255,
        0, 0, 255, 255,
        255, 255, 0, 255,
    ];
    assert(corners@ =~= palette());
    let mut r: Vec<u8> = Vec::new();
    for face in 0..FACE_COUNT
        invariant
            corners@ == palette(),
            r@.len() == 16 * face,
            forall|i: int| 0 <= i < r@.len() ==> r@[i] == palette()[i % 16],
    {
        for k in 0..16usize
            invariant
                corners@ == palette(),
                0 <= face < FACE_COUNT,
                r@.len() == 16 * face + k,
                forall|i: int| 0 <= i < r@.len() ==> r@[i] == palette()[i % 16],
        {
            r.push(corners[k]);
            assert((16 * face + k) % 16 == k as int) by (nonlinear_arith)
                requires
                    0 <= k < 16,
                    0 <= face,
            ;
        }
    }
    assert(r@ =~= color_stream());
    r
}

/// Component `axis` (0 for x, 1 for y, 2 for z) of face `face`'s outward
/// normal.
pub fn normal_component(face: usize, axis: usize) -> (r: i8)
    requires
        face < FACE_COUNT,
        axis < 3,
    ensures
        r as int == face_normal(face as int, axis as int),
{
    let (x, y, z): (i8, i8, i8) = match face {
        0 => (0, 0, 1),
        1 => (0, 0, -1),
        2 => (0, 1, 0),
        3 => (0, -1, 0),
        4 => (1, 0, 0),
        _ => (-1, 0, 0),
    };
    if axis == 0 {
        x
    } else if axis == 1 {
        y
    } else {
        z
    }
}

/// Vertex normals, three components per vertex: each face's normal repeated
/// for its four corners.
pub fn cube_normals() -> (r: Vec<i8>)
    ensures
        r@ == normal_stream(),
{
    let mut r: Vec<i8> = Vec::new();
    for face in 0..FACE_COUNT
        invariant
            r@.len() == 12 * face,
            forall|i: int| 0 <= i < r@.len() ==> r@[i] == face_normal(i / 12, i % 3) as i8,
    {
        for k in 0..12usize
            invariant
                0 <= face < FACE_COUNT,
                r@.len() == 12 * face + k,
                forall|i: int| 0 <= i < r@.len() ==> r@[i] == face_normal(i / 12, i % 3) as i8,
        {
            r.push(normal_component(face, k % 3));
            assert((12 * face + k) / 12 == face as int && (12 * face + k) % 3 == k % 3)
                by (nonlinear_arith)
                requires
                    0 <= k < 12,
                    0 <= face,
            ;
        }
    }
    assert(r@ =~= normal_stream());
    r
}

/// Triangle indices: for each face, corners (0, 1, 2) and (0, 2, 3) of that
/// face.
pub fn cube_indices() -> (r: Vec<u16>)
    ensures
        r@ == index_stream(),
{
    let pattern: Vec<u16> = vec![0, 1, 2, 0, 2, 3];
    assert forall|k: int| 0 <= k < 6 implies pattern@[k] as int == corner_of_triangles(k) by {
        assert(pattern@ =~= seq![0u16, 1, 2, 0, 2, 3]);
    }
    let mut r: Vec<u16> = Vec::new();
    for face in 0..FACE_COUNT
        invariant
            pattern@.len() == 6,
            forall|k: int| 0 <= k < 6 ==> pattern@[k] as int == corner_of_triangles(k),
            r@.len() == 6 * face,
            forall|i: int|
                0 <= i < r@.len() ==> r@[i] == (4 * (i / 6) + corner_of_triangles(i % 6)) as u16,
    {
        for k in 0..6usize
            invariant
                pattern@.len() == 6,
                forall|k: int| 0 <= k < 6 ==> pattern@[k] as int == corner_of_triangles(k),
                0 <= face < FACE_COUNT,
                r@.len() == 6 * face + k,
                forall|i: int|
                    0 <= i < r@.len() ==> r@[i] == (4 * (i / 6) + corner_of_triangles(i % 6)) as u16,
        {
            assert(corner_of_triangles(k as int) <= 3);
            assert(pattern@[k as int] as int == corner_of_triangles(k as int));
            r.push(pattern[k] + 4 * face as u16);
            assert((6 * face + k) / 6 == face as int && (6 * face + k) % 6 == k as int)
                by (nonlinear_arith)
                requires
                    0 <= k < 6,
                    0 <= face,
            ;
        }
    }
    assert(r@ =~= index_stream());
    r
}

} // verus!
