use vstd::prelude::*;

verus! {

/// Number of distinct cube vertices: four per face, six faces.
pub const CUBE_VERTEX_COUNT: u16 = 24;

/// Number of indices drawn for the cube: two triangles per face.
pub const CUBE_INDEX_COUNT: usize = 36;

/// The cube's index list: face `f` owns vertices `4f..4f+4` and splits its
/// quad into the triangles `(4f, 4f+1, 4f+2)` and `(4f+2, 4f+3, 4f)`.
pub open spec fn spec_cube_indices() -> Seq<u16> {
    seq![
        0u16, 1, 2, 2, 3, 0,
        4, 5, 6, 6, 7, 4,
        8, 9, 10, 10, 11, 8,
        12, 13, 14, 14, 15, 12,
        16, 17, 18, 18, 19, 16,
        20, 21, 22, 22, 23, 20,
    ]
}

/// Builds the cube's index buffer contents; every index addresses one of the
/// cube's vertices.
pub fn cube_indices() -> (r: Vec<u16>)
    ensures
        r@ == spec_cube_indices(),
        r@.len() == CUBE_INDEX_COUNT,
        forall|i: int| 0 <= i < r@.len() ==> r@[i] < CUBE_VERTEX_COUNT,
{
    let mut v: Vec<u16> = Vec::new();
    let mut f: u16 = 0;
    while f < 6
        invariant
            f <= 6,
            v@.len() == 6 * f,
            forall|i: int| 0 <= i < v@.len() ==> v@[i] == spec_cube_indices()[i],
            forall|i: int| 0 <= i < v@.len() ==> v@[i] < CUBE_VERTEX_COUNT,
        decreases 6 - f,
    {
        let base: u16 = 4 * f;
        v.push(base);
        v.push(base + 1);
        v.push(base + 2);
        v.push(base + 2);
        v.push(base + 3);
        v.push(base);
        f += 1;
    }
    proof {
        assert(v@ =~= spec_cube_indices());
    }
    v
}

/// Number of 32-bit components in a vertex position.
pub const VERTEX_POSITION_COMPONENTS: u32 = 3;

/// Number of 32-bit components in a vertex color.
pub const VERTEX_COLOR_COMPONENTS: u32 = 3;

/// Bytes per 32-bit vertex component.
pub const COMPONENT_BYTES: u32 = 4;

/// How one vertex is laid out in the vertex buffer: byte stride, the byte
/// offset and shader location of each attribute.
#[derive(Clone, Copy, Debug, PartialEq, Eq, Structural)]
pub struct VertexLayout {
    pub stride: u32,
    pub position_offset: u32,
    pub color_offset: u32,
    pub position_location: u32,
    pub color_location: u32,
}

/// The fixed vertex layout: a position followed by a color, tightly packed,
/// at shader locations 0 and 1.
pub fn vertex_layout() -> (r: VertexLayout)
    ensures
        r.position_offset == 0,
        r.color_offset == VERTEX_POSITION_COMPONENTS * COMPONENT_BYTES,
        r.stride == (VERTEX_POSITION_COMPONENTS + VERTEX_COLOR_COMPONENTS) * COMPONENT_BYTES,
        r.position_location == 0,
        r.color_location == 1,
{
    VertexLayout {
        stride: (VERTEX_POSITION_COMPONENTS + VERTEX_COLOR_COMPONENTS) * COMPONENT_BYTES,
        position_offset: 0,
        color_offset: VERTEX_POSITION_COMPONENTS * COMPONENT_BYTES,
        position_location: 0,
        color_location: 1,
    }
}

} // verus!
