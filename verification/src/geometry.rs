//! Static geometry of the unit cube: 8 vertices, 36 triangle-list indices,
//! and the vertex layout the renderer needs to interpret the raw bytes.
//!
//! The winding of the index list is consistent, and pairs with the
//! clockwise-front-face cull state of the draw submission; the two must agree
//! or faces render inverted.

use vstd::prelude::*;

verus! {

/// One cube vertex: a corner of the unit cube (each position component is
/// `-1` or `+1`) and a packed 32-bit ABGR color.
#[derive(Clone, Copy, PartialEq, Eq, Structural, Debug)]
pub struct CubeVertex {
    pub x: i8,
    pub y: i8,
    pub z: i8,
    pub abgr: u32,
}

/// The cube's vertex table.
pub open spec fn cube_vertices_spec() -> Seq<CubeVertex> {
    seq![
        CubeVertex { x: -1i8, y: 1i8, z: 1i8, abgr: 0xff000000 },
        CubeVertex { x: 1i8, y: 1i8, z: 1i8, abgr: 0xff0000ff },
        CubeVertex { x: -1i8, y: -1i8, z: 1i8, abgr: 0xff00ff00 },
        CubeVertex { x: 1i8, y: -1i8, z: 1i8, abgr: 0xff00ffff },
        CubeVertex { x: -1i8, y: 1i8, z: -1i8, abgr: 0xffff0000 },
        CubeVertex { x: 1i8, y: 1i8, z: -1i8, abgr: 0xffff00ff },
        CubeVertex { x: -1i8, y: -1i8, z: -1i8, abgr: 0xffffff00 },
        CubeVertex { x: 1i8, y: -1i8, z: -1i8, abgr: 0xffffffff },
    ]
}

/// The cube's triangle-list index table: 12 triangles, two per face.
pub open spec fn cube_indices_spec() -> Seq<u16> {
    seq![
        0u16, 1, 2,
        1, 3, 2,
        4, 6, 5,
        5, 6, 7,
        0, 2, 4,
        4, 2, 6,
        1, 5, 3,
        5, 7, 3,
        0, 4, 1,
        4, 5, 1,
        2, 3, 6,
        6, 3, 7,
    ]
}

/// Produces the cube's 8 vertices, uploaded once before the loop starts.
pub fn cube_vertices() -> (v: Vec<CubeVertex>)
    ensures
        v@ == cube_vertices_spec(),
        v@.len() == 8,
{
    let mut v: Vec<CubeVertex> = Vec::new();
    v.push(CubeVertex { x: -1, y: 1, z: 1, abgr: 0xff000000 });
    v.push(CubeVertex { x: 1, y: 1, z: 1, abgr: 0xff0000ff });
    v.push(CubeVertex { x: -1, y: -1, z: 1, abgr: 0xff00ff00 });
    v.push(CubeVertex { x: 1, y: -1, z: 1, abgr: 0xff00ffff });
    v.push(CubeVertex { x: -1, y: 1, z: -1, abgr: 0xffff0000 });
    v.push(CubeVertex { x: 1, y: 1, z: -1, abgr: 0xffff00ff });
    v.push(CubeVertex { x: -1, y: -1, z: -1, abgr: 0xffffff00 });
    v.push(CubeVertex { x: 1, y: -1, z: -1, abgr: 0xffffffff });
    proof {
        assert(v@ =~= cube_vertices_spec());
    }
    v
}

/// Produces the cube's 36 indices, uploaded once before the loop starts.
pub fn cube_indices() -> (v: Vec<u16>)
    ensures
        v@ == cube_indices_spec(),
        v@.len() == 36,
{
    let mut v: Vec<u16> = Vec::new();
    v.push(0);
    v.push(1);
    v.push(2);
    v.push(1);
    v.push(3);
    v.push(2);
    v.push(4);
    v.push(6);
    v.push(5);
    v.push(5);
    v.push(6);
    v.push(7);
    v.push(0);
    v.push(2);
    v.push(4);
    v.push(4);
    v.push(2);
    v.push(6);
    v.push(1);
    v.push(5);
    v.push(3);
    v.push(5);
    v.push(7);
    v.push(3);
    v.push(0);
    v.push(4);
    v.push(1);
    v.push(4);
    v.push(5);
    v.push(1);
    v.push(2);
    v.push(3);
    v.push(6);
    v.push(6);
    v.push(3);
    v.push(7);
    proof {
        assert(v@ =~= cube_indices_spec());
    }
    v
}

/// Every submitted draw references valid geometry: each index of the
/// triangle list names one of the 8 vertices, and the 36 indices form 12
/// whole triangles.
pub proof fn lemma_indices_valid()
    ensures
        cube_indices_spec().len() == 36,
        cube_indices_spec().len() % 3 == 0,
        forall|i: int|
            0 <= i < cube_indices_spec().len() ==> cube_indices_spec()[i]
                < cube_vertices_spec().len(),
{
    assert forall|i: int| 0 <= i < cube_indices_spec().len() implies cube_indices_spec()[i]
        < cube_vertices_spec().len() by {
        assert(cube_vertices_spec().len() == 8);
    }
}

/// The kind of a vertex attribute.
#[derive(Clone, Copy, PartialEq, Eq, Structural, Debug)]
pub enum AttribKind {
    Position,
    Color0,
}

/// The component type of a vertex attribute.
#[derive(Clone, Copy, PartialEq, Eq, Structural, Debug)]
pub enum AttribComponent {
    Float32,
    Uint8,
}

/// One attribute of the vertex layout.
#[derive(Clone, Copy, PartialEq, Eq, Structural, Debug)]
pub struct AttribDesc {
    pub kind: AttribKind,
    pub count: u8,
    pub component: AttribComponent,
    pub normalized: bool,
}

/// The cube's vertex layout, created once and shared read-only by every draw:
/// a position of three 32-bit floats, then a color of four normalized bytes.
pub open spec fn cube_layout_spec() -> Seq<AttribDesc> {
    seq![
        AttribDesc {
            kind: AttribKind::Position,
            count: 3,
            component: AttribComponent::Float32,
            normalized: false,
        },
        AttribDesc {
            kind: AttribKind::Color0,
            count: 4,
            component: AttribComponent::Uint8,
            normalized: true,
        },
    ]
}

/// Produces the vertex layout description matching `cube_vertices`.
pub fn cube_layout() -> (v: Vec<AttribDesc>)
    ensures
        v@ == cube_layout_spec(),
{
    let mut v: Vec<AttribDesc> = Vec::new();
    v.push(
        AttribDesc {
            kind: AttribKind::Position,
            count: 3,
            component: AttribComponent::Float32,
            normalized: false,
        },
    );
    v.push(
        AttribDesc {
            kind: AttribKind::Color0,
            count: 4,
            component: AttribComponent::Uint8,
            normalized: true,
        },
    );
    proof {
        assert(v@ =~= cube_layout_spec());
    }
    v
}

} // verus!
