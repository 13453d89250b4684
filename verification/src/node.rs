//! Node records and node pages, the units in which a scene graph is stored.

use vstd::prelude::*;

verus! {

/// Oriented bounding volume of a node. Every coordinate is kept as the
/// IEEE-754 bit pattern of a double-precision number, so that records can be
/// compared and moved exactly; no arithmetic is done on them here.
#[derive(Default, Debug, Clone)]
pub struct OBB {
    pub center: [u64; 3],
    pub half_size: [u64; 3],
    /// Orientation; `None` means the volume is axis-aligned.
    pub quanternion: Option<[u64; 4]>,
}

#[derive(Debug, Clone)]
pub struct MeshMaterial {
    pub definition: usize,
    pub resource: usize,
    pub texel_count_hint: i32,
}

impl Default for MeshMaterial {
    fn default() -> (m: Self)
        ensures
            m.definition == 0,
            m.resource == 0,
            m.texel_count_hint == -1,
    {
        Self { definition: 0, resource: 0, texel_count_hint: -1 }
    }
}

#[derive(Debug, Clone)]
pub struct MeshGeometry {
    pub definition: usize,
    pub resource: usize,
    pub vertex_count: usize,
    pub feature_count: usize,
}

impl Default for MeshGeometry {
    fn default() -> (g: Self)
        ensures
            g.definition == 0,
            g.resource == 0,
            g.vertex_count == 0,
            g.feature_count == 0,
    {
        Self { definition: 0, resource: 0, vertex_count: 0, feature_count: 0 }
    }
}

#[derive(Debug, Clone)]
pub struct MeshAttribute {
    pub resource: usize,
}

impl Default for MeshAttribute {
    fn default() -> (a: Self)
        ensures
            a.resource == 0,
    {
        Self { resource: 0 }
    }
}

/// Reference to the mesh of a node. It is carried through, never decoded.
#[derive(Debug, Clone)]
pub struct Mesh {
    pub material: MeshMaterial,
    pub geometry: MeshGeometry,
    pub attribute: MeshAttribute,
}

impl Default for Mesh {
    fn default() -> (m: Self)
        ensures
            m.material.definition == 0,
            m.material.resource == 0,
            m.material.texel_count_hint == -1,
            m.geometry.definition == 0,
            m.geometry.resource == 0,
            m.geometry.vertex_count == 0,
            m.geometry.feature_count == 0,
            m.attribute.resource == 0,
    {
        Self {
            material: MeshMaterial::default(),
            geometry: MeshGeometry::default(),
            attribute: MeshAttribute::default(),
        }
    }
}

/// Children of a node that lists none.
pub fn default_children() -> (c: Vec<usize>)
    ensures
        c@.len() == 0,
{
    Vec::new()
}

/// One node of the scene graph.
#[derive(Default, Debug, Clone)]
pub struct Node {
    /// Global index: the key under which the node is known in every page.
    pub index: usize,
    pub obb: OBB,
    /// Global indices of the children, in order; empty for a leaf.
    pub children: Vec<usize>,
    /// Global index of the parent; `None` for the root.
    pub parent_index: Option<usize>,
    /// Level-of-detail threshold, as the bit pattern of a single-precision
    /// number.
    pub lod_threshold: Option<u32>,
    pub mesh: Option<Mesh>,
}

impl Node {
    /// A node without a parent index is a root.
    pub open spec fn spec_is_root(&self) -> bool {
        self.parent_index is None
    }

    /// A node without children is a leaf.
    pub open spec fn spec_is_leaf(&self) -> bool {
        self.children@.len() == 0
    }

    #[verifier::when_used_as_spec(spec_is_root)]
    pub fn is_root(&self) -> (b: bool)
        ensures
            b == self.spec_is_root(),
    {
        self.parent_index.is_none()
    }

    #[verifier::when_used_as_spec(spec_is_leaf)]
    pub fn is_leaf(&self) -> (b: bool)
        ensures
            b == self.spec_is_leaf(),
    {
        self.children.len() == 0
    }
}

/// The nodes delivered by one fetch. A page is only a unit of transport: its
/// records are moved into the arena and the page is gone.
#[derive(Debug, Clone)]
pub struct NodePage {
    pub nodes: Vec<Node>,
}

impl Default for NodePage {
    fn default() -> (p: Self)
        ensures
            p.nodes@.len() == 0,
    {
        Self { nodes: Vec::new() }
    }
}

} // verus!
