//! The scene tree and its search operations.
//!
//! A node carries its stable id, its acoustic material, a primitive tag and
//! its children. The real-valued transforms and the geometry payloads live
//! with the caller, keyed by the same node ids; the tree here is the
//! authority for structure, identity and materials.

use vstd::prelude::*;
use crate::acoustic_material::AcousticMaterial;
use crate::bands::octave_table;
use crate::acoustic_material::DEFAULT_ABSORPTION;

verus! {

/// Which kind of primitive a node carries. The geometric payload (the unit
/// sphere's transform, a mesh's vertex and index buffers) lives with the
/// caller.
#[derive(Clone, Copy, Debug, PartialEq, Eq, Structural)]
pub enum Primitive {
    /// No primitive: the node only groups its children.
    Empty,
    /// A unit sphere in the node's local frame.
    Sphere,
    /// An indexed triangle mesh.
    Mesh,
}

/// A node of the scene tree.
pub struct SceneNode {
    pub id: u32,
    pub children: Vec<SceneNode>,
    pub name: String,
    pub acoustic_material: AcousticMaterial,
    pub primitive: Primitive,
}

/// First node with the given id in preorder: the node itself, then each
/// child's subtree in order.
pub open spec fn spec_find(n: SceneNode, id: u32) -> Option<SceneNode>
    decreases n, 1int,
{
    if n.id == id {
        Some(n)
    } else {
        spec_find_in(n.children@, id)
    }
}

/// First match of `id` over the subtrees of `s`, in order.
pub open spec fn spec_find_in(s: Seq<SceneNode>, id: u32) -> Option<SceneNode>
    decreases s, 0int,
{
    if s.len() == 0 {
        None
    } else {
        match spec_find(s[0], id) {
            Some(m) => Some(m),
            None => spec_find_in(s.drop_first(), id),
        }
    }
}

/// Whatever `spec_find` returns carries the id that was asked for.
pub proof fn lemma_find_matches_id(n: SceneNode, id: u32)
    ensures
        spec_find(n, id) matches Some(m) ==> m.id == id,
    decreases n, 1int,
{
    if n.id == id {
    } else {
        lemma_find_in_matches_id(n.children@, id);
    }
}

/// Whatever `spec_find_in` returns carries the id that was asked for.
pub proof fn lemma_find_in_matches_id(s: Seq<SceneNode>, id: u32)
    ensures
        spec_find_in(s, id) matches Some(m) ==> m.id == id,
    decreases s, 0int,
{
    if s.len() == 0 {
    } else {
        lemma_find_matches_id(s[0], id);
        lemma_find_in_matches_id(s.drop_first(), id);
    }
}

impl SceneNode {
    /// A fresh node: no children, no primitive, the default material.
    pub fn new(id: u32, name: String) -> (n: SceneNode)
        ensures
            n.id == id,
            n.name@ == name@,
            n.children@.len() == 0,
            n.primitive == Primitive::Empty,
            n.acoustic_material@.frequencies == octave_table(),
            n.acoustic_material@.absorption.len() == octave_table().len(),
            forall|k: int|
                0 <= k < n.acoustic_material@.absorption.len()
                    ==> n.acoustic_material@.absorption[k] == DEFAULT_ABSORPTION,
    {
        SceneNode {
            id,
            children: Vec::new(),
            name,
            acoustic_material: AcousticMaterial::default(),
            primitive: Primitive::Empty,
        }
    }

    /// Appends a child; everything else is unchanged.
    pub fn add_child(&mut self, child: SceneNode)
        ensures
            final(self).children@ == old(self).children@.push(child),
            final(self).id == old(self).id,
            final(self).name == old(self).name,
            final(self).acoustic_material == old(self).acoustic_material,
            final(self).primitive == old(self).primitive,
    {
        self.children.push(child);
    }

    /// Returns the first node with the given id in preorder, or nothing.
    pub fn find_child_by_id(&self, id: u32) -> (r: Option<&SceneNode>)
        ensures
            match r {
                Some(node) => spec_find(*self, id) == Some(*node) && node.id == id,
                None => spec_find(*self, id) is None,
            },
        decreases *self,
    {
        proof {
            lemma_find_matches_id(*self, id);
        }
        if self.id == id {
            return Some(self);
        }
        let n = self.children.len();
        proof {
            assert(self.children@.skip(0) =~= self.children@);
        }
        let mut i: usize = 0;
        while i < n
            invariant
                self.id != id,
                n == self.children@.len(),
                0 <= i <= n,
                spec_find_in(self.children@, id) == spec_find_in(
                    self.children@.skip(i as int),
                    id,
                ),
            decreases n - i,
        {
            proof {
                assert(decreases_to!(*self => self.children@[i as int]));
            }
            let r = self.children[i].find_child_by_id(id);
            proof {
                let tail = self.children@.skip(i as int);
                assert(tail[0] == self.children@[i as int]);
                assert(tail.drop_first() =~= self.children@.skip(i as int + 1));
            }
            if r.is_some() {
                return r;
            }
            i += 1;
        }
        proof {
            assert(self.children@.skip(n as int).len() == 0);
        }
        None
    }
}

/// What a scene input node stands for, read from its metadata.
#[derive(Clone, Copy, Debug, PartialEq, Eq, Structural)]
pub enum NodeRole {
    /// Reflecting geometry.
    Reflector,
    /// The point source.
    Source,
    /// The spherical receiver.
    Receiver,
}

/// The classification rule: only nodes carrying a nonzero `active` mark take
/// part, and their kind field picks the role; anything else is skipped.
pub open spec fn spec_classify_node(node_type: Option<u64>, active: Option<u64>) -> Option<
    NodeRole,
> {
    if active is None || active == Some(0u64) {
        None
    } else {
        match node_type {
            Some(1u64) => Some(NodeRole::Reflector),
            Some(2u64) => Some(NodeRole::Source),
            Some(3u64) => Some(NodeRole::Receiver),
            _ => None,
        }
    }
}

/// Decides what role a scene input node plays, given its kind field and its
/// `active` mark; an absent mark counts as inactive.
pub fn classify_node(node_type: Option<u64>, active: Option<u64>) -> (r: Option<NodeRole>)
    ensures
        r == spec_classify_node(node_type, active),
{
    let live = match active {
        Some(a) => a != 0,
        None => false,
    };
    if !live {
        return None;
    }
    match node_type {
        Some(1) => Some(NodeRole::Reflector),
        Some(2) => Some(NodeRole::Source),
        Some(3) => Some(NodeRole::Receiver),
        _ => None,
    }
}

/// Groups a flat index buffer into triangles, three indices at a time; a
/// trailing incomplete group is dropped.
pub fn group_triangles(indices: &Vec<u32>) -> (faces: Vec<(u32, u32, u32)>)
    ensures
        faces@.len() == indices@.len() / 3,
        forall|k: int|
            0 <= k < faces@.len() ==> #[trigger] faces@[k] == (
                indices@[3 * k],
                indices@[3 * k + 1],
                indices@[3 * k + 2],
            ),
{
    let mut faces: Vec<(u32, u32, u32)> = Vec::new();
    let n = indices.len();
    let mut i: usize = 0;
    while n - i >= 3
        invariant
            n == indices@.len(),
            0 <= i <= n,
            i == 3 * faces@.len(),
            forall|k: int|
                0 <= k < faces@.len() ==> #[trigger] faces@[k] == (
                    indices@[3 * k],
                    indices@[3 * k + 1],
                    indices@[3 * k + 2],
                ),
        decreases n - i,
    {
        faces.push((indices[i], indices[i + 1], indices[i + 2]));
        i += 3;
    }
    faces
}

/// A candidate intersection reduced to what the closest-hit choice reads:
/// the id of the node that was struck and a key that orders candidates by
/// their squared distance from the ray origin.
#[derive(Clone, Copy, Debug, PartialEq, Eq, Structural)]
pub struct HitCandidate {
    pub node: u32,
    pub distance_key: u64,
}

/// Picks the closest candidate: the one with the smallest distance key,
/// ties broken in favor of the earliest candidate.
pub fn closest_hit(candidates: &Vec<HitCandidate>) -> (r: Option<usize>)
    ensures
        match r {
            Some(i) => {
                &&& candidates@.len() > 0
                &&& 0 <= i < candidates@.len()
                &&& forall|j: int|
                    0 <= j < candidates@.len() ==> candidates@[i as int].distance_key
                        <= #[trigger] candidates@[j].distance_key
                &&& forall|j: int|
                    0 <= j < i ==> candidates@[i as int].distance_key
                        < #[trigger] candidates@[j].distance_key
            },
            None => candidates@.len() == 0,
        },
{
    if candidates.len() == 0 {
        return None;
    }
    let mut best: usize = 0;
    let mut j: usize = 1;
    while j < candidates.len()
        invariant
            0 <= best < j <= candidates@.len(),
            forall|k: int|
                0 <= k < j ==> candidates@[best as int].distance_key
                    <= #[trigger] candidates@[k].distance_key,
            forall|k: int|
                0 <= k < best ==> candidates@[best as int].distance_key
                    < #[trigger] candidates@[k].distance_key,
        decreases candidates@.len() - j,
    {
        if candidates[j].distance_key < candidates[best].distance_key {
            best = j;
        }
        j += 1;
    }
    Some(best)
}

} // verus!
