//! Shading strategies.
//!
//! A node does not know how it is drawn. It holds the handle of a
//! [`Material`], and to draw itself it hands the material everything it was
//! given, together with its own attributes and its mesh. Materials live in a
//! [`MaterialStore`]; every node that holds the same handle is drawn by the
//! same material, so a change to that material shows on all of them.

use vstd::prelude::*;

use crate::geometry::Vector3;
use crate::mesh::Mesh;
use crate::object::ObjectData;

verus! {

/// A shading strategy: what turns a node into a draw call.
///
/// The type parameters are what the renderer works with: the scalar `S` of
/// coordinates and colours, the payload `D` that nodes carry, the
/// device-side state `G` of a mesh buffer, the transform `X`, the camera `C`
/// and the light `L`.
pub trait Material<S, D, G, X, C, L>: Sized {
    /// What one call of [`Material::render`] may do: starting as `before`
    /// with the camera as `camera` and the mesh as `mesh`, it may leave the
    /// material as `self`, the camera as `camera_after` and the mesh as
    /// `mesh_after`. The pass, the transform, the scale, the light and the
    /// node's attributes are only read.
    ///
    /// A material that says nothing here may do anything.
    open spec fn rendered(
        self,
        before: Self,
        pass: usize,
        transform: X,
        scale: Vector3<S>,
        camera: C,
        camera_after: C,
        light: L,
        data: ObjectData<S, D>,
        mesh: Mesh<S, G>,
        mesh_after: Mesh<S, G>,
    ) -> bool {
        true
    }

    /// Draws one node. The material may change itself, the camera and the
    /// mesh, whose device-side state it fills; it cannot change the node's
    /// attributes.
    fn render(
        &mut self,
        pass: usize,
        transform: &X,
        scale: &Vector3<S>,
        camera: &mut C,
        light: &L,
        data: &ObjectData<S, D>,
        mesh: &mut Mesh<S, G>,
    )
        ensures
            final(self).rendered(
                *old(self),
                pass,
                *transform,
                *scale,
                *old(camera),
                *final(camera),
                *light,
                *data,
                *old(mesh),
                *final(mesh),
            ),
    ;
}

/// Names a material of a [`MaterialStore`]. Copies of a handle name the same
/// material.
#[derive(Clone, Copy, PartialEq, Eq, Structural, Debug)]
pub struct MaterialHandle {
    /// The position of the material in its store.
    pub index: usize,
}

/// The materials of a scene.
///
/// A material stays in the store for as long as the store lives, and its
/// handle stays valid. What a handle names can be changed in place or
/// replaced; either way every node that holds the handle is drawn by the
/// new state from then on.
pub struct MaterialStore<M> {
    materials: Vec<M>,
}

impl<M> View for MaterialStore<M> {
    type V = Seq<M>;

    /// The materials in the order in which they were added; a handle's index
    /// is a position in this sequence.
    closed spec fn view(&self) -> Seq<M> {
        self.materials@
    }
}

impl<M> MaterialStore<M> {
    /// `handle` names a material of this store.
    pub open spec fn has(self, handle: MaterialHandle) -> bool {
        handle.index < self@.len()
    }

    /// The material that `handle` names.
    pub open spec fn material(self, handle: MaterialHandle) -> M
        recommends
            self.has(handle),
    {
        self@[handle.index as int]
    }

    /// `self` differs from `before` at most in the material that `handle`
    /// names.
    pub open spec fn same_but(self, before: Self, handle: MaterialHandle) -> bool {
        self@ == before@.update(handle.index as int, self.material(handle))
    }

    /// An empty store.
    pub fn new() -> (store: Self)
        ensures
            store@ == Seq::<M>::empty(),
    {
        MaterialStore { materials: Vec::new() }
    }

    /// The number of materials.
    pub fn len(&self) -> (n: usize)
        ensures
            n == self@.len(),
    {
        self.materials.len()
    }

    /// Adds `material` and returns its handle. The materials already there
    /// keep their handles.
    pub fn insert(&mut self, material: M) -> (handle: MaterialHandle)
        ensures
            handle.index == old(self)@.len(),
            final(self)@ == old(self)@.push(material),
    {
        let index = self.materials.len();
        self.materials.push(material);
        MaterialHandle { index }
    }

    /// Whether `handle` names a material of this store.
    pub fn contains(&self, handle: MaterialHandle) -> (found: bool)
        ensures
            found == self.has(handle),
    {
        handle.index < self.materials.len()
    }

    /// The material that `handle` names.
    pub fn get(&self, handle: MaterialHandle) -> (material: &M)
        requires
            self.has(handle),
        ensures
            *material == self.material(handle),
    {
        &self.materials[handle.index]
    }

    /// The material that `handle` names, for changing it in place.
    pub fn get_mut(&mut self, handle: MaterialHandle) -> (material: &mut M)
        requires
            old(self).has(handle),
        ensures
            *material == old(self).material(handle),
            final(self)@ == old(self)@.update(handle.index as int, *final(material)),
    {
        &mut self.materials[handle.index]
    }

    /// Puts `material` in the place that `handle` names and returns what was
    /// there.
    pub fn replace(&mut self, handle: MaterialHandle, material: M) -> (previous: M)
        requires
            old(self).has(handle),
        ensures
            previous == old(self).material(handle),
            final(self)@ == old(self)@.update(handle.index as int, material),
    {
        let mut material = material;
        core::mem::swap(&mut self.materials[handle.index], &mut material);
        material
    }
}

} // verus!
