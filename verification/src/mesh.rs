//! Geometry shared between scene nodes.
//!
//! A [`Mesh`] holds four buffers: positions, triangular faces, normals and
//! texture coordinates. Each buffer is reached on its own, so that work on one
//! never involves another. Meshes live in a [`MeshStore`]; a node refers to
//! its mesh by a [`MeshHandle`], and every node that holds the same handle
//! sees the same mesh.
//!
//! A buffer is *absent* when it has no contents in memory. Absent is not the
//! same as empty: an operation that is given a function to run on a buffer
//! runs it on an empty buffer, and does not run it on an absent one.

use vstd::prelude::*;

use crate::geometry::{Point2, Point3, Vector3};

verus! {

/// `f` may be called on any slice that holds `contents`.
pub open spec fn can_read<T, R, F: FnMut(&[T]) -> R>(f: F, contents: Seq<T>) -> bool {
    forall|s: &[T]| s@ == contents ==> call_requires(f, (s,))
}

/// `out` is a value that `f` may return when called on a slice that holds
/// `contents`.
pub open spec fn reads<T, R, F: FnMut(&[T]) -> R>(f: F, contents: Seq<T>, out: R) -> bool {
    exists|s: &[T]| s@ == contents && call_ensures(f, (s,), out)
}

/// `f` may be called on any vector that holds `contents`.
pub open spec fn can_write<T, F: FnMut(&mut Vec<T>)>(f: F, contents: Seq<T>) -> bool {
    forall|v: &mut Vec<T>| v@ == contents ==> call_requires(f, (v,))
}

/// One buffer of a mesh: its contents in memory, and whatever the renderer
/// keeps for it on the graphics device.
///
/// The type `G` of the device-side state belongs to the renderer. This
/// library stores it, hands it out, and duplicates it on request; it never
/// looks inside.
pub struct Buffer<T, G> {
    /// The contents in memory; `None` when the buffer is absent.
    pub data: Option<Vec<T>>,
    /// The device-side state; `None` until the renderer uploads the buffer.
    pub gpu: Option<G>,
}

impl<T, G> Buffer<T, G> {
    /// The contents as a sequence, `None` for an absent buffer.
    pub open spec fn contents(self) -> Option<Seq<T>> {
        match self.data {
            Some(v) => Some(v@),
            None => None,
        }
    }

    /// The contents exist only on the graphics device, out of this
    /// library's reach.
    pub open spec fn device_only(self) -> bool {
        self.data is None && self.gpu is Some
    }

    /// `self` is what [`Buffer::try_clone`] makes of `source`: the same
    /// contents, and device-side state that is either a duplicate of the
    /// source's or not there.
    pub open spec fn is_copy_of(self, source: Self, clone_gpu: bool) -> bool where G: Clone {
        &&& self.contents() == source.contents()
        &&& if clone_gpu {
            match (source.gpu, self.gpu) {
                (Some(a), Some(b)) => cloned(a, b),
                (None, None) => true,
                _ => false,
            }
        } else {
            self.gpu is None
        }
    }

    /// A buffer with the given contents and nothing on the device.
    pub fn new(data: Option<Vec<T>>) -> (b: Self)
        ensures
            b.data == data,
            b.gpu is None,
    {
        Buffer { data, gpu: None }
    }

    /// Runs `f` on the contents and returns what it returned; on an absent
    /// buffer `f` is not run and `None` is returned.
    pub fn read<R, F: FnMut(&[T]) -> R>(&self, f: &mut F) -> (out: Option<R>)
        requires
            self.data matches Some(v) ==> can_read(*old(f), v@),
        ensures
            *final(f) == *old(f),
            match self.data {
                Some(v) => out matches Some(r) && reads(*old(f), v@, r),
                None => out is None,
            },
    {
        match &self.data {
            Some(v) => {
                let s = v.as_slice();
                let r = f(s);
                Some(r)
            },
            None => None,
        }
    }

    /// Runs `f` on the contents, which it may change; on an absent buffer `f`
    /// is not run and nothing changes. The device-side state is left as it
    /// is.
    pub fn write<F: FnMut(&mut Vec<T>)>(&mut self, f: &mut F)
        requires
            old(self).data matches Some(v) ==> can_write(*old(f), v@),
        ensures
            *final(f) == *old(f),
            final(self).gpu == old(self).gpu,
            match old(self).data {
                Some(v) => final(self).data matches Some(w) && exists|r: &mut Vec<T>|
                    *r == v && *final(r) == w && call_ensures(*old(f), (r,), ()),
                None => final(self).data is None,
            },
    {
        match &mut self.data {
            Some(v) => {
                f(v);
            },
            None => {},
        }
    }
}

/// A vector with the elements of `source`, in the same order.
fn copy_of<T: Copy>(source: &Vec<T>) -> (copy: Vec<T>)
    ensures
        copy@ == source@,
{
    let mut copy: Vec<T> = Vec::with_capacity(source.len());
    let mut i: usize = 0;
    while i < source.len()
        invariant
            i <= source.len(),
            copy@ == source@.take(i as int),
        decreases source.len() - i,
    {
        copy.push(source[i]);
        i += 1;
    }
    copy
}

impl<T: Copy, G: Clone> Buffer<T, G> {
    /// A buffer of its own with a copy of the contents.
    ///
    /// With `clone_gpu` the device-side state is duplicated as well, by its
    /// own `clone`; without it the copy starts with nothing on the device and
    /// is uploaded when it is first drawn. Contents that exist only on the
    /// device cannot be read from here, so without `clone_gpu` such a buffer
    /// declines and `None` is returned.
    pub fn try_clone(&self, clone_gpu: bool) -> (copy: Option<Self>)
        ensures
            copy is Some <==> clone_gpu || !self.device_only(),
            copy matches Some(b) ==> b.is_copy_of(*self, clone_gpu),
    {
        let gpu = if clone_gpu {
            match &self.gpu {
                Some(g) => Some(g.clone()),
                None => None,
            }
        } else {
            if self.data.is_none() && self.gpu.is_some() {
                return None;
            }
            None
        };
        let data = match &self.data {
            Some(v) => Some(copy_of(v)),
            None => None,
        };
        Some(Buffer { data, gpu })
    }
}

/// The geometry of one or more scene nodes.
///
/// The four buffers are independent of each other. Nothing here checks that
/// the faces index into the positions, or that normals and texture
/// coordinates come one per position: that is up to whoever fills the mesh.
pub struct Mesh<S, G> {
    /// The positions of the vertices.
    pub coords: Buffer<Point3<S>, G>,
    /// The triangles, each as three indices into the positions.
    pub faces: Buffer<Point3<u16>, G>,
    /// One normal for each vertex.
    pub normals: Buffer<Vector3<S>, G>,
    /// One texture coordinate for each vertex.
    pub uvs: Buffer<Point2<S>, G>,
}

/// `normals` is a value that `compute` may return when called on slices that
/// hold `coords` and `faces`.
pub open spec fn computes<S, F: FnMut(&[Point3<S>], &[Point3<u16>]) -> Vec<Vector3<S>>>(
    compute: F,
    coords: Seq<Point3<S>>,
    faces: Seq<Point3<u16>>,
    normals: Seq<Vector3<S>>,
) -> bool {
    exists|c: &[Point3<S>], f: &[Point3<u16>], n: Vec<Vector3<S>>|
        c@ == coords && f@ == faces && n@ == normals && call_ensures(compute, (c, f), n)
}

/// `compute` may be called on any slices that hold `coords` and `faces`.
pub open spec fn can_compute<S, F: FnMut(&[Point3<S>], &[Point3<u16>]) -> Vec<Vector3<S>>>(
    compute: F,
    coords: Seq<Point3<S>>,
    faces: Seq<Point3<u16>>,
) -> bool {
    forall|c: &[Point3<S>], f: &[Point3<u16>]|
        c@ == coords && f@ == faces ==> call_requires(compute, (c, f))
}

/// `compute` returns the same normals whenever it is given the same positions
/// and faces.
pub open spec fn is_deterministic<S, F: FnMut(&[Point3<S>], &[Point3<u16>]) -> Vec<Vector3<S>>>(
    compute: F,
) -> bool {
    forall|coords: Seq<Point3<S>>, faces: Seq<Point3<u16>>, a: Seq<Vector3<S>>, b: Seq<Vector3<S>>|
        #![trigger computes(compute, coords, faces, a), computes(compute, coords, faces, b)]
        computes(compute, coords, faces, a) && computes(compute, coords, faces, b) ==> a == b
}

impl<S, G> Mesh<S, G> {
    /// A mesh with the given positions and faces, with normals and texture
    /// coordinates where they are given, and with nothing on the device.
    pub fn new(
        coords: Vec<Point3<S>>,
        faces: Vec<Point3<u16>>,
        normals: Option<Vec<Vector3<S>>>,
        uvs: Option<Vec<Point2<S>>>,
    ) -> (mesh: Self)
        ensures
            mesh.coords.data == Some(coords),
            mesh.faces.data == Some(faces),
            mesh.normals.data == normals,
            mesh.uvs.data == uvs,
            mesh.coords.gpu is None,
            mesh.faces.gpu is None,
            mesh.normals.gpu is None,
            mesh.uvs.gpu is None,
    {
        Mesh {
            coords: Buffer::new(Some(coords)),
            faces: Buffer::new(Some(faces)),
            normals: Buffer::new(normals),
            uvs: Buffer::new(uvs),
        }
    }

    /// `self` is what [`Mesh::recompute_normals`] with `compute` makes of
    /// `before`.
    ///
    /// Where positions and faces are both there, the normals are what
    /// `compute` returns for them, whether or not there were normals before.
    /// Where either is absent there is nothing to derive normals from, and
    /// the normals stay as they were. Nothing else changes in either case.
    pub open spec fn normals_recomputed<
        F: FnMut(&[Point3<S>], &[Point3<u16>]) -> Vec<Vector3<S>>,
    >(self, before: Self, compute: F) -> bool {
        &&& self.same_but_normals(before)
        &&& match (before.coords.contents(), before.faces.contents()) {
            (Some(c), Some(f)) => self.normals.contents() matches Some(n) && computes(
                compute,
                c,
                f,
                n,
            ),
            _ => self.normals.data == before.normals.data,
        }
    }

    /// Replaces the normals by what `compute` derives from the current
    /// positions and faces.
    pub fn recompute_normals<F: FnMut(&[Point3<S>], &[Point3<u16>]) -> Vec<Vector3<S>>>(
        &mut self,
        compute: &mut F,
    )
        requires
            (old(self).coords.contents(), old(self).faces.contents()) matches (Some(c), Some(f))
                ==> can_compute(*old(compute), c, f),
        ensures
            *final(compute) == *old(compute),
            final(self).normals_recomputed(*old(self), *old(compute)),
    {
        match (&self.coords.data, &self.faces.data) {
            (Some(c), Some(f)) => {
                let normals = compute(c.as_slice(), f.as_slice());
                self.normals.data = Some(normals);
            },
            _ => {},
        }
    }

    /// `self` differs from `before` at most in the contents of the
    /// positions.
    pub open spec fn same_but_coords(self, before: Self) -> bool {
        &&& self.coords.gpu == before.coords.gpu
        &&& self.faces == before.faces
        &&& self.normals == before.normals
        &&& self.uvs == before.uvs
    }

    /// `self` differs from `before` at most in the contents of the faces.
    pub open spec fn same_but_faces(self, before: Self) -> bool {
        &&& self.coords == before.coords
        &&& self.faces.gpu == before.faces.gpu
        &&& self.normals == before.normals
        &&& self.uvs == before.uvs
    }

    /// `self` differs from `before` at most in the contents of the normals.
    pub open spec fn same_but_normals(self, before: Self) -> bool {
        &&& self.coords == before.coords
        &&& self.faces == before.faces
        &&& self.normals.gpu == before.normals.gpu
        &&& self.uvs == before.uvs
    }

    /// `self` differs from `before` at most in the contents of the texture
    /// coordinates.
    pub open spec fn same_but_uvs(self, before: Self) -> bool {
        &&& self.coords == before.coords
        &&& self.faces == before.faces
        &&& self.normals == before.normals
        &&& self.uvs.gpu == before.uvs.gpu
    }

    /// Every buffer can be copied by [`Mesh::try_clone`].
    pub open spec fn can_clone(self, clone_gpu: bool) -> bool {
        clone_gpu || !(self.coords.device_only() || self.faces.device_only()
            || self.normals.device_only() || self.uvs.device_only())
    }

    /// `self` is what [`Mesh::try_clone`] makes of `source`.
    pub open spec fn is_copy_of(self, source: Self, clone_gpu: bool) -> bool where
        S: Copy,
        G: Clone,
     {
        &&& self.coords.is_copy_of(source.coords, clone_gpu)
        &&& self.faces.is_copy_of(source.faces, clone_gpu)
        &&& self.normals.is_copy_of(source.normals, clone_gpu)
        &&& self.uvs.is_copy_of(source.uvs, clone_gpu)
    }
}

impl<S: Copy, G: Clone> Mesh<S, G> {
    /// A mesh of its own whose four buffers are copies of this one's.
    ///
    /// `clone_gpu` says whether the device-side state is duplicated too or
    /// left out, as in [`Buffer::try_clone`]. The mesh declines, and `None`
    /// is returned, as soon as one of its buffers does.
    pub fn try_clone(&self, clone_gpu: bool) -> (copy: Option<Self>)
        ensures
            copy is Some <==> self.can_clone(clone_gpu),
            copy matches Some(m) ==> m.is_copy_of(*self, clone_gpu),
    {
        let coords = match self.coords.try_clone(clone_gpu) {
            Some(b) => b,
            None => {
                return None;
            },
        };
        let faces = match self.faces.try_clone(clone_gpu) {
            Some(b) => b,
            None => {
                return None;
            },
        };
        let normals = match self.normals.try_clone(clone_gpu) {
            Some(b) => b,
            None => {
                return None;
            },
        };
        let uvs = match self.uvs.try_clone(clone_gpu) {
            Some(b) => b,
            None => {
                return None;
            },
        };
        Some(Mesh { coords, faces, normals, uvs })
    }
}

/// Recomputing the normals twice in a row, with nothing changed in between,
/// gives the same normals both times, as long as `compute` itself is
/// deterministic: the normals depend on the positions and the faces alone,
/// and recomputing touches neither.
pub proof fn lemma_recompute_normals_idempotent<
    S,
    G,
    F: FnMut(&[Point3<S>], &[Point3<u16>]) -> Vec<Vector3<S>>,
>(before: Mesh<S, G>, once: Mesh<S, G>, twice: Mesh<S, G>, compute: F)
    requires
        once.normals_recomputed(before, compute),
        twice.normals_recomputed(once, compute),
        is_deterministic(compute),
    ensures
        twice.normals.contents() == once.normals.contents(),
        twice.normals.gpu == once.normals.gpu,
        twice.coords == once.coords,
        twice.faces == once.faces,
        twice.uvs == once.uvs,
{
}

/// Names a mesh of a [`MeshStore`]. Copies of a handle name the same mesh.
#[derive(Clone, Copy, PartialEq, Eq, Structural, Debug)]
pub struct MeshHandle {
    /// The position of the mesh in its store.
    pub index: usize,
}

/// The meshes of a scene.
///
/// Nodes do not own their geometry: they hold handles into a store, so that
/// several nodes can show the same mesh and a change made through one of
/// them is there for all. A mesh stays in the store for as long as the store
/// lives, and its handle stays valid.
pub struct MeshStore<S, G> {
    meshes: Vec<Mesh<S, G>>,
}

impl<S, G> View for MeshStore<S, G> {
    type V = Seq<Mesh<S, G>>;

    /// The meshes in the order in which they were added; a handle's index is
    /// a position in this sequence.
    closed spec fn view(&self) -> Seq<Mesh<S, G>> {
        self.meshes@
    }
}

impl<S, G> MeshStore<S, G> {
    /// `handle` names a mesh of this store.
    pub open spec fn has(self, handle: MeshHandle) -> bool {
        handle.index < self@.len()
    }

    /// The mesh that `handle` names.
    pub open spec fn mesh(self, handle: MeshHandle) -> Mesh<S, G>
        recommends
            self.has(handle),
    {
        self@[handle.index as int]
    }

    /// `self` differs from `before` at most in the mesh that `handle` names.
    pub open spec fn same_but(self, before: Self, handle: MeshHandle) -> bool {
        self@ == before@.update(handle.index as int, self.mesh(handle))
    }

    /// An empty store.
    pub fn new() -> (store: Self)
        ensures
            store@ == Seq::<Mesh<S, G>>::empty(),
    {
        MeshStore { meshes: Vec::new() }
    }

    /// The number of meshes.
    pub fn len(&self) -> (n: usize)
        ensures
            n == self@.len(),
    {
        self.meshes.len()
    }

    /// Adds `mesh` and returns its handle. The meshes already there keep
    /// their handles.
    pub fn insert(&mut self, mesh: Mesh<S, G>) -> (handle: MeshHandle)
        ensures
            handle.index == old(self)@.len(),
            final(self)@ == old(self)@.push(mesh),
    {
        let index = self.meshes.len();
        self.meshes.push(mesh);
        MeshHandle { index }
    }

    /// Whether `handle` names a mesh of this store.
    pub fn contains(&self, handle: MeshHandle) -> (found: bool)
        ensures
            found == self.has(handle),
    {
        handle.index < self.meshes.len()
    }

    /// The mesh that `handle` names.
    pub fn get(&self, handle: MeshHandle) -> (mesh: &Mesh<S, G>)
        requires
            self.has(handle),
        ensures
            *mesh == self.mesh(handle),
    {
        &self.meshes[handle.index]
    }

    /// The mesh that `handle` names, for changing it in place.
    pub fn get_mut(&mut self, handle: MeshHandle) -> (mesh: &mut Mesh<S, G>)
        requires
            old(self).has(handle),
        ensures
            *mesh == old(self).mesh(handle),
            final(self)@ == old(self)@.update(handle.index as int, *final(mesh)),
    {
        &mut self.meshes[handle.index]
    }
}

} // verus!
