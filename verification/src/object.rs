//! The scene node.
//!
//! An [`Object`] pairs a mesh with the attributes by which it is drawn: a
//! colour, line and point sizes, two switches, a material and a texture. The
//! attributes are the node's own. The mesh, the material and the texture are
//! shared: the node holds handles, and several nodes may hold the same.

use vstd::prelude::*;

use crate::geometry::{Point2, Point3, Vector3};
use crate::material::{Material, MaterialHandle, MaterialStore};
use crate::mesh::{can_compute, can_read, can_write, reads, MeshHandle, MeshStore};
use crate::texture::{TextureHandle, TextureManager};

verus! {

/// The attributes of a scene node.
pub struct ObjectData<S, D> {
    material: MaterialHandle,
    texture: TextureHandle,
    color: Point3<S>,
    lines_color: Option<Point3<S>>,
    wlines: S,
    wpoints: S,
    draw_surface: bool,
    cull: bool,
    user_data: Option<D>,
}

/// What an [`ObjectData`] holds, field by field.
pub struct ObjectDataView<S, D> {
    /// The shading strategy.
    pub material: MaterialHandle,
    /// The texture.
    pub texture: TextureHandle,
    /// The colour, as red, green and blue.
    pub color: Point3<S>,
    /// The colour of the lines; `None` stands for the node's colour.
    pub lines_color: Option<Point3<S>>,
    /// The width of the lines.
    pub lines_width: S,
    /// The size of the points.
    pub points_size: S,
    /// Whether the surface is drawn.
    pub surface_rendering: bool,
    /// Whether faces that look away from the camera are left out.
    pub backface_culling: bool,
    /// What the node's owner attached to it; `None` when nothing is attached.
    pub user_data: Option<D>,
}

impl<S, D> View for ObjectData<S, D> {
    type V = ObjectDataView<S, D>;

    closed spec fn view(&self) -> ObjectDataView<S, D> {
        ObjectDataView {
            material: self.material,
            texture: self.texture,
            color: self.color,
            lines_color: self.lines_color,
            lines_width: self.wlines,
            points_size: self.wpoints,
            surface_rendering: self.draw_surface,
            backface_culling: self.cull,
            user_data: self.user_data,
        }
    }
}

impl<S: Copy, D> ObjectData<S, D> {
    /// A copy of these attributes with nothing attached.
    ///
    /// The copy names the same material and the same texture, and has the
    /// same colours, sizes and switches. What the owner attached is not
    /// copied, since nothing is known of how it could be. This always
    /// succeeds.
    pub fn try_clone(&self) -> (copy: Option<ObjectData<S, D>>)
        ensures
            copy matches Some(c) && c@ == (ObjectDataView { user_data: None, ..self@ }),
    {
        Some(
            ObjectData {
                material: self.material,
                texture: self.texture,
                color: self.color,
                lines_color: self.lines_color,
                wlines: self.wlines,
                wpoints: self.wpoints,
                draw_surface: self.draw_surface,
                cull: self.cull,
                user_data: None,
            },
        )
    }
}

impl<S, D> ObjectData<S, D> {
    /// The texture of the node.
    pub fn texture(&self) -> (texture: &TextureHandle)
        ensures
            *texture == self@.texture,
    {
        &self.texture
    }

    /// The colour of the node.
    pub fn color(&self) -> (color: &Point3<S>)
        ensures
            *color == self@.color,
    {
        &self.color
    }

    /// The colour of the lines drawn for the node; `None` stands for the
    /// node's colour.
    pub fn lines_color(&self) -> (color: Option<&Point3<S>>)
        ensures
            match color {
                Some(c) => self@.lines_color == Some(*c),
                None => self@.lines_color is None,
            },
    {
        self.lines_color.as_ref()
    }

    /// Whether the node has its surface drawn.
    pub fn surface_rendering_active(&self) -> (active: bool)
        ensures
            active == self@.surface_rendering,
    {
        self.draw_surface
    }

    /// Whether faces that look away from the camera are left out.
    pub fn backface_culling_enabled(&self) -> (enabled: bool)
        ensures
            enabled == self@.backface_culling,
    {
        self.cull
    }

    /// What the node's owner attached to it, or `None` when nothing is
    /// attached.
    pub fn user_data(&self) -> (user_data: Option<&D>)
        ensures
            match user_data {
                Some(d) => self@.user_data == Some(*d),
                None => self@.user_data is None,
            },
    {
        self.user_data.as_ref()
    }
}

impl<S: Copy, D> ObjectData<S, D> {
    /// The width of the lines drawn for the node.
    pub fn lines_width(&self) -> (width: S)
        ensures
            width == self@.lines_width,
    {
        self.wlines
    }

    /// The size of the points drawn for the node.
    pub fn points_size(&self) -> (size: S)
        ensures
            size == self@.points_size,
    {
        self.wpoints
    }
}

/// A node of the scene.
pub struct Object<S, D> {
    data: ObjectData<S, D>,
    mesh: MeshHandle,
}

impl<S, D> Object<S, D> {
    /// The attributes of this node.
    pub closed spec fn spec_data(&self) -> &ObjectData<S, D> {
        &self.data
    }

    /// The mesh of this node.
    pub closed spec fn spec_mesh(&self) -> MeshHandle {
        self.mesh
    }

    /// A node that shows `mesh` in the colour `(r, g, b)`, with the given
    /// texture and material.
    ///
    /// Its surface is drawn and back faces are culled. Line width and point
    /// size are the scalar's default, which is zero for the number types.
    /// The lines have no colour of their own and nothing is attached.
    pub fn new(
        mesh: MeshHandle,
        r: S,
        g: S,
        b: S,
        texture: TextureHandle,
        material: MaterialHandle,
    ) -> (object: Object<S, D>) where S: Default
        ensures
            object.mesh() == mesh,
            object.data()@.material == material,
            object.data()@.texture == texture,
            object.data()@.color == (Point3 { x: r, y: g, z: b }),
            object.data()@.lines_color is None,
            call_ensures(S::default, (), object.data()@.lines_width),
            call_ensures(S::default, (), object.data()@.points_size),
            object.data()@.surface_rendering,
            object.data()@.backface_culling,
            object.data()@.user_data is None,
    {
        let data = ObjectData {
            color: Point3::new(r, g, b),
            lines_color: None,
            texture,
            wlines: S::default(),
            wpoints: S::default(),
            draw_surface: true,
            cull: true,
            material,
            user_data: None,
        };
        Object { data, mesh }
    }

    /// The attributes of this node.
    #[verifier::when_used_as_spec(spec_data)]
    pub fn data(&self) -> (data: &ObjectData<S, D>)
        ensures
            data == self.spec_data(),
    {
        &self.data
    }

    /// The mesh of this node.
    #[verifier::when_used_as_spec(spec_mesh)]
    pub fn mesh(&self) -> (mesh: MeshHandle)
        ensures
            mesh == self.spec_mesh(),
    {
        self.mesh
    }
}

impl<S: Copy, D> Object<S, D> {
    /// A copy of this node with a mesh of its own and nothing attached.
    ///
    /// The attributes are copied as [`ObjectData::try_clone`] does, so the
    /// copy is drawn by the same material with the same texture. The mesh is
    /// copied buffer by buffer without its device-side state and added to
    /// `meshes`, so that later changes to either mesh leave the other alone.
    /// Where the mesh declines, or `meshes` has no mesh under this node's
    /// handle, `None` is returned and `meshes` is left as it was.
    pub fn try_clone<G: Clone>(&self, meshes: &mut MeshStore<S, G>) -> (copy: Option<Object<S, D>>)
        ensures
            copy is Some <==> old(meshes).has(self.mesh()) && old(meshes).mesh(
                self.mesh(),
            ).can_clone(false),
            copy is None ==> final(meshes)@ == old(meshes)@,
            copy matches Some(c) ==> {
                &&& c.data()@ == (ObjectDataView { user_data: None, ..self.data()@ })
                &&& c.mesh().index == old(meshes)@.len()
                &&& final(meshes)@ == old(meshes)@.push(final(meshes).mesh(c.mesh()))
                &&& final(meshes).mesh(c.mesh()).is_copy_of(old(meshes).mesh(self.mesh()), false)
            },
    {
        let data = match self.data.try_clone() {
            Some(data) => data,
            None => {
                return None;
            },
        };
        if !meshes.contains(self.mesh) {
            return None;
        }
        let mesh = match meshes.get(self.mesh).try_clone(false) {
            Some(mesh) => mesh,
            None => {
                return None;
            },
        };
        let mesh = meshes.insert(mesh);
        Some(Object { data, mesh })
    }
}

impl<S, D> Object<S, D> {
    /// What [`Object::render`] does: the node's material renders the node's
    /// mesh with everything that was passed in, and no other material and no
    /// other mesh changes.
    pub open spec fn drawn<G, X, C, L, M: Material<S, D, G, X, C, L>>(
        self,
        transform: X,
        scale: Vector3<S>,
        pass: usize,
        camera: C,
        camera_after: C,
        light: L,
        materials: MaterialStore<M>,
        materials_after: MaterialStore<M>,
        meshes: MeshStore<S, G>,
        meshes_after: MeshStore<S, G>,
    ) -> bool {
        let material = self.data()@.material;
        &&& materials_after.same_but(materials, material)
        &&& meshes_after.same_but(meshes, self.mesh())
        &&& materials_after.material(material).rendered(
            materials.material(material),
            pass,
            transform,
            scale,
            camera,
            camera_after,
            light,
            *self.data(),
            meshes.mesh(self.mesh()),
            meshes_after.mesh(self.mesh()),
        )
    }

    /// Draws this node: hands the transform, the scale, the pass, the camera
    /// and the light on to the node's material, together with the node's
    /// attributes and its mesh.
    ///
    /// The material may change itself, the camera and the mesh. The node
    /// itself does not change. Where a store has nothing under the node's
    /// handle there is nothing to draw with, and nothing happens.
    pub fn render<G, X, C, L, M: Material<S, D, G, X, C, L>>(
        &self,
        transform: &X,
        scale: &Vector3<S>,
        pass: usize,
        camera: &mut C,
        light: &L,
        materials: &mut MaterialStore<M>,
        meshes: &mut MeshStore<S, G>,
    )
        ensures
            old(materials).has(self.data()@.material) && old(meshes).has(self.mesh())
                ==> self.drawn(
                *transform,
                *scale,
                pass,
                *old(camera),
                *final(camera),
                *light,
                *old(materials),
                *final(materials),
                *old(meshes),
                *final(meshes),
            ),
            !(old(materials).has(self.data()@.material) && old(meshes).has(self.mesh())) ==> {
                &&& final(materials)@ == old(materials)@
                &&& final(meshes)@ == old(meshes)@
                &&& *final(camera) == *old(camera)
            },
    {
        if !materials.contains(self.data.material) || !meshes.contains(self.mesh) {
            return;
        }
        let material = materials.get_mut(self.data.material);
        let mesh = meshes.get_mut(self.mesh);
        material.render(pass, transform, scale, camera, light, &self.data, mesh);
    }
}

impl<S, D> Object<S, D> {
    /// Runs `f` on the positions of this node's mesh, which it may change.
    ///
    /// Where the mesh has no positions, or `meshes` has no mesh under this
    /// node's handle, `f` is not run and nothing changes; nothing tells the
    /// caller so. Empty positions are not absent: `f` is run on them.
    pub fn modify_vertices<G, F: FnMut(&mut Vec<Point3<S>>)>(
        &mut self,
        meshes: &mut MeshStore<S, G>,
        f: &mut F,
    )
        requires
            old(meshes).has(old(self).mesh()) ==> (old(meshes).mesh(
                old(self).mesh(),
            ).coords.data matches Some(v) ==> can_write(*old(f), v@)),
        ensures
            *final(self) == *old(self),
            *final(f) == *old(f),
            !old(meshes).has(old(self).mesh()) ==> final(meshes)@ == old(meshes)@,
            old(meshes).has(old(self).mesh()) ==> {
                &&& final(meshes).same_but(*old(meshes), old(self).mesh())
                &&& final(meshes).mesh(old(self).mesh()).same_but_coords(
                    old(meshes).mesh(old(self).mesh()),
                )
                &&& match old(meshes).mesh(old(self).mesh()).coords.data {
                    Some(v) => final(meshes).mesh(old(self).mesh()).coords.data matches Some(w)
                        && exists|r: &mut Vec<Point3<S>>|
                        *r == v && *final(r) == w && call_ensures(*old(f), (r,), ()),
                    None => final(meshes)@ == old(meshes)@,
                }
            },
    {
        if !meshes.contains(self.mesh) {
            return;
        }
        let ghost before = *meshes;
        let mesh = meshes.get_mut(self.mesh);
        mesh.coords.write(f);
        proof {
            if before.mesh(self.mesh).coords.data is None {
                assert(meshes@ =~= before@);
            }
        }
    }

    /// Runs `f` on the positions of this node's mesh and returns what it
    /// returned.
    ///
    /// Where the mesh has no positions, or `meshes` has no mesh under this
    /// node's handle, `f` is not run and `None` is returned. Empty
    /// positions are not absent: `f` is run on them.
    pub fn read_vertices<G, R, F: FnMut(&[Point3<S>]) -> R>(
        &self,
        meshes: &MeshStore<S, G>,
        f: &mut F,
    ) -> (out: Option<R>)
        requires
            meshes.has(self.mesh()) ==> (meshes.mesh(self.mesh()).coords.data matches Some(v)
                ==> can_read(*old(f), v@)),
        ensures
            *final(f) == *old(f),
            !meshes.has(self.mesh()) ==> out is None,
            meshes.has(self.mesh()) ==> match meshes.mesh(self.mesh()).coords.data {
                Some(v) => out matches Some(r) && reads(*old(f), v@, r),
                None => out is None,
            },
    {
        if !meshes.contains(self.mesh) {
            return None;
        }
        meshes.get(self.mesh).coords.read(f)
    }

    /// Replaces the normals of this node's mesh by what `compute` derives
    /// from its positions and faces.
    ///
    /// Where the mesh has no positions or no faces, or `meshes` has no mesh
    /// under this node's handle, `compute` is not run and nothing changes.
    pub fn recompute_normals<G, F: FnMut(&[Point3<S>], &[Point3<u16>]) -> Vec<Vector3<S>>>(
        &mut self,
        meshes: &mut MeshStore<S, G>,
        compute: &mut F,
    )
        requires
            old(meshes).has(old(self).mesh()) ==> ((
                old(meshes).mesh(old(self).mesh()).coords.contents(),
                old(meshes).mesh(old(self).mesh()).faces.contents(),
            ) matches (Some(c), Some(f)) ==> can_compute(*old(compute), c, f)),
        ensures
            *final(self) == *old(self),
            *final(compute) == *old(compute),
            !old(meshes).has(old(self).mesh()) ==> final(meshes)@ == old(meshes)@,
            old(meshes).has(old(self).mesh()) ==> {
                &&& final(meshes).same_but(*old(meshes), old(self).mesh())
                &&& final(meshes).mesh(old(self).mesh()).normals_recomputed(
                    old(meshes).mesh(old(self).mesh()),
                    *old(compute),
                )
            },
    {
        if !meshes.contains(self.mesh) {
            return;
        }
        let mesh = meshes.get_mut(self.mesh);
        mesh.recompute_normals(compute);
    }

    /// Runs `f` on the normals of this node's mesh, which it may change.
    ///
    /// Where the mesh has no normals, or `meshes` has no mesh under this
    /// node's handle, `f` is not run and nothing changes; nothing tells the
    /// caller so. Empty normals are not absent: `f` is run on them.
    pub fn modify_normals<G, F: FnMut(&mut Vec<Vector3<S>>)>(
        &mut self,
        meshes: &mut MeshStore<S, G>,
        f: &mut F,
    )
        requires
            old(meshes).has(old(self).mesh()) ==> (old(meshes).mesh(
                old(self).mesh(),
            ).normals.data matches Some(v) ==> can_write(*old(f), v@)),
        ensures
            *final(self) == *old(self),
            *final(f) == *old(f),
            !old(meshes).has(old(self).mesh()) ==> final(meshes)@ == old(meshes)@,
            old(meshes).has(old(self).mesh()) ==> {
                &&& final(meshes).same_but(*old(meshes), old(self).mesh())
                &&& final(meshes).mesh(old(self).mesh()).same_but_normals(
                    old(meshes).mesh(old(self).mesh()),
                )
                &&& match old(meshes).mesh(old(self).mesh()).normals.data {
                    Some(v) => final(meshes).mesh(old(self).mesh()).normals.data matches Some(w)
                        && exists|r: &mut Vec<Vector3<S>>|
                        *r == v && *final(r) == w && call_ensures(*old(f), (r,), ()),
                    None => final(meshes)@ == old(meshes)@,
                }
            },
    {
        if !meshes.contains(self.mesh) {
            return;
        }
        let ghost before = *meshes;
        let mesh = meshes.get_mut(self.mesh);
        mesh.normals.write(f);
        proof {
            if before.mesh(self.mesh).normals.data is None {
                assert(meshes@ =~= before@);
            }
        }
    }

    /// Runs `f` on the normals of this node's mesh and returns what it
    /// returned.
    ///
    /// Where the mesh has no normals, or `meshes` has no mesh under this
    /// node's handle, `f` is not run and `None` is returned. Empty
    /// normals are not absent: `f` is run on them.
    pub fn read_normals<G, R, F: FnMut(&[Vector3<S>]) -> R>(
        &self,
        meshes: &MeshStore<S, G>,
        f: &mut F,
    ) -> (out: Option<R>)
        requires
            meshes.has(self.mesh()) ==> (meshes.mesh(self.mesh()).normals.data matches Some(v)
                ==> can_read(*old(f), v@)),
        ensures
            *final(f) == *old(f),
            !meshes.has(self.mesh()) ==> out is None,
            meshes.has(self.mesh()) ==> match meshes.mesh(self.mesh()).normals.data {
                Some(v) => out matches Some(r) && reads(*old(f), v@, r),
                None => out is None,
            },
    {
        if !meshes.contains(self.mesh) {
            return None;
        }
        meshes.get(self.mesh).normals.read(f)
    }

    /// Runs `f` on the faces of this node's mesh, which it may change.
    ///
    /// Where the mesh has no faces, or `meshes` has no mesh under this
    /// node's handle, `f` is not run and nothing changes; nothing tells the
    /// caller so. Empty faces are not absent: `f` is run on them.
    pub fn modify_faces<G, F: FnMut(&mut Vec<Point3<u16>>)>(
        &mut self,
        meshes: &mut MeshStore<S, G>,
        f: &mut F,
    )
        requires
            old(meshes).has(old(self).mesh()) ==> (old(meshes).mesh(
                old(self).mesh(),
            ).faces.data matches Some(v) ==> can_write(*old(f), v@)),
        ensures
            *final(self) == *old(self),
            *final(f) == *old(f),
            !old(meshes).has(old(self).mesh()) ==> final(meshes)@ == old(meshes)@,
            old(meshes).has(old(self).mesh()) ==> {
                &&& final(meshes).same_but(*old(meshes), old(self).mesh())
                &&& final(meshes).mesh(old(self).mesh()).same_but_faces(
                    old(meshes).mesh(old(self).mesh()),
                )
                &&& match old(meshes).mesh(old(self).mesh()).faces.data {
                    Some(v) => final(meshes).mesh(old(self).mesh()).faces.data matches Some(w)
                        && exists|r: &mut Vec<Point3<u16>>|
                        *r == v && *final(r) == w && call_ensures(*old(f), (r,), ()),
                    None => final(meshes)@ == old(meshes)@,
                }
            },
    {
        if !meshes.contains(self.mesh) {
            return;
        }
        let ghost before = *meshes;
        let mesh = meshes.get_mut(self.mesh);
        mesh.faces.write(f);
        proof {
            if before.mesh(self.mesh).faces.data is None {
                assert(meshes@ =~= before@);
            }
        }
    }

    /// Runs `f` on the faces of this node's mesh and returns what it
    /// returned.
    ///
    /// Where the mesh has no faces, or `meshes` has no mesh under this
    /// node's handle, `f` is not run and `None` is returned. Empty
    /// faces are not absent: `f` is run on them.
    pub fn read_faces<G, R, F: FnMut(&[Point3<u16>]) -> R>(
        &self,
        meshes: &MeshStore<S, G>,
        f: &mut F,
    ) -> (out: Option<R>)
        requires
            meshes.has(self.mesh()) ==> (meshes.mesh(self.mesh()).faces.data matches Some(v)
                ==> can_read(*old(f), v@)),
        ensures
            *final(f) == *old(f),
            !meshes.has(self.mesh()) ==> out is None,
            meshes.has(self.mesh()) ==> match meshes.mesh(self.mesh()).faces.data {
                Some(v) => out matches Some(r) && reads(*old(f), v@, r),
                None => out is None,
            },
    {
        if !meshes.contains(self.mesh) {
            return None;
        }
        meshes.get(self.mesh).faces.read(f)
    }

    /// Runs `f` on the texture coordinates of this node's mesh, which it may change.
    ///
    /// Where the mesh has no texture coordinates, or `meshes` has no mesh under this
    /// node's handle, `f` is not run and nothing changes; nothing tells the
    /// caller so. Empty texture coordinates are not absent: `f` is run on them.
    pub fn modify_uvs<G, F: FnMut(&mut Vec<Point2<S>>)>(
        &mut self,
        meshes: &mut MeshStore<S, G>,
        f: &mut F,
    )
        requires
            old(meshes).has(old(self).mesh()) ==> (old(meshes).mesh(
                old(self).mesh(),
            ).uvs.data matches Some(v) ==> can_write(*old(f), v@)),
        ensures
            *final(self) == *old(self),
            *final(f) == *old(f),
            !old(meshes).has(old(self).mesh()) ==> final(meshes)@ == old(meshes)@,
            old(meshes).has(old(self).mesh()) ==> {
                &&& final(meshes).same_but(*old(meshes), old(self).mesh())
                &&& final(meshes).mesh(old(self).mesh()).same_but_uvs(
                    old(meshes).mesh(old(self).mesh()),
                )
                &&& match old(meshes).mesh(old(self).mesh()).uvs.data {
                    Some(v) => final(meshes).mesh(old(self).mesh()).uvs.data matches Some(w)
                        && exists|r: &mut Vec<Point2<S>>|
                        *r == v && *final(r) == w && call_ensures(*old(f), (r,), ()),
                    None => final(meshes)@ == old(meshes)@,
                }
            },
    {
        if !meshes.contains(self.mesh) {
            return;
        }
        let ghost before = *meshes;
        let mesh = meshes.get_mut(self.mesh);
        mesh.uvs.write(f);
        proof {
            if before.mesh(self.mesh).uvs.data is None {
                assert(meshes@ =~= before@);
            }
        }
    }

    /// Runs `f` on the texture coordinates of this node's mesh and returns what it
    /// returned.
    ///
    /// Where the mesh has no texture coordinates, or `meshes` has no mesh under this
    /// node's handle, `f` is not run and `None` is returned. Empty
    /// texture coordinates are not absent: `f` is run on them.
    pub fn read_uvs<G, R, F: FnMut(&[Point2<S>]) -> R>(
        &self,
        meshes: &MeshStore<S, G>,
        f: &mut F,
    ) -> (out: Option<R>)
        requires
            meshes.has(self.mesh()) ==> (meshes.mesh(self.mesh()).uvs.data matches Some(v)
                ==> can_read(*old(f), v@)),
        ensures
            *final(f) == *old(f),
            !meshes.has(self.mesh()) ==> out is None,
            meshes.has(self.mesh()) ==> match meshes.mesh(self.mesh()).uvs.data {
                Some(v) => out matches Some(r) && reads(*old(f), v@, r),
                None => out is None,
            },
    {
        if !meshes.contains(self.mesh) {
            return None;
        }
        meshes.get(self.mesh).uvs.read(f)
    }
}

impl<S, D> Object<S, D> {
    /// Gives this node the texture that `textures` has under `name`.
    ///
    /// The name must be registered: to ask for a texture that nobody
    /// registered is a mistake of the caller, who can find out beforehand
    /// with [`TextureManager::get`].
    pub fn set_texture_with_name(&mut self, textures: &TextureManager, name: &str)
        requires
            textures@.contains_key(name@),
        ensures
            final(self).data()@ == (ObjectDataView {
                texture: textures@[name@],
                ..old(self).data()@
            }),
            final(self).mesh() == old(self).mesh(),
    {
        match textures.get(name) {
            Some(texture) => {
                self.set_texture(texture);
            },
            // Not reached: the name is registered.
            None => {},
        }
    }

    /// Gives this node the texture that `textures` has under `name`; if the
    /// name is new, the texture is the one that `load` makes from `path`,
    /// and it is registered as `name`.
    pub fn set_texture_from_file<P, F: FnOnce(P) -> TextureHandle>(
        &mut self,
        textures: &mut TextureManager,
        path: P,
        name: &str,
        load: F,
    )
        requires
            !old(textures)@.contains_key(name@) ==> call_requires(load, (path,)),
        ensures
            final(textures)@.contains_key(name@),
            final(self).data()@ == (ObjectDataView {
                texture: final(textures)@[name@],
                ..old(self).data()@
            }),
            final(self).mesh() == old(self).mesh(),
            old(textures)@.contains_key(name@) ==> final(textures)@ == old(textures)@,
            !old(textures)@.contains_key(name@) ==> call_ensures(
                load,
                (path,),
                final(textures)@[name@],
            ) && final(textures)@ == old(textures)@.insert(name@, final(textures)@[name@]),
    {
        let texture = textures.add(path, name, load);
        self.set_texture(texture);
    }

    /// Gives this node the texture `texture`.
    pub fn set_texture(&mut self, texture: TextureHandle)
        ensures
            final(self).data()@ == (ObjectDataView { texture, ..old(self).data()@ }),
            final(self).mesh() == old(self).mesh(),
    {
        self.data.texture = texture;
    }

    /// Sets the colour of this node to `(r, g, b)`.
    ///
    /// The channels are meant to lie between zero and one. This is not
    /// checked.
    pub fn set_color(&mut self, r: S, g: S, b: S)
        ensures
            final(self).data()@ == (ObjectDataView {
                color: Point3 { x: r, y: g, z: b },
                ..old(self).data()@
            }),
            final(self).mesh() == old(self).mesh(),
    {
        self.data.color.x = r;
        self.data.color.y = g;
        self.data.color.z = b;
    }

    /// The attributes of this node, for changing them in place.
    pub fn data_mut(&mut self) -> (data: &mut ObjectData<S, D>)
        ensures
            *data == *old(self).data(),
            *final(self).data() == *final(data),
            final(self).mesh() == old(self).mesh(),
    {
        &mut self.data
    }

    /// Switches back-face culling on or off.
    pub fn enable_backface_culling(&mut self, active: bool)
        ensures
            final(self).data()@ == (ObjectDataView {
                backface_culling: active,
                ..old(self).data()@
            }),
            final(self).mesh() == old(self).mesh(),
    {
        self.data.cull = active;
    }

    /// Attaches `user_data` to this node, in place of what was attached.
    pub fn set_user_data(&mut self, user_data: D)
        ensures
            final(self).data()@ == (ObjectDataView {
                user_data: Some(user_data),
                ..old(self).data()@
            }),
            final(self).mesh() == old(self).mesh(),
    {
        self.data.user_data = Some(user_data);
    }

    /// The material by which this node is drawn.
    pub fn material(&self) -> (material: MaterialHandle)
        ensures
            material == self.data()@.material,
    {
        self.data.material
    }

    /// Has this node drawn by `material`.
    pub fn set_material(&mut self, material: MaterialHandle)
        ensures
            final(self).data()@ == (ObjectDataView { material, ..old(self).data()@ }),
            final(self).mesh() == old(self).mesh(),
    {
        self.data.material = material;
    }

    /// Sets the width of the lines drawn for this node.
    pub fn set_lines_width(&mut self, width: S)
        ensures
            final(self).data()@ == (ObjectDataView { lines_width: width, ..old(self).data()@ }),
            final(self).mesh() == old(self).mesh(),
    {
        self.data.wlines = width;
    }

    /// Sets the colour of the lines drawn for this node; `None` has them
    /// drawn in the node's colour.
    pub fn set_lines_color(&mut self, color: Option<Point3<S>>)
        ensures
            final(self).data()@ == (ObjectDataView { lines_color: color, ..old(self).data()@ }),
            final(self).mesh() == old(self).mesh(),
    {
        self.data.lines_color = color;
    }

    /// Sets the size of the points drawn for this node.
    pub fn set_points_size(&mut self, size: S)
        ensures
            final(self).data()@ == (ObjectDataView { points_size: size, ..old(self).data()@ }),
            final(self).mesh() == old(self).mesh(),
    {
        self.data.wpoints = size;
    }

    /// Switches the drawing of this node's surface on or off.
    pub fn set_surface_rendering_activation(&mut self, active: bool)
        ensures
            final(self).data()@ == (ObjectDataView {
                surface_rendering: active,
                ..old(self).data()@
            }),
            final(self).mesh() == old(self).mesh(),
    {
        self.data.draw_surface = active;
    }

    /// Whether this node's surface is drawn.
    pub fn surface_rendering_activation(&self) -> (active: bool)
        ensures
            active == self.data()@.surface_rendering,
    {
        self.data.draw_surface
    }
}

impl<S: Copy, D> Object<S, D> {
    /// The width of the lines drawn for this node.
    pub fn lines_width(&self) -> (width: S)
        ensures
            width == self.data()@.lines_width,
    {
        self.data.wlines
    }

    /// The colour of the lines drawn for this node; `None` stands for the
    /// node's colour.
    pub fn lines_color(&self) -> (color: Option<Point3<S>>)
        ensures
            color == self.data()@.lines_color,
    {
        self.data.lines_color
    }

    /// The size of the points drawn for this node.
    pub fn points_size(&self) -> (size: S)
        ensures
            size == self.data()@.points_size,
    {
        self.data.wpoints
    }
}

/// Nodes that hold the same material handle are drawn by one and the same
/// material: once the material was changed through the handle of one node,
/// a draw of any other node that holds the handle starts from the changed
/// material.
pub proof fn lemma_shared_material_is_one<S, D, G, X, C, L, M: Material<S, D, G, X, C, L>>(
    a: Object<S, D>,
    b: Object<S, D>,
    materials: MaterialStore<M>,
    changed: MaterialStore<M>,
    transform: X,
    scale: Vector3<S>,
    pass: usize,
    camera: C,
    camera_after: C,
    light: L,
    materials_after: MaterialStore<M>,
    meshes: MeshStore<S, G>,
    meshes_after: MeshStore<S, G>,
)
    requires
        a.data()@.material == b.data()@.material,
        materials.has(a.data()@.material),
        changed.same_but(materials, a.data()@.material),
        b.drawn(
            transform,
            scale,
            pass,
            camera,
            camera_after,
            light,
            changed,
            materials_after,
            meshes,
            meshes_after,
        ),
    ensures
        changed.has(b.data()@.material),
        materials_after.material(b.data()@.material).rendered(
            changed.material(a.data()@.material),
            pass,
            transform,
            scale,
            camera,
            camera_after,
            light,
            *b.data(),
            meshes.mesh(b.mesh()),
            meshes_after.mesh(b.mesh()),
        ),
{
}

} // verus!
