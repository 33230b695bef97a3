//! A renderable node of a 3D scene: shared geometry, per-node rendering
//! attributes, a pluggable shading strategy and a texture binding.
//!
//! # Sharing
//!
//! A node owns its attributes and shares everything else. Meshes and
//! materials live in stores, textures with whoever loads them, and a node
//! holds handles: a [`mesh::MeshHandle`], a [`material::MaterialHandle`] and
//! a [`texture::TextureHandle`]. Two nodes with the same handle have the same
//! mesh, material or texture, and what is changed through one of them is
//! changed for the other. Handles are small values that are copied freely; a
//! copy of the geometry itself is made only on request, by
//! [`object::Object::try_clone`].
//!
//! Access follows the borrow of the store. Reading takes the store by shared
//! reference, so any number of reads can go on at once and all see the same
//! contents; changing takes it by unique reference, so a change has the
//! store to itself and is complete before anybody can look again.
//!
//! # What is left to the caller
//!
//! The library never computes with coordinates or colours, so their scalar
//! type `S` is a parameter, and so are the payload `D` that an owner may
//! attach to a node and the state `G` that a renderer keeps on the graphics
//! device. What needs arithmetic, files or the device is passed in as a
//! function: the rule that derives normals, the loader of a texture, and the
//! [`material::Material`] that draws.
//!
//! # Absent buffers
//!
//! A mesh need not have all four of its buffers in memory. Operations that
//! run a function on a buffer skip an absent buffer without a word; see
//! [`mesh`].

pub mod geometry;
pub mod material;
pub mod mesh;
pub mod object;
pub mod texture;
