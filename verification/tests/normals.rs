//! Recomputing normals. The arithmetic is done here, with nalgebra on `f32`;
//! the library decides when it runs and where the result goes.

use std::cell::Cell;

use nalgebra as na;

use scene_object::geometry::{Point2, Point3, Vector3};
use scene_object::material::MaterialHandle;
use scene_object::mesh::{Mesh, MeshHandle, MeshStore};
use scene_object::object::Object;
use scene_object::texture::TextureHandle;

type Node = Object<f32, ()>;

/// For each vertex the mean of the unit normals of the faces around it.
fn vertex_normals(coords: &[Point3<f32>], faces: &[Point3<u16>]) -> Vec<Vector3<f32>> {
    let mut sums: Vec<na::Vector3<f32>> = vec![na::Vector3::zeros(); coords.len()];
    let mut counts: Vec<f32> = vec![0.0; coords.len()];
    for face in faces {
        let corners: [usize; 3] = [face.x as usize, face.y as usize, face.z as usize];
        let a = na::Point3::new(coords[corners[0]].x, coords[corners[0]].y, coords[corners[0]].z);
        let b = na::Point3::new(coords[corners[1]].x, coords[corners[1]].y, coords[corners[1]].z);
        let c = na::Point3::new(coords[corners[2]].x, coords[corners[2]].y, coords[corners[2]].z);
        let cross: na::Vector3<f32> = (b - a).cross(&(c - a));
        let normal: na::Vector3<f32> = if cross.norm_squared() != 0.0 {
            cross.normalize()
        } else {
            cross
        };
        for corner in corners {
            sums[corner] += normal;
            counts[corner] += 1.0;
        }
    }
    sums.iter()
        .zip(counts.iter())
        .map(|(sum, count)| {
            let mean: na::Vector3<f32> = sum / *count;
            Vector3::new(mean.x, mean.y, mean.z)
        })
        .collect()
}

fn triangle_node(meshes: &mut MeshStore<f32, u32>) -> Node {
    let mesh: Mesh<f32, u32> = Mesh::new(
        vec![
            Point3::new(0.0, 0.0, 0.0),
            Point3::new(1.0, 0.0, 0.0),
            Point3::new(0.0, 1.0, 0.0),
        ],
        vec![Point3::new(0u16, 1u16, 2u16)],
        None,
        None,
    );
    let handle: MeshHandle = meshes.insert(mesh);
    Object::new(
        handle,
        1.0,
        0.0,
        0.0,
        TextureHandle { id: 0 },
        MaterialHandle { index: 0 },
    )
}

#[test]
fn single_triangle_gets_its_face_normal_three_times() {
    let mut meshes: MeshStore<f32, u32> = MeshStore::new();
    let mut node: Node = triangle_node(&mut meshes);
    assert_eq!(*node.data().color(), Point3::new(1.0f32, 0.0, 0.0));
    assert_eq!(node.read_normals(&meshes, &mut |n: &[Vector3<f32>]| n.len()), None);

    let mut compute = vertex_normals;
    node.recompute_normals(&mut meshes, &mut compute);

    let normals: Vec<Vector3<f32>> = node
        .read_normals(&meshes, &mut |n: &[Vector3<f32>]| n.to_vec())
        .expect("recomputing makes the normals");
    assert_eq!(normals.len(), 3);
    for normal in &normals {
        assert_eq!(*normal, Vector3::new(0.0, 0.0, 1.0));
        let length: f32 = (normal.x * normal.x + normal.y * normal.y + normal.z * normal.z).sqrt();
        assert_eq!(length, 1.0);
    }
    // Nothing else was made or changed.
    assert_eq!(node.read_uvs(&meshes, &mut |t: &[Point2<f32>]| t.len()), None);
    assert_eq!(node.read_vertices(&meshes, &mut |c: &[Point3<f32>]| c.len()), Some(3));
    assert_eq!(node.read_faces(&meshes, &mut |f: &[Point3<u16>]| f.len()), Some(1));
}

#[test]
fn the_winding_of_the_face_orients_the_normal() {
    let mut meshes: MeshStore<f32, u32> = MeshStore::new();
    let mut node: Node = triangle_node(&mut meshes);
    node.modify_faces(&mut meshes, &mut |f: &mut Vec<Point3<u16>>| {
        f[0] = Point3::new(0, 2, 1);
    });
    let mut compute = vertex_normals;
    node.recompute_normals(&mut meshes, &mut compute);
    let normals: Vec<Vector3<f32>> = node
        .read_normals(&meshes, &mut |n: &[Vector3<f32>]| n.to_vec())
        .expect("recomputing makes the normals");
    assert_eq!(normals, vec![Vector3::new(0.0, 0.0, -1.0); 3]);
}

#[test]
fn recomputing_twice_gives_the_same_normals() {
    let mut meshes: MeshStore<f32, u32> = MeshStore::new();
    let mesh: Mesh<f32, u32> = Mesh::new(
        vec![
            Point3::new(0.0, 0.0, 0.0),
            Point3::new(1.0, 0.0, 0.3),
            Point3::new(0.2, 1.0, 0.0),
            Point3::new(1.1, 0.9, -0.7),
        ],
        vec![Point3::new(0u16, 1, 2), Point3::new(1u16, 3, 2)],
        Some(vec![Vector3::new(9.0, 9.0, 9.0); 4]),
        None,
    );
    let handle: MeshHandle = meshes.insert(mesh);
    let mut node: Node = Object::new(
        handle,
        0.0,
        0.0,
        0.0,
        TextureHandle { id: 0 },
        MaterialHandle { index: 0 },
    );
    let mut compute = vertex_normals;

    node.recompute_normals(&mut meshes, &mut compute);
    let once: Vec<Vector3<f32>> = node
        .read_normals(&meshes, &mut |n: &[Vector3<f32>]| n.to_vec())
        .expect("normals are there");
    node.recompute_normals(&mut meshes, &mut compute);
    let twice: Vec<Vector3<f32>> = node
        .read_normals(&meshes, &mut |n: &[Vector3<f32>]| n.to_vec())
        .expect("normals are there");

    assert_eq!(once.len(), 4);
    assert_ne!(once[0], Vector3::new(9.0, 9.0, 9.0));
    let bits = |v: &Vector3<f32>| -> [u32; 3] { [v.x.to_bits(), v.y.to_bits(), v.z.to_bits()] };
    let once_bits: Vec<[u32; 3]> = once.iter().map(bits).collect();
    let twice_bits: Vec<[u32; 3]> = twice.iter().map(bits).collect();
    assert_eq!(once_bits, twice_bits);
}

#[test]
fn recomputing_overwrites_the_old_normals_and_nothing_else() {
    let mut meshes: MeshStore<f32, u32> = MeshStore::new();
    let mesh: Mesh<f32, u32> = Mesh::new(
        vec![
            Point3::new(0.0, 0.0, 0.0),
            Point3::new(0.0, 1.0, 0.0),
            Point3::new(0.0, 0.0, 1.0),
        ],
        vec![Point3::new(0u16, 1, 2)],
        Some(vec![Vector3::new(0.0, 0.0, 1.0); 7]),
        Some(vec![Point2::new(0.5, 0.5); 3]),
    );
    let handle: MeshHandle = meshes.insert(mesh);
    let mut node: Node = Object::new(
        handle,
        0.0,
        0.0,
        0.0,
        TextureHandle { id: 0 },
        MaterialHandle { index: 0 },
    );
    meshes.get_mut(handle).normals.gpu = Some(4);
    let mut compute = vertex_normals;
    node.recompute_normals(&mut meshes, &mut compute);

    let mesh: &Mesh<f32, u32> = meshes.get(handle);
    assert_eq!(mesh.normals.data, Some(vec![Vector3::new(1.0, 0.0, 0.0); 3]));
    assert_eq!(mesh.normals.gpu, Some(4));
    assert_eq!(mesh.uvs.data, Some(vec![Point2::new(0.5, 0.5); 3]));
    assert_eq!(mesh.faces.data, Some(vec![Point3::new(0u16, 1, 2)]));
    assert_eq!(mesh.coords.data.as_ref().map(|c| c.len()), Some(3));
}

#[test]
fn recomputing_hands_over_the_current_positions_and_faces() {
    let mut meshes: MeshStore<f32, u32> = MeshStore::new();
    let mut node: Node = triangle_node(&mut meshes);
    node.modify_vertices(&mut meshes, &mut |c: &mut Vec<Point3<f32>>| {
        c[1] = Point3::new(4.0, 0.0, 0.0);
    });
    let calls: Cell<u32> = Cell::new(0);
    let mut spy = |coords: &[Point3<f32>], faces: &[Point3<u16>]| -> Vec<Vector3<f32>> {
        calls.set(calls.get() + 1);
        assert_eq!(coords.len(), 3);
        assert_eq!(coords[1], Point3::new(4.0, 0.0, 0.0));
        assert_eq!(faces, &[Point3::new(0u16, 1, 2)][..]);
        vec![Vector3::new(0.5, 0.5, 0.5)]
    };
    node.recompute_normals(&mut meshes, &mut spy);
    assert_eq!(calls.get(), 1);
    // What the function returns is stored as it is.
    assert_eq!(
        meshes.get(node.mesh()).normals.data,
        Some(vec![Vector3::new(0.5, 0.5, 0.5)])
    );
}

#[test]
fn recomputing_needs_positions_and_faces() {
    let mut meshes: MeshStore<f32, u32> = MeshStore::new();
    let mut node: Node = triangle_node(&mut meshes);
    meshes.get_mut(node.mesh()).faces.data = None;
    meshes.get_mut(node.mesh()).normals.data = Some(vec![Vector3::new(0.0, 1.0, 0.0)]);
    let calls: Cell<u32> = Cell::new(0);
    let mut spy = |_c: &[Point3<f32>], _f: &[Point3<u16>]| -> Vec<Vector3<f32>> {
        calls.set(calls.get() + 1);
        Vec::new()
    };
    node.recompute_normals(&mut meshes, &mut spy);
    assert_eq!(calls.get(), 0);
    assert_eq!(
        meshes.get(node.mesh()).normals.data,
        Some(vec![Vector3::new(0.0, 1.0, 0.0)])
    );

    let mut stray: Node = Object::new(
        MeshHandle { index: 9 },
        0.0,
        0.0,
        0.0,
        TextureHandle { id: 0 },
        MaterialHandle { index: 0 },
    );
    stray.recompute_normals(&mut meshes, &mut spy);
    assert_eq!(calls.get(), 0);
}

#[test]
fn mesh_recompute_normals_works_on_its_own() {
    let mut mesh: Mesh<f32, u32> = Mesh::new(
        vec![
            Point3::new(0.0, 0.0, 0.0),
            Point3::new(0.0, 0.0, 1.0),
            Point3::new(1.0, 0.0, 0.0),
        ],
        vec![Point3::new(0u16, 1, 2)],
        None,
        None,
    );
    let mut compute = vertex_normals;
    mesh.recompute_normals(&mut compute);
    assert_eq!(mesh.normals.data, Some(vec![Vector3::new(0.0, 1.0, 0.0); 3]));
}
