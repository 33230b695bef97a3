//! Textures by name, and the three ways to give a node its texture.

use std::cell::Cell;
use std::path::Path;

use scene_object::material::MaterialHandle;
use scene_object::mesh::MeshHandle;
use scene_object::object::Object;
use scene_object::texture::{TextureHandle, TextureManager};

type Node = Object<f32, ()>;

fn node() -> Node {
    Object::new(
        MeshHandle { index: 0 },
        1.0,
        1.0,
        1.0,
        TextureHandle { id: 0 },
        MaterialHandle { index: 0 },
    )
}

#[test]
fn a_new_manager_knows_no_name() {
    let textures: TextureManager = TextureManager::new();
    assert_eq!(textures.get("default"), None);
    assert_eq!(textures.get(""), None);
}

#[test]
fn add_loads_a_new_name_once() {
    let mut textures: TextureManager = TextureManager::new();
    let loads: Cell<u32> = Cell::new(0);
    let load = |path: &Path| -> TextureHandle {
        loads.set(loads.get() + 1);
        TextureHandle { id: path.as_os_str().len() }
    };

    let wood: TextureHandle = textures.add(Path::new("media/wood.png"), "wood", load);
    assert_eq!(wood, TextureHandle { id: 14 });
    assert_eq!(loads.get(), 1);
    assert_eq!(textures.get("wood"), Some(wood));

    // The name is taken: the path is not looked at again.
    let again: TextureHandle = textures.add(Path::new("elsewhere.png"), "wood", load);
    assert_eq!(again, wood);
    assert_eq!(loads.get(), 1);
    assert_eq!(textures.get("wood"), Some(wood));
}

#[test]
fn names_are_kept_apart() {
    let mut textures: TextureManager = TextureManager::new();
    let a: TextureHandle = textures.add(1usize, "a", |id: usize| TextureHandle { id });
    let b: TextureHandle = textures.add(2usize, "b", |id: usize| TextureHandle { id });
    let ab: TextureHandle = textures.add(3usize, "ab", |id: usize| TextureHandle { id });
    assert_eq!((a.id, b.id, ab.id), (1, 2, 3));
    assert_eq!(textures.get("a"), Some(a));
    assert_eq!(textures.get("b"), Some(b));
    assert_eq!(textures.get("ab"), Some(ab));
    assert_eq!(textures.get("ba"), None);
    assert_eq!(textures.get("A"), None);
    assert_eq!(textures.get("a "), None);
}

#[test]
fn the_empty_name_is_a_name() {
    let mut textures: TextureManager = TextureManager::new();
    let unnamed: TextureHandle = textures.add(9usize, "", |id: usize| TextureHandle { id });
    assert_eq!(textures.get(""), Some(unnamed));
    assert_eq!(textures.get(" "), None);
}

#[test]
fn set_texture_replaces_the_texture_only() {
    let mut node: Node = node();
    node.set_points_size(2.0);
    node.set_texture(TextureHandle { id: 21 });
    assert_eq!(*node.data().texture(), TextureHandle { id: 21 });
    assert_eq!(node.points_size(), 2.0);
    assert_eq!(node.material(), MaterialHandle { index: 0 });
    assert_eq!(node.mesh(), MeshHandle { index: 0 });
}

#[test]
fn set_texture_with_name_takes_the_registered_texture() {
    let mut textures: TextureManager = TextureManager::new();
    textures.add(5usize, "stone", |id: usize| TextureHandle { id });
    textures.add(6usize, "grass", |id: usize| TextureHandle { id });
    let mut node: Node = node();
    assert!(textures.get("grass").is_some());
    node.set_texture_with_name(&textures, "grass");
    assert_eq!(*node.data().texture(), TextureHandle { id: 6 });
    node.set_texture_with_name(&textures, "stone");
    assert_eq!(*node.data().texture(), TextureHandle { id: 5 });
}

#[test]
fn nodes_that_ask_for_one_name_get_one_texture() {
    let mut textures: TextureManager = TextureManager::new();
    textures.add(5usize, "stone", |id: usize| TextureHandle { id });
    let mut a: Node = node();
    let mut b: Node = node();
    a.set_texture_with_name(&textures, "stone");
    b.set_texture_with_name(&textures, "stone");
    assert_eq!(a.data().texture(), b.data().texture());
}

#[test]
fn set_texture_from_file_loads_and_registers_a_new_name() {
    let mut textures: TextureManager = TextureManager::new();
    let mut node: Node = node();
    let loads: Cell<u32> = Cell::new(0);
    node.set_texture_from_file(&mut textures, Path::new("media/brick.png"), "brick", |_p: &Path| {
        loads.set(loads.get() + 1);
        TextureHandle { id: 33 }
    });
    assert_eq!(loads.get(), 1);
    assert_eq!(*node.data().texture(), TextureHandle { id: 33 });
    assert_eq!(textures.get("brick"), Some(TextureHandle { id: 33 }));
}

#[test]
fn set_texture_from_file_reuses_a_registered_name() {
    let mut textures: TextureManager = TextureManager::new();
    textures.add(8usize, "brick", |id: usize| TextureHandle { id });
    let mut node: Node = node();
    let loads: Cell<u32> = Cell::new(0);
    node.set_texture_from_file(&mut textures, Path::new("media/other.png"), "brick", |_p: &Path| {
        loads.set(loads.get() + 1);
        TextureHandle { id: 34 }
    });
    assert_eq!(loads.get(), 0);
    assert_eq!(*node.data().texture(), TextureHandle { id: 8 });
    assert_eq!(textures.get("brick"), Some(TextureHandle { id: 8 }));
}
