//! Textures by name.
//!
//! A texture is made and kept outside this library. Here it is a
//! [`TextureHandle`], and the [`TextureManager`] remembers under which name
//! each one was registered, so that nodes can ask for a texture by name and
//! get the one instance that everybody else gets.

use vstd::prelude::*;

verus! {

/// Names a texture. Copies of a handle name the same texture.
#[derive(Clone, Copy, PartialEq, Eq, Structural, Debug)]
pub struct TextureHandle {
    /// The identifier that the owner of the textures gave to this one.
    pub id: usize,
}

/// The textures that were registered, each under its name.
pub struct TextureManager {
    entries: Vec<(String, TextureHandle)>,
}

impl View for TextureManager {
    type V = Map<Seq<char>, TextureHandle>;

    /// The registered names, each with its texture.
    closed spec fn view(&self) -> Map<Seq<char>, TextureHandle> {
        Map::new(
            |name: Seq<char>| self.position(name) is Some,
            |name: Seq<char>| self.entries@[self.position(name).unwrap()].1,
        )
    }
}

impl TextureManager {
    /// No name is kept twice.
    #[verifier::type_invariant]
    spec fn well_formed(self) -> bool {
        forall|i: int, j: int|
            0 <= i < j < self.entries@.len() ==> #[trigger] self.entries@[i].0@
                != #[trigger] self.entries@[j].0@
    }

    /// Where `name` is kept, if it is.
    spec fn position(self, name: Seq<char>) -> Option<int> {
        if exists|i: int| 0 <= i < self.entries@.len() && #[trigger] self.entries@[i].0@ == name {
            Some(
                choose|i: int| 0 <= i < self.entries@.len() && #[trigger] self.entries@[i].0@ == name,
            )
        } else {
            None
        }
    }

    /// With no name kept twice, a name is kept where it is found.
    proof fn lemma_position(self, name: Seq<char>, i: int)
        requires
            self.well_formed(),
            0 <= i < self.entries@.len(),
            self.entries@[i].0@ == name,
        ensures
            self.position(name) == Some(i),
    {
        let p = self.position(name).unwrap();
        if p < i {
            assert(self.entries@[p].0@ == self.entries@[i].0@);
        } else if p > i {
            assert(self.entries@[i].0@ == self.entries@[p].0@);
        }
    }

    /// A manager with nothing registered.
    pub fn new() -> (manager: Self)
        ensures
            manager@ == Map::<Seq<char>, TextureHandle>::empty(),
    {
        let manager = TextureManager { entries: Vec::new() };
        assert(manager@ =~= Map::<Seq<char>, TextureHandle>::empty());
        manager
    }

    /// The texture registered as `name`, or `None` if there is none.
    pub fn get(&self, name: &str) -> (found: Option<TextureHandle>)
        ensures
            found == if self@.contains_key(name@) {
                Some(self@[name@])
            } else {
                None
            },
    {
        proof {
            use_type_invariant(self);
        }
        let key = name.to_owned();
        let mut i: usize = 0;
        while i < self.entries.len()
            invariant
                i <= self.entries@.len(),
                self.well_formed(),
                key@ == name@,
                forall|j: int| 0 <= j < i ==> #[trigger] self.entries@[j].0@ != name@,
            decreases self.entries@.len() - i,
        {
            if self.entries[i].0 == key {
                proof {
                    self.lemma_position(name@, i as int);
                }
                return Some(self.entries[i].1);
            }
            i += 1;
        }
        assert(self.position(name@) is None);
        None
    }

    /// The texture registered as `name`; if there is none yet, the one that
    /// `load` makes from `path`, which is then registered as `name`.
    ///
    /// `load` is run only when the name is new. A name that is registered
    /// keeps its texture, whatever `path` says.
    pub fn add<P, F: FnOnce(P) -> TextureHandle>(&mut self, path: P, name: &str, load: F) -> (texture:
        TextureHandle)
        requires
            !old(self)@.contains_key(name@) ==> call_requires(load, (path,)),
        ensures
            old(self)@.contains_key(name@) ==> texture == old(self)@[name@] && final(self)@ == old(
                self,
            )@,
            !old(self)@.contains_key(name@) ==> call_ensures(load, (path,), texture) && final(self)@
                == old(self)@.insert(name@, texture),
    {
        match self.get(name) {
            Some(texture) => texture,
            None => {
                proof {
                    use_type_invariant(&*self);
                }
                let texture = load(path);
                let key = name.to_owned();
                let ghost before = *self;
                assert forall|i: int| 0 <= i < before.entries@.len() implies #[trigger] before.entries@[i].0@
                    != name@ by {
                    if before.entries@[i].0@ == name@ {
                        before.lemma_position(name@, i);
                    }
                }
                // The entries are taken out, extended and put back whole, so
                // that the manager is never seen with a name kept twice.
                let mut taken = TextureManager { entries: Vec::new() };
                core::mem::swap(self, &mut taken);
                let mut entries = taken.entries;
                entries.push((key, texture));
                *self = TextureManager { entries };
                proof {
                    let after = *self;
                    let last = before.entries@.len() as int;
                    assert(after.well_formed());
                    after.lemma_position(name@, last);
                    assert forall|other: Seq<char>| other != name@ implies after.position(other)
                        == before.position(other) by {
                        if before.position(other) is Some {
                            let p = before.position(other).unwrap();
                            assert(after.entries@[p].0@ == other);
                            after.lemma_position(other, p);
                        } else if after.position(other) is Some {
                            let p = after.position(other).unwrap();
                            assert(p != last);
                            assert(before.entries@[p].0@ == other);
                        }
                    }
                    assert(after@ =~= before@.insert(name@, texture));
                }
                texture
            },
        }
    }
}

} // verus!
