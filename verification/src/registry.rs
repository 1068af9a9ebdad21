//! What runs in the background, found by the path of its FIFO.
use crate::paths::{path_key, PathKey, PathKeyView};
use vstd::prelude::*;

verus! {

/// One that runs, and where.
#[derive(Debug)]
struct Entry<H> {
    key: PathKey,
    handle: H,
}

/// Handles by path. A path has one handle at most, however it is spelt.
#[derive(Debug)]
pub struct Registry<H> {
    entries: Vec<Entry<H>>,
}

spec fn is_at<H>(entries: Seq<Entry<H>>, i: int, key: PathKeyView) -> bool {
    0 <= i < entries.len() && entries[i].key@ == key
}

spec fn place<H>(entries: Seq<Entry<H>>, key: PathKeyView) -> int {
    choose|i: int| is_at(entries, i, key)
}

spec fn map_of<H>(entries: Seq<Entry<H>>) -> Map<PathKeyView, H> {
    Map::new(
        |key: PathKeyView| exists|i: int| is_at(entries, i, key),
        |key: PathKeyView| entries[place(entries, key)].handle,
    )
}

spec fn one_each<H>(entries: Seq<Entry<H>>) -> bool {
    forall|i: int, j: int|
        0 <= i < entries.len() && 0 <= j < entries.len() && (#[trigger] entries[i]).key@ == (
        #[trigger] entries[j]).key@ ==> i == j
}

impl<H> View for Registry<H> {
    type V = Map<PathKeyView, H>;

    closed spec fn view(&self) -> Map<PathKeyView, H> {
        map_of(self.entries@)
    }
}

proof fn placed<H>(entries: Seq<Entry<H>>, i: int)
    requires
        one_each(entries),
        0 <= i < entries.len(),
    ensures
        map_of(entries).dom().contains(entries[i].key@),
        map_of(entries)[entries[i].key@] == entries[i].handle,
{
    let key = entries[i].key@;
    assert(is_at(entries, i, key));
    assert(is_at(entries, place(entries, key), key));
}

impl<H> Registry<H> {
    #[verifier::type_invariant]
    spec fn one_handle_each(self) -> bool {
        one_each(self.entries@)
    }

    /// Nothing runs yet.
    pub fn new() -> (registry: Registry<H>)
        ensures
            registry@ == Map::<PathKeyView, H>::empty(),
    {
        let registry = Registry { entries: Vec::new() };
        assert(registry@ =~= Map::empty());
        registry
    }

    fn find(&self, key: &PathKey) -> (found: Option<usize>)
        ensures
            match found {
                Some(i) => i < self.entries@.len() && self.entries@[i as int].key@ == key@
                    && self@.dom().contains(key@) && self@[key@]
                    == self.entries@[i as int].handle,
                None => !self@.dom().contains(key@),
            },
    {
        proof {
            use_type_invariant(self);
        }
        for i in 0..self.entries.len()
            invariant
                one_each(self.entries@),
                forall|j: int| 0 <= j < i ==> (#[trigger] self.entries@[j]).key@ != key@,
        {
            if self.entries[i].key.same(key) {
                proof {
                    placed(self.entries@, i as int);
                }
                return Some(i);
            }
        }
        assert forall|j: int| !is_at(self.entries@, j, key@) by {}
        None
    }

    /// Whether something runs at the path.
    pub fn contains(&self, path: &str) -> (there: bool)
        ensures
            there == self@.dom().contains(crate::paths::key_of(path@)),
    {
        self.find(&path_key(path)).is_some()
    }

    /// What runs at the path.
    pub fn get(&self, path: &str) -> (handle: Option<&H>)
        ensures
            match handle {
                Some(h) => self@.dom().contains(crate::paths::key_of(path@)) && *h
                    == self@[crate::paths::key_of(path@)],
                None => !self@.dom().contains(crate::paths::key_of(path@)),
            },
    {
        match self.find(&path_key(path)) {
            Some(i) => Some(&self.entries[i].handle),
            None => None,
        }
    }

    /// Enters what now runs at the path, unless something runs there already, in which
    /// case it is handed back.
    pub fn insert(&mut self, path: &str, handle: H) -> (rejected: Option<H>)
        ensures
            old(self)@.dom().contains(crate::paths::key_of(path@)) ==> rejected == Some(handle)
                && final(self)@ == old(self)@,
            !old(self)@.dom().contains(crate::paths::key_of(path@)) ==> rejected is None
                && final(self)@ == old(self)@.insert(crate::paths::key_of(path@), handle),
    {
        let key = path_key(path);
        if self.find(&key).is_some() {
            return Some(handle);
        }
        proof {
            use_type_invariant(&*self);
        }
        let mut entries = Vec::new();
        std::mem::swap(&mut entries, &mut self.entries);
        let ghost before = entries@;
        entries.push(Entry { key, handle });
        proof {
            let after = entries@;
            assert(forall|j: int| !is_at(before, j, key@));
            assert forall|i: int, j: int|
                0 <= i < after.len() && 0 <= j < after.len() && (#[trigger] after[i]).key@ == (
                #[trigger] after[j]).key@ implies i == j by {
                if i < before.len() {
                    assert(!is_at(before, i, key@));
                }
                if j < before.len() {
                    assert(!is_at(before, j, key@));
                }
            }
            assert forall|k: PathKeyView|
                map_of(after).dom().contains(k) <==> map_of(before).insert(
                    key@,
                    handle,
                ).dom().contains(k) by {
                if map_of(before).dom().contains(k) {
                    let i = choose|i: int| is_at(before, i, k);
                    assert(is_at(after, i, k));
                }
                if map_of(after).dom().contains(k) {
                    let i = choose|i: int| is_at(after, i, k);
                    if i < before.len() {
                        assert(is_at(before, i, k));
                    }
                }
                assert(is_at(after, before.len() as int, key@));
            }
            assert forall|k: PathKeyView| map_of(after).dom().contains(k) implies map_of(after)[k]
                == map_of(before).insert(key@, handle)[k] by {
                let i = choose|i: int| is_at(after, i, k);
                placed(after, i);
                if i < before.len() {
                    placed(before, i);
                    assert(!is_at(before, i, key@));
                }
            }
            assert(map_of(after) =~= map_of(before).insert(key@, handle));
        }
        self.entries = entries;
        None
    }

    /// Takes out what runs at the path.
    pub fn remove(&mut self, path: &str) -> (handle: Option<H>)
        ensures
            final(self)@ == old(self)@.remove(crate::paths::key_of(path@)),
            match handle {
                Some(h) => old(self)@.dom().contains(crate::paths::key_of(path@)) && h
                    == old(self)@[crate::paths::key_of(path@)],
                None => !old(self)@.dom().contains(crate::paths::key_of(path@)),
            },
    {
        let key = path_key(path);
        match self.find(&key) {
            None => {
                assert(self@.remove(key@) =~= self@);
                None
            },
            Some(at) => {
                proof {
                    use_type_invariant(&*self);
                }
                let mut entries = Vec::new();
                std::mem::swap(&mut entries, &mut self.entries);
                let ghost before = entries@;
                let entry = entries.remove(at);
                proof {
                    let after = entries@;
                    let was = |i: int| if i < at {
                        i
                    } else {
                        i + 1
                    };
                    assert(forall|i: int| 0 <= i < after.len() ==> after[i] == before[was(i)]);
                    assert forall|i: int, j: int|
                        0 <= i < after.len() && 0 <= j < after.len() && (
                        #[trigger] after[i]).key@ == (#[trigger] after[j]).key@ implies i == j by {
                        assert(after[i] == before[was(i)]);
                        assert(after[j] == before[was(j)]);
                    }
                    assert forall|k: PathKeyView|
                        map_of(after).dom().contains(k) <==> map_of(before).remove(
                            key@,
                        ).dom().contains(k) by {
                        if map_of(after).dom().contains(k) {
                            let i = choose|i: int| is_at(after, i, k);
                            assert(after[i] == before[was(i)]);
                            assert(is_at(before, was(i), k));
                        }
                        if map_of(before).dom().contains(k) && k != key@ {
                            let i = choose|i: int| is_at(before, i, k);
                            let j = if i < at {
                                i
                            } else {
                                i - 1
                            };
                            assert(was(j) == i);
                            assert(after[j] == before[i]);
                            assert(is_at(after, j, k));
                        }
                    }
                    assert forall|k: PathKeyView| map_of(after).dom().contains(k) implies map_of(
                        after,
                    )[k] == map_of(before).remove(key@)[k] by {
                        let i = choose|i: int| is_at(after, i, k);
                        assert(after[i] == before[was(i)]);
                        placed(after, i);
                        placed(before, was(i));
                    }
                    assert(map_of(after) =~= map_of(before).remove(key@));
                }
                self.entries = entries;
                Some(entry.handle)
            },
        }
    }
}

} // verus!
