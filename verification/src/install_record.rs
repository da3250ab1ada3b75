//! The record of one installation: for every file that was written, its path
//! inside the archive and the digest of its bytes.

use crate::text::same_text;
use vstd::prelude::*;

verus! {

/// A map from archive-relative path to content digest.
#[derive(Debug)]
pub struct InstallRecord {
    entries: Vec<(String, String)>,
}

impl View for InstallRecord {
    type V = Map<Seq<char>, Seq<char>>;

    closed spec fn view(&self) -> Map<Seq<char>, Seq<char>> {
        Map::new(
            |path: Seq<char>| exists|i: int| self.holds_at(i, path),
            |path: Seq<char>| self.entries@[choose|i: int| self.holds_at(i, path)].1@,
        )
    }
}

impl InstallRecord {
    /// Entry `i` is the one for `path`.
    pub closed spec fn holds_at(&self, i: int, path: Seq<char>) -> bool {
        0 <= i < self.entries@.len() && #[trigger] self.entries@[i].0@ == path
    }

    /// No path is recorded twice.
    pub closed spec fn well_formed(&self) -> bool {
        forall|i: int, j: int|
            #![trigger self.entries@[i], self.entries@[j]]
            0 <= i < j < self.entries@.len() ==> self.entries@[i].0@ != self.entries@[j].0@
    }

    /// The number of recorded paths.
    pub closed spec fn count(&self) -> nat {
        self.entries@.len()
    }

    /// A record without entries.
    pub fn new() -> (record: Self)
        ensures
            record.well_formed(),
            record@ == Map::<Seq<char>, Seq<char>>::empty(),
            record.count() == 0,
    {
        let record = InstallRecord { entries: Vec::new() };
        assert(record@ =~= Map::<Seq<char>, Seq<char>>::empty());
        record
    }

    /// The number of recorded paths.
    pub fn len(&self) -> (n: usize)
        ensures
            n == self.count(),
    {
        self.entries.len()
    }

    /// Whether nothing is recorded.
    pub fn is_empty(&self) -> (empty: bool)
        requires
            self.well_formed(),
        ensures
            empty == (self.count() == 0),
            empty == (self@ == Map::<Seq<char>, Seq<char>>::empty()),
    {
        proof {
            if self.entries@.len() == 0 {
                assert(self@ =~= Map::<Seq<char>, Seq<char>>::empty());
            } else {
                assert(self.holds_at(0, self.entries@[0].0@));
                assert(self@.dom().contains(self.entries@[0].0@));
            }
        }
        self.entries.len() == 0
    }

    /// Where `path` is recorded, if it is.
    fn position(&self, path: &str) -> (at: Option<usize>)
        ensures
            match at {
                Some(i) => self.holds_at(i as int, path@),
                None => forall|i: int| !self.holds_at(i, path@),
            },
    {
        let mut i: usize = 0;
        while i < self.entries.len()
            invariant
                i <= self.entries.len(),
                forall|k: int| 0 <= k < i ==> !self.holds_at(k, path@),
            decreases self.entries.len() - i,
        {
            if same_text(self.entries[i].0.as_str(), path) {
                return Some(i);
            }
            i += 1;
        }
        None
    }

    /// The digest recorded for `path`, if one is.
    pub fn get(&self, path: &str) -> (hash: Option<&str>)
        requires
            self.well_formed(),
        ensures
            hash is Some <==> self@.contains_key(path@),
            hash matches Some(h) ==> h@ == self@[path@],
    {
        match self.position(path) {
            Some(i) => {
                proof {
                    let chosen = choose|k: int| self.holds_at(k, path@);
                    assert(self.holds_at(chosen, path@));
                    assert(chosen == i);
                }
                Some(self.entries[i].1.as_str())
            },
            None => None,
        }
    }

    /// Records `hash` for `path`, in place of what was recorded for it.
    pub fn insert(&mut self, path: String, hash: String)
        requires
            old(self).well_formed(),
        ensures
            final(self).well_formed(),
            final(self)@ == old(self)@.insert(path@, hash@),
            final(self).count() == old(self).count() + if old(self)@.contains_key(path@) {
                0nat
            } else {
                1nat
            },
    {
        let ghost before = *self;
        let ghost key = path@;
        let ghost value = hash@;
        match self.position(path.as_str()) {
            Some(i) => {
                self.entries.set(i, (path, hash));
                proof {
                    assert(self.well_formed()) by {
                        assert forall|a: int, b: int|
                            0 <= a < b < self.entries@.len() implies self.entries@[a].0@
                            != self.entries@[b].0@ by {
                            assert(before.entries@[a].0@ == self.entries@[a].0@);
                            assert(before.entries@[b].0@ == self.entries@[b].0@);
                        }
                    }
                    assert forall|p: Seq<char>, k: int| self.holds_at(k, p) == before.holds_at(
                        k,
                        p,
                    ) by {
                        if 0 <= k < self.entries@.len() {
                            assert(before.entries@[k].0@ == self.entries@[k].0@);
                        }
                    }
                    assert forall|p: Seq<char>| #[trigger]
                        self@.contains_key(p) == before@.insert(key, value).contains_key(p) by {
                        if before@.contains_key(p) {
                            let k = choose|k: int| before.holds_at(k, p);
                            assert(self.holds_at(k, p));
                        }
                        if self@.contains_key(p) {
                            let k = choose|k: int| self.holds_at(k, p);
                            assert(before.holds_at(k, p));
                        }
                        assert(before.holds_at(i as int, key));
                    }
                    assert forall|p: Seq<char>| self@.contains_key(p) implies #[trigger] self@[p]
                        == before@.insert(key, value)[p] by {
                        let k = choose|k: int| self.holds_at(k, p);
                        let kb = choose|k: int| before.holds_at(k, p);
                        assert(self.holds_at(k, p));
                        assert(before.holds_at(k, p));
                        assert(before.holds_at(kb, p));
                        assert(self.holds_at(kb, p));
                        assert(k == kb);
                        if p == key {
                            assert(self.holds_at(i as int, p));
                            assert(k == i);
                        } else {
                            assert(k != i);
                        }
                    }
                    assert(self@ =~= before@.insert(key, value));
                    assert(before@.contains_key(key));
                }
            },
            None => {
                self.entries.push((path, hash));
                proof {
                    let n = before.entries@.len() as int;
                    assert(self.well_formed()) by {
                        assert forall|a: int, b: int|
                            0 <= a < b < self.entries@.len() implies self.entries@[a].0@
                            != self.entries@[b].0@ by {
                            assert(before.entries@[a] == self.entries@[a]);
                            if b < n {
                                assert(before.entries@[b] == self.entries@[b]);
                            } else {
                                assert(!before.holds_at(a, key));
                            }
                        }
                    }
                    assert forall|p: Seq<char>, k: int| 0 <= k < n implies self.holds_at(k, p)
                        == before.holds_at(k, p) by {
                        assert(before.entries@[k] == self.entries@[k]);
                    }
                    assert(self.holds_at(n, key));
                    assert(!before@.contains_key(key));
                    assert forall|p: Seq<char>| #[trigger]
                        self@.contains_key(p) == before@.insert(key, value).contains_key(p) by {
                        if before@.contains_key(p) {
                            let k = choose|k: int| before.holds_at(k, p);
                            assert(self.holds_at(k, p));
                        }
                        if self@.contains_key(p) && p != key {
                            let k = choose|k: int| self.holds_at(k, p);
                            assert(k < n);
                            assert(before.holds_at(k, p));
                        }
                    }
                    assert forall|p: Seq<char>| self@.contains_key(p) implies #[trigger] self@[p]
                        == before@.insert(key, value)[p] by {
                        let k = choose|k: int| self.holds_at(k, p);
                        assert(self.holds_at(k, p));
                        if p == key {
                            if k < n {
                                assert(before.holds_at(k, p));
                            }
                            assert(k == n);
                        } else {
                            assert(k < n);
                            let kb = choose|k: int| before.holds_at(k, p);
                            assert(before.holds_at(k, p));
                            assert(before.holds_at(kb, p));
                            assert(self.holds_at(kb, p));
                            assert(k == kb);
                        }
                    }
                    assert(self@ =~= before@.insert(key, value));
                }
            },
        }
    }

    /// The recorded pairs of path and digest, each path once.
    pub fn pairs(&self) -> (pairs: &Vec<(String, String)>)
        requires
            self.well_formed(),
        ensures
            pairs@.len() == self.count(),
            forall|i: int|
                0 <= i < pairs@.len() ==> self@.contains_key(#[trigger] pairs@[i].0@) && self@[pairs@[i].0@]
                    == pairs@[i].1@,
            forall|path: Seq<char>|
                self@.contains_key(path) ==> exists|i: int|
                    0 <= i < pairs@.len() && #[trigger] pairs@[i].0@ == path,
    {
        proof {
            assert forall|i: int| 0 <= i < self.entries@.len() implies self@.contains_key(
                #[trigger] self.entries@[i].0@,
            ) && self@[self.entries@[i].0@] == self.entries@[i].1@ by {
                let p = self.entries@[i].0@;
                assert(self.holds_at(i, p));
                let k = choose|k: int| self.holds_at(k, p);
                assert(self.holds_at(k, p));
                assert(k == i);
            }
            assert forall|path: Seq<char>| self@.contains_key(path) implies exists|i: int|
                0 <= i < self.entries@.len() && #[trigger] self.entries@[i].0@ == path by {
                let k = choose|k: int| self.holds_at(k, path);
                assert(self.holds_at(k, path));
            }
        }
        &self.entries
    }
}

} // verus!
