use vstd::prelude::*;

verus! {

/// One stored record: a text message deposited by `owner`, hidden
/// until `unlock_time` has been reached.
#[derive(Clone, Debug, PartialEq, Eq)]
pub struct Capsule {
    /// Identity of the depositor; also the key the record is stored under.
    pub owner: String,
    /// The text payload. No size bound is imposed.
    pub message: String,
    /// Seconds since epoch; from this moment on the message is visible.
    pub unlock_time: u64,
}

/// The mathematical image of a [`Capsule`].
pub struct CapsuleView {
    pub owner: Seq<char>,
    pub message: Seq<char>,
    pub unlock_time: u64,
}

impl View for Capsule {
    type V = CapsuleView;

    open spec fn view(&self) -> CapsuleView {
        CapsuleView {
            owner: self.owner@,
            message: self.message@,
            unlock_time: self.unlock_time,
        }
    }
}

/// Durable keyed persistence of capsules.
///
/// Abstractly the store is a map from owner identity to capsule; see
/// [`CapsuleStore::view`]. At most one record exists per owner key:
/// `put` overwrites whole, nothing ever deletes.
pub struct CapsuleStore {
    entries: Vec<(String, Capsule)>,
}

/// Some entry of `s` carries the key `owner`.
spec fn has_key(s: Seq<(String, Capsule)>, owner: Seq<char>) -> bool {
    exists|i: int| 0 <= i < s.len() && s[i].0@ == owner
}

/// The index of the entry of `s` that carries the key `owner`.
/// Meaningful only while `has_key(s, owner)` holds and keys are distinct.
spec fn key_index(s: Seq<(String, Capsule)>, owner: Seq<char>) -> int {
    choose|i: int| 0 <= i < s.len() && s[i].0@ == owner
}

/// No two entries of `s` carry the same key.
spec fn keys_distinct(s: Seq<(String, Capsule)>) -> bool {
    forall|i: int, j: int|
        0 <= i < s.len() && 0 <= j < s.len() && i != j ==> s[i].0@ != s[j].0@
}

/// With distinct keys, an entry's index is recovered from its key.
proof fn lemma_key_index_of_entry(s: Seq<(String, Capsule)>, i: int)
    requires
        keys_distinct(s),
        0 <= i < s.len(),
    ensures
        has_key(s, s[i].0@),
        key_index(s, s[i].0@) == i,
{
    assert(has_key(s, s[i].0@));
    let j = key_index(s, s[i].0@);
    assert(0 <= j < s.len() && s[j].0@ == s[i].0@);
    if j != i {
        assert(s[j].0@ != s[i].0@);
    }
}

impl View for CapsuleStore {
    type V = Map<Seq<char>, CapsuleView>;

    closed spec fn view(&self) -> Map<Seq<char>, CapsuleView> {
        Map::new(
            |owner: Seq<char>| has_key(self.entries@, owner),
            |owner: Seq<char>| self.entries@[key_index(self.entries@, owner)].1@,
        )
    }
}

impl CapsuleStore {
    /// Each owner key names at most one record; this is the shape every
    /// store starts in and every operation preserves.
    pub closed spec fn wf(&self) -> bool {
        keys_distinct(self.entries@)
    }

    /// A fresh store: no owner holds a record.
    pub fn new() -> (r: CapsuleStore)
        ensures
            r.wf(),
            r@ == Map::<Seq<char>, CapsuleView>::empty(),
    {
        let r = CapsuleStore { entries: Vec::new() };
        proof {
            assert(r@ =~= Map::<Seq<char>, CapsuleView>::empty());
        }
        r
    }

    /// Unconditionally writes the record under `owner`, replacing any
    /// prior record under that key whole.
    pub fn put(&mut self, owner: String, capsule: Capsule)
        requires
            old(self).wf(),
        ensures
            final(self).wf(),
            final(self)@ == old(self)@.insert(owner@, capsule@),
    {
        let mut i: usize = 0;
        while i < self.entries.len()
            invariant
                self == old(self),
                old(self).wf(),
                0 <= i <= self.entries@.len(),
                forall|j: int| 0 <= j < i ==> self.entries@[j].0@ != owner@,
            decreases self.entries@.len() - i,
        {
            if self.entries[i].0 == owner {
                proof {
                    lemma_key_index_of_entry(self.entries@, i as int);
                }
                self.entries[i] = (owner, capsule);
                proof {
                    let s = old(self).entries@;
                    let t = self.entries@;
                    assert(forall|j: int| 0 <= j < s.len() ==> t[j].0@ == s[j].0@);
                    assert(keys_distinct(t));
                    assert forall|k: Seq<char>|
                        has_key(t, k) == has_key(s, k) by {
                        if has_key(t, k) {
                            let j = key_index(t, k);
                            assert(s[j].0@ == k);
                        }
                        if has_key(s, k) {
                            let j = key_index(s, k);
                            assert(t[j].0@ == k);
                        }
                    }
                    assert forall|k: Seq<char>| has_key(t, k) implies
                        t[key_index(t, k)].1@ == old(self)@.insert(owner@, capsule@)[k] by {
                        let j = key_index(t, k);
                        assert(0 <= j < t.len() && t[j].0@ == k);
                        lemma_key_index_of_entry(t, j);
                        if k == owner@ {
                            lemma_key_index_of_entry(t, i as int);
                        } else {
                            assert(j != i);
                            assert(s[j].0@ == k);
                            lemma_key_index_of_entry(s, j);
                        }
                    }
                    assert(self@ =~= old(self)@.insert(owner@, capsule@));
                }
                return;
            }
            i += 1;
        }
        proof {
            assert(!has_key(self.entries@, owner@));
        }
        self.entries.push((owner, capsule));
        proof {
            let s = old(self).entries@;
            let t = self.entries@;
            let n = s.len() as int;
            assert(t == s.push((owner, capsule)));
            assert(forall|j: int| 0 <= j < n ==> t[j] == s[j]);
            assert(t[n].0@ == owner@);
            assert(keys_distinct(t));
            assert forall|k: Seq<char>|
                has_key(t, k) == (has_key(s, k) || k == owner@) by {
                if has_key(t, k) {
                    let j = key_index(t, k);
                    if j < n {
                        assert(s[j].0@ == k);
                    }
                }
                if has_key(s, k) {
                    let j = key_index(s, k);
                    assert(t[j].0@ == k);
                }
                if k == owner@ {
                    assert(t[n].0@ == k);
                }
            }
            assert forall|k: Seq<char>| has_key(t, k) implies
                t[key_index(t, k)].1@ == old(self)@.insert(owner@, capsule@)[k] by {
                let j = key_index(t, k);
                assert(0 <= j < t.len() && t[j].0@ == k);
                lemma_key_index_of_entry(t, j);
                if k == owner@ {
                    lemma_key_index_of_entry(t, n);
                } else {
                    assert(j != n);
                    assert(s[j].0@ == k);
                    lemma_key_index_of_entry(s, j);
                }
            }
            assert(self@ =~= old(self)@.insert(owner@, capsule@));
        }
    }

    /// Point lookup of the record under `owner`; no side effects.
    /// Absence is reported as `None`, which the request handler turns
    /// into its `NoMessageFound` error.
    pub fn get(&self, owner: &String) -> (r: Option<&Capsule>)
        requires
            self.wf(),
        ensures
            (match r {
                Some(capsule) => self@.contains_key(owner@) && capsule@ == self@[owner@],
                None => !self@.contains_key(owner@),
            }),
    {
        let mut i: usize = 0;
        while i < self.entries.len()
            invariant
                self.wf(),
                0 <= i <= self.entries@.len(),
                forall|j: int| 0 <= j < i ==> self.entries@[j].0@ != owner@,
            decreases self.entries@.len() - i,
        {
            if self.entries[i].0 == *owner {
                proof {
                    lemma_key_index_of_entry(self.entries@, i as int);
                }
                return Some(&self.entries[i].1);
            }
            i += 1;
        }
        proof {
            if has_key(self.entries@, owner@) {
                let j = key_index(self.entries@, owner@);
                assert(self.entries@[j].0@ != owner@);
            }
        }
        None
    }
}

} // verus!
