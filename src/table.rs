use vstd::prelude::*;

verus! {

/// Rows keyed by a string, each key once: a projection's table.
#[derive(Debug)]
pub struct Table<R> {
    keys: Vec<String>,
    rows: Vec<R>,
}

impl<R> Table<R> {
    pub closed spec fn wf(&self) -> bool {
        &&& self.keys@.len() == self.rows@.len()
        &&& forall|i: int, j: int|
            0 <= i < self.keys@.len() && 0 <= j < self.keys@.len() && #[trigger] self.keys@[i]@
                == #[trigger] self.keys@[j]@ ==> i == j
    }

    pub closed spec fn has(&self, k: Seq<char>) -> bool {
        exists|i: int| 0 <= i < self.keys@.len() && #[trigger] self.keys@[i]@ == k
    }

    pub closed spec fn index(&self, k: Seq<char>) -> int {
        choose|i: int| 0 <= i < self.keys@.len() && #[trigger] self.keys@[i]@ == k
    }

    /// The table as a map from key to row.
    pub closed spec fn view(&self) -> Map<Seq<char>, R> {
        Map::new(|k: Seq<char>| self.has(k), |k: Seq<char>| self.rows@[self.index(k)])
    }

    pub fn new() -> (r: Self)
        ensures
            r.wf(),
            r.view() == Map::<Seq<char>, R>::empty(),
    {
        let r = Table { keys: Vec::new(), rows: Vec::new() };
        assert(r.view() =~= Map::<Seq<char>, R>::empty());
        r
    }

    fn find(&self, key: &String) -> (r: Option<usize>)
        requires
            self.wf(),
        ensures
            match r {
                Some(i) => i < self.keys@.len() && self.has(key@) && i == self.index(key@),
                None => !self.has(key@),
            },
    {
        let mut i: usize = 0;
        while i < self.keys.len()
            invariant
                self.wf(),
                i <= self.keys.len(),
                forall|j: int| 0 <= j < i ==> (#[trigger] self.keys@[j])@ != key@,
            decreases self.keys.len() - i,
        {
            if self.keys[i] == *key {
                assert(self.keys@[i as int]@ == key@);
                let ghost k = self.index(key@);
                assert(self.keys@[k]@ == key@);
                return Some(i);
            }
            i = i + 1;
        }
        None
    }

    /// The row under `key`, if any.
    pub fn get(&self, key: &String) -> (r: Option<&R>)
        requires
            self.wf(),
        ensures
            match r {
                Some(row) => self.view().contains_key(key@) && *row == self.view()[key@],
                None => !self.view().contains_key(key@),
            },
    {
        match self.find(key) {
            Some(i) => Some(&self.rows[i]),
            None => None,
        }
    }

    /// Sets the row under `key`.
    pub fn upsert(&mut self, key: String, row: R)
        requires
            old(self).wf(),
        ensures
            final(self).wf(),
            final(self).view() == old(self).view().insert(key@, row),
    {
        let ghost k = key@;
        let ghost old_keys = self.keys@;
        match self.find(&key) {
            Some(i) => {
                self.rows.set(i, row);
                assert(self.keys@ == old_keys);
                assert forall|q: Seq<char>| #[trigger] self.has(q) == old(self).has(q) by {}
                assert forall|q: Seq<char>| self.has(q) && q != k implies self.index(q) == old(self).index(q) by {
                    let a = self.index(q);
                    let b = old(self).index(q);
                    assert(old_keys[a]@ == q && old_keys[b]@ == q);
                }
                assert(self.view() =~= old(self).view().insert(k, row));
            },
            None => {
                let n = self.keys.len();
                self.keys.push(key);
                self.rows.push(row);
                assert forall|i: int, j: int|
                    0 <= i < self.keys@.len() && 0 <= j < self.keys@.len() && #[trigger] self.keys@[i]@
                        == #[trigger] self.keys@[j]@ implies i == j by {
                    if i < n && j < n {
                        assert(old_keys[i]@ == old_keys[j]@);
                    } else if i < n {
                        assert(old_keys[i]@ == k);
                        assert(old(self).has(k));
                    } else if j < n {
                        assert(old_keys[j]@ == k);
                        assert(old(self).has(k));
                    }
                }
                assert forall|q: Seq<char>| #[trigger] self.has(q) == (old(self).has(q) || q == k) by {
                    if old(self).has(q) {
                        let a = old(self).index(q);
                        assert(self.keys@[a]@ == q);
                    }
                    if q == k {
                        assert(self.keys@[n as int]@ == q);
                    }
                    if self.has(q) {
                        let a = self.index(q);
                        if a < n {
                            assert(old_keys[a]@ == q);
                        }
                    }
                }
                assert(self.keys@[n as int]@ == k);
                assert(self.index(k) == n) by {
                    let a = self.index(k);
                    if a < n {
                        assert(self.keys@[a] == old_keys[a]);
                        assert(old_keys[a]@ == k);
                        assert(old(self).has(k));
                    }
                }
                assert forall|q: Seq<char>| self.has(q) && q != k implies self.index(q) == old(self).index(q) by {
                    let a = self.index(q);
                    let b = old(self).index(q);
                    assert(self.keys@[b]@ == q);
                    if a == n {
                        assert(self.keys@[n as int]@ == k);
                    }
                }
                assert(self.view() =~= old(self).view().insert(k, self.rows@[n as int]));
            },
        }
    }

    /// Removes the row under `key` and hands it back.
    pub fn take(&mut self, key: &String) -> (r: Option<R>)
        requires
            old(self).wf(),
        ensures
            final(self).wf(),
            final(self).view() == old(self).view().remove(key@),
            match r {
                Some(row) => old(self).view().contains_key(key@) && row == old(self).view()[key@],
                None => !old(self).view().contains_key(key@),
            },
    {
        let ghost k = key@;
        let ghost old_keys = self.keys@;
        let ghost old_rows = self.rows@;
        match self.find(key) {
            Some(i) => {
                self.keys.remove(i);
                let row = self.rows.remove(i);
                assert(self.keys@ =~= old_keys.remove(i as int));
                assert(self.rows@ =~= old_rows.remove(i as int));
                let ghost n = old_keys.len();
                assert forall|a: int, b: int|
                    0 <= a < self.keys@.len() && 0 <= b < self.keys@.len() && #[trigger] self.keys@[a]@
                        == #[trigger] self.keys@[b]@ implies a == b by {
                    let a2 = if a < i { a } else { a + 1 };
                    let b2 = if b < i { b } else { b + 1 };
                    assert(old_keys[a2]@ == old_keys[b2]@);
                }
                assert forall|q: Seq<char>| #[trigger] self.has(q) == (old(self).has(q) && q != k) by {
                    if self.has(q) {
                        let a = self.index(q);
                        let a2 = if a < i { a } else { a + 1 };
                        assert(old_keys[a2]@ == q);
                        if q == k {
                            assert(a2 == i);
                        }
                    }
                    if old(self).has(q) && q != k {
                        let b = old(self).index(q);
                        assert(b != i);
                        if b < i {
                            assert(self.keys@[b]@ == q);
                        } else {
                            assert(self.keys@[b - 1]@ == q);
                        }
                    }
                }
                assert forall|q: Seq<char>| self.has(q) implies self.rows@[self.index(q)] == old_rows[old(self).index(q)] by {
                    let a = self.index(q);
                    let a2 = if a < i { a } else { a + 1 };
                    assert(old_keys[a2]@ == q);
                    let b = old(self).index(q);
                    assert(old_keys[b]@ == q);
                }
                assert(self.view() =~= old(self).view().remove(k));
                Some(row)
            },
            None => {
                assert(self.view() =~= old(self).view().remove(k));
                None
            },
        }
    }
}

} // verus!
