//! An in-memory table of records, each found by a string key that no two
//! records share.
//!
//! The rows keep the order in which new keys arrived; replacing the record
//! of a key keeps its place.  Seen as a map from keys to records, every
//! operation is the corresponding map operation.
use vstd::prelude::*;

verus! {

/// A record that carries its own key.
pub trait Record: Sized {
    /// The key of the record.
    spec fn key(&self) -> Seq<char>;

    /// The key of the record, as a string.
    fn key_string(&self) -> (k: &String)
        ensures
            k@ == self.key(),
    ;

    /// A copy of the record.
    fn duplicate(&self) -> (r: Self)
        ensures
            r == *self,
    ;
}

/// No two records of `s` have the same key.
pub open spec fn keys_distinct<T: Record>(s: Seq<T>) -> bool {
    forall|i: int, j: int| 0 <= i < s.len() && 0 <= j < s.len() && i != j ==> s[i].key() != s[j].key()
}

/// Some record of `s` has the key `k`.
pub open spec fn holds_key<T: Record>(s: Seq<T>, k: Seq<char>) -> bool {
    exists|i: int| 0 <= i < s.len() && #[trigger] s[i].key() == k
}

/// The records of `s`, each under its key.
pub open spec fn keyed<T: Record>(s: Seq<T>) -> Map<Seq<char>, T> {
    Map::new(
        |k: Seq<char>| holds_key(s, k),
        |k: Seq<char>| s[choose|i: int| 0 <= i < s.len() && #[trigger] s[i].key() == k],
    )
}

/// In a sequence with distinct keys, each record is what its key maps to.
pub proof fn lemma_keyed_index<T: Record>(s: Seq<T>, i: int)
    requires
        keys_distinct(s),
        0 <= i < s.len(),
    ensures
        keyed(s).contains_key(s[i].key()),
        keyed(s)[s[i].key()] == s[i],
{
    let k = s[i].key();
    assert(holds_key(s, k));
    let j = choose|j: int| 0 <= j < s.len() && #[trigger] s[j].key() == k;
    assert(s[j].key() == k);
    assert(j == i);
}

/// Appending a record of a new key adds that key to the map.
pub proof fn lemma_keyed_push<T: Record>(s: Seq<T>, r: T)
    requires
        keys_distinct(s),
        !holds_key(s, r.key()),
    ensures
        keys_distinct(s.push(r)),
        keyed(s.push(r)) == keyed(s).insert(r.key(), r),
{
    let t = s.push(r);
    assert forall|i: int, j: int| 0 <= i < t.len() && 0 <= j < t.len() && i != j implies t[i].key()
        != t[j].key() by {
        if i == s.len() {
            assert(t[j] == s[j]);
        } else if j == s.len() {
            assert(t[i] == s[i]);
        } else {
            assert(t[i] == s[i] && t[j] == s[j]);
        }
    }
    let m = keyed(s).insert(r.key(), r);
    assert forall|k: Seq<char>| #[trigger] keyed(t).contains_key(k) == m.contains_key(k) by {
        if keyed(t).contains_key(k) {
            let i = choose|i: int| 0 <= i < t.len() && #[trigger] t[i].key() == k;
            if i < s.len() {
                assert(t[i] == s[i]);
                lemma_keyed_index(s, i);
            }
        }
        if m.contains_key(k) && k != r.key() {
            let i = choose|i: int| 0 <= i < s.len() && #[trigger] s[i].key() == k;
            assert(t[i] == s[i]);
            lemma_keyed_index(t, i);
        }
        if k == r.key() {
            lemma_keyed_index(t, s.len() as int);
        }
    }
    assert forall|k: Seq<char>| keyed(t).contains_key(k) implies #[trigger] keyed(t)[k] == m[k] by {
        if k == r.key() {
            lemma_keyed_index(t, s.len() as int);
        } else {
            let i = choose|i: int| 0 <= i < t.len() && #[trigger] t[i].key() == k;
            assert(i != s.len());
            assert(t[i] == s[i]);
            lemma_keyed_index(t, i);
            lemma_keyed_index(s, i);
        }
    }
    assert(keyed(t) =~= m);
}

/// Replacing the record at `i` by one of the same key replaces the map entry.
pub proof fn lemma_keyed_update<T: Record>(s: Seq<T>, i: int, r: T)
    requires
        keys_distinct(s),
        0 <= i < s.len(),
        s[i].key() == r.key(),
    ensures
        keys_distinct(s.update(i, r)),
        keyed(s.update(i, r)) == keyed(s).insert(r.key(), r),
{
    let t = s.update(i, r);
    assert forall|a: int, b: int| 0 <= a < t.len() && 0 <= b < t.len() && a != b implies t[a].key()
        != t[b].key() by {
        assert(s[a].key() != s[b].key());
    }
    let m = keyed(s).insert(r.key(), r);
    assert forall|k: Seq<char>| #[trigger] keyed(t).contains_key(k) == m.contains_key(k) by {
        if keyed(t).contains_key(k) {
            let j = choose|j: int| 0 <= j < t.len() && #[trigger] t[j].key() == k;
            lemma_keyed_index(s, j);
        }
        if m.contains_key(k) {
            if k == r.key() {
                lemma_keyed_index(t, i);
            } else {
                let j = choose|j: int| 0 <= j < s.len() && #[trigger] s[j].key() == k;
                lemma_keyed_index(t, j);
            }
        }
    }
    assert forall|k: Seq<char>| keyed(t).contains_key(k) implies #[trigger] keyed(t)[k] == m[k] by {
        let j = choose|j: int| 0 <= j < t.len() && #[trigger] t[j].key() == k;
        lemma_keyed_index(t, j);
        if j != i {
            lemma_keyed_index(s, j);
        }
    }
    assert(keyed(t) =~= m);
}

/// Removing the record at `i` removes its key from the map.
pub proof fn lemma_keyed_remove<T: Record>(s: Seq<T>, i: int)
    requires
        keys_distinct(s),
        0 <= i < s.len(),
    ensures
        keys_distinct(s.remove(i)),
        keyed(s.remove(i)) == keyed(s).remove(s[i].key()),
{
    let t = s.remove(i);
    let gone = s[i].key();
    assert forall|a: int, b: int| 0 <= a < t.len() && 0 <= b < t.len() && a != b implies t[a].key()
        != t[b].key() by {
        let a2 = if a < i { a } else { a + 1 };
        let b2 = if b < i { b } else { b + 1 };
        assert(t[a] == s[a2] && t[b] == s[b2]);
    }
    let m = keyed(s).remove(gone);
    assert forall|k: Seq<char>| #[trigger] keyed(t).contains_key(k) == m.contains_key(k) by {
        if keyed(t).contains_key(k) {
            let j = choose|j: int| 0 <= j < t.len() && #[trigger] t[j].key() == k;
            let j2 = if j < i { j } else { j + 1 };
            assert(t[j] == s[j2]);
            lemma_keyed_index(s, j2);
        }
        if m.contains_key(k) {
            let j = choose|j: int| 0 <= j < s.len() && #[trigger] s[j].key() == k;
            assert(j != i);
            let j2 = if j < i { j } else { j - 1 };
            assert(t[j2] == s[j]);
            lemma_keyed_index(t, j2);
        }
    }
    assert forall|k: Seq<char>| keyed(t).contains_key(k) implies #[trigger] keyed(t)[k] == m[k] by {
        let j = choose|j: int| 0 <= j < t.len() && #[trigger] t[j].key() == k;
        let j2 = if j < i { j } else { j + 1 };
        assert(t[j] == s[j2]);
        lemma_keyed_index(t, j);
        lemma_keyed_index(s, j2);
    }
    assert(keyed(t) =~= m);
}

/// Filtering one more element of `s` adds it to the result exactly when it
/// passes the test.
pub proof fn lemma_filter_take_step<A>(s: Seq<A>, i: int, pred: spec_fn(A) -> bool)
    requires
        0 <= i < s.len(),
    ensures
        s.take(i + 1).filter(pred) == if pred(s[i]) {
            s.take(i).filter(pred).push(s[i])
        } else {
            s.take(i).filter(pred)
        },
{
    reveal(Seq::filter);
    assert(s.take(i + 1).drop_last() =~= s.take(i));
    assert(s.take(i + 1).last() == s[i]);
}

/// Records of type `T`, at most one per key.
pub struct Table<T> {
    rows: Vec<T>,
}

impl<T: Record> View for Table<T> {
    type V = Map<Seq<char>, T>;

    /// Each key of the table with its record.
    open spec fn view(&self) -> Map<Seq<char>, T> {
        keyed(self.entries())
    }
}

impl<T: Record> Table<T> {
    /// The records, in the order the table keeps them.
    pub closed spec fn entries(&self) -> Seq<T> {
        self.rows@
    }

    /// No two records share a key.
    pub open spec fn wf(&self) -> bool {
        keys_distinct(self.entries())
    }

    /// The records of a table seen as a map: each record sits under its key,
    /// and every key of the map is the key of some record.
    pub proof fn lemma_entries_are_view(&self)
        requires
            self.wf(),
        ensures
            forall|i: int|
                0 <= i < self.entries().len() ==> #[trigger] self@.contains_key(
                    self.entries()[i].key(),
                ) && self@[self.entries()[i].key()] == self.entries()[i],
            forall|k: Seq<char>|
                #[trigger] self@.contains_key(k) ==> exists|i: int|
                    0 <= i < self.entries().len() && #[trigger] self.entries()[i].key() == k,
            self@.dom().finite(),
            self.entries().len() == self@.len(),
    {
        let s = self.entries();
        let ks = s.map_values(|r: T| r.key());
        assert(ks.no_duplicates()) by {
            assert forall|i: int, j: int| 0 <= i < ks.len() && 0 <= j < ks.len() && i != j implies ks[i]
                != ks[j] by {
                assert(ks[i] == s[i].key() && ks[j] == s[j].key());
            }
        }
        ks.unique_seq_to_set();
        assert forall|k: Seq<char>| #[trigger] self@.dom().contains(k) == ks.to_set().contains(k) by {
            if self@.dom().contains(k) {
                let i = choose|i: int| 0 <= i < s.len() && #[trigger] s[i].key() == k;
                assert(ks[i] == k);
            }
            if ks.to_set().contains(k) {
                assert(ks.contains(k));
                let i = choose|i: int| 0 <= i < ks.len() && ks[i] == k;
                assert(s[i].key() == k);
            }
        }
        assert(self@.dom() =~= ks.to_set());
        assert forall|i: int| 0 <= i < self.entries().len() implies #[trigger] self@.contains_key(
            self.entries()[i].key(),
        ) && self@[self.entries()[i].key()] == self.entries()[i] by {
            lemma_keyed_index(self.entries(), i);
        }
    }

    /// An empty table.
    pub fn new() -> (t: Self)
        ensures
            t.wf(),
            t@ == Map::<Seq<char>, T>::empty(),
            t.entries() == Seq::<T>::empty(),
    {
        let t = Table { rows: Vec::new() };
        assert(t@ =~= Map::<Seq<char>, T>::empty());
        t
    }

    /// The records, in the table's order.
    pub fn rows(&self) -> (r: &Vec<T>)
        ensures
            r@ == self.entries(),
    {
        &self.rows
    }

    /// Where the record of `key` stands, if there is one.
    pub fn position(&self, key: &String) -> (r: Option<usize>)
        ensures
            match r {
                Some(i) => i < self.entries().len() && self.entries()[i as int].key() == key@,
                None => !holds_key(self.entries(), key@),
            },
    {
        let mut i: usize = 0;
        while i < self.rows.len()
            invariant
                i <= self.rows@.len(),
                forall|j: int| 0 <= j < i ==> #[trigger] self.rows@[j].key() != key@,
            decreases self.rows@.len() - i,
        {
            let k = self.rows[i].key_string();
            if k.eq(key) {
                return Some(i);
            }
            i = i + 1;
        }
        None
    }

    /// The record of `key`, if there is one.
    pub fn get(&self, key: &String) -> (r: Option<&T>)
        requires
            self.wf(),
        ensures
            match r {
                Some(v) => self@.contains_key(key@) && *v == self@[key@],
                None => !self@.contains_key(key@),
            },
    {
        match self.position(key) {
            Some(i) => {
                proof {
                    lemma_keyed_index(self.entries(), i as int);
                }
                Some(&self.rows[i])
            },
            None => None,
        }
    }

    /// Puts `row` under its key, replacing the record that was there.  A new
    /// key goes after all others; a known key keeps its place.
    pub fn insert(&mut self, row: T)
        requires
            old(self).wf(),
        ensures
            final(self).wf(),
            final(self)@ == old(self)@.insert(row.key(), row),
            !holds_key(old(self).entries(), row.key()) ==> final(self).entries() == old(
                self,
            ).entries().push(row),
            holds_key(old(self).entries(), row.key()) ==> final(self).entries().len() == old(
                self,
            ).entries().len(),
    {
        let pos = self.position(row.key_string());
        match pos {
            Some(i) => {
                proof {
                    lemma_keyed_update(self.rows@, i as int, row);
                }
                self.rows.set(i, row);
            },
            None => {
                proof {
                    lemma_keyed_push(self.rows@, row);
                }
                self.rows.push(row);
            },
        }
    }

    /// Takes the record of `key` out of the table, if there is one.  The
    /// other records keep their order.
    pub fn remove(&mut self, key: &String) -> (r: Option<T>)
        requires
            old(self).wf(),
        ensures
            final(self).wf(),
            final(self)@ == old(self)@.remove(key@),
            match r {
                Some(v) => old(self)@.contains_key(key@) && v == old(self)@[key@],
                None => !old(self)@.contains_key(key@),
            },
    {
        match self.position(key) {
            Some(i) => {
                proof {
                    lemma_keyed_index(self.rows@, i as int);
                    lemma_keyed_remove(self.rows@, i as int);
                }
                let v = self.rows.remove(i);
                Some(v)
            },
            None => {
                assert(old(self)@.remove(key@) =~= old(self)@);
                None
            },
        }
    }

    /// Copies of all records, in the table's order.
    pub fn copy_all(&self) -> (r: Vec<T>)
        ensures
            r@ == self.entries(),
    {
        let mut out: Vec<T> = Vec::new();
        let mut i: usize = 0;
        while i < self.rows.len()
            invariant
                i <= self.rows@.len(),
                out@ == self.rows@.take(i as int),
            decreases self.rows@.len() - i,
        {
            let c = self.rows[i].duplicate();
            out.push(c);
            i = i + 1;
            assert(out@ =~= self.rows@.take(i as int));
        }
        assert(self.rows@.take(i as int) =~= self.rows@);
        out
    }
}

} // verus!
