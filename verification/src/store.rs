use vstd::prelude::*;

use crate::utils::str_equal;

verus! {

/// One named blob held by the store.
pub struct Entry {
    pub name: String,
    pub data: Vec<u8>,
}

/// The map denoted by a sequence of entries; a later entry for a name shadows
/// an earlier one (the store keeps names unique, so shadowing never occurs).
pub open spec fn entries_view(s: Seq<Entry>) -> Map<Seq<char>, Seq<u8>>
    decreases s.len(),
{
    if s.len() == 0 {
        Map::empty()
    } else {
        entries_view(s.drop_last()).insert(s.last().name@, s.last().data@)
    }
}

/// A named key -> bytes store, the storage abstraction the vault protocol is
/// written against: `exists` (here `contains`), `read` and `write` over an
/// in-memory table. Its view is the map from names to blob contents.
pub struct BlobStore {
    entries: Vec<Entry>,
}

impl View for BlobStore {
    type V = Map<Seq<char>, Seq<u8>>;

    closed spec fn view(&self) -> Map<Seq<char>, Seq<u8>> {
        entries_view(self.entries@)
    }
}

proof fn lemma_view_contains(s: Seq<Entry>, k: Seq<char>)
    ensures
        entries_view(s).contains_key(k) <==> exists|i: int|
            0 <= i < s.len() && s[i].name@ == k,
    decreases s.len(),
{
    if s.len() > 0 {
        lemma_view_contains(s.drop_last(), k);
        if s.last().name@ == k {
            assert(s[s.len() - 1].name@ == k);
        } else {
            if exists|i: int| 0 <= i < s.len() && s[i].name@ == k {
                let i = choose|i: int| 0 <= i < s.len() && s[i].name@ == k;
                assert(i < s.len() - 1);
                assert(s.drop_last()[i].name@ == k);
            }
            if entries_view(s).contains_key(k) {
                let i = choose|i: int| 0 <= i < s.drop_last().len() && s.drop_last()[i].name@ == k;
                assert(s[i].name@ == k);
            }
        }
    }
}

proof fn lemma_view_get(s: Seq<Entry>, i: int)
    requires
        0 <= i < s.len(),
        forall|a: int, b: int| 0 <= a < b < s.len() ==> s[a].name@ != s[b].name@,
    ensures
        entries_view(s).contains_key(s[i].name@),
        entries_view(s)[s[i].name@] == s[i].data@,
    decreases s.len(),
{
    if i < s.len() - 1 {
        lemma_view_get(s.drop_last(), i);
        assert(s.drop_last()[i] == s[i]);
        assert(s.last().name@ != s[i].name@);
    }
}

proof fn lemma_view_update(s: Seq<Entry>, i: int, e: Entry)
    requires
        0 <= i < s.len(),
        e.name@ == s[i].name@,
        forall|a: int, b: int| 0 <= a < b < s.len() ==> s[a].name@ != s[b].name@,
    ensures
        entries_view(s.update(i, e)) == entries_view(s).insert(e.name@, e.data@),
    decreases s.len(),
{
    let t = s.update(i, e);
    if i == s.len() - 1 {
        assert(t.drop_last() =~= s.drop_last());
        assert(t.last() == e);
        assert(entries_view(s.drop_last()).insert(s.last().name@, s.last().data@).insert(
            e.name@,
            e.data@,
        ) =~= entries_view(s.drop_last()).insert(e.name@, e.data@));
    } else {
        lemma_view_update(s.drop_last(), i, e);
        assert(t.drop_last() =~= s.drop_last().update(i, e));
        assert(t.last() == s.last());
        assert(s.last().name@ != e.name@);
        assert(entries_view(s.drop_last()).insert(e.name@, e.data@).insert(
            s.last().name@,
            s.last().data@,
        ) =~= entries_view(s.drop_last()).insert(s.last().name@, s.last().data@).insert(
            e.name@,
            e.data@,
        ));
    }
}

proof fn lemma_view_push(s: Seq<Entry>, e: Entry)
    ensures
        entries_view(s.push(e)) == entries_view(s).insert(e.name@, e.data@),
{
    assert(s.push(e).drop_last() =~= s);
    assert(s.push(e).last() == e);
}

impl BlobStore {
    /// The store never holds two entries under one name.
    pub closed spec fn wf(&self) -> bool {
        forall|a: int, b: int|
            0 <= a < b < self.entries@.len() ==> self.entries@[a].name@ != self.entries@[b].name@
    }

    /// An empty store.
    pub fn new() -> (r: BlobStore)
        ensures
            r.wf(),
            r@ == Map::<Seq<char>, Seq<u8>>::empty(),
    {
        BlobStore { entries: Vec::new() }
    }

    fn find(&self, name: &str) -> (r: Option<usize>)
        ensures
            r matches Some(i) ==> i < self.entries@.len() && self.entries@[i as int].name@
                == name@,
            r is None ==> forall|i: int|
                0 <= i < self.entries@.len() ==> self.entries@[i].name@ != name@,
    {
        let mut i: usize = 0;
        while i < self.entries.len()
            invariant
                i <= self.entries@.len(),
                forall|j: int| 0 <= j < i ==> self.entries@[j].name@ != name@,
            decreases self.entries@.len() - i,
        {
            if str_equal(self.entries[i].name.as_str(), name) {
                return Some(i);
            }
            i = i + 1;
        }
        None
    }

    /// Whether a blob is stored under `name`.
    pub fn contains(&self, name: &str) -> (r: bool)
        ensures
            r == self@.contains_key(name@),
    {
        proof {
            lemma_view_contains(self.entries@, name@);
        }
        match self.find(name) {
            Some(_) => true,
            None => false,
        }
    }

    /// The blob stored under `name`, if any.
    pub fn read(&self, name: &str) -> (r: Option<Vec<u8>>)
        requires
            self.wf(),
        ensures
            r is Some <==> self@.contains_key(name@),
            r matches Some(v) ==> v@ == self@[name@],
    {
        proof {
            lemma_view_contains(self.entries@, name@);
        }
        match self.find(name) {
            Some(i) => {
                proof {
                    lemma_view_get(self.entries@, i as int);
                }
                let v = self.entries[i].data.clone();
                proof {
                    assert(v@ =~= self.entries@[i as int].data@);
                }
                Some(v)
            },
            None => None,
        }
    }

    /// Stores `data` under `name`, replacing any blob already there.
    pub fn write(&mut self, name: &str, data: Vec<u8>)
        requires
            old(self).wf(),
        ensures
            final(self).wf(),
            final(self)@ == old(self)@.insert(name@, data@),
    {
        let ghost s0 = self.entries@;
        proof {
            lemma_view_contains(s0, name@);
        }
        match self.find(name) {
            Some(i) => {
                let e = Entry { name: name.to_owned(), data };
                let ghost e0 = e;
                self.entries[i] = e;
                proof {
                    assert(self.entries@ =~= s0.update(i as int, e0));
                    lemma_view_update(s0, i as int, e0);
                    assert forall|a: int, b: int|
                        0 <= a < b < self.entries@.len() implies self.entries@[a].name@
                        != self.entries@[b].name@ by {
                        assert(self.entries@[a].name@ == s0[a].name@);
                        assert(self.entries@[b].name@ == s0[b].name@);
                    }
                }
            },
            None => {
                let e = Entry { name: name.to_owned(), data };
                let ghost e0 = e;
                self.entries.push(e);
                proof {
                    lemma_view_push(s0, e0);
                    assert forall|a: int, b: int|
                        0 <= a < b < self.entries@.len() implies self.entries@[a].name@
                        != self.entries@[b].name@ by {
                        if b < s0.len() {
                            assert(self.entries@[a].name@ == s0[a].name@);
                            assert(self.entries@[b].name@ == s0[b].name@);
                        } else {
                            assert(self.entries@[a].name@ == s0[a].name@);
                            assert(self.entries@[b].name@ == name@);
                        }
                    }
                }
            },
        }
    }
}

} // verus!
