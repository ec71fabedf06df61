use vstd::prelude::*;

use crate::object::{BucketItem, FileDetail, FileVersion, KeyView, ObjectItem, ObjectKey};

verus! {

/// The map that a sequence of (key, value) entries stands for: a later entry wins.
pub open spec fn entries_map<V: View>(s: Seq<(ObjectKey, V)>) -> Map<KeyView, V::V>
    decreases s.len(),
{
    if s.len() == 0 {
        Map::empty()
    } else {
        entries_map(s.drop_last()).insert(s.last().0@, s.last().1@)
    }
}

pub open spec fn keys_unique<V>(s: Seq<(ObjectKey, V)>) -> bool {
    forall|i: int, j: int| 0 <= i < j < s.len() ==> s[i].0@ != s[j].0@
}

proof fn lemma_entries_lack<V: View>(s: Seq<(ObjectKey, V)>, k: KeyView)
    requires
        forall|i: int| 0 <= i < s.len() ==> s[i].0@ != k,
    ensures
        !entries_map(s).contains_key(k),
    decreases s.len(),
{
    if s.len() > 0 {
        lemma_entries_lack(s.drop_last(), k);
    }
}

proof fn lemma_entries_have<V: View>(s: Seq<(ObjectKey, V)>, i: int)
    requires
        keys_unique(s),
        0 <= i < s.len(),
    ensures
        entries_map(s).contains_key(s[i].0@),
        entries_map(s)[s[i].0@] == s[i].1@,
    decreases s.len(),
{
    if i < s.len() - 1 {
        lemma_entries_have(s.drop_last(), i);
    }
}

proof fn lemma_entries_update<V: View>(s: Seq<(ObjectKey, V)>, i: int, e: (ObjectKey, V))
    requires
        keys_unique(s),
        0 <= i < s.len(),
        s[i].0@ == e.0@,
    ensures
        entries_map(s.update(i, e)) == entries_map(s).insert(e.0@, e.1@),
    decreases s.len(),
{
    let t = s.update(i, e);
    if i == s.len() - 1 {
        assert(t.drop_last() =~= s.drop_last());
        assert(entries_map(t) =~= entries_map(s).insert(e.0@, e.1@));
    } else {
        assert(t.drop_last() =~= s.drop_last().update(i, e));
        lemma_entries_update(s.drop_last(), i, e);
        assert(s.last().0@ != e.0@);
        assert(entries_map(t) =~= entries_map(s).insert(e.0@, e.1@));
    }
}

/// Values stored under object keys; each key at most once.
pub struct KeyedStore<V> {
    entries: Vec<(ObjectKey, V)>,
}

impl<V: View> KeyedStore<V> {
    pub closed spec fn wf(&self) -> bool {
        keys_unique(self.entries@)
    }

    pub closed spec fn spec_map(&self) -> Map<KeyView, V::V> {
        entries_map(self.entries@)
    }

    pub fn new() -> (r: Self)
        ensures
            r.wf(),
            r.spec_map() == Map::<KeyView, V::V>::empty(),
    {
        KeyedStore { entries: Vec::new() }
    }

    fn find(&self, key: &ObjectKey) -> (r: Option<usize>)
        requires
            self.wf(),
        ensures
            r is None ==> !self.spec_map().contains_key(key@),
            r is Some ==> r->0 < self.entries@.len() && self.entries@[r->0 as int].0@ == key@,
    {
        let mut i: usize = 0;
        while i < self.entries.len()
            invariant
                i <= self.entries@.len(),
                forall|j: int| 0 <= j < i ==> self.entries@[j].0@ != key@,
            decreases self.entries@.len() - i,
        {
            if self.entries[i].0.same_as(key) {
                return Some(i);
            }
            i = i + 1;
        }
        proof {
            lemma_entries_lack(self.entries@, key@);
        }
        None
    }

    pub fn contains(&self, key: &ObjectKey) -> (r: bool)
        requires
            self.wf(),
        ensures
            r == self.spec_map().contains_key(key@),
    {
        match self.find(key) {
            Some(i) => {
                proof {
                    lemma_entries_have(self.entries@, i as int);
                }
                true
            },
            None => false,
        }
    }

    pub fn get(&self, key: &ObjectKey) -> (r: Option<&V>)
        requires
            self.wf(),
        ensures
            r is Some == self.spec_map().contains_key(key@),
            r is Some ==> r->0@ == self.spec_map()[key@],
    {
        match self.find(key) {
            Some(i) => {
                proof {
                    lemma_entries_have(self.entries@, i as int);
                }
                Some(&self.entries[i].1)
            },
            None => None,
        }
    }

    pub fn set(&mut self, key: ObjectKey, value: V)
        requires
            old(self).wf(),
        ensures
            final(self).wf(),
            final(self).spec_map() == old(self).spec_map().insert(key@, value@),
    {
        match self.find(&key) {
            Some(i) => {
                let ghost e = (key, value);
                proof {
                    lemma_entries_update(self.entries@, i as int, e);
                }
                self.entries.set(i, (key, value));
                assert(self.entries@ == old(self).entries@.update(i as int, e));
                assert forall|a: int, b: int| 0 <= a < b < self.entries@.len() implies self.entries@[a].0@
                    != self.entries@[b].0@ by {
                    assert(old(self).entries@[a].0@ != old(self).entries@[b].0@);
                }
            },
            None => {
                let ghost e = (key, value);
                let ghost before = self.entries@;
                self.entries.push((key, value));
                assert(self.entries@.drop_last() =~= before);
                assert forall|j: int| 0 <= j < before.len() implies before[j].0@ != e.0@ by {
                    if before[j].0@ == e.0@ {
                        lemma_entries_have(before, j);
                    }
                }
            },
        }
    }
}

/// Details of one object with its versions.
pub struct ObjectDetails {
    pub detail: FileDetail,
    pub versions: Vec<FileVersion>,
}

impl View for ObjectDetails {
    type V = (FileDetail, Seq<FileVersion>);

    open spec fn view(&self) -> (FileDetail, Seq<FileVersion>) {
        (self.detail, self.versions@)
    }
}

/// What the session has fetched: the bucket list, the listings and the object details.
/// Nothing is evicted; a key is written again only by an explicit set.
pub struct AppObjects {
    bucket_items: Vec<BucketItem>,
    object_items: KeyedStore<Vec<ObjectItem>>,
    object_details: KeyedStore<ObjectDetails>,
}

impl AppObjects {
    pub closed spec fn wf(&self) -> bool {
        self.object_items.wf() && self.object_details.wf()
    }

    pub closed spec fn spec_buckets(&self) -> Seq<BucketItem> {
        self.bucket_items@
    }

    /// The listings, by key.
    pub closed spec fn children_map(&self) -> Map<KeyView, Seq<ObjectItem>> {
        self.object_items.spec_map()
    }

    /// The object details with their versions, by key.
    pub closed spec fn details_map(&self) -> Map<KeyView, (FileDetail, Seq<FileVersion>)> {
        self.object_details.spec_map()
    }

    pub fn new() -> (r: Self)
        ensures
            r.wf(),
            r.spec_buckets() == Seq::<BucketItem>::empty(),
            r.children_map() == Map::<KeyView, Seq<ObjectItem>>::empty(),
            r.details_map() == Map::<KeyView, (FileDetail, Seq<FileVersion>)>::empty(),
    {
        AppObjects {
            bucket_items: Vec::new(),
            object_items: KeyedStore::new(),
            object_details: KeyedStore::new(),
        }
    }

    pub fn get_bucket_items(&self) -> (r: Vec<BucketItem>)
        ensures
            r@ == self.spec_buckets(),
    {
        let r = self.bucket_items.clone();
        assert(r@ =~= self.bucket_items@);
        r
    }

    pub fn bucket_count(&self) -> (r: usize)
        ensures
            r == self.spec_buckets().len(),
    {
        self.bucket_items.len()
    }

    pub fn set_bucket_items(&mut self, items: Vec<BucketItem>)
        requires
            old(self).wf(),
        ensures
            final(self).wf(),
            final(self).spec_buckets() == items@,
            final(self).children_map() == old(self).children_map(),
            final(self).details_map() == old(self).details_map(),
    {
        self.bucket_items = items;
    }

    pub fn exists_object_item(&self, key: &ObjectKey) -> (r: bool)
        requires
            self.wf(),
        ensures
            r == self.children_map().contains_key(key@),
    {
        self.object_items.contains(key)
    }

    /// The listing under `key`; empty where none was stored.
    pub fn get_object_items(&self, key: &ObjectKey) -> (r: Vec<ObjectItem>)
        requires
            self.wf(),
        ensures
            r@ == if self.children_map().contains_key(key@) {
                self.children_map()[key@]
            } else {
                Seq::empty()
            },
    {
        match self.object_items.get(key) {
            Some(items) => {
                let r = items.clone();
                assert(r@ =~= items@);
                r
            },
            None => Vec::new(),
        }
    }

    pub fn set_object_items(&mut self, key: ObjectKey, items: Vec<ObjectItem>)
        requires
            old(self).wf(),
        ensures
            final(self).wf(),
            final(self).children_map() == old(self).children_map().insert(key@, items@),
            final(self).details_map() == old(self).details_map(),
            final(self).spec_buckets() == old(self).spec_buckets(),
    {
        self.object_items.set(key, items);
    }

    pub fn exists_object_details(&self, key: &ObjectKey) -> (r: bool)
        requires
            self.wf(),
        ensures
            r == self.details_map().contains_key(key@),
    {
        self.object_details.contains(key)
    }

    pub fn get_object_detail(&self, key: &ObjectKey) -> (r: Option<&FileDetail>)
        requires
            self.wf(),
        ensures
            r is Some == self.details_map().contains_key(key@),
            r is Some ==> *r->0 == self.details_map()[key@].0,
    {
        match self.object_details.get(key) {
            Some(d) => Some(&d.detail),
            None => None,
        }
    }

    pub fn get_object_versions(&self, key: &ObjectKey) -> (r: Option<&Vec<FileVersion>>)
        requires
            self.wf(),
        ensures
            r is Some == self.details_map().contains_key(key@),
            r is Some ==> r->0@ == self.details_map()[key@].1,
    {
        match self.object_details.get(key) {
            Some(d) => Some(&d.versions),
            None => None,
        }
    }

    pub fn set_object_details(&mut self, key: ObjectKey, detail: FileDetail, versions: Vec<FileVersion>)
        requires
            old(self).wf(),
        ensures
            final(self).wf(),
            final(self).details_map() == old(self).details_map().insert(key@, (detail, versions@)),
            final(self).children_map() == old(self).children_map(),
            final(self).spec_buckets() == old(self).spec_buckets(),
    {
        self.object_details.set(key, ObjectDetails { detail, versions });
    }
}

/// Storing a listing and reading it back gives the same listing, and the key is then present.
pub proof fn lemma_children_round_trip(c: AppObjects, key: KeyView, items: Seq<ObjectItem>)
    ensures
        c.children_map().insert(key, items).contains_key(key),
        c.children_map().insert(key, items)[key] == items,
{
}

/// Storing twice under one key keeps the second listing, not a merge of both.
pub proof fn lemma_children_overwrite(
    c: AppObjects,
    key: KeyView,
    first: Seq<ObjectItem>,
    second: Seq<ObjectItem>,
)
    ensures
        c.children_map().insert(key, first).insert(key, second) == c.children_map().insert(key, second),
        c.children_map().insert(key, first).insert(key, second)[key] == second,
{
    assert(c.children_map().insert(key, first).insert(key, second) =~= c.children_map().insert(key, second));
}

/// Storing details twice under one key keeps the second details and versions.
pub proof fn lemma_details_overwrite(
    c: AppObjects,
    key: KeyView,
    first: (FileDetail, Seq<FileVersion>),
    second: (FileDetail, Seq<FileVersion>),
)
    ensures
        c.details_map().insert(key, first).insert(key, second) == c.details_map().insert(key, second),
        c.details_map().insert(key, second).contains_key(key),
        c.details_map().insert(key, first).insert(key, second)[key] == second,
{
    assert(c.details_map().insert(key, first).insert(key, second) =~= c.details_map().insert(key, second));
}

} // verus!
