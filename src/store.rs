use vstd::prelude::*;
use crate::bookmark::{Bookmark, BookmarkId};

verus! {

/// Why a store operation failed.
#[derive(Clone, Copy, Debug, PartialEq, Eq, Structural)]
pub enum StoreError {
    NotFound,
    IdsExhausted,
}

/// An in-memory bookmark store that assigns increasing ids.
pub struct MemoryStore {
    pub items: Vec<Bookmark>,
    pub next_id: u64,
}

/// The bookmark `b` as stored under the id `k`.
pub open spec fn with_id(b: Bookmark, k: u64) -> Bookmark {
    Bookmark { id: Some(BookmarkId(k)), ..b }
}

/// Whether some record carries the id `id`.
pub open spec fn has_id(items: Seq<Bookmark>, id: BookmarkId) -> bool {
    exists|i: int| 0 <= i < items.len() && items[i].id == Some(id)
}

/// Whether `i` is the index of the first record that carries the id `id`.
pub open spec fn first_with(items: Seq<Bookmark>, id: BookmarkId, i: int) -> bool {
    &&& 0 <= i < items.len()
    &&& items[i].id == Some(id)
    &&& forall|j: int| 0 <= j < i ==> items[j].id != Some(id)
}

impl MemoryStore {
    /// Every record has an id below `next_id`, and no two records share one.
    pub open spec fn wf(&self) -> bool {
        &&& forall|i: int|
            0 <= i < self.items@.len() ==> ((#[trigger] self.items@[i]).id matches Some(k) && k.0
                < self.next_id)
        &&& forall|i: int, j: int|
            0 <= i < j < self.items@.len() ==> self.items@[i].id != self.items@[j].id
    }

    pub fn new() -> (r: MemoryStore)
        ensures
            r.items@.len() == 0,
            r.next_id == 0,
            r.wf(),
    {
        MemoryStore { items: Vec::new(), next_id: 0 }
    }

    fn find(&self, id: BookmarkId) -> (r: Option<usize>)
        ensures
            match r {
                Some(i) => first_with(self.items@, id, i as int),
                None => !has_id(self.items@, id),
            },
    {
        let mut i: usize = 0;
        while i < self.items.len()
            invariant
                i <= self.items@.len(),
                forall|j: int| 0 <= j < i ==> self.items@[j].id != Some(id),
            decreases self.items@.len() - i,
        {
            if self.items[i].id == Some(id) {
                return Some(i);
            }
            i = i + 1;
        }
        None
    }

    /// Every stored bookmark, in the order of insertion.
    pub fn list(&self) -> (r: Vec<Bookmark>)
        ensures
            r@ == self.items@,
    {
        let mut out: Vec<Bookmark> = Vec::new();
        let mut i: usize = 0;
        while i < self.items.len()
            invariant
                i <= self.items@.len(),
                out@ == self.items@.subrange(0, i as int),
            decreases self.items@.len() - i,
        {
            out.push(self.items[i].duplicate());
            i = i + 1;
            assert(out@ =~= self.items@.subrange(0, i as int));
        }
        assert(out@ =~= self.items@);
        out
    }

    /// Stores `b` under the next free id.
    pub fn insert(&mut self, b: &Bookmark) -> (r: Result<(), StoreError>)
        requires
            old(self).wf(),
        ensures
            final(self).wf(),
            old(self).next_id < u64::MAX ==> r is Ok && final(self).items@ == old(self).items@.push(
                with_id(*b, old(self).next_id),
            ) && final(self).next_id == old(self).next_id + 1,
            old(self).next_id == u64::MAX ==> r == Err::<(), StoreError>(StoreError::IdsExhausted)
                && *final(self) == *old(self),
    {
        if self.next_id == u64::MAX {
            return Err(StoreError::IdsExhausted);
        }
        let mut stored = b.duplicate();
        stored.id = Some(BookmarkId(self.next_id));
        self.items.push(stored);
        self.next_id = self.next_id + 1;
        Ok(())
    }

    /// Replaces the first record that has the id of `b` by `b`.
    pub fn update(&mut self, b: &Bookmark) -> (r: Result<(), StoreError>)
        requires
            old(self).wf(),
        ensures
            final(self).wf(),
            final(self).next_id == old(self).next_id,
            r is Ok <==> (b.id matches Some(id) && has_id(old(self).items@, id)),
            r is Ok ==> (b.id matches Some(id) && exists|i: int|
                first_with(old(self).items@, id, i) && final(self).items@ == old(self).items@.update(
                    i,
                    *b,
                )),
            r is Err ==> final(self).items@ == old(self).items@,
    {
        let id = match b.id {
            Some(id) => id,
            None => return Err(StoreError::NotFound),
        };
        match self.find(id) {
            Some(i) => {
                self.items.set(i, b.duplicate());
                assert(forall|k: int|
                    0 <= k < self.items@.len() ==> self.items@[k].id == old(self).items@[k].id);
                Ok(())
            },
            None => Err(StoreError::NotFound),
        }
    }

    /// Removes the first record whose id is `id`.
    pub fn delete(&mut self, id: &BookmarkId) -> (r: Result<(), StoreError>)
        requires
            old(self).wf(),
        ensures
            final(self).wf(),
            final(self).next_id == old(self).next_id,
            r is Ok <==> has_id(old(self).items@, *id),
            r is Ok ==> exists|i: int|
                first_with(old(self).items@, *id, i) && final(self).items@ == old(
                    self,
                ).items@.remove(i),
            r is Err ==> final(self).items@ == old(self).items@,
    {
        match self.find(*id) {
            Some(i) => {
                self.items.remove(i);
                let ghost before = old(self).items@;
                assert(forall|k: int|
                    0 <= k < self.items@.len() ==> #[trigger] self.items@[k] == if k < i {
                        before[k]
                    } else {
                        before[k + 1]
                    });
                Ok(())
            },
            None => Err(StoreError::NotFound),
        }
    }
}

} // verus!
