//! The in-memory store: a verified label table shared behind a
//! reader-writer lock. Clones of the handle all point at one logical
//! table, and every value the lock ever holds is well-formed.

use std::sync::Arc;
use vstd::prelude::*;
use vstd::rwlock::{RwLock, RwLockPredicate};

use crate::repository::{has_id, sorted_by_id, Label, LabelRepository, RepositoryError};

verus! {

/// The label table proper: the live labels in ascending id order, the next
/// id to hand out, and — in ghost state — every id ever handed out, so that
/// freshness of created ids is part of the contract.
pub struct LabelStore {
    labels: Vec<Label>,
    next_id: i32,
    issued: Ghost<Set<int>>,
}

/// What a successful `create` did: the returned label carries the requested
/// name and an id never issued before, and it was appended to the table.
pub open spec fn create_ok_post(
    pre: LabelStore,
    name: Seq<char>,
    l: Label,
    post: LabelStore,
) -> bool {
    &&& l.name@ == name
    &&& 1 <= l.id
    &&& l.id == pre.id_bound()
    &&& !pre.issued().contains(l.id as int)
    &&& !has_id(pre.labels_seq(), l.id as int)
    &&& post.labels_seq() == pre.labels_seq().push(l)
    &&& post.issued() == pre.issued().insert(l.id as int)
    &&& post.id_bound() == pre.id_bound() + 1
}

/// What `delete` did: success exactly when the id was live, removal of that
/// one label on success, the failure `NotFound(id)` with the table untouched
/// otherwise, and in either case the id is no longer live.
pub open spec fn delete_post(
    pre: LabelStore,
    id: i32,
    r: Result<(), RepositoryError>,
    post: LabelStore,
) -> bool {
    &&& post.issued() == pre.issued()
    &&& post.id_bound() == pre.id_bound()
    &&& !has_id(post.labels_seq(), id as int)
    &&& (r is Ok <==> has_id(pre.labels_seq(), id as int))
    &&& (match r {
        Ok(_) => exists|i: int|
            0 <= i < pre.labels_seq().len() && pre.labels_seq()[i].id == id
                && post.labels_seq() == pre.labels_seq().remove(i),
        Err(e) => e == RepositoryError::NotFound(id) && post == pre,
    })
}

impl LabelStore {
    /// The live labels, in storage order.
    pub closed spec fn labels_seq(self) -> Seq<Label> {
        self.labels@
    }

    /// Every id this table has ever returned from `create`.
    pub closed spec fn issued(self) -> Set<int> {
        self.issued@
    }

    /// All issued ids (and so all live ids) lie strictly below this bound.
    pub closed spec fn id_bound(self) -> int {
        self.next_id as int
    }

    /// Well-formedness: ids start at 1, the table is strictly ascending by
    /// id, every live id was issued, and every issued id lies below the
    /// bound from which the next id is taken.
    pub closed spec fn wf(self) -> bool {
        &&& 1 <= self.next_id
        &&& sorted_by_id(self.labels@)
        &&& forall|i: int| 0 <= i < self.labels@.len() ==> 1 <= (#[trigger] self.labels@[i]).id
        &&& forall|i: int|
            0 <= i < self.labels@.len() ==> self.issued@.contains((#[trigger] self.labels@[i]).id as int)
        &&& forall|id: int| #[trigger] self.issued@.contains(id) ==> id < self.next_id
    }

    /// An empty table; ids will be handed out from 1 upward.
    pub fn new() -> (s: Self)
        ensures
            s.wf(),
            s.labels_seq() == Seq::<Label>::empty(),
            s.issued() == Set::<int>::empty(),
            s.id_bound() == 1,
    {
        LabelStore { labels: Vec::new(), next_id: 1, issued: Ghost(Set::empty()) }
    }

    /// Allocates the next id and appends a label with the given name.
    /// Success is owed until the id space is exhausted; on the one failure
    /// the table is untouched.
    pub fn create(&mut self, name: String) -> (r: Result<Label, RepositoryError>)
        requires
            old(self).wf(),
        ensures
            final(self).wf(),
            (match r {
                Ok(l) => create_ok_post(*old(self), name@, l, *final(self)),
                Err(e) => e is Unexpected && *final(self) == *old(self),
            }),
            old(self).id_bound() < i32::MAX ==> r is Ok,
    {
        if self.next_id == i32::MAX {
            return Err(RepositoryError::Unexpected("label id space is exhausted".to_string()));
        }
        let id = self.next_id;
        let label = Label { id, name };
        let result = label.clone();
        self.labels.push(label);
        self.next_id = id + 1;
        proof {
            self.issued@ = self.issued@.insert(id as int);
        }
        Ok(result)
    }

    /// A snapshot of the live labels, in storage order.
    pub fn all(&self) -> (r: Vec<Label>)
        ensures
            r@ == self.labels_seq(),
    {
        let r = self.labels.clone();
        proof {
            assert forall|i: int| 0 <= i < r@.len() implies r@[i] == self.labels@[i] by {
                assert(cloned::<Label>(self.labels@[i], r@[i]));
            }
            assert(r@ =~= self.labels@);
        }
        r
    }

    /// Removes the label with the given id, or fails with `NotFound(id)`
    /// and leaves the table untouched.
    pub fn delete(&mut self, id: i32) -> (r: Result<(), RepositoryError>)
        requires
            old(self).wf(),
        ensures
            final(self).wf(),
            delete_post(*old(self), id, r, *final(self)),
    {
        let n = self.labels.len();
        let mut i: usize = 0;
        while i < n
            invariant
                *self == *old(self),
                old(self).wf(),
                n == self.labels@.len(),
                i <= n,
                forall|k: int| 0 <= k < i ==> (#[trigger] self.labels@[k]).id != id,
            decreases n - i,
        {
            if self.labels[i].id == id {
                self.labels.remove(i);
                proof {
                    let pre = *old(self);
                    assert(sorted_by_id(pre.labels@));
                    assert forall|k: int| 0 <= k < self.labels@.len() implies (#[trigger] self.labels@[k]).id
                        != id by {
                        if k < i {
                            assert(self.labels@[k] == pre.labels@[k]);
                            assert(pre.labels@[k].id < pre.labels@[i as int].id);
                        } else {
                            assert(self.labels@[k] == pre.labels@[k + 1]);
                            assert(pre.labels@[i as int].id < pre.labels@[k + 1].id);
                        }
                    }
                    assert(pre.labels_seq()[i as int].id == id);
                    assert(self.labels_seq() == pre.labels_seq().remove(i as int));
                }
                return Ok(());
            }
            i += 1;
        }
        Err(RepositoryError::NotFound(id))
    }
}

/// The predicate fixed into the lock: every value the lock ever holds is a
/// well-formed label table.
pub struct StorePred;

impl RwLockPredicate<LabelStore> for StorePred {
    open spec fn inv(self, v: LabelStore) -> bool {
        v.wf()
    }
}

/// A handle on the in-memory store: one label table behind a reader-writer
/// lock. Clones of a handle share the same table, so many concurrent
/// callers operate on one logical store; writes exclude every other
/// operation and reads may run alongside each other.
#[derive(Clone)]
pub struct LabelRepositoryForMemory {
    store: Arc<RwLock<LabelStore, StorePred>>,
}

impl LabelRepositoryForMemory {
    /// A handle on a fresh, empty store.
    pub fn new() -> (s: Self) {
        LabelRepositoryForMemory {
            store: Arc::new(RwLock::new(LabelStore::new(), Ghost(StorePred))),
        }
    }
}

impl LabelRepository for LabelRepositoryForMemory {
    /// The one failure this store knows is exhaustion of the id space,
    /// classified as `Unexpected`; it never rejects a duplicate name.
    fn create(&self, name: String) -> (r: Result<Label, RepositoryError>)
        ensures
            r is Err ==> r->Err_0 is Unexpected,
    {
        let (mut state, write_handle) = self.store.acquire_write();
        let r = state.create(name);
        write_handle.release_write(state);
        r
    }

    /// Listing a snapshot of the shared table never fails.
    fn all(&self) -> (r: Result<Vec<Label>, RepositoryError>)
        ensures
            r is Ok,
    {
        let read_handle = self.store.acquire_read();
        let labels = read_handle.borrow().all();
        read_handle.release_read();
        Ok(labels)
    }

    /// The one failure this store knows is a missing id.
    fn delete(&self, id: i32) -> (r: Result<(), RepositoryError>)
        ensures
            r is Err ==> r->Err_0 == RepositoryError::NotFound(id),
    {
        let (mut state, write_handle) = self.store.acquire_write();
        let r = state.delete(id);
        write_handle.release_write(state);
        r
    }
}

/// Law: created ids are fresh, pairwise. Two successful creates never hand
/// out the same id, however many operations stand between them, because a
/// create only ever adds to the set of issued ids and never reuses one.
pub proof fn lemma_created_ids_distinct(
    pre1: LabelStore,
    name1: Seq<char>,
    l1: Label,
    post1: LabelStore,
    pre2: LabelStore,
    name2: Seq<char>,
    l2: Label,
    post2: LabelStore,
)
    requires
        create_ok_post(pre1, name1, l1, post1),
        create_ok_post(pre2, name2, l2, post2),
        post1.issued().subset_of(pre2.issued()),
    ensures
        l1.id != l2.id,
{
    assert(post1.issued().contains(l1.id as int));
}

/// Law: listing is idempotent. `all` returns exactly the table's contents,
/// so two calls with no write in between return the same sequence.
pub proof fn lemma_list_all_idempotent(s: LabelStore, r1: Seq<Label>, r2: Seq<Label>)
    requires
        r1 == s.labels_seq(),
        r2 == s.labels_seq(),
    ensures
        r1 == r2,
{
}

/// Law: a store with no entities lists nothing.
pub proof fn lemma_list_all_empty(s: LabelStore, r: Seq<Label>)
    requires
        s.labels_seq() == Seq::<Label>::empty(),
        r == s.labels_seq(),
    ensures
        r.len() == 0,
{
}

/// Law: deleting an id twice fails the second time. After any delete of
/// `id` the id is no longer live, so a second delete fails with
/// `NotFound(id)` and leaves the table untouched.
pub proof fn lemma_delete_twice_fails(
    pre: LabelStore,
    id: i32,
    r1: Result<(), RepositoryError>,
    mid: LabelStore,
    r2: Result<(), RepositoryError>,
    post: LabelStore,
)
    requires
        delete_post(pre, id, r1, mid),
        delete_post(mid, id, r2, post),
    ensures
        r2 == Err::<(), RepositoryError>(RepositoryError::NotFound(id)),
        post == mid,
{
}

} // verus!
