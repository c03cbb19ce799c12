//! Process-wide worker identities.
//!
//! One source hands out the ids of all worker contexts of a process, counting
//! up from 0. Callers that construct workers concurrently share the source
//! behind a lock, so each id is taken in one step and none is issued twice.
use vstd::prelude::*;

verus! {

/// Hands out distinct worker ids: 0, 1, 2, ... in the order of the calls.
pub struct IdSource {
    next: usize,
}

/// `id` was issued by the step that took the source from `before` to `after`.
pub open spec fn issues(before: IdSource, after: IdSource, id: usize) -> bool {
    &&& id == before.issued_count()
    &&& after.issued_count() == before.issued_count() + 1
}

impl IdSource {
    /// How many ids have been issued so far.
    pub closed spec fn issued_count(&self) -> nat {
        self.next as nat
    }

    /// Every id issued so far.
    pub open spec fn issued(&self) -> Set<nat> {
        Set::new(|i: nat| i < self.issued_count())
    }

    pub fn new() -> (r: Self)
        ensures
            r.issued_count() == 0,
            r.issued() == Set::<nat>::empty(),
    {
        let r = IdSource { next: 0 };
        assert(r.issued() =~= Set::<nat>::empty());
        r
    }

    /// Issues the next id, one never issued before by this source. Returns
    /// `None`, and changes nothing, once every `usize` below `usize::MAX`
    /// has been issued.
    pub fn next_id(&mut self) -> (r: Option<usize>)
        ensures
            r is Some <==> old(self).issued_count() < usize::MAX,
            r matches Some(id) ==> {
                &&& issues(*old(self), *final(self), id)
                &&& !old(self).issued().contains(id as nat)
                &&& final(self).issued() == old(self).issued().insert(id as nat)
            },
            r is None ==> *final(self) == *old(self),
    {
        if self.next < usize::MAX {
            let id = self.next;
            self.next = self.next + 1;
            assert(final(self).issued() =~= old(self).issued().insert(id as nat));
            Some(id)
        } else {
            None
        }
    }
}

/// Ids issued at two different times by one source differ: once an id has
/// been issued, every later issue (after any number of further steps, each
/// of which only adds to what was issued) gives another one.
pub proof fn lemma_ids_never_repeat(
    s0: IdSource,
    s1: IdSource,
    first: usize,
    s2: IdSource,
    s3: IdSource,
    second: usize,
)
    requires
        issues(s0, s1, first),
        s1.issued_count() <= s2.issued_count(),
        issues(s2, s3, second),
    ensures
        first != second,
        s3.issued().contains(first as nat),
        s3.issued().contains(second as nat),
{
}

} // verus!
