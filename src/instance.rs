//! A worker context: one identity, one private request tally, and the four
//! request handlers that combine them with the shared message log.
//!
//! Each handler first charges the tally, then runs one operation on the log,
//! then builds its answer from this context's own id and tally.
use vstd::prelude::*;
use crate::response::{IndexResponse, LookupResponse, PostResponse};
use crate::store::{MessageLog, appended, cleared, listing, lookup_of, opt_text, texts};

verus! {

/// The context of one worker. It is owned by that worker alone, so its
/// tally needs no synchronization; only the log is shared.
pub struct ServerInstance {
    server_id: usize,
    request_count: usize,
}

/// One request was charged: the id stayed, the tally went up by exactly one.
pub open spec fn charged(before: ServerInstance, after: ServerInstance) -> bool {
    &&& after.id() == before.id()
    &&& after.count() == before.count() + 1
}

/// An answer carrying `server_id` and `request_count` was built from the
/// fields of `inst`.
pub open spec fn answered_by(server_id: usize, request_count: usize, inst: ServerInstance) -> bool {
    &&& server_id == inst.id()
    &&& request_count == inst.count()
}

/// A worker that starts fresh and is then charged once per request reports
/// a tally of `k` after its `k`-th request, and keeps its id throughout.
pub proof fn lemma_request_counting(states: Seq<ServerInstance>)
    requires
        states.len() > 0,
        states[0].count() == 0,
        forall|i: int| 0 <= i < states.len() - 1 ==> charged(#[trigger] states[i], states[i + 1]),
    ensures
        forall|i: int|
            0 <= i < states.len() ==> #[trigger] states[i].count() == i && states[i].id()
                == states[0].id(),
    decreases states.len(),
{
    if states.len() > 1 {
        let prefix = states.drop_last();
        assert forall|i: int| 0 <= i < prefix.len() - 1 implies charged(
            #[trigger] prefix[i],
            prefix[i + 1],
        ) by {
            assert(charged(states[i], states[i + 1]));
        }
        lemma_request_counting(prefix);
        assert forall|i: int| 0 <= i < states.len() implies states[i].count() == i
            && states[i].id() == states[0].id() by {
            if i < states.len() - 1 {
                assert(states[i] == prefix[i]);
            } else {
                assert(prefix[i - 1] == states[i - 1]);
                assert(charged(states[i - 1], states[i]));
            }
        }
    }
}

impl ServerInstance {
    /// The worker's id.
    pub closed spec fn id(&self) -> usize {
        self.server_id
    }

    /// How many requests the worker has handled.
    pub closed spec fn count(&self) -> nat {
        self.request_count as nat
    }

    /// A fresh worker context with the given id and no request handled yet.
    pub fn new(server_id: usize) -> (r: Self)
        ensures
            r.id() == server_id,
            r.count() == 0,
    {
        ServerInstance { server_id, request_count: 0 }
    }

    pub fn server_id(&self) -> (r: usize)
        ensures
            r == self.id(),
    {
        self.server_id
    }

    pub fn request_count(&self) -> (r: usize)
        ensures
            r == self.count(),
    {
        self.request_count
    }

    /// Charges one request and returns the new tally; the first request
    /// sees 1.
    pub fn increment_and_get(&mut self) -> (n: usize)
        requires
            old(self).count() < usize::MAX,
        ensures
            charged(*old(self), *final(self)),
            n == final(self).count(),
    {
        self.request_count = self.request_count + 1;
        self.request_count
    }

    /// Lists every message of the log.
    pub fn index(&mut self, log: &MessageLog) -> (r: IndexResponse)
        requires
            old(self).count() < usize::MAX,
        ensures
            charged(*old(self), *final(self)),
            answered_by(r.server_id, r.request_count, *final(self)),
            texts(r.messages@) == listing(log@),
    {
        let request_count = self.increment_and_get();
        IndexResponse { server_id: self.server_id, request_count, messages: log.snapshot() }
    }

    /// Appends `message` to the log and echoes it back. The body it comes
    /// from has already passed validation (see `send`).
    pub fn post(&mut self, log: &mut MessageLog, message: String) -> (r: PostResponse)
        requires
            old(self).count() < usize::MAX,
        ensures
            charged(*old(self), *final(self)),
            answered_by(r.server_id, r.request_count, *final(self)),
            final(log)@ == appended(old(log)@, message@),
            r.message@ == message@,
    {
        let request_count = self.increment_and_get();
        let echo = message.clone();
        log.append(message);
        PostResponse { server_id: self.server_id, request_count, message: echo }
    }

    /// Empties the log; the answer lists what is left, which is nothing.
    pub fn clear(&mut self, log: &mut MessageLog) -> (r: IndexResponse)
        requires
            old(self).count() < usize::MAX,
        ensures
            charged(*old(self), *final(self)),
            answered_by(r.server_id, r.request_count, *final(self)),
            final(log)@ == cleared(old(log)@),
            texts(r.messages@) == listing(final(log)@),
            r.messages@.len() == 0,
    {
        let request_count = self.increment_and_get();
        log.clear();
        let messages: Vec<String> = Vec::new();
        assert(texts(messages@) =~= listing(log@));
        IndexResponse { server_id: self.server_id, request_count, messages }
    }

    /// The message at `position`, or `None` when the log is shorter; a
    /// position past the end is an ordinary answer, not a failure.
    pub fn lookup(&mut self, log: &MessageLog, position: usize) -> (r: LookupResponse)
        requires
            old(self).count() < usize::MAX,
        ensures
            charged(*old(self), *final(self)),
            answered_by(r.server_id, r.request_count, *final(self)),
            opt_text(r.result) == lookup_of(log@, position as int),
    {
        let request_count = self.increment_and_get();
        let result = log.get(position);
        LookupResponse { server_id: self.server_id, request_count, result }
    }
}

} // verus!
