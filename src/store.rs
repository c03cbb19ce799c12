//! The shared message log: an ordered, append-only sequence of texts that
//! can be emptied as a whole.
//!
//! Every operation here is a single step on the sequence. Workers share one
//! log behind a mutual-exclusion lock and run each operation entirely while
//! holding it, so any concurrent run is some sequence of these steps.
use vstd::prelude::*;

verus! {

/// The texts held by a vector of strings.
pub open spec fn texts(v: Seq<String>) -> Seq<Seq<char>> {
    v.map_values(|s: String| s@)
}

/// The log after one append.
pub open spec fn appended(log: Seq<Seq<char>>, text: Seq<char>) -> Seq<Seq<char>> {
    log.push(text)
}

/// The log after it has been cleared.
pub open spec fn cleared(log: Seq<Seq<char>>) -> Seq<Seq<char>> {
    Seq::empty()
}

/// What a listing of the log shows.
pub open spec fn listing(log: Seq<Seq<char>>) -> Seq<Seq<char>> {
    log
}

/// The message at `position`, or nothing when the position is past the end.
pub open spec fn lookup_of(log: Seq<Seq<char>>, position: int) -> Option<Seq<char>> {
    if 0 <= position < log.len() {
        Some(log[position])
    } else {
        None
    }
}

/// The log after appending each text of `batch` in turn.
pub open spec fn after_appends(log: Seq<Seq<char>>, batch: Seq<Seq<char>>) -> Seq<Seq<char>>
    decreases batch.len(),
{
    if batch.len() == 0 {
        log
    } else {
        appended(after_appends(log, batch.drop_last()), batch.last())
    }
}

/// An optional string seen as optional text.
pub open spec fn opt_text(o: Option<String>) -> Option<Seq<char>> {
    match o {
        Some(s) => Some(s@),
        None => None,
    }
}

/// Appending texts one after another leaves the earlier log followed by
/// those texts, in the order in which they were appended.
pub proof fn lemma_appends_in_order(log: Seq<Seq<char>>, batch: Seq<Seq<char>>)
    ensures
        after_appends(log, batch) == log + batch,
    decreases batch.len(),
{
    if batch.len() > 0 {
        lemma_appends_in_order(log, batch.drop_last());
        assert(log + batch =~= (log + batch.drop_last()).push(batch.last()));
    } else {
        assert(log + batch =~= log);
    }
}

/// Listing an empty log after appending `t1 .. tn` one by one shows
/// exactly `t1 .. tn`, in that order.
pub proof fn lemma_append_then_list(batch: Seq<Seq<char>>)
    ensures
        listing(after_appends(Seq::empty(), batch)) == batch,
{
    lemma_appends_in_order(Seq::empty(), batch);
    assert(Seq::<Seq<char>>::empty() + batch =~= batch);
}

/// Appends that race for the log are applied one at a time in some order.
/// Whichever order that is, the log ends up holding what it held before
/// plus every submitted text, each exactly as often as it was submitted;
/// from an empty log, the listing holds exactly the submitted texts.
pub proof fn lemma_concurrent_appends_complete(
    log: Seq<Seq<char>>,
    submitted: Seq<Seq<char>>,
    serialized: Seq<Seq<char>>,
)
    requires
        serialized.to_multiset() == submitted.to_multiset(),
    ensures
        after_appends(log, serialized).to_multiset() == log.to_multiset().add(
            submitted.to_multiset(),
        ),
        listing(after_appends(Seq::empty(), serialized)).to_multiset() == submitted.to_multiset(),
        listing(after_appends(Seq::empty(), serialized)).to_set() == submitted.to_set(),
{
    lemma_appends_in_order(log, serialized);
    vstd::seq_lib::lemma_multiset_commutative(log, serialized);
    lemma_append_then_list(serialized);
    assert forall|t: Seq<char>| serialized.contains(t) <==> submitted.contains(t) by {
        serialized.to_multiset_ensures();
        submitted.to_multiset_ensures();
        assert(serialized.contains(t) == (serialized.to_multiset().count(t) > 0));
        assert(submitted.contains(t) == (submitted.to_multiset().count(t) > 0));
    }
    assert(serialized.to_set() =~= submitted.to_set());
}

/// A listing right after clearing is empty, whatever the log held, and
/// clearing twice is the same as clearing once.
pub proof fn lemma_clear_then_list(log: Seq<Seq<char>>)
    ensures
        listing(cleared(log)) == Seq::<Seq<char>>::empty(),
        cleared(cleared(log)) == cleared(log),
{
}

/// In a log of `n` messages, a lookup at `0 <= i < n` finds the message at
/// position `i`; any other position finds nothing, which is no failure.
pub proof fn lemma_lookup_bounds(log: Seq<Seq<char>>, i: int)
    ensures
        0 <= i < log.len() ==> lookup_of(log, i) == Some(log[i]),
        (i < 0 || i >= log.len()) ==> lookup_of(log, i) is None,
{
}

/// An ordered log of text messages.
pub struct MessageLog {
    messages: Vec<String>,
}

impl View for MessageLog {
    type V = Seq<Seq<char>>;

    closed spec fn view(&self) -> Seq<Seq<char>> {
        texts(self.messages@)
    }
}

proof fn lemma_texts_push(v: Seq<String>, s: String)
    ensures
        texts(v.push(s)) == texts(v).push(s@),
{
    assert(texts(v.push(s)) =~= texts(v).push(s@));
}

/// Copies a vector of strings, string by string.
fn copy_all(v: &Vec<String>) -> (r: Vec<String>)
    ensures
        texts(r@) == texts(v@),
{
    let mut r: Vec<String> = Vec::new();
    let mut i: usize = 0;
    while i < v.len()
        invariant
            i <= v.len(),
            texts(r@) == texts(v@.subrange(0, i as int)),
        decreases v.len() - i,
    {
        let s = v[i].clone();
        proof {
            lemma_texts_push(r@, s);
            lemma_texts_push(v@.subrange(0, i as int), v@[i as int]);
            assert(v@.subrange(0, i + 1) =~= v@.subrange(0, i as int).push(v@[i as int]));
        }
        r.push(s);
        i = i + 1;
    }
    assert(v@.subrange(0, v.len() as int) =~= v@);
    r
}

impl MessageLog {
    pub fn new() -> (r: Self)
        ensures
            r@ == Seq::<Seq<char>>::empty(),
    {
        let r = MessageLog { messages: Vec::new() };
        assert(r@ =~= Seq::<Seq<char>>::empty());
        r
    }

    /// Number of messages held.
    pub fn len(&self) -> (r: usize)
        ensures
            r == self@.len(),
    {
        self.messages.len()
    }

    /// Adds `text` at the end and returns the position it now holds.
    pub fn append(&mut self, text: String) -> (position: usize)
        ensures
            position == old(self)@.len(),
            final(self)@ == appended(old(self)@, text@),
    {
        let position = self.messages.len();
        self.messages.push(text);
        assert(final(self)@ =~= appended(old(self)@, text@));
        position
    }

    /// A copy of every message, in order.
    pub fn snapshot(&self) -> (r: Vec<String>)
        ensures
            texts(r@) == listing(self@),
    {
        copy_all(&self.messages)
    }

    /// Removes every message.
    pub fn clear(&mut self)
        ensures
            final(self)@ == cleared(old(self)@),
    {
        self.messages.clear();
        assert(final(self)@ =~= cleared(old(self)@));
    }

    /// A copy of the message at `position`, or `None` past the end.
    pub fn get(&self, position: usize) -> (r: Option<String>)
        ensures
            opt_text(r) == lookup_of(self@, position as int),
    {
        if position < self.messages.len() {
            Some(self.messages[position].clone())
        } else {
            None
        }
    }
}

} // verus!
