//! The latest-value broadcast core: a single overwritable cell with a
//! version counter, read by any number of sessions that each keep their own
//! cursor (the last version they observed).
use vstd::prelude::*;

verus! {

/// What a session receives when it observes the slot: the current value and
/// the version under which it was published.
#[derive(Clone, Debug, PartialEq, Eq)]
pub struct Update {
    pub value: String,
    pub version: u64,
}

impl View for Update {
    type V = (Seq<char>, nat);

    open spec fn view(&self) -> (Seq<char>, nat) {
        (self.value@, self.version as nat)
    }
}

/// The slot as it stands before any publish.
pub open spec fn initial_slot() -> (Seq<char>, nat) {
    (Seq::<char>::empty(), 0nat)
}

/// The slot after `value` has been published into `s`.
pub open spec fn published(s: (Seq<char>, nat), value: Seq<char>) -> (Seq<char>, nat) {
    (value, s.1 + 1)
}

/// The slot after the values have been published into `s`, in order.
pub open spec fn published_all(s: (Seq<char>, nat), values: Seq<Seq<char>>) -> (Seq<char>, nat)
    decreases values.len(),
{
    if values.len() == 0 {
        s
    } else {
        published(published_all(s, values.drop_last()), values.last())
    }
}

/// What a session whose cursor is `cursor` observes in the slot `s`: the
/// current value and version when the version is past the cursor, otherwise
/// nothing yet (the session keeps waiting).
pub open spec fn observed(s: (Seq<char>, nat), cursor: nat) -> Option<(Seq<char>, nat)> {
    if s.1 > cursor {
        Some(s)
    } else {
        None
    }
}

/// The shared cell. Version 0 holds the initial empty value; each publish
/// replaces the value and advances the version by one.
#[derive(Debug)]
pub struct LatestValueSlot {
    value: String,
    version: u64,
}

impl View for LatestValueSlot {
    type V = (Seq<char>, nat);

    closed spec fn view(&self) -> (Seq<char>, nat) {
        (self.value@, self.version as nat)
    }
}

impl LatestValueSlot {
    /// The slot before any publish: empty value, version 0.
    pub fn new() -> (r: LatestValueSlot)
        ensures
            r@ == initial_slot(),
    {
        LatestValueSlot { value: String::new(), version: 0 }
    }

    /// The version of the value currently held.
    pub fn version(&self) -> (r: u64)
        ensures
            r == self@.1,
    {
        self.version
    }

    /// The value currently held.
    pub fn value(&self) -> (r: &String)
        ensures
            r@ == self@.0,
    {
        &self.value
    }

    /// Replaces the stored value and advances the version by one. Never
    /// waits on any reader.
    pub fn publish(&mut self, value: String)
        requires
            old(self)@.1 < u64::MAX,
        ensures
            final(self)@ == published(old(self)@, value@),
    {
        self.value = value;
        self.version = self.version + 1;
    }

    /// The non-suspending half of waiting for an update: a copy of the current
    /// value and its version when the version is past `cursor`, else `None`.
    pub fn observe(&self, cursor: u64) -> (r: Option<Update>)
        ensures
            r matches Some(u) ==> observed(self@, cursor as nat) == Some(u@),
            r is None ==> observed(self@, cursor as nat) is None,
    {
        if self.version > cursor {
            Some(Update { value: self.value.clone(), version: self.version })
        } else {
            None
        }
    }
}

/// The version after a run of publishes is the starting version plus their
/// number, and the value is the last one published.
pub proof fn lemma_published_all(s: (Seq<char>, nat), values: Seq<Seq<char>>)
    ensures
        published_all(s, values).1 == s.1 + values.len(),
        values.len() > 0 ==> published_all(s, values).0 == values.last(),
    decreases values.len(),
{
    if values.len() > 0 {
        lemma_published_all(s, values.drop_last());
    }
}

/// Coalescing: whatever number (one or more) of values is published before a
/// session that has caught up with the slot observes it again, the session
/// observes the last of them, under the newest version, and none of the
/// earlier ones.
pub proof fn lemma_coalescing(s: (Seq<char>, nat), cursor: nat, values: Seq<Seq<char>>)
    requires
        cursor <= s.1,
        values.len() >= 1,
    ensures
        observed(published_all(s, values), cursor) == Some((values.last(), s.1 + values.len())),
{
    lemma_published_all(s, values);
}

/// Late join: a session that starts with cursor 0 after one or more publishes
/// from the initial slot observes the last published value at once.
pub proof fn lemma_late_join(values: Seq<Seq<char>>)
    requires
        values.len() >= 1,
    ensures
        observed(published_all(initial_slot(), values), 0) == Some((values.last(), values.len())),
{
    lemma_coalescing(initial_slot(), 0, values);
}

/// Monotonic versions: a session that observes an update and adopts its
/// version as cursor observes, on its next successful wait, a strictly newer
/// version; the slot's version itself never goes back.
pub proof fn lemma_monotonic_versions(
    s: (Seq<char>, nat),
    cursor: nat,
    values: Seq<Seq<char>>,
    first: (Seq<char>, nat),
    second: (Seq<char>, nat),
)
    requires
        observed(s, cursor) == Some(first),
        observed(published_all(s, values), first.1) == Some(second),
    ensures
        cursor < first.1,
        first.1 < second.1,
        s.1 <= published_all(s, values).1,
{
    lemma_published_all(s, values);
}

/// Isolation: what a session observes depends on the slot and on its own
/// cursor alone, so another session's progress, slowness or failure (any
/// change to its cursor, or its removal) cannot change it; and a session
/// that had caught up receives the newest of any run of publishes.
pub proof fn lemma_isolation(
    s: (Seq<char>, nat),
    cursors: Seq<nat>,
    others: Seq<nat>,
    i: int,
    values: Seq<Seq<char>>,
)
    requires
        0 <= i < cursors.len(),
        0 <= i < others.len(),
        cursors[i] == others[i],
    ensures
        observed(published_all(s, values), cursors[i]) == observed(
            published_all(s, values),
            others[i],
        ),
        cursors[i] <= s.1 && values.len() >= 1 ==> observed(published_all(s, values), cursors[i])
            == Some((values.last(), s.1 + values.len())),
{
    if cursors[i] <= s.1 && values.len() >= 1 {
        lemma_coalescing(s, cursors[i], values);
    }
}

} // verus!
