//! The history of executions: a list of bounded length that drops its
//! oldest entries first.
use crate::models::{fresh_id, same_id, Response, ResponseView, Timestamp};
use crate::text::same_text;
use vstd::prelude::*;

verus! {

/// The last `cap` items of `s`, or all of `s` where it has no more.
pub open spec fn retained<T>(s: Seq<T>, cap: nat) -> Seq<T> {
    if s.len() <= cap {
        s
    } else {
        s.subrange(s.len() - cap, s.len() as int)
    }
}

/// What a list bounded by `cap` holds after the items of `added` were
/// added to `start` one by one.
pub open spec fn add_each<T>(start: Seq<T>, added: Seq<T>, cap: nat) -> Seq<T>
    decreases added.len(),
{
    if added.len() == 0 {
        start
    } else {
        retained(add_each(start, added.drop_last(), cap).push(added.last()), cap)
    }
}

/// Adding items one by one keeps what keeping the last `cap` of all of
/// them at once keeps.
pub proof fn lemma_add_each<T>(start: Seq<T>, added: Seq<T>, cap: nat)
    requires
        added.len() >= 1,
    ensures
        add_each(start, added, cap) == retained(start + added, cap),
    decreases added.len(),
{
    let init = added.drop_last();
    let last = added.last();
    assert(start + added == (start + init).push(last));
    if init.len() == 0 {
        assert(start + init == start);
        assert(add_each(start, init, cap) == start);
    } else {
        lemma_add_each(start, init, cap);
        let all = start + init;
        assert(retained(retained(all, cap).push(last), cap) == retained(all.push(last), cap));
    }
}

/// After more items were added than the bound allows, the list holds
/// exactly the last `cap` of them, in the order in which they were added.
pub proof fn lemma_add_beyond_capacity<T>(start: Seq<T>, added: Seq<T>, cap: nat)
    requires
        added.len() >= 1,
        added.len() >= cap,
    ensures
        add_each(start, added, cap) == added.subrange(added.len() - cap, added.len() as int),
        add_each(start, added, cap).len() == cap,
{
    lemma_add_each(start, added, cap);
    let all = start + added;
    assert(retained(all, cap) == added.subrange(added.len() - cap, added.len() as int));
}

/// With room for at least one item, the item added last is the last of
/// the list.
pub proof fn lemma_last_added_is_latest<T>(start: Seq<T>, added: Seq<T>, cap: nat)
    requires
        added.len() >= 1,
        cap >= 1,
    ensures
        add_each(start, added, cap).len() >= 1,
        add_each(start, added, cap).last() == added.last(),
{
    lemma_add_each(start, added, cap);
}

/// One execution as the history keeps it.
#[derive(Debug)]
pub struct HistoryEntry {
    pub id: uuid::Uuid,
    pub request_name: String,
    pub response: Response,
    pub created_at: Timestamp,
}

/// What a history entry holds.
pub struct HistoryEntryView {
    pub id: uuid::Uuid,
    pub request_name: Seq<char>,
    pub response: ResponseView,
    pub created_at: Timestamp,
}

impl View for HistoryEntry {
    type V = HistoryEntryView;

    open spec fn view(&self) -> HistoryEntryView {
        HistoryEntryView {
            id: self.id,
            request_name: self.request_name@,
            response: self.response@,
            created_at: self.created_at,
        }
    }
}

impl Clone for HistoryEntry {
    fn clone(&self) -> (e: HistoryEntry)
        ensures
            e@ == self@,
    {
        HistoryEntry {
            id: self.id.clone(),
            request_name: self.request_name.clone(),
            response: self.response.clone(),
            created_at: self.created_at,
        }
    }
}

/// The history: entries from the oldest to the newest, and the number of
/// entries that it holds at most.
#[derive(Debug)]
pub struct ResponseHistory {
    pub entries: Vec<HistoryEntry>,
    pub max_entries: usize,
}

impl ResponseHistory {
    /// What the entries hold, oldest first.
    pub open spec fn model(self) -> Seq<HistoryEntryView> {
        self.entries@.map_values(|e: HistoryEntry| e@)
    }

    /// Whether the history holds no more entries than its bound allows.
    pub open spec fn within_capacity(self) -> bool {
        self.entries@.len() <= self.max_entries
    }

    /// An empty history that holds up to 100 entries.
    pub fn new() -> (h: ResponseHistory)
        ensures
            h.entries@ == Seq::<HistoryEntry>::empty(),
            h.max_entries == 100,
            h.within_capacity(),
    {
        ResponseHistory { entries: Vec::new(), max_entries: 100 }
    }

    /// Adds `entry` as the newest, then drops the oldest entries until the
    /// bound holds.
    pub fn push_entry(&mut self, entry: HistoryEntry)
        ensures
            final(self).max_entries == old(self).max_entries,
            final(self).entries@ == retained(
                old(self).entries@.push(entry),
                old(self).max_entries as nat,
            ),
            final(self).model() == retained(
                old(self).model().push(entry@),
                old(self).max_entries as nat,
            ),
            final(self).within_capacity(),
    {
        self.entries.push(entry);
        let len = self.entries.len();
        if len > self.max_entries {
            let kept = self.entries.split_off(len - self.max_entries);
            self.entries = kept;
        }
        assert(self.model() =~= retained(
            old(self).model().push(entry@),
            old(self).max_entries as nat,
        ));
    }

    /// Records `response` as the newest entry for the request called
    /// `request_name`, under a fresh identifier and the present time.
    pub fn add_entry(&mut self, request_name: String, response: Response)
        ensures
            final(self).max_entries == old(self).max_entries,
            final(self).within_capacity(),
            exists|entry: HistoryEntry|
                {
                    &&& entry.request_name == request_name
                    &&& entry.response == response
                    &&& final(self).entries@ == retained(
                        old(self).entries@.push(entry),
                        old(self).max_entries as nat,
                    )
                },
    {
        let entry = HistoryEntry {
            id: fresh_id(),
            request_name,
            response,
            created_at: Timestamp::now(),
        };
        self.push_entry(entry);
    }

    /// The newest entry.
    pub fn get_latest(&self) -> (r: Option<&HistoryEntry>)
        ensures
            match r {
                Some(e) => self.entries@.len() > 0 && *e == self.entries@.last(),
                None => self.entries@.len() == 0,
            },
    {
        let n = self.entries.len();
        if n == 0 {
            None
        } else {
            Some(&self.entries[n - 1])
        }
    }

    /// The entries recorded for the request called `name`, oldest first.
    pub fn get_by_request_name(&self, name: &str) -> (r: Vec<&HistoryEntry>)
        ensures
            r@.map_values(|e: &HistoryEntry| *e) == self.entries@.filter(
                |e: HistoryEntry| e.request_name@ == name@,
            ),
    {
        let ghost pred = |e: HistoryEntry| e.request_name@ == name@;
        let ghost deref = |e: &HistoryEntry| *e;
        let mut r: Vec<&HistoryEntry> = Vec::new();
        let mut i: usize = 0;
        assert(self.entries@.take(0).filter(pred) == Seq::<HistoryEntry>::empty()) by {
            reveal(Seq::filter);
        }
        assert(r@.map_values(deref) == Seq::<HistoryEntry>::empty());
        while i < self.entries.len()
            invariant
                i <= self.entries.len(),
                pred == (|e: HistoryEntry| e.request_name@ == name@),
                deref == (|e: &HistoryEntry| *e),
                r@.map_values(deref) == self.entries@.take(i as int).filter(pred),
            decreases self.entries.len() - i,
        {
            let ghost before = r@;
            let e = &self.entries[i];
            proof {
                reveal(Seq::filter);
                assert(self.entries@.take(i + 1).drop_last() == self.entries@.take(i as int));
            }
            if same_text(e.request_name.as_str(), name) {
                r.push(e);
                assert(r@.map_values(deref) == before.map_values(deref).push(*e));
            }
            i = i + 1;
        }
        assert(self.entries@.take(self.entries.len() as int) == self.entries@);
        r
    }

    /// Up to `count` entries, newest first.
    pub fn get_recent(&self, count: usize) -> (r: Vec<&HistoryEntry>)
        ensures
            r@.len() == if count <= self.entries@.len() {
                count as nat
            } else {
                self.entries@.len()
            },
            forall|i: int|
                0 <= i < r@.len() ==> *#[trigger] r@[i] == self.entries@[self.entries@.len() - 1
                    - i],
    {
        let n = self.entries.len();
        let take = if count <= n {
            count
        } else {
            n
        };
        let mut r: Vec<&HistoryEntry> = Vec::new();
        let mut i: usize = 0;
        while i < take
            invariant
                i <= take <= n,
                n == self.entries@.len(),
                r@.len() == i,
                forall|j: int| 0 <= j < i ==> *#[trigger] r@[j] == self.entries@[n - 1 - j],
            decreases take - i,
        {
            r.push(&self.entries[n - 1 - i]);
            i = i + 1;
        }
        r
    }

    /// The oldest entry with the identifier `id`.
    pub fn find_by_id(&self, id: &uuid::Uuid) -> (r: Option<&HistoryEntry>)
        ensures
            match r {
                Some(e) => exists|i: int|
                    {
                        &&& 0 <= i < self.entries@.len()
                        &&& *e == self.entries@[i]
                        &&& e.id == *id
                        &&& forall|j: int| 0 <= j < i ==> (#[trigger] self.entries@[j]).id != *id
                    },
                None => forall|j: int|
                    0 <= j < self.entries@.len() ==> (#[trigger] self.entries@[j]).id != *id,
            },
    {
        let mut i: usize = 0;
        while i < self.entries.len()
            invariant
                i <= self.entries.len(),
                forall|j: int| 0 <= j < i ==> (#[trigger] self.entries@[j]).id != *id,
            decreases self.entries.len() - i,
        {
            if same_id(&self.entries[i].id, id) {
                return Some(&self.entries[i]);
            }
            i = i + 1;
        }
        None
    }

    /// Drops every entry.
    pub fn clear(&mut self)
        ensures
            final(self).entries@ == Seq::<HistoryEntry>::empty(),
            final(self).max_entries == old(self).max_entries,
    {
        self.entries.clear();
    }
}

impl Clone for ResponseHistory {
    fn clone(&self) -> (h: ResponseHistory)
        ensures
            h.model() == self.model(),
            h.max_entries == self.max_entries,
    {
        let mut entries: Vec<HistoryEntry> = Vec::new();
        let mut i: usize = 0;
        while i < self.entries.len()
            invariant
                i <= self.entries.len(),
                entries@.len() == i,
                forall|j: int| 0 <= j < i ==> (#[trigger] entries@[j])@ == self.entries@[j]@,
            decreases self.entries.len() - i,
        {
            entries.push(self.entries[i].clone());
            i = i + 1;
        }
        let h = ResponseHistory { entries, max_entries: self.max_entries };
        assert(h.model() =~= self.model());
        h
    }
}

impl Default for ResponseHistory {
    fn default() -> (h: ResponseHistory)
        ensures
            h.entries@ == Seq::<HistoryEntry>::empty(),
            h.max_entries == 100,
    {
        ResponseHistory::new()
    }
}

} // verus!
