use std::collections::VecDeque;
use vstd::prelude::*;

verus! {

/// Most entries a history keeps; the oldest leaves first.
pub const MAX_HISTORY_SIZE: usize = 100;

/// One visited page.
#[derive(Debug, Clone)]
pub struct HistoryEntry {
    pub url: String,
    pub title: String,
}

/// Bounded log of visited pages with a cursor on the page shown.
pub struct History {
    entries: VecDeque<HistoryEntry>,
    current_index: Option<usize>,
}

/// Entries after `add` of `e`: the forward branch past the cursor is cut, `e`
/// appended, and the oldest entry evicted when over capacity.
pub open spec fn added(entries: Seq<HistoryEntry>, cursor: Option<int>, e: HistoryEntry) -> Seq<
    HistoryEntry,
> {
    let kept = match cursor {
        Some(c) => entries.take(c + 1),
        None => entries,
    };
    let grown = kept.push(e);
    if grown.len() > MAX_HISTORY_SIZE {
        grown.drop_first()
    } else {
        grown
    }
}

/// A borrowed entry stands for the given one, or both are absent.
pub open spec fn refers_to(r: Option<&HistoryEntry>, e: Option<HistoryEntry>) -> bool {
    match (r, e) {
        (Some(a), Some(b)) => *a == b,
        (None, None) => true,
        _ => false,
    }
}

/// Going back `n` steps from cursor `c` (each `go_back` moves it by one) and
/// then adding a page keeps only the entries up to position `c - n`, then the
/// new page: every entry that stood after the cursor reached is gone. Beyond
/// capacity the oldest entry leaves too.
pub proof fn lemma_back_then_add_truncates(h: History, n: nat, e: HistoryEntry)
    requires
        h.wf(),
        h.cursor() matches Some(c) && n <= c,
    ensures
        ({
            let back = h.cursor()->0 - n;
            let r = added(h.entries(), Some(back), e);
            let start: int = if back + 2 > MAX_HISTORY_SIZE {
                1
            } else {
                0
            };
            &&& r.len() == back + 2 - start
            &&& r.last() == e
            &&& r.drop_last() == h.entries().subrange(start, back + 1)
        }),
{
    let back = h.cursor()->0 - n;
    let r = added(h.entries(), Some(back), e);
    let grown = h.entries().take(back + 1).push(e);
    if back + 2 > MAX_HISTORY_SIZE {
        assert(r == grown.drop_first());
        assert(r.drop_last() =~= h.entries().subrange(1, back + 1));
    } else {
        assert(r.drop_last() =~= h.entries().subrange(0, back + 1));
    }
}

/// After any `add`, the cursor is on the last entry and there are at most
/// `MAX_HISTORY_SIZE` entries.
pub proof fn lemma_add_keeps_cursor_at_tail(entries: Seq<HistoryEntry>, cursor: Option<int>, e: HistoryEntry)
    requires
        entries.len() <= MAX_HISTORY_SIZE,
        cursor is None <==> entries.len() == 0,
        cursor matches Some(c) ==> 0 <= c < entries.len(),
    ensures
        0 < added(entries, cursor, e).len() <= MAX_HISTORY_SIZE,
        added(entries, cursor, e).last() == e,
{
}

impl History {
    pub closed spec fn entries(&self) -> Seq<HistoryEntry> {
        self.entries@
    }

    pub closed spec fn cursor(&self) -> Option<int> {
        match self.current_index {
            Some(i) => Some(i as int),
            None => None,
        }
    }

    /// The cursor names an entry, or there is none and the history is empty.
    pub open spec fn wf(&self) -> bool {
        &&& self.entries().len() <= MAX_HISTORY_SIZE
        &&& (self.cursor() is None <==> self.entries().len() == 0)
        &&& (self.cursor() matches Some(c) ==> 0 <= c < self.entries().len())
    }

    /// The entry under the cursor, if any.
    pub open spec fn current_entry(&self) -> Option<HistoryEntry> {
        match self.cursor() {
            Some(c) => Some(self.entries()[c]),
            None => None,
        }
    }

    pub fn new() -> (r: Self)
        ensures
            r.wf(),
            r.entries() == Seq::<HistoryEntry>::empty(),
            r.cursor() is None,
    {
        History { entries: VecDeque::with_capacity(MAX_HISTORY_SIZE), current_index: None }
    }

    /// Records a visit: drops the entries past the cursor, appends the new
    /// one, evicts the oldest beyond capacity, and puts the cursor on it.
    pub fn add(&mut self, url: String, title: String)
        requires
            old(self).wf(),
        ensures
            final(self).wf(),
            final(self).entries() == added(
                old(self).entries(),
                old(self).cursor(),
                HistoryEntry { url, title },
            ),
            final(self).cursor() == Some(final(self).entries().len() - 1),
    {
        if let Some(current) = self.current_index {
            self.entries.truncate(current + 1);
        }
        self.entries.push_back(HistoryEntry { url, title });
        if self.entries.len() > MAX_HISTORY_SIZE {
            self.entries.pop_front();
        }
        self.current_index = Some(self.entries.len() - 1);
    }

    pub fn can_go_back(&self) -> (r: bool)
        requires
            self.wf(),
        ensures
            r == (self.cursor() matches Some(c) && c > 0),
    {
        match self.current_index {
            Some(i) => i > 0,
            None => false,
        }
    }

    pub fn can_go_forward(&self) -> (r: bool)
        requires
            self.wf(),
        ensures
            r == (self.cursor() matches Some(c) && c + 1 < self.entries().len()),
    {
        match self.current_index {
            Some(i) => i + 1 < self.entries.len(),
            None => false,
        }
    }

    /// Moves the cursor one entry back, if it can, and returns the entry there.
    pub fn go_back(&mut self) -> (r: Option<&HistoryEntry>)
        requires
            old(self).wf(),
        ensures
            final(self).wf(),
            final(self).entries() == old(self).entries(),
            old(self).can_go_back_spec() ==> {
                &&& final(self).cursor() == Some(old(self).cursor()->0 - 1)
                &&& refers_to(r, final(self).current_entry())
            },
            !old(self).can_go_back_spec() ==> *final(self) == *old(self) && r is None,
    {
        if self.can_go_back() {
            self.current_index = Some(self.current_index.unwrap() - 1);
            self.current()
        } else {
            None
        }
    }

    /// Moves the cursor one entry forward, if it can, and returns the entry there.
    pub fn go_forward(&mut self) -> (r: Option<&HistoryEntry>)
        requires
            old(self).wf(),
        ensures
            final(self).wf(),
            final(self).entries() == old(self).entries(),
            old(self).can_go_forward_spec() ==> {
                &&& final(self).cursor() == Some(old(self).cursor()->0 + 1)
                &&& refers_to(r, final(self).current_entry())
            },
            !old(self).can_go_forward_spec() ==> *final(self) == *old(self) && r is None,
    {
        if self.can_go_forward() {
            self.current_index = Some(self.current_index.unwrap() + 1);
            self.current()
        } else {
            None
        }
    }

    pub open spec fn can_go_back_spec(&self) -> bool {
        self.cursor() matches Some(c) && c > 0
    }

    pub open spec fn can_go_forward_spec(&self) -> bool {
        self.cursor() matches Some(c) && c + 1 < self.entries().len()
    }

    /// Where the cursor stands, if anywhere.
    pub fn current_index(&self) -> (r: Option<usize>)
        ensures
            match r {
                Some(i) => self.cursor() == Some(i as int),
                None => self.cursor() is None,
            },
    {
        self.current_index
    }

    pub fn current(&self) -> (r: Option<&HistoryEntry>)
        requires
            self.wf(),
        ensures
            refers_to(r, self.current_entry()),
    {
        match self.current_index {
            Some(i) => Some(&self.entries[i]),
            None => None,
        }
    }

    /// Every entry, oldest first.
    pub fn list(&self) -> (r: Vec<&HistoryEntry>)
        ensures
            r@.len() == self.entries().len(),
            forall|j: int| 0 <= j < r@.len() ==> *r@[j] == self.entries()[j],
    {
        let mut out: Vec<&HistoryEntry> = Vec::new();
        let mut i: usize = 0;
        while i < self.entries.len()
            invariant
                i <= self.entries@.len(),
                out@.len() == i,
                forall|j: int| 0 <= j < i ==> *out@[j] == self.entries@[j],
            decreases self.entries@.len() - i,
        {
            out.push(&self.entries[i]);
            i += 1;
        }
        out
    }
}

} // verus!
