//! The bounded record of recent screenshots, newest first.

use vstd::prelude::*;

verus! {

/// How many screenshots the history keeps.
pub const HISTORY_CAPACITY: usize = 20;

/// One screenshot on disk. Its age is its place in the history.
#[derive(Debug, PartialEq, Eq)]
pub struct ScreenshotRecord {
    pub path: String,
}

/// The history as a sequence of paths, newest first, and the place of the
/// view cursor in it.
pub struct HistoryView {
    pub paths: Seq<Seq<char>>,
    pub cursor: nat,
}

impl HistoryView {
    /// Never more than the capacity; the cursor points at an entry, or at 0
    /// in an empty history.
    pub open spec fn well_formed(self) -> bool {
        &&& self.paths.len() <= HISTORY_CAPACITY
        &&& self.cursor == 0 || self.cursor < self.paths.len()
    }

    /// The history after a new screenshot was recorded: it stands in front,
    /// the oldest entry is gone if the history was full, and the cursor is
    /// back on the newest.
    pub open spec fn inserted(self, path: Seq<char>) -> HistoryView {
        let grown = seq![path] + self.paths;
        HistoryView {
            paths: if grown.len() > HISTORY_CAPACITY {
                grown.drop_last()
            } else {
                grown
            },
            cursor: 0,
        }
    }

    /// The entry that recording a new screenshot pushes out: the oldest one,
    /// when the history is full.
    pub open spec fn evicted(self) -> Option<Seq<char>> {
        if self.paths.len() >= HISTORY_CAPACITY {
            Some(self.paths.last())
        } else {
            None
        }
    }

    /// Where the cursor stands after moving by `delta`: as far as asked, but
    /// not past either end.
    pub open spec fn moved(self, delta: int) -> nat {
        if self.paths.len() == 0 {
            0
        } else if self.cursor + delta < 0 {
            0
        } else if self.cursor + delta > self.paths.len() - 1 {
            (self.paths.len() - 1) as nat
        } else {
            (self.cursor + delta) as nat
        }
    }
}

/// Recording a screenshot never lets the history grow past its capacity.
/// The new entry stands first. A history with room keeps all it had; a full
/// one loses exactly its oldest entry, which is the one handed back.
pub proof fn lemma_insert_respects_capacity(history: HistoryView, path: Seq<char>)
    requires
        history.well_formed(),
    ensures
        history.inserted(path).well_formed(),
        history.inserted(path).paths[0] == path,
        history.paths.len() < HISTORY_CAPACITY ==> history.evicted() is None && history.inserted(path).paths
            == seq![path] + history.paths,
        history.paths.len() == HISTORY_CAPACITY ==> history.evicted() == Some(history.paths.last())
            && history.inserted(path).paths == seq![path] + history.paths.drop_last()
            && history.inserted(path).paths.len() == HISTORY_CAPACITY,
{
    let grown = seq![path] + history.paths;
    if history.paths.len() == HISTORY_CAPACITY {
        assert(grown.drop_last() =~= seq![path] + history.paths.drop_last());
    }
}

/// Recent screenshots, newest first, at most `HISTORY_CAPACITY` of them,
/// with a cursor for looking through them.
#[derive(Debug)]
pub struct HistoryRing {
    entries: Vec<ScreenshotRecord>,
    cursor: usize,
}

/// The paths of a run of records.
pub open spec fn record_paths(records: Seq<ScreenshotRecord>) -> Seq<Seq<char>> {
    records.map_values(|record: ScreenshotRecord| record.path@)
}

impl View for HistoryRing {
    type V = HistoryView;

    closed spec fn view(&self) -> HistoryView {
        HistoryView { paths: record_paths(self.entries@), cursor: self.cursor as nat }
    }
}

impl HistoryRing {
    #[verifier::type_invariant]
    spec fn bounded(self) -> bool {
        &&& self.entries@.len() <= HISTORY_CAPACITY
        &&& self.cursor == 0 || self.cursor < self.entries@.len()
    }

    /// An empty history.
    pub fn new() -> (ring: HistoryRing)
        ensures
            ring@.paths.len() == 0,
            ring@.cursor == 0,
    {
        HistoryRing { entries: Vec::new(), cursor: 0 }
    }

    /// How many screenshots are on record: never more than the capacity.
    pub fn len(&self) -> (n: usize)
        ensures
            n == self@.paths.len(),
            self@.well_formed(),
    {
        proof {
            use_type_invariant(self);
        }
        self.entries.len()
    }

    /// Where the view cursor stands.
    pub fn cursor(&self) -> (at: usize)
        ensures
            at == self@.cursor,
    {
        self.cursor
    }

    /// The path of the entry at `index`, counted from the newest.
    pub fn path_at(&self, index: usize) -> (path: Option<&str>)
        ensures
            path.is_some() == (index < self@.paths.len()),
            path matches Some(p) ==> p@ == self@.paths[index as int],
    {
        if index < self.entries.len() {
            Some(self.entries[index].path.as_str())
        } else {
            None
        }
    }

    /// Records a new screenshot in front of all others and puts the cursor
    /// on it. If that makes one entry too many, the oldest is dropped and
    /// handed back: its file is the caller's to delete.
    pub fn insert_front(&mut self, record: ScreenshotRecord) -> (dropped: Option<ScreenshotRecord>)
        ensures
            final(self)@ == old(self)@.inserted(record.path@),
            final(self)@.well_formed(),
            match dropped {
                Some(oldest) => old(self)@.evicted() == Some(oldest.path@),
                None => old(self)@.evicted() is None,
            },
    {
        proof {
            use_type_invariant(&*self);
        }
        let ghost before = self.entries@;
        self.cursor = 0;
        let mut entries: Vec<ScreenshotRecord> = Vec::new();
        core::mem::swap(&mut entries, &mut self.entries);
        entries.insert(0, record);
        assert(record_paths(entries@) == seq![record.path@] + record_paths(before));
        let dropped = if entries.len() > HISTORY_CAPACITY {
            let ghost grown = entries@;
            let oldest = entries.pop();
            assert(record_paths(entries@) == record_paths(grown).drop_last());
            assert(grown.last().path@ == record_paths(before).last());
            oldest
        } else {
            None
        };
        self.entries = entries;
        dropped
    }

    /// Puts the view cursor back on the newest entry.
    pub fn reset_cursor(&mut self)
        ensures
            final(self)@.paths == old(self)@.paths,
            final(self)@.cursor == 0,
    {
        proof {
            use_type_invariant(&*self);
        }
        self.cursor = 0;
    }

    /// Moves the view cursor by `delta` entries (towards older ones where
    /// positive), stopping at either end, and returns where it stands.
    pub fn navigate(&mut self, delta: i64) -> (at: usize)
        ensures
            final(self)@.paths == old(self)@.paths,
            final(self)@.cursor == old(self)@.moved(delta as int),
            at == final(self)@.cursor,
    {
        proof {
            use_type_invariant(&*self);
        }
        let n = self.entries.len();
        let at: usize = if n == 0 || delta < -(self.cursor as i64) {
            0
        } else if delta > (n - 1 - self.cursor) as i64 {
            n - 1
        } else {
            (self.cursor as i64 + delta) as usize
        };
        self.cursor = at;
        at
    }
}

} // verus!
