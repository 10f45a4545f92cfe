use vstd::prelude::*;
use vstd::string::*;
use crate::dto::{
    TriagePatientCalled, TriagePatientCancel, TriageQueueComplete, TriageQueueItem,
    TriageQueueStatus,
};

verus! {

/// A view kept in the cache: what one operation answered.
#[derive(Debug)]
pub enum CachedView {
    Queue(Vec<TriageQueueItem>),
    Status(TriageQueueStatus),
    Called(TriagePatientCalled),
    Complete(TriageQueueComplete),
    Cancel(TriagePatientCancel),
}

/// The content of a cached view.
pub ghost enum CachedModel {
    Queue(Seq<TriageQueueItem>),
    Status(TriageQueueStatus),
    Called(TriagePatientCalled),
    Complete(TriageQueueComplete),
    Cancel(TriagePatientCancel),
}

impl View for CachedView {
    type V = CachedModel;

    open spec fn view(&self) -> CachedModel {
        match self {
            CachedView::Queue(items) => CachedModel::Queue(items@),
            CachedView::Status(s) => CachedModel::Status(*s),
            CachedView::Called(c) => CachedModel::Called(*c),
            CachedView::Complete(c) => CachedModel::Complete(*c),
            CachedView::Cancel(c) => CachedModel::Cancel(*c),
        }
    }
}

/// One cache entry: a view under a key, with the time it was written and how
/// many seconds it lives. Times are microseconds since the Unix epoch.
#[derive(Debug)]
pub struct CacheEntry {
    pub key: String,
    pub value: CachedView,
    pub written_at: i64,
    pub ttl_seconds: u64,
}

/// What the cache holds under a key.
pub ghost struct Stored {
    pub value: CachedModel,
    pub written_at: i64,
    pub ttl_seconds: u64,
}

/// Whether an entry written at `written_at` to live `ttl_seconds` is still
/// served at `now`: fewer than `ttl_seconds` seconds have passed.
pub open spec fn live(written_at: i64, ttl_seconds: u64, now: i64) -> bool {
    now - written_at < ttl_seconds * 1_000_000
}

/// A read-through cache of derived views. It is never authoritative: an
/// entry is served until its time to live has passed and ignored afterwards.
pub struct ViewCache {
    pub entries: Vec<CacheEntry>,
}

impl ViewCache {
    /// No key has two entries.
    pub open spec fn wf(&self) -> bool {
        forall|i: int, j: int|
            0 <= i < j < self.entries@.len() ==> (#[trigger] self.entries@[i]).key@ != (
            #[trigger] self.entries@[j]).key@
    }

    /// Whether the entry at a position is the one under the key.
    pub open spec fn holds_at(&self, i: int, key: Seq<char>) -> bool {
        0 <= i < self.entries@.len() && self.entries@[i].key@ == key
    }

    /// The content of the entry at a position.
    pub open spec fn content_at(&self, i: int) -> Stored {
        Stored {
            value: self.entries@[i].value@,
            written_at: self.entries@[i].written_at,
            ttl_seconds: self.entries@[i].ttl_seconds,
        }
    }

    /// What is held under a key, expired or not.
    pub open spec fn stored(&self, key: Seq<char>) -> Option<Stored> {
        if exists|i: int| self.holds_at(i, key) {
            Some(self.content_at(choose|i: int| self.holds_at(i, key)))
        } else {
            None
        }
    }

    /// What a read of the key at `now` is served: the view held under the
    /// key, unless its time to live has passed.
    pub open spec fn served(&self, key: Seq<char>, now: i64) -> Option<CachedModel> {
        match self.stored(key) {
            Some(s) => if live(s.written_at, s.ttl_seconds, now) {
                Some(s.value)
            } else {
                None
            },
            None => None,
        }
    }

    /// The entry under a key is the one at the position that holds the key.
    pub proof fn stored_is_at(&self, i: int, key: Seq<char>)
        requires
            self.wf(),
            self.holds_at(i, key),
        ensures
            self.stored(key) == Some(self.content_at(i)),
    {
        let j = choose|j: int| self.holds_at(j, key);
        if i < j {
            assert(self.entries@[i].key@ != self.entries@[j].key@);
        } else if j < i {
            assert(self.entries@[j].key@ != self.entries@[i].key@);
        }
    }

    /// An empty cache.
    pub fn new() -> (cache: ViewCache)
        ensures
            cache.wf(),
            forall|key: Seq<char>| cache.stored(key) is None,
    {
        ViewCache { entries: Vec::new() }
    }

    fn find(&self, key: &str) -> (found: Option<usize>)
        ensures
            match found {
                Some(i) => self.holds_at(i as int, key@),
                None => forall|i: int| !self.holds_at(i, key@),
            },
    {
        let mut i: usize = 0;
        while i < self.entries.len()
            invariant
                i <= self.entries@.len(),
                forall|k: int| 0 <= k < i ==> !self.holds_at(k, key@),
            decreases self.entries@.len() - i,
        {
            if crate::text::same_text(self.entries[i].key.as_str(), key) {
                return Some(i);
            }
            i = i + 1;
        }
        None
    }

    /// Reads the view under a key at the time `now`. An entry whose time to
    /// live has passed is not served.
    pub fn get(&self, key: &str, now: i64) -> (hit: Option<&CachedView>)
        requires
            self.wf(),
        ensures
            match hit {
                Some(v) => self.served(key@, now) == Some(v@),
                None => self.served(key@, now) is None,
            },
    {
        match self.find(key) {
            Some(i) => {
                proof {
                    self.stored_is_at(i as int, key@);
                }
                let entry = &self.entries[i];
                let elapsed: i128 = now as i128 - entry.written_at as i128;
                let lifetime: i128 = entry.ttl_seconds as i128 * 1_000_000;
                if elapsed < lifetime {
                    Some(&entry.value)
                } else {
                    None
                }
            },
            None => None,
        }
    }

    /// Writes a view under a key at the time `now`, to live `ttl_seconds`
    /// seconds. An earlier entry under the key is replaced; the entries under
    /// other keys stay.
    pub fn set(&mut self, key: &str, value: CachedView, ttl_seconds: u64, now: i64)
        requires
            old(self).wf(),
        ensures
            final(self).wf(),
            final(self).stored(key@) == Some(
                Stored { value: value@, written_at: now, ttl_seconds },
            ),
            forall|other: Seq<char>|
                other != key@ ==> final(self).stored(other) == old(self).stored(other),
    {
        let entry = CacheEntry { key: String::from_str(key), value, written_at: now, ttl_seconds };
        let found = self.find(key);
        match found {
            Some(i) => {
                self.entries[i] = entry;
                proof {
                    assert forall|a: int, b: int| 0 <= a < b < self.entries@.len() implies (
                    #[trigger] self.entries@[a]).key@ != (#[trigger] self.entries@[b]).key@ by {
                        assert(self.entries@[a].key@ == old(self).entries@[a].key@);
                        assert(self.entries@[b].key@ == old(self).entries@[b].key@);
                    }
                    self.stored_is_at(i as int, key@);
                }
            },
            None => {
                self.entries.push(entry);
                proof {
                    assert forall|a: int, b: int| 0 <= a < b < self.entries@.len() implies (
                    #[trigger] self.entries@[a]).key@ != (#[trigger] self.entries@[b]).key@ by {
                        if b == self.entries@.len() - 1 {
                            assert(!old(self).holds_at(a, key@));
                        } else {
                            assert(self.entries@[a] == old(self).entries@[a]);
                            assert(self.entries@[b] == old(self).entries@[b]);
                        }
                    }
                    self.stored_is_at(self.entries@.len() - 1, key@);
                }
            },
        }
        proof {
            assert forall|other: Seq<char>| other != key@ implies self.stored(other) == old(
                self,
            ).stored(other) by {
                if exists|j: int| old(self).holds_at(j, other) {
                    let j = choose|j: int| old(self).holds_at(j, other);
                    assert(self.holds_at(j, other));
                    self.stored_is_at(j, other);
                    old(self).stored_is_at(j, other);
                } else {
                    if exists|j: int| self.holds_at(j, other) {
                        let j = choose|j: int| self.holds_at(j, other);
                        assert(old(self).holds_at(j, other));
                    }
                }
            }
        }
    }
}

} // verus!
