use vstd::prelude::*;

use crate::status::Status;

verus! {

/// What the store keeps for one article, apart from its key.
/// Timestamps are milliseconds since the Unix epoch, UTC.
#[derive(Debug, Clone, Copy, PartialEq, Eq, Structural)]
pub struct RecordState {
    pub status: Status,
    pub created_at: i64,
    pub updated_at: i64,
}

/// One stored row: an article and its reading status.
#[derive(Debug)]
pub struct StatusRecord {
    pub article_id: String,
    pub status: Status,
    pub created_at: i64,
    pub updated_at: i64,
}

impl StatusRecord {
    pub open spec fn state(&self) -> RecordState {
        RecordState { status: self.status, created_at: self.created_at, updated_at: self.updated_at }
    }
}

/// The state a read leaves behind: an unknown article gets a `to_read` record
/// stamped `now`; a known one is left as it is.
pub open spec fn read_effect(m: Map<Seq<char>, RecordState>, id: Seq<char>, now: i64) -> Map<
    Seq<char>,
    RecordState,
> {
    if m.contains_key(id) {
        m
    } else {
        m.insert(id, RecordState { status: Status::ToRead, created_at: now, updated_at: now })
    }
}

/// The status a read reports.
pub open spec fn read_result(m: Map<Seq<char>, RecordState>, id: Seq<char>) -> Status {
    if m.contains_key(id) {
        m[id].status
    } else {
        Status::ToRead
    }
}

/// The update time of a write at `now` on a record last updated at `prev`:
/// the clock reading, never earlier than the previous update.
pub open spec fn stamp_after(prev: i64, now: i64) -> i64 {
    if now < prev {
        prev
    } else {
        now
    }
}

/// The state an upsert leaves behind: a new record stamped `now`, or the old
/// record with the new status and a fresh update time, its creation time kept.
pub open spec fn upsert_effect(
    m: Map<Seq<char>, RecordState>,
    id: Seq<char>,
    s: Status,
    now: i64,
) -> Map<Seq<char>, RecordState> {
    if m.contains_key(id) {
        m.insert(
            id,
            RecordState {
                status: s,
                created_at: m[id].created_at,
                updated_at: stamp_after(m[id].updated_at, now),
            },
        )
    } else {
        m.insert(id, RecordState { status: s, created_at: now, updated_at: now })
    }
}

/// Every record was created no later than it was last updated.
pub open spec fn stamps_ordered(m: Map<Seq<char>, RecordState>) -> bool {
    forall|k: Seq<char>| m.contains_key(k) ==> m[k].created_at <= m[k].updated_at
}

/// An in-memory status store: at most one record per article id.
pub struct StatusStore {
    records: Vec<StatusRecord>,
    contents: Ghost<Map<Seq<char>, RecordState>>,
}

impl View for StatusStore {
    type V = Map<Seq<char>, RecordState>;

    closed spec fn view(&self) -> Map<Seq<char>, RecordState> {
        self.contents@
    }
}

impl StatusStore {
    /// The records are keyed uniquely, match the view, and are stamped in order.
    pub closed spec fn wf(&self) -> bool {
        &&& forall|i: int, j: int|
            0 <= i < j < self.records@.len() ==> self.records@[i].article_id@
                != self.records@[j].article_id@
        &&& forall|i: int|
            0 <= i < self.records@.len() ==> #[trigger] self.contents@.contains_key(
                self.records@[i].article_id@,
            ) && self.contents@[self.records@[i].article_id@] == self.records@[i].state()
        &&& forall|k: Seq<char>|
            #[trigger] self.contents@.contains_key(k) ==> exists|i: int|
                0 <= i < self.records@.len() && self.records@[i].article_id@ == k
        &&& stamps_ordered(self.contents@)
    }

    /// An empty store.
    pub fn new() -> (r: StatusStore)
        ensures
            r.wf(),
            r@ == Map::<Seq<char>, RecordState>::empty(),
    {
        StatusStore { records: Vec::new(), contents: Ghost(Map::empty()) }
    }

    /// The number of records held.
    pub fn len(&self) -> (r: usize)
        requires
            self.wf(),
        ensures
            r == self@.len(),
    {
        proof {
            self.lemma_len();
        }
        self.records.len()
    }

    proof fn lemma_len(&self)
        requires
            self.wf(),
        ensures
            self@.len() == self.records@.len(),
            self@.dom().finite(),
    {
        let ids = Seq::new(self.records@.len(), |i: int| self.records@[i].article_id@);
        assert(ids.no_duplicates());
        ids.unique_seq_to_set();
        assert forall|k: Seq<char>| ids.to_set().contains(k) <==> self@.contains_key(k) by {
            if self@.contains_key(k) {
                let i = choose|i: int|
                    0 <= i < self.records@.len() && self.records@[i].article_id@ == k;
                assert(ids[i] == k);
            }
            if ids.to_set().contains(k) {
                let i = choose|i: int| 0 <= i < ids.len() && ids[i] == k;
                assert(self@.contains_key(self.records@[i].article_id@));
            }
        }
        assert(ids.to_set() =~= self@.dom());
    }

    /// The index of the record for `id`, if there is one.
    fn position(&self, id: &String) -> (r: Option<usize>)
        requires
            self.wf(),
        ensures
            r is None ==> !self@.contains_key(id@),
            r matches Some(i) ==> i < self.records@.len() && self.records@[i as int].article_id@
                == id@ && self@.contains_key(id@),
    {
        let mut i: usize = 0;
        while i < self.records.len()
            invariant
                self.wf(),
                i <= self.records@.len(),
                forall|j: int| 0 <= j < i ==> self.records@[j].article_id@ != id@,
            decreases self.records@.len() - i,
        {
            if self.records[i].article_id == *id {
                return Some(i);
            }
            i = i + 1;
        }
        None
    }

    /// The record held for `id`, if there is one.
    pub fn get(&self, id: &str) -> (r: Option<RecordState>)
        requires
            self.wf(),
        ensures
            r == (if self@.contains_key(id@) {
                Some(self@[id@])
            } else {
                None
            }),
    {
        let key = String::from_str(id);
        match self.position(&key) {
            Some(i) => Some(
                RecordState {
                    status: self.records[i].status,
                    created_at: self.records[i].created_at,
                    updated_at: self.records[i].updated_at,
                },
            ),
            None => None,
        }
    }
}

impl StatusStore {
    /// The status of `id`. An unknown article gets a new `to_read` record,
    /// created and updated at `now`; a known one is left unchanged. The flag
    /// tells whether a record was created.
    pub fn get_or_create_default(&mut self, id: &str, now: i64) -> (r: (Status, bool))
        requires
            old(self).wf(),
        ensures
            final(self).wf(),
            final(self)@ == read_effect(old(self)@, id@, now),
            r.0 == read_result(old(self)@, id@),
            r.1 == !old(self)@.contains_key(id@),
    {
        let key = String::from_str(id);
        match self.position(&key) {
            Some(i) => (self.records[i].status, false),
            None => {
                self.insert_new(key, Status::ToRead, now);
                (Status::ToRead, true)
            },
        }
    }

    /// Writes `s` for `id` in one step: inserts a record created and updated
    /// at `now`, or overwrites the status of the existing one and moves its
    /// update time to `now` (never back), keeping its creation time. Returns
    /// the status written.
    pub fn upsert(&mut self, id: &str, s: Status, now: i64) -> (r: Status)
        requires
            old(self).wf(),
        ensures
            final(self).wf(),
            final(self)@ == upsert_effect(old(self)@, id@, s, now),
            r == s,
    {
        let key = String::from_str(id);
        match self.position(&key) {
            Some(i) => {
                let prev = self.records[i].updated_at;
                let stamp = if now < prev {
                    prev
                } else {
                    now
                };
                let ghost old_records = self.records@;
                self.records[i].status = s;
                self.records[i].updated_at = stamp;
                proof {
                    let st = self.records@[i as int].state();
                    self.contents@ = self.contents@.insert(key@, st);
                    assert(forall|j: int|
                        0 <= j < self.records@.len() && j != i ==> self.records@[j]
                            == old_records[j]);
                    assert(self.contents@.dom() =~= old(self)@.dom());
                    assert(self.records@[i as int].article_id@ == key@);
                    assert forall|j: int| 0 <= j < self.records@.len() implies
                        #[trigger] self.contents@.contains_key(self.records@[j].article_id@)
                        && self.contents@[self.records@[j].article_id@]
                        == self.records@[j].state() by {
                        if j != i {
                            assert(old_records[j].article_id@ != old_records[i as int].article_id@);
                        }
                    }
                    assert forall|kk: Seq<char>| #[trigger] self.contents@.contains_key(kk) implies exists|j: int|
                        0 <= j < self.records@.len() && self.records@[j].article_id@ == kk by {
                        let j = choose|j: int|
                            0 <= j < old_records.len() && old_records[j].article_id@ == kk;
                        assert(self.records@[j].article_id@ == kk);
                    }
                    assert(stamps_ordered(self.contents@));
                }
            },
            None => {
                self.insert_new(key, s, now);
            },
        }
        s
    }

    fn insert_new(&mut self, key: String, s: Status, now: i64)
        requires
            old(self).wf(),
            !old(self)@.contains_key(key@),
        ensures
            final(self).wf(),
            final(self)@ == old(self)@.insert(
                key@,
                RecordState { status: s, created_at: now, updated_at: now },
            ),
    {
        let ghost k = key@;
        let ghost old_records = self.records@;
        self.records.push(StatusRecord { article_id: key, status: s, created_at: now, updated_at: now });
        proof {
            self.contents@ = self.contents@.insert(
                k,
                RecordState { status: s, created_at: now, updated_at: now },
            );
            let n = old_records.len() as int;
            assert(self.records@[n].article_id@ == k);
            assert forall|kk: Seq<char>| #[trigger] self.contents@.contains_key(kk) implies exists|i: int|
                0 <= i < self.records@.len() && self.records@[i].article_id@ == kk by {
                if kk != k {
                    let i = choose|i: int|
                        0 <= i < old_records.len() && old_records[i].article_id@ == kk;
                    assert(self.records@[i] == old_records[i]);
                }
            }
        }
    }
}

} // verus!
