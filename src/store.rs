use vstd::prelude::*;

use crate::detect::{append_decision, should_append};
use crate::record::{AttributeKind, DeletedMessageRecord, HistoryRecord, MessageRecord, Timed, Timestamp};
use crate::timeline::{
    insert_by_time, insert_sorted, insertion_index, lemma_insertion_index_bounds, sorted_desc,
};

verus! {

/// The failure of a store operation.
#[derive(Clone, Debug)]
pub enum StoreError {
    /// A record under this key is stored already; nothing was written.
    DuplicateKey(String),
}

/// The contents of a store: each history collection in time-descending order,
/// messages in the order they were stored, deletions in time-descending order.
pub struct StoreView {
    pub usernames: Seq<HistoryRecord>,
    pub avatars: Seq<HistoryRecord>,
    pub messages: Seq<MessageRecord>,
    pub deleted: Seq<DeletedMessageRecord>,
}

impl StoreView {
    pub open spec fn history(self, kind: AttributeKind) -> Seq<HistoryRecord> {
        match kind {
            AttributeKind::Username => self.usernames,
            AttributeKind::Avatar => self.avatars,
        }
    }

    pub open spec fn with_history(self, kind: AttributeKind, h: Seq<HistoryRecord>) -> StoreView {
        match kind {
            AttributeKind::Username => StoreView { usernames: h, ..self },
            AttributeKind::Avatar => StoreView { avatars: h, ..self },
        }
    }

    pub open spec fn wf(self) -> bool {
        &&& sorted_desc(self.usernames)
        &&& sorted_desc(self.avatars)
        &&& sorted_desc(self.deleted)
        &&& forall|i: int, j: int|
            0 <= i < j < self.messages.len() ==> self.messages[i].id@ != self.messages[j].id@
        &&& forall|i: int, j: int|
            0 <= i < j < self.deleted.len() ==> self.deleted[i].message_id@
                != self.deleted[j].message_id@
    }
}

/// Some stored message has this id.
pub open spec fn has_message(messages: Seq<MessageRecord>, id: Seq<char>) -> bool {
    exists|i: int| 0 <= i < messages.len() && messages[i].id@ == id
}

/// Some stored deletion has this message id.
pub open spec fn has_deleted(deleted: Seq<DeletedMessageRecord>, id: Seq<char>) -> bool {
    exists|i: int| 0 <= i < deleted.len() && deleted[i].message_id@ == id
}

/// Whether a record belongs to `user`.
pub open spec fn of_user(user: u64) -> spec_fn(HistoryRecord) -> bool {
    |r: HistoryRecord| r.userid == user
}

/// The records of one user, in the order the collection holds them.
pub open spec fn user_records(h: Seq<HistoryRecord>, user: u64) -> Seq<HistoryRecord> {
    h.filter(of_user(user))
}

/// The most recent record of a user, if there is one.
pub open spec fn latest_of(h: Seq<HistoryRecord>, user: u64) -> Option<HistoryRecord> {
    let u = user_records(h, user);
    if u.len() == 0 {
        None
    } else {
        Some(u[0])
    }
}

/// The collection after one observation of a user's attribute: the record
/// `(user, value, time)` is inserted exactly when the change detector says so.
pub open spec fn observe_spec(
    h: Seq<HistoryRecord>,
    kind: AttributeKind,
    user: u64,
    value: String,
    time: Timestamp,
) -> Seq<HistoryRecord> {
    if append_decision(kind, latest_of(h, user), value@) {
        insert_sorted(h, HistoryRecord { userid: user, value, time })
    } else {
        h
    }
}

/// The window of a sequence that skips `skip` elements and keeps at most `limit`.
pub open spec fn page<A>(s: Seq<A>, skip: int, limit: int) -> Seq<A> {
    let lo = if skip < s.len() { skip } else { s.len() as int };
    let hi = if skip + limit < s.len() { skip + limit } else { s.len() as int };
    s.subrange(lo, hi)
}

/// Filtering a sequence that grows by one element.
pub proof fn lemma_filter_push<A>(s: Seq<A>, x: A, p: spec_fn(A) -> bool)
    ensures
        s.push(x).filter(p) == (if p(x) {
            s.filter(p).push(x)
        } else {
            s.filter(p)
        }),
{
    reveal(Seq::filter);
    assert(s.push(x).drop_last() =~= s);
}

/// A sequence with no element that satisfies `p` filters to nothing.
pub proof fn lemma_filter_none<A>(s: Seq<A>, p: spec_fn(A) -> bool)
    requires
        forall|k: int| 0 <= k < s.len() ==> !p(s[k]),
    ensures
        s.filter(p).len() == 0,
{
    if s.filter(p).len() > 0 {
        let e = s.filter(p)[0];
        assert(s.filter(p).contains(e));
        s.lemma_filter_contains_rev(p, e);
    }
}

/// The window of a growing sequence grows by the new element exactly when that
/// element falls inside the window.
pub proof fn lemma_page_push<A>(s: Seq<A>, x: A, skip: int, limit: int)
    requires
        skip >= 0,
        limit >= 0,
    ensures
        page(s.push(x), skip, limit) == (if skip <= s.len() < skip + limit {
            page(s, skip, limit).push(x)
        } else {
            page(s, skip, limit)
        }),
{
    if skip <= s.len() < skip + limit {
        assert(page(s.push(x), skip, limit) =~= page(s, skip, limit).push(x));
    } else {
        assert(page(s.push(x), skip, limit) =~= page(s, skip, limit));
    }
}

/// A bounded, paginated history query: the records of `user`, latest first,
/// after skipping `skip` of them, at most `limit`.
#[derive(PartialEq, Eq, Structural, Clone, Copy, Debug)]
pub struct QuerySpec {
    pub user: u64,
    pub skip: usize,
    pub limit: usize,
}

/// A query for deletion records of one author, optionally narrowed to a
/// channel and a guild, latest first, paginated as a history query is.
#[derive(PartialEq, Eq, Structural, Clone, Copy, Debug)]
pub struct DeletedHistoryQuery {
    pub userid: u64,
    pub limit: usize,
    pub skip: usize,
    pub channel: Option<u64>,
    pub guild: Option<u64>,
}

/// What a history query returns from a collection.
pub open spec fn history_window(h: Seq<HistoryRecord>, q: QuerySpec) -> Seq<HistoryRecord> {
    page(user_records(h, q.user), q.skip as int, q.limit as int)
}

/// Whether a deletion record answers a deletion query.
pub open spec fn deleted_matches(q: DeletedHistoryQuery) -> spec_fn(DeletedMessageRecord) -> bool {
    |d: DeletedMessageRecord|
        d.author_id == q.userid && (q.channel is None || q.channel == Some(d.channel_id)) && (
        q.guild is None || q.guild == Some(d.guild_id))
}

/// What a deletion query returns.
pub open spec fn deleted_window(d: Seq<DeletedMessageRecord>, q: DeletedHistoryQuery) -> Seq<
    DeletedMessageRecord,
> {
    page(d.filter(deleted_matches(q)), q.skip as int, q.limit as int)
}

/// An in-memory store that keeps the four collections of the persistence
/// interface: conditional appends keyed by id, latest-first history.
pub struct HistoryStore {
    usernames: Vec<HistoryRecord>,
    avatars: Vec<HistoryRecord>,
    messages: Vec<MessageRecord>,
    deleted: Vec<DeletedMessageRecord>,
}

impl View for HistoryStore {
    type V = StoreView;

    closed spec fn view(&self) -> StoreView {
        StoreView {
            usernames: self.usernames@,
            avatars: self.avatars@,
            messages: self.messages@,
            deleted: self.deleted@,
        }
    }
}

impl HistoryStore {
    pub open spec fn wf(&self) -> bool {
        self@.wf()
    }

    /// An empty store.
    pub fn new() -> (r: Self)
        ensures
            r.wf(),
            r@.usernames.len() == 0,
            r@.avatars.len() == 0,
            r@.messages.len() == 0,
            r@.deleted.len() == 0,
    {
        HistoryStore {
            usernames: Vec::new(),
            avatars: Vec::new(),
            messages: Vec::new(),
            deleted: Vec::new(),
        }
    }

    fn collection(&self, kind: AttributeKind) -> (r: &Vec<HistoryRecord>)
        ensures
            r@ == self@.history(kind),
    {
        match kind {
            AttributeKind::Username => &self.usernames,
            AttributeKind::Avatar => &self.avatars,
        }
    }

    /// The most recent record of a user in one history collection.
    pub fn latest(&self, kind: AttributeKind, user: u64) -> (r: Option<HistoryRecord>)
        ensures
            r == latest_of(self@.history(kind), user),
    {
        let h = self.collection(kind);
        let mut i: usize = 0;
        while i < h.len()
            invariant
                0 <= i <= h.len(),
                h@ == self@.history(kind),
                user_records(h@.take(i as int), user).len() == 0,
            decreases h.len() - i,
        {
            proof {
                assert(h@.take(i + 1) =~= h@.take(i as int).push(h@[i as int]));
                lemma_filter_push(h@.take(i as int), h@[i as int], of_user(user));
            }
            if h[i].userid == user {
                let found = h[i].duplicate();
                proof {
                    let pre = h@.take(i + 1);
                    let post = h@.skip(i + 1);
                    assert(h@ =~= pre + post);
                    Seq::filter_distributes_over_add(pre, post, of_user(user));
                }
                return Some(found);
            }
            i = i + 1;
        }
        proof {
            assert(h@.take(i as int) =~= h@);
        }
        None
    }

    /// Inserts a record into one history collection, keeping time-descending order.
    pub fn append(&mut self, kind: AttributeKind, record: HistoryRecord)
        requires
            old(self).wf(),
        ensures
            final(self).wf(),
            final(self)@ == old(self)@.with_history(
                kind,
                insert_sorted(old(self)@.history(kind), record),
            ),
    {
        match kind {
            AttributeKind::Username => insert_by_time(&mut self.usernames, record),
            AttributeKind::Avatar => insert_by_time(&mut self.avatars, record),
        }
        assert(self@.messages == old(self)@.messages);
        assert(self@.deleted == old(self)@.deleted);
    }

    /// One observation of a user's attribute: reads the latest record, runs the
    /// change detector, and appends when it says so. Returns whether it appended.
    pub fn observe(&mut self, kind: AttributeKind, user: u64, value: &String, time: Timestamp) -> (r:
        bool)
        requires
            old(self).wf(),
        ensures
            final(self).wf(),
            r == append_decision(kind, latest_of(old(self)@.history(kind), user), value@),
            final(self)@ == old(self)@.with_history(
                kind,
                observe_spec(old(self)@.history(kind), kind, user, *value, time),
            ),
    {
        let latest = self.latest(kind, user);
        let decision = should_append(kind, &latest, value);
        if decision {
            self.append(kind, HistoryRecord { userid: user, value: value.clone(), time });
        }
        decision
    }

    /// Whether a message with this id is stored.
    pub fn contains_message(&self, id: &String) -> (r: bool)
        ensures
            r == has_message(self@.messages, id@),
    {
        let mut i: usize = 0;
        while i < self.messages.len()
            invariant
                0 <= i <= self.messages.len(),
                forall|k: int| 0 <= k < i ==> self.messages@[k].id@ != id@,
            decreases self.messages.len() - i,
        {
            if self.messages[i].id == *id {
                return true;
            }
            i = i + 1;
        }
        false
    }

    /// Whether a deletion of the message with this id is stored.
    pub fn contains_deleted(&self, id: &String) -> (r: bool)
        ensures
            r == has_deleted(self@.deleted, id@),
    {
        let mut i: usize = 0;
        while i < self.deleted.len()
            invariant
                0 <= i <= self.deleted.len(),
                forall|k: int| 0 <= k < i ==> self.deleted@[k].message_id@ != id@,
            decreases self.deleted.len() - i,
        {
            if self.deleted[i].message_id == *id {
                return true;
            }
            i = i + 1;
        }
        false
    }

    /// Stores a message under its id, unless one with that id is stored already.
    pub fn put_message(&mut self, m: MessageRecord) -> (r: Result<(), StoreError>)
        requires
            old(self).wf(),
        ensures
            final(self).wf(),
            has_message(old(self)@.messages, m.id@) ==> r == Err::<(), StoreError>(
                StoreError::DuplicateKey(m.id),
            ) && final(self)@ == old(self)@,
            !has_message(old(self)@.messages, m.id@) ==> r is Ok && final(self)@ == (StoreView {
                messages: old(self)@.messages.push(m),
                ..old(self)@
            }),
    {
        if self.contains_message(&m.id) {
            return Err(StoreError::DuplicateKey(m.id));
        }
        self.messages.push(m);
        assert(self@.usernames == old(self)@.usernames);
        Ok(())
    }

    /// Stores a deletion under the deleted message's id, unless one is stored
    /// already; deletions are kept latest first.
    pub fn put_deleted(&mut self, d: DeletedMessageRecord) -> (r: Result<(), StoreError>)
        requires
            old(self).wf(),
        ensures
            final(self).wf(),
            has_deleted(old(self)@.deleted, d.message_id@) ==> r == Err::<(), StoreError>(
                StoreError::DuplicateKey(d.message_id),
            ) && final(self)@ == old(self)@,
            !has_deleted(old(self)@.deleted, d.message_id@) ==> r is Ok && final(self)@ == (
            StoreView { deleted: insert_sorted(old(self)@.deleted, d), ..old(self)@ }),
    {
        if self.contains_deleted(&d.message_id) {
            return Err(StoreError::DuplicateKey(d.message_id));
        }
        let ghost old_deleted = self.deleted@;
        let ghost id = d.message_id@;
        insert_by_time(&mut self.deleted, d);
        proof {
            let n = self.deleted@;
            let p = insertion_index(old_deleted, d.spec_time());
            lemma_insertion_index_bounds(old_deleted, d.spec_time());
            assert forall|i: int, j: int| 0 <= i < j < n.len() implies n[i].message_id@
                != n[j].message_id@ by {
                if i < p && j < p {
                    assert(n[i] == old_deleted[i] && n[j] == old_deleted[j]);
                } else if i < p && j == p {
                    assert(n[i] == old_deleted[i]);
                } else if i < p {
                    assert(n[i] == old_deleted[i] && n[j] == old_deleted[j - 1]);
                } else if i == p {
                    assert(n[j] == old_deleted[j - 1]);
                } else {
                    assert(n[i] == old_deleted[i - 1] && n[j] == old_deleted[j - 1]);
                }
            }
        }
        assert(self@.usernames == old(self)@.usernames);
        Ok(())
    }

    /// Answers a history query on one collection.
    pub fn query_history(&self, kind: AttributeKind, q: &QuerySpec) -> (r: Vec<HistoryRecord>)
        ensures
            r@ == history_window(self@.history(kind), *q),
    {
        let h = self.collection(kind);
        let mut out: Vec<HistoryRecord> = Vec::new();
        let mut count: usize = 0;
        let mut i: usize = 0;
        while i < h.len()
            invariant
                0 <= i <= h.len(),
                h@ == self@.history(kind),
                count == user_records(h@.take(i as int), q.user).len(),
                out@ == page(user_records(h@.take(i as int), q.user), q.skip as int, q.limit as int),
            decreases h.len() - i,
        {
            proof {
                assert(h@.take(i + 1) =~= h@.take(i as int).push(h@[i as int]));
                lemma_filter_push(h@.take(i as int), h@[i as int], of_user(q.user));
                h@.take(i as int).lemma_filter_len(of_user(q.user));
                lemma_page_push(
                    user_records(h@.take(i as int), q.user),
                    h@[i as int],
                    q.skip as int,
                    q.limit as int,
                );
            }
            if h[i].userid == q.user {
                if count >= q.skip && count - q.skip < q.limit {
                    out.push(h[i].duplicate());
                }
                count = count + 1;
            }
            i = i + 1;
        }
        proof {
            assert(h@.take(i as int) =~= h@);
        }
        out
    }

    /// Answers a deletion query.
    pub fn query_deleted(&self, q: &DeletedHistoryQuery) -> (r: Vec<DeletedMessageRecord>)
        ensures
            r@ == deleted_window(self@.deleted, *q),
    {
        let d = &self.deleted;
        let ghost p = deleted_matches(*q);
        let mut out: Vec<DeletedMessageRecord> = Vec::new();
        let mut count: usize = 0;
        let mut i: usize = 0;
        while i < d.len()
            invariant
                0 <= i <= d.len(),
                d@ == self@.deleted,
                p == deleted_matches(*q),
                count == d@.take(i as int).filter(p).len(),
                out@ == page(d@.take(i as int).filter(p), q.skip as int, q.limit as int),
            decreases d.len() - i,
        {
            proof {
                assert(d@.take(i + 1) =~= d@.take(i as int).push(d@[i as int]));
                lemma_filter_push(d@.take(i as int), d@[i as int], p);
                d@.take(i as int).lemma_filter_len(p);
                lemma_page_push(
                    d@.take(i as int).filter(p),
                    d@[i as int],
                    q.skip as int,
                    q.limit as int,
                );
            }
            let e = &d[i];
            let hit = e.author_id == q.userid && match q.channel {
                None => true,
                Some(c) => e.channel_id == c,
            } && match q.guild {
                None => true,
                Some(g) => e.guild_id == g,
            };
            if hit {
                if count >= q.skip && count - q.skip < q.limit {
                    out.push(e.duplicate());
                }
                count = count + 1;
            }
            i = i + 1;
        }
        proof {
            assert(d@.take(i as int) =~= d@);
        }
        out
    }
}

} // verus!
