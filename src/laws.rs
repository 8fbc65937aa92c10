use vstd::prelude::*;

use crate::record::{AttributeKind, HistoryRecord, InboundEvent, MessageRecord, Timestamp};
use crate::reconcile::{reconcile_outcome, reconcile_spec};
use crate::store::{
    history_window, latest_of, lemma_filter_none, lemma_filter_push, observe_spec, of_user, page,
    user_records, QuerySpec, StoreView,
};
use crate::timeline::{
    insert_sorted, insertion_index, lemma_insert_sorted_keeps_order, lemma_insertion_index_bounds,
    sorted_desc,
};

verus! {

/// A collection after observing one user's attribute once per element of
/// `obs`, in order; each element is a value and the time it was seen.
pub open spec fn replay(
    h: Seq<HistoryRecord>,
    kind: AttributeKind,
    user: u64,
    obs: Seq<(String, Timestamp)>,
) -> Seq<HistoryRecord>
    decreases obs.len(),
{
    if obs.len() == 0 {
        h
    } else {
        let last = obs.last();
        observe_spec(replay(h, kind, user, obs.drop_last()), kind, user, last.0, last.1)
    }
}

/// How often a value differs from the one observed just before it.
pub open spec fn value_changes(obs: Seq<(String, Timestamp)>) -> nat
    decreases obs.len(),
{
    if obs.len() <= 1 {
        0
    } else {
        value_changes(obs.drop_last()) + if obs[obs.len() - 1].0@ != obs[obs.len() - 2].0@ {
            1nat
        } else {
            0nat
        }
    }
}

/// Observations come in the order of their times.
pub open spec fn times_nondecreasing(obs: Seq<(String, Timestamp)>) -> bool {
    forall|i: int, j: int| 0 <= i < j < obs.len() ==> obs[i].1 <= obs[j].1
}

/// No stored record of `user` is later than `t`.
pub open spec fn user_times_at_most(h: Seq<HistoryRecord>, user: u64, t: Timestamp) -> bool {
    forall|k: int|
        0 <= k < user_records(h, user).len() ==> #[trigger] user_records(h, user)[k].time <= t
}

proof fn lemma_filter_single<A>(x: A, p: spec_fn(A) -> bool)
    ensures
        seq![x].filter(p) == (if p(x) {
            seq![x]
        } else {
            Seq::<A>::empty()
        }),
{
    lemma_filter_push(Seq::<A>::empty(), x, p);
    assert(Seq::<A>::empty().push(x) =~= seq![x]);
    lemma_filter_none(Seq::<A>::empty(), p);
    assert(Seq::<A>::empty().filter(p) =~= Seq::<A>::empty());
    assert(Seq::<A>::empty().push(x) =~= seq![x]);
}

/// Records of other users are untouched by an insertion, and the user of the
/// inserted record gains exactly that record.
proof fn lemma_user_records_insert(h: Seq<HistoryRecord>, rec: HistoryRecord, user: u64)
    requires
        sorted_desc(h),
    ensures
        user_records(insert_sorted(h, rec), user).len() == user_records(h, user).len() + (if rec.userid
            == user {
            1int
        } else {
            0int
        }),
        rec.userid == user && user_times_at_most(h, user, rec.time) ==> user_records(
            insert_sorted(h, rec),
            user,
        ) == seq![rec] + user_records(h, user),
{
    let p = insertion_index(h, rec.time);
    lemma_insertion_index_bounds(h, rec.time);
    let pre = h.take(p);
    let post = h.skip(p);
    let f = of_user(user);
    assert(h =~= pre + post);
    assert(insert_sorted(h, rec) =~= pre + (seq![rec] + post));
    Seq::filter_distributes_over_add(pre, post, f);
    Seq::filter_distributes_over_add(pre, seq![rec] + post, f);
    Seq::filter_distributes_over_add(seq![rec], post, f);
    lemma_filter_single(rec, f);
    if rec.userid == user && user_times_at_most(h, user, rec.time) {
        assert forall|k: int| 0 <= k < pre.len() implies !f(pre[k]) by {
            if f(pre[k]) {
                assert(pre[k] == h[k]);
                h.lemma_filter_contains(f, k);
                let j = choose|j: int|
                    0 <= j < user_records(h, user).len() && user_records(h, user)[j] == h[k];
                assert(user_records(h, user)[j].time <= rec.time);
            }
        }
        lemma_filter_none(pre, f);
        assert(pre.filter(f) =~= Seq::<HistoryRecord>::empty());
        assert(seq![rec] + user_records(h, user) =~= pre.filter(f) + (seq![rec] + post.filter(f)));
    }
}

/// What one observation keeps true of a user's history when it is not earlier
/// than anything stored for that user.
proof fn lemma_observe_step(
    h: Seq<HistoryRecord>,
    kind: AttributeKind,
    user: u64,
    value: String,
    time: Timestamp,
)
    requires
        sorted_desc(h),
        user_times_at_most(h, user, time),
    ensures
        ({
            let n = observe_spec(h, kind, user, value, time);
            &&& sorted_desc(n)
            &&& user_times_at_most(n, user, time)
            &&& append_decision_made(h, kind, user, value) ==> user_records(n, user) == seq![
                HistoryRecord { userid: user, value, time },
            ] + user_records(h, user)
            &&& !append_decision_made(h, kind, user, value) ==> n == h
        }),
{
    let rec = HistoryRecord { userid: user, value, time };
    lemma_insert_sorted_keeps_order(h, rec);
    lemma_user_records_insert(h, rec, user);
    let n = observe_spec(h, kind, user, value, time);
    if append_decision_made(h, kind, user, value) {
        let u = user_records(n, user);
        assert forall|k: int| 0 <= k < u.len() implies #[trigger] u[k].time <= time by {
            if k > 0 {
                assert(u[k] == user_records(h, user)[k - 1]);
            }
        }
    }
}

/// Whether the change detector appends the observation `value` of `user`.
pub open spec fn append_decision_made(
    h: Seq<HistoryRecord>,
    kind: AttributeKind,
    user: u64,
    value: String,
) -> bool {
    crate::detect::append_decision(kind, latest_of(h, user), value@)
}

proof fn lemma_replay_username(h: Seq<HistoryRecord>, user: u64, obs: Seq<(String, Timestamp)>)
    requires
        sorted_desc(h),
        user_records(h, user).len() == 0,
        times_nondecreasing(obs),
        obs.len() > 0,
    ensures
        ({
            let r = replay(h, AttributeKind::Username, user, obs);
            &&& sorted_desc(r)
            &&& user_times_at_most(r, user, obs.last().1)
            &&& user_records(r, user).len() == value_changes(obs) + 1
            &&& latest_of(r, user) matches Some(l) && l.value@ == obs.last().0@
        }),
    decreases obs.len(),
{
    let kind = AttributeKind::Username;
    let last = obs.last();
    let prev_obs = obs.drop_last();
    if prev_obs.len() == 0 {
        assert(replay(h, kind, user, prev_obs) == h);
        lemma_observe_step(h, kind, user, last.0, last.1);
    } else {
        assert(times_nondecreasing(prev_obs)) by {
            assert forall|i: int, j: int| 0 <= i < j < prev_obs.len() implies prev_obs[i].1
                <= prev_obs[j].1 by {
                assert(prev_obs[i] == obs[i] && prev_obs[j] == obs[j]);
            }
        }
        lemma_replay_username(h, user, prev_obs);
        let p = replay(h, kind, user, prev_obs);
        assert(prev_obs.last() == obs[obs.len() - 2]);
        assert(user_times_at_most(p, user, last.1)) by {
            let u = user_records(p, user);
            assert forall|k: int| 0 <= k < u.len() implies #[trigger] u[k].time <= last.1 by {
                assert(u[k].time <= prev_obs.last().1);
            }
        }
        lemma_observe_step(p, kind, user, last.0, last.1);
    }
}

/// Username history counts changes: observing a user's username once per
/// element of a sequence whose times do not decrease, starting with no record
/// of that user, leaves as many records as there are changes of value in the
/// sequence, plus one for the first observation.
pub proof fn law_username_history_counts_changes(
    h: Seq<HistoryRecord>,
    user: u64,
    obs: Seq<(String, Timestamp)>,
)
    requires
        sorted_desc(h),
        user_records(h, user).len() == 0,
        times_nondecreasing(obs),
    ensures
        user_records(replay(h, AttributeKind::Username, user, obs), user).len() == if obs.len()
            == 0 {
            0
        } else {
            value_changes(obs) + 1
        },
{
    if obs.len() > 0 {
        lemma_replay_username(h, user, obs);
    }
}

/// The first avatar is never history: observing the avatar of a user with no
/// stored avatar record, any number of times, stores nothing.
pub proof fn law_first_avatar_not_recorded(
    h: Seq<HistoryRecord>,
    user: u64,
    obs: Seq<(String, Timestamp)>,
)
    requires
        user_records(h, user).len() == 0,
    ensures
        replay(h, AttributeKind::Avatar, user, obs) == h,
    decreases obs.len(),
{
    if obs.len() > 0 {
        law_first_avatar_not_recorded(h, user, obs.drop_last());
    }
}

/// An avatar change is recorded exactly when there is a stored avatar for the
/// user and the observed value differs from the latest one.
pub proof fn law_avatar_recorded_on_change(
    h: Seq<HistoryRecord>,
    user: u64,
    value: String,
    time: Timestamp,
)
    requires
        sorted_desc(h),
    ensures
        user_records(observe_spec(h, AttributeKind::Avatar, user, value, time), user).len()
            == user_records(h, user).len() + if latest_of(h, user) matches Some(l) && l.value@
            != value@ {
            1int
        } else {
            0int
        },
{
    lemma_user_records_insert(h, HistoryRecord { userid: user, value, time }, user);
}

/// Observing the same value twice at the same time, not earlier than anything
/// stored for the user, changes the history no further than once.
proof fn lemma_observe_twice(
    h: Seq<HistoryRecord>,
    kind: AttributeKind,
    user: u64,
    value: String,
    time: Timestamp,
)
    requires
        sorted_desc(h),
        user_times_at_most(h, user, time),
    ensures
        observe_spec(observe_spec(h, kind, user, value, time), kind, user, value, time)
            == observe_spec(h, kind, user, value, time),
{
    lemma_observe_step(h, kind, user, value, time);
}

/// Replaying a created message changes no history: reconciling the same
/// message event a second time, when the message is not earlier than any
/// stored record of its author, leaves both histories and the stored messages
/// as the first reconciliation left them, and the repeated message write is
/// rejected rather than duplicated.
pub proof fn law_replay_is_idempotent(s: StoreView, m: MessageRecord)
    requires
        s.wf(),
        user_times_at_most(s.usernames, m.author.id, m.timestamp),
        user_times_at_most(s.avatars, m.author.id, m.timestamp),
    ensures
        ({
            let e = InboundEvent::MessageCreated(m);
            let once = reconcile_spec(s, e);
            let twice = reconcile_spec(once, e);
            &&& twice.usernames == once.usernames
            &&& twice.avatars == once.avatars
            &&& twice.messages == once.messages
            &&& twice.deleted == once.deleted
            &&& reconcile_outcome(once, e) is Err
        }),
{
    lemma_observe_twice(
        s.usernames,
        AttributeKind::Username,
        m.author.id,
        m.author.username,
        m.timestamp,
    );
    lemma_observe_twice(s.avatars, AttributeKind::Avatar, m.author.id, m.author.avatar, m.timestamp);
    let once = reconcile_spec(s, InboundEvent::MessageCreated(m));
    if !crate::store::has_message(s.messages, m.id@) {
        assert(once.messages[s.messages.len() as int] == m);
    }
}

/// Pages partition the results: the page of `a` records after `skip`
/// followed by the page of `b` records after `skip + a` is the page of `a + b`
/// records after `skip`, and a page that starts at the first record and is as
/// long as the results holds all of them.
pub proof fn law_pages_partition(
    h: Seq<HistoryRecord>,
    user: u64,
    skip: usize,
    a: usize,
    b: usize,
)
    requires
        skip + a + b <= usize::MAX,
    ensures
        history_window(h, QuerySpec { user, skip, limit: a }) + history_window(
            h,
            QuerySpec { user, skip: (skip + a) as usize, limit: b },
        ) == history_window(h, QuerySpec { user, skip, limit: (a + b) as usize }),
        user_records(h, user).len() <= a ==> history_window(h, QuerySpec { user, skip: 0, limit: a })
            == user_records(h, user),
{
    let u = user_records(h, user);
    assert(page(u, skip as int, a as int) + page(u, skip + a, b as int) =~= page(
        u,
        skip as int,
        a + b,
    ));
    assert(u.len() <= a ==> page(u, 0, a as int) =~= u);
}

} // verus!
