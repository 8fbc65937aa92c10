use vstd::prelude::*;

use crate::detect::{append_decision, should_append};
use crate::record::{AttributeKind, HistoryRecord, InboundEvent, MessageRecord};
use crate::store::{has_deleted, has_message, observe_spec, HistoryStore, StoreError, StoreView};
use crate::timeline::insert_sorted;

verus! {

/// A store failure met while reconciling one event; the event's other steps
/// were still carried out.
#[derive(Clone, Debug)]
pub enum ReconcileError {
    Store(StoreError),
}

/// The store after reconciling one event. A created message is stored unless
/// its id is taken, and its author's username and avatar are each observed at
/// the message's time; a deletion is stored unless one for that message is;
/// other events change nothing.
pub open spec fn reconcile_spec(s: StoreView, e: InboundEvent) -> StoreView {
    match e {
        InboundEvent::MessageCreated(m) => StoreView {
            messages: if has_message(s.messages, m.id@) {
                s.messages
            } else {
                s.messages.push(m)
            },
            usernames: observe_spec(
                s.usernames,
                AttributeKind::Username,
                m.author.id,
                m.author.username,
                m.timestamp,
            ),
            avatars: observe_spec(
                s.avatars,
                AttributeKind::Avatar,
                m.author.id,
                m.author.avatar,
                m.timestamp,
            ),
            deleted: s.deleted,
        },
        InboundEvent::MessageDeleted(d) => StoreView {
            deleted: if has_deleted(s.deleted, d.message_id@) {
                s.deleted
            } else {
                insert_sorted(s.deleted, d)
            },
            ..s
        },
        InboundEvent::Other => s,
    }
}

/// What reconciling one event reports: the rejected write of a record whose
/// key is taken, or success.
pub open spec fn reconcile_outcome(s: StoreView, e: InboundEvent) -> Result<(), ReconcileError> {
    match e {
        InboundEvent::MessageCreated(m) => if has_message(s.messages, m.id@) {
            Err(ReconcileError::Store(StoreError::DuplicateKey(m.id)))
        } else {
            Ok(())
        },
        InboundEvent::MessageDeleted(d) => if has_deleted(s.deleted, d.message_id@) {
            Err(ReconcileError::Store(StoreError::DuplicateKey(d.message_id)))
        } else {
            Ok(())
        },
        InboundEvent::Other => Ok(()),
    }
}

/// The value of a message's author that an attribute kind tracks.
pub open spec fn observed(kind: AttributeKind, m: MessageRecord) -> String {
    match kind {
        AttributeKind::Username => m.author.username,
        AttributeKind::Avatar => m.author.avatar,
    }
}

/// The history record that a created message adds for one attribute kind,
/// given the latest stored record of its author, if any.
pub open spec fn update_spec(
    kind: AttributeKind,
    latest: Option<HistoryRecord>,
    m: MessageRecord,
) -> Option<HistoryRecord> {
    if append_decision(kind, latest, observed(kind, m)@) {
        Some(HistoryRecord { userid: m.author.id, value: observed(kind, m), time: m.timestamp })
    } else {
        None
    }
}

/// Decides, for one attribute kind of a created message, what to append to
/// a store that reported `latest` as the author's most recent record.
pub fn history_update(kind: AttributeKind, latest: &Option<HistoryRecord>, m: &MessageRecord) -> (r:
    Option<HistoryRecord>)
    ensures
        r == update_spec(kind, *latest, *m),
{
    let value = match kind {
        AttributeKind::Username => &m.author.username,
        AttributeKind::Avatar => &m.author.avatar,
    };
    if should_append(kind, latest, value) {
        Some(HistoryRecord { userid: m.author.id, value: value.clone(), time: m.timestamp })
    } else {
        None
    }
}

/// Turns one inbound event into its store writes. The steps of a created
/// message are independent: a rejected message write does not keep the
/// username and avatar steps from running.
pub fn reconcile(store: &mut HistoryStore, event: InboundEvent) -> (r: Result<(), ReconcileError>)
    requires
        old(store).wf(),
    ensures
        final(store).wf(),
        final(store)@ == reconcile_spec(old(store)@, event),
        r == reconcile_outcome(old(store)@, event),
{
    match event {
        InboundEvent::MessageCreated(m) => {
            let user = m.author.id;
            let username = m.author.username.clone();
            let avatar = m.author.avatar.clone();
            let time = m.timestamp;
            let written = store.put_message(m);
            store.observe(AttributeKind::Username, user, &username, time);
            store.observe(AttributeKind::Avatar, user, &avatar, time);
            match written {
                Ok(()) => Ok(()),
                Err(e) => Err(ReconcileError::Store(e)),
            }
        },
        InboundEvent::MessageDeleted(d) => match store.put_deleted(d) {
            Ok(()) => Ok(()),
            Err(e) => Err(ReconcileError::Store(e)),
        },
        InboundEvent::Other => Ok(()),
    }
}

} // verus!
