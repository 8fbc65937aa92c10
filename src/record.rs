use vstd::prelude::*;

verus! {

/// A point in time, as milliseconds since the Unix epoch (UTC).
pub type Timestamp = i64;

/// A value that carries the time it refers to; collections of such values are
/// kept in time-descending order.
pub trait Timed {
    spec fn spec_time(&self) -> Timestamp;

    fn time(&self) -> (t: Timestamp)
        ensures
            t == self.spec_time(),
    ;
}

/// One tracked, time-varying property of a user.
#[derive(PartialEq, Eq, Structural, Clone, Copy, Debug)]
pub enum AttributeKind {
    Username,
    Avatar,
}

/// An append-only fact: the value an attribute of a user had at a point in time.
#[derive(Clone, Debug)]
pub struct HistoryRecord {
    pub userid: u64,
    pub value: String,
    pub time: Timestamp,
}

impl HistoryRecord {
    /// A copy of this record, equal to it in every field.
    pub fn duplicate(&self) -> (r: Self)
        ensures
            r == *self,
    {
        HistoryRecord { userid: self.userid, value: self.value.clone(), time: self.time }
    }
}

impl Timed for HistoryRecord {
    open spec fn spec_time(&self) -> Timestamp {
        self.time
    }

    fn time(&self) -> (t: Timestamp) {
        self.time
    }
}

/// The author of a message, as the platform reports it with the message.
#[derive(Clone, Debug)]
pub struct Author {
    pub id: u64,
    pub username: String,
    /// The avatar address; empty where the platform reports none.
    pub avatar: String,
}

/// A full snapshot of a received message, keyed by its id.
#[derive(Clone, Debug)]
pub struct MessageRecord {
    pub id: String,
    pub author: Author,
    pub channel_id: u64,
    pub guild_id: u64,
    pub timestamp: Timestamp,
    pub content: String,
}

/// A snapshot of a deletion notification, keyed by the deleted message's id.
#[derive(Clone, Debug)]
pub struct DeletedMessageRecord {
    pub message_id: String,
    pub author_id: u64,
    pub channel_id: u64,
    pub guild_id: u64,
    pub original_timestamp: Timestamp,
}

impl DeletedMessageRecord {
    /// A copy of this record, equal to it in every field.
    pub fn duplicate(&self) -> (r: Self)
        ensures
            r == *self,
    {
        DeletedMessageRecord {
            message_id: self.message_id.clone(),
            author_id: self.author_id,
            channel_id: self.channel_id,
            guild_id: self.guild_id,
            original_timestamp: self.original_timestamp,
        }
    }
}

impl Timed for DeletedMessageRecord {
    open spec fn spec_time(&self) -> Timestamp {
        self.original_timestamp
    }

    fn time(&self) -> (t: Timestamp) {
        self.original_timestamp
    }
}

/// An event of the chat platform, as far as the reconciler reads it.
#[derive(Clone, Debug)]
pub enum InboundEvent {
    MessageCreated(MessageRecord),
    MessageDeleted(DeletedMessageRecord),
    /// Any other kind of event: explicitly ignored.
    Other,
}

} // verus!
