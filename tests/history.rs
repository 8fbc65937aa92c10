use selene_bot::dispatch::{dispatch, is_addressed};
use selene_bot::reconcile::{history_update, reconcile, ReconcileError};
use selene_bot::record::{
    AttributeKind, Author, DeletedMessageRecord, HistoryRecord, InboundEvent, MessageRecord,
};
use selene_bot::detect::should_append;
use selene_bot::store::{DeletedHistoryQuery, HistoryStore, QuerySpec, StoreError};

fn message(id: &str, user: u64, name: &str, avatar: &str, t: i64) -> InboundEvent {
    InboundEvent::MessageCreated(MessageRecord {
        id: id.to_string(),
        author: Author { id: user, username: name.to_string(), avatar: avatar.to_string() },
        channel_id: 100,
        guild_id: 200,
        timestamp: t,
        content: "hi".to_string(),
    })
}

fn deletion(id: &str, user: u64, channel: u64, t: i64) -> InboundEvent {
    InboundEvent::MessageDeleted(DeletedMessageRecord {
        message_id: id.to_string(),
        author_id: user,
        channel_id: channel,
        guild_id: 200,
        original_timestamp: t,
    })
}

fn all(store: &HistoryStore, kind: AttributeKind, user: u64) -> Vec<(String, i64)> {
    store
        .query_history(kind, &QuerySpec { user, skip: 0, limit: usize::MAX })
        .into_iter()
        .map(|r| (r.value, r.time))
        .collect()
}

#[test]
fn detector_rules() {
    let rec = Some(HistoryRecord { userid: 1, value: "a".to_string(), time: 0 });
    assert!(should_append(AttributeKind::Username, &None, &"a".to_string()));
    assert!(!should_append(AttributeKind::Avatar, &None, &"a".to_string()));
    assert!(!should_append(AttributeKind::Username, &rec, &"a".to_string()));
    assert!(should_append(AttributeKind::Username, &rec, &"b".to_string()));
    assert!(should_append(AttributeKind::Avatar, &rec, &"b".to_string()));
    assert!(!should_append(AttributeKind::Avatar, &rec, &"a".to_string()));
}

#[test]
fn username_changes_are_counted() {
    let mut s = HistoryStore::new();
    let names = ["a", "a", "b", "b", "a", "c", "c"];
    for (i, n) in names.iter().enumerate() {
        reconcile(&mut s, message(&format!("m{i}"), 5, n, "", i as i64)).unwrap();
    }
    // four changes of value plus the first observation
    assert_eq!(all(&s, AttributeKind::Username, 5).len(), 4);
}

#[test]
fn scenario_alice_then_bob() {
    let mut s = HistoryStore::new();
    reconcile(&mut s, message("m0", 42, "alice", "x.png", 0)).unwrap();
    reconcile(&mut s, message("m1", 42, "alice", "x.png", 1)).unwrap();
    reconcile(&mut s, message("m2", 42, "bob", "x.png", 2)).unwrap();
    assert_eq!(
        all(&s, AttributeKind::Username, 42),
        vec![("bob".to_string(), 2), ("alice".to_string(), 0)]
    );
}

#[test]
fn scenario_single_avatar() {
    let mut s = HistoryStore::new();
    reconcile(&mut s, message("m0", 7, "u", "a.png", 0)).unwrap();
    assert!(all(&s, AttributeKind::Avatar, 7).is_empty());
}

#[test]
fn avatar_records_only_changes() {
    let mut s = HistoryStore::new();
    s.append(AttributeKind::Avatar, HistoryRecord { userid: 7, value: "a.png".to_string(), time: 0 });
    reconcile(&mut s, message("m0", 7, "u", "a.png", 1)).unwrap();
    assert_eq!(all(&s, AttributeKind::Avatar, 7).len(), 1);
    reconcile(&mut s, message("m1", 7, "u", "b.png", 2)).unwrap();
    assert_eq!(
        all(&s, AttributeKind::Avatar, 7),
        vec![("b.png".to_string(), 2), ("a.png".to_string(), 0)]
    );
}

#[test]
fn replay_is_idempotent() {
    let mut s = HistoryStore::new();
    s.append(AttributeKind::Avatar, HistoryRecord { userid: 3, value: "old".to_string(), time: 0 });
    assert!(reconcile(&mut s, message("m0", 3, "n", "new", 5)).is_ok());
    let names = all(&s, AttributeKind::Username, 3);
    let avatars = all(&s, AttributeKind::Avatar, 3);
    match reconcile(&mut s, message("m0", 3, "n", "new", 5)) {
        Err(ReconcileError::Store(StoreError::DuplicateKey(k))) => assert_eq!(k, "m0"),
        other => panic!("unexpected {:?}", other),
    }
    assert_eq!(all(&s, AttributeKind::Username, 3), names);
    assert_eq!(all(&s, AttributeKind::Avatar, 3), avatars);
    assert_eq!(names.len(), 1);
    assert_eq!(avatars.len(), 2);
}

#[test]
fn pages_partition_results() {
    let mut s = HistoryStore::new();
    for i in 0..25 {
        s.append(AttributeKind::Username, HistoryRecord { userid: 1, value: format!("n{i}"), time: i });
        s.append(AttributeKind::Username, HistoryRecord { userid: 2, value: format!("o{i}"), time: i });
    }
    let first = s.query_history(AttributeKind::Username, &QuerySpec { user: 1, skip: 0, limit: 10 });
    let second = s.query_history(AttributeKind::Username, &QuerySpec { user: 1, skip: 10, limit: 10 });
    let third = s.query_history(AttributeKind::Username, &QuerySpec { user: 1, skip: 20, limit: 10 });
    assert_eq!(first.len(), 10);
    assert_eq!(second.len(), 10);
    assert_eq!(third.len(), 5);
    let joined: Vec<i64> = first.iter().chain(second.iter()).chain(third.iter()).map(|r| r.time).collect();
    let expected: Vec<i64> = (0..25).rev().collect();
    assert_eq!(joined, expected);
    assert!(s
        .query_history(AttributeKind::Username, &QuerySpec { user: 1, skip: 30, limit: 10 })
        .is_empty());
    assert!(s
        .query_history(AttributeKind::Username, &QuerySpec { user: 9, skip: 0, limit: 10 })
        .is_empty());
}

#[test]
fn equal_times_latest_is_last_written() {
    let mut s = HistoryStore::new();
    reconcile(&mut s, message("m0", 1, "a", "", 10)).unwrap();
    reconcile(&mut s, message("m1", 1, "b", "", 10)).unwrap();
    reconcile(&mut s, message("m2", 1, "b", "", 10)).unwrap();
    assert_eq!(s.latest(AttributeKind::Username, 1).unwrap().value, "b");
    assert_eq!(all(&s, AttributeKind::Username, 1).len(), 2);
}

#[test]
fn scenario_deletion_without_message() {
    let mut s = HistoryStore::new();
    reconcile(&mut s, deletion("gone", 9, 100, 50)).unwrap();
    let q = DeletedHistoryQuery { userid: 9, limit: 10, skip: 0, channel: None, guild: None };
    let found = s.query_deleted(&q);
    assert_eq!(found.len(), 1);
    assert_eq!(found[0].message_id, "gone");
    assert!(matches!(
        reconcile(&mut s, deletion("gone", 9, 100, 50)),
        Err(ReconcileError::Store(StoreError::DuplicateKey(_)))
    ));
    assert_eq!(s.query_deleted(&q).len(), 1);
}

#[test]
fn deletion_query_filters() {
    let mut s = HistoryStore::new();
    reconcile(&mut s, deletion("a", 9, 100, 1)).unwrap();
    reconcile(&mut s, deletion("b", 9, 101, 3)).unwrap();
    reconcile(&mut s, deletion("c", 8, 100, 2)).unwrap();
    let q = DeletedHistoryQuery { userid: 9, limit: 10, skip: 0, channel: None, guild: None };
    let ids: Vec<String> = s.query_deleted(&q).into_iter().map(|d| d.message_id).collect();
    assert_eq!(ids, vec!["b", "a"]);
    let q = DeletedHistoryQuery { channel: Some(100), ..q };
    let ids: Vec<String> = s.query_deleted(&q).into_iter().map(|d| d.message_id).collect();
    assert_eq!(ids, vec!["a"]);
    let q = DeletedHistoryQuery { guild: Some(5), channel: None, ..q };
    assert!(s.query_deleted(&q).is_empty());
}

#[test]
fn other_events_are_ignored() {
    let mut s = HistoryStore::new();
    assert!(reconcile(&mut s, InboundEvent::Other).is_ok());
    assert!(all(&s, AttributeKind::Username, 0).is_empty());
}

#[test]
fn scenario_command_latest_record() {
    let mut s = HistoryStore::new();
    reconcile(&mut s, message("m0", 42, "alice", "", 0)).unwrap();
    reconcile(&mut s, message("m1", 42, "bob", "", 1000)).unwrap();
    let reply = dispatch(&s, "<@!bot> username --user 42 --limit 1");
    assert_eq!(
        reply,
        "username            |record time\nbob                 |1970-01-01 00:00:01 UTC\n"
    );
    assert_eq!(reply.lines().count(), 2);
}

#[test]
fn deleted_command_table() {
    let mut s = HistoryStore::new();
    reconcile(&mut s, deletion("msg-1", 9, 123, 1)).unwrap();
    let reply = dispatch(&s, "<@!bot> deleted -u 9");
    assert_eq!(reply, "message_id          |channel_id\nmsg-1               |123\n");
    let reply = dispatch(&s, "<@!bot> deleted -u 10");
    assert_eq!(reply, "message_id          |channel_id\n");
}

#[test]
fn command_errors_become_replies() {
    let s = HistoryStore::new();
    assert_eq!(dispatch(&s, "<@!bot> whois --user 1"), "unknown command: whois");
    assert_eq!(dispatch(&s, "<@!bot> username"), "missing required argument: --user");
    assert_eq!(dispatch(&s, ""), "missing command: expected `deleted` or `username`");
}

#[test]
fn time_out_of_range() {
    let mut s = HistoryStore::new();
    s.append(AttributeKind::Username, HistoryRecord { userid: 1, value: "x".to_string(), time: i64::MAX });
    let reply = dispatch(&s, "@b username --user 1");
    assert_eq!(reply, "username            |record time\nx                   |invalid time\n");
}

#[test]
fn update_decisions_for_surreal_loop() {
    let m = MessageRecord {
        id: "m".to_string(),
        author: Author { id: 4, username: "neo".to_string(), avatar: "n.png".to_string() },
        channel_id: 1,
        guild_id: 2,
        timestamp: 77,
        content: String::new(),
    };
    let r = history_update(AttributeKind::Username, &None, &m).unwrap();
    assert_eq!((r.userid, r.value.as_str(), r.time), (4, "neo", 77));
    assert!(history_update(AttributeKind::Avatar, &None, &m).is_none());
    let old = Some(HistoryRecord { userid: 4, value: "old.png".to_string(), time: 1 });
    let r = history_update(AttributeKind::Avatar, &old, &m).unwrap();
    assert_eq!(r.value, "n.png");
    let same = Some(HistoryRecord { userid: 4, value: "neo".to_string(), time: 1 });
    assert!(history_update(AttributeKind::Username, &same, &m).is_none());
}

#[test]
fn mention_prefix() {
    assert!(is_addressed("@<this\u{2014}bot> username --user 1"));
    assert!(is_addressed("@<this\u{2014}bot>"));
    assert!(!is_addressed("@<this-bot> username"));
    assert!(!is_addressed("@<this"));
    assert!(!is_addressed(""));
}
