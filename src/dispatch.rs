use vstd::prelude::*;
use vstd::string::StrSliceExecFns;

use crate::command::{
    parse_command, parse_spec, Command, DeletedHistoryQueryCmd, ParseError, ParseErrorView,
    UsernameHistoryQueryCmd,
};
use crate::record::{HistoryRecord, Timestamp};
use crate::store::{
    deleted_window, history_window, DeletedHistoryQuery, HistoryStore, QuerySpec, StoreView,
};
use crate::text::{
    decimal, padded, push_char, push_decimal, push_padded, push_text, split_words, words,
};

verus! {

/// Width of the first column of a reply table.
pub const COLUMN_WIDTH: usize = 20;

/// A deleted message as a query reports it.
#[derive(Clone, Debug)]
pub struct DeletedHistory {
    pub message_id: String,
    pub channel_id: u64,
}

/// The text that chrono gives a time in UTC (`2000-01-12 01:02:03.004 UTC`),
/// or none where the time is out of its range.
pub uninterp spec fn utc_text(millis: i64) -> Option<Seq<char>>;

/// Relies on chrono's `DateTime::<Utc>::from_timestamp_millis` and the
/// `Display` of `DateTime<Utc>`: the text depends on the time alone.
#[verifier::external_body]
fn utc_time_text(millis: i64) -> (r: Option<String>)
    ensures
        match r {
            Some(s) => utc_text(millis) == Some(s@),
            None => utc_text(millis) is None,
        },
{
    match chrono::DateTime::<chrono::Utc>::from_timestamp_millis(millis) {
        Some(t) => Some(t.to_string()),
        None => None,
    }
}

/// How a reply shows a record time.
pub open spec fn time_text(t: Timestamp) -> Seq<char> {
    match utc_text(t) {
        Some(s) => s,
        None => "invalid time"@,
    }
}

/// One line of a reply table: the first column padded to its width, a bar,
/// the second column, a line break.
pub open spec fn table_row(left: Seq<char>, right: Seq<char>) -> Seq<char> {
    padded(left, COLUMN_WIDTH as nat) + seq!['|'] + right + seq!['\n']
}

/// The rows of a table below its header.
pub open spec fn table_body(rows: Seq<(Seq<char>, Seq<char>)>) -> Seq<char>
    decreases rows.len(),
{
    if rows.len() == 0 {
        Seq::empty()
    } else {
        table_body(rows.drop_last()) + table_row(rows.last().0, rows.last().1)
    }
}

/// A two-column table: a header row, then one row per entry.
pub open spec fn table(
    left_title: Seq<char>,
    right_title: Seq<char>,
    rows: Seq<(Seq<char>, Seq<char>)>,
) -> Seq<char> {
    table_row(left_title, right_title) + table_body(rows)
}

/// The character sequences of a list of string pairs.
pub open spec fn pair_views(rows: Seq<(String, String)>) -> Seq<(Seq<char>, Seq<char>)> {
    rows.map_values(|p: (String, String)| (p.0@, p.1@))
}

fn push_row(out: &mut String, left: &str, right: &str)
    ensures
        final(out)@ == old(out)@ + table_row(left@, right@),
{
    push_padded(out, left, COLUMN_WIDTH);
    push_char(out, '|');
    push_text(out, right);
    push_char(out, '\n');
    assert(final(out)@ =~= old(out)@ + table_row(left@, right@));
}

/// Renders a two-column table with a header row.
pub fn render_table(left_title: &str, right_title: &str, rows: &Vec<(String, String)>) -> (r:
    String)
    ensures
        r@ == table(left_title@, right_title@, pair_views(rows@)),
{
    let mut out = String::new();
    push_row(&mut out, left_title, right_title);
    let mut i: usize = 0;
    while i < rows.len()
        invariant
            0 <= i <= rows.len(),
            out@ == table_row(left_title@, right_title@) + table_body(
                pair_views(rows@.take(i as int)),
            ),
        decreases rows.len() - i,
    {
        let ghost before = out@;
        push_row(&mut out, rows[i].0.as_str(), rows[i].1.as_str());
        proof {
            let p = pair_views(rows@.take(i + 1));
            assert(p.drop_last() =~= pair_views(rows@.take(i as int)));
            assert(p.last() == (rows@[i as int].0@, rows@[i as int].1@));
            assert(out@ =~= table_row(left_title@, right_title@) + table_body(p));
        }
        i = i + 1;
    }
    assert(rows@.take(rows.len() as int) =~= rows@);
    out
}

/// The rows of a username table: each name with its record time.
pub open spec fn username_pairs(h: Seq<HistoryRecord>) -> Seq<(Seq<char>, Seq<char>)> {
    h.map_values(|r: HistoryRecord| (r.value@, time_text(r.time)))
}

/// The rows of a deletion table: each message id with its channel id.
pub open spec fn deleted_pairs(d: Seq<DeletedHistory>) -> Seq<(Seq<char>, Seq<char>)> {
    d.map_values(|e: DeletedHistory| (e.message_id@, decimal(e.channel_id as nat)))
}

/// The rows of a username table, as text.
pub fn username_rows(h: &Vec<HistoryRecord>) -> (r: Vec<(String, String)>)
    ensures
        pair_views(r@) == username_pairs(h@),
{
    let mut out: Vec<(String, String)> = Vec::new();
    let mut i: usize = 0;
    while i < h.len()
        invariant
            0 <= i <= h.len(),
            pair_views(out@) == username_pairs(h@.take(i as int)),
        decreases h.len() - i,
    {
        let time = match utc_time_text(h[i].time) {
            Some(s) => s,
            None => {
                let mut s = String::new();
                push_text(&mut s, "invalid time");
                s
            },
        };
        let ghost before = out@;
        out.push((h[i].value.clone(), time));
        assert(pair_views(out@) =~= pair_views(before).push((h@[i as int].value@, time@)));
        assert(username_pairs(h@.take(i + 1)) =~= username_pairs(h@.take(i as int)).push(
            (h@[i as int].value@, time_text(h@[i as int].time)),
        ));
        i = i + 1;
    }
    assert(h@.take(h.len() as int) =~= h@);
    out
}

/// The rows of a deletion table, as text.
pub fn deleted_rows(d: &Vec<DeletedHistory>) -> (r: Vec<(String, String)>)
    ensures
        pair_views(r@) == deleted_pairs(d@),
{
    let mut out: Vec<(String, String)> = Vec::new();
    let mut i: usize = 0;
    while i < d.len()
        invariant
            0 <= i <= d.len(),
            pair_views(out@) == deleted_pairs(d@.take(i as int)),
        decreases d.len() - i,
    {
        let mut channel = String::new();
        push_decimal(&mut channel, d[i].channel_id);
        let ghost before = out@;
        out.push((d[i].message_id.clone(), channel));
        assert(pair_views(out@) =~= pair_views(before).push((d@[i as int].message_id@, channel@)));
        assert(deleted_pairs(d@.take(i + 1)) =~= deleted_pairs(d@.take(i as int)).push(
            (d@[i as int].message_id@, decimal(d@[i as int].channel_id as nat)),
        ));
        i = i + 1;
    }
    assert(d@.take(d.len() as int) =~= d@);
    out
}

/// Renders username records as a reply table.
pub fn username_table(h: &Vec<HistoryRecord>) -> (r: String)
    ensures
        r@ == table("username"@, "record time"@, username_pairs(h@)),
{
    render_table("username", "record time", &username_rows(h))
}

/// Renders deleted messages as a reply table.
pub fn deleted_table(d: &Vec<DeletedHistory>) -> (r: String)
    ensures
        r@ == table("message_id"@, "channel_id"@, deleted_pairs(d@)),
{
    render_table("message_id", "channel_id", &deleted_rows(d))
}

/// How a message addressed to the bot begins.
pub open spec fn bot_mention() -> Seq<char> {
    "@<this\u{2014}bot>"@
}

/// Whether a message content is addressed to the bot.
pub fn is_addressed(content: &str) -> (r: bool)
    ensures
        r == (content@.len() >= bot_mention().len() && content@.take(bot_mention().len() as int)
            == bot_mention()),
{
    let mention = "@<this\u{2014}bot>";
    assert(mention@ == bot_mention());
    let n = mention.unicode_len();
    if content.unicode_len() < n {
        return false;
    }
    let mut i: usize = 0;
    while i < n
        invariant
            0 <= i <= n,
            n == mention@.len(),
            mention@ == bot_mention(),
            n <= content@.len(),
            forall|k: int| 0 <= k < i ==> content@[k] == mention@[k],
        decreases n - i,
    {
        if content.get_char(i) != mention.get_char(i) {
            assert(content@.take(n as int)[i as int] != mention@[i as int]);
            return false;
        }
        i = i + 1;
    }
    assert(content@.take(n as int) =~= mention@);
    true
}

impl UsernameHistoryQueryCmd {
    /// The query this command asks.
    pub open spec fn query(self) -> QuerySpec {
        QuerySpec { user: self.user, skip: self.skip, limit: self.limit }
    }

    /// The username records of the user, latest first, in the window of the command.
    pub fn execute_on(&self, store: &HistoryStore) -> (r: Vec<HistoryRecord>)
        ensures
            r@ == history_window(store@.usernames, self.query()),
    {
        store.query_history(
            crate::record::AttributeKind::Username,
            &QuerySpec { user: self.user, skip: self.skip, limit: self.limit },
        )
    }
}

/// Deletion records as a deletion query reports them.
pub open spec fn deleted_entries(d: Seq<crate::record::DeletedMessageRecord>) -> Seq<
    (Seq<char>, u64),
> {
    d.map_values(|e: crate::record::DeletedMessageRecord| (e.message_id@, e.channel_id))
}

/// The message ids and channel ids of deleted messages.
pub open spec fn entries(d: Seq<DeletedHistory>) -> Seq<(Seq<char>, u64)> {
    d.map_values(|e: DeletedHistory| (e.message_id@, e.channel_id))
}

impl DeletedHistoryQueryCmd {
    /// The query this command asks: deletions by the user in any channel.
    pub open spec fn query(self) -> DeletedHistoryQuery {
        DeletedHistoryQuery {
            userid: self.user,
            limit: self.limit,
            skip: self.skip,
            channel: None,
            guild: None,
        }
    }

    /// The deleted messages of the user, latest first, in the window of the command.
    pub fn execute_on(&self, store: &HistoryStore) -> (r: Vec<DeletedHistory>)
        ensures
            entries(r@) == deleted_entries(deleted_window(store@.deleted, self.query())),
    {
        let found = store.query_deleted(
            &DeletedHistoryQuery {
                userid: self.user,
                limit: self.limit,
                skip: self.skip,
                channel: None,
                guild: None,
            },
        );
        let mut out: Vec<DeletedHistory> = Vec::new();
        let mut i: usize = 0;
        while i < found.len()
            invariant
                0 <= i <= found.len(),
                entries(out@) == deleted_entries(found@.take(i as int)),
            decreases found.len() - i,
        {
            let ghost before = out@;
            out.push(
                DeletedHistory {
                    message_id: found[i].message_id.clone(),
                    channel_id: found[i].channel_id,
                },
            );
            assert(entries(out@) =~= entries(before).push(
                (found@[i as int].message_id@, found@[i as int].channel_id),
            ));
            assert(deleted_entries(found@.take(i + 1)) =~= deleted_entries(
                found@.take(i as int),
            ).push((found@[i as int].message_id@, found@[i as int].channel_id)));
            i = i + 1;
        }
        assert(found@.take(found.len() as int) =~= found@);
        out
    }
}

/// The reply text of a parse error.
pub open spec fn error_text(e: ParseErrorView) -> Seq<char> {
    match e {
        ParseErrorView::MissingCommand => "missing command: expected `deleted` or `username`"@,
        ParseErrorView::UnknownCommand(w) => "unknown command: "@ + w,
        ParseErrorView::UnknownArgument(w) => "unexpected argument: "@ + w,
        ParseErrorView::MissingValue(w) => "missing value for "@ + w,
        ParseErrorView::InvalidValue(f, v) => "invalid value for "@ + f + ": "@ + v,
        ParseErrorView::DuplicateArgument(w) => "argument given more than once: "@ + w,
        ParseErrorView::MissingUser => "missing required argument: --user"@,
    }
}

impl ParseError {
    /// A human-readable description of the error.
    pub fn message(&self) -> (r: String)
        ensures
            r@ == error_text(self@),
    {
        let mut out = String::new();
        match self {
            ParseError::MissingCommand => {
                push_text(&mut out, "missing command: expected `deleted` or `username`");
            },
            ParseError::UnknownCommand(w) => {
                push_text(&mut out, "unknown command: ");
                push_text(&mut out, w.as_str());
            },
            ParseError::UnknownArgument(w) => {
                push_text(&mut out, "unexpected argument: ");
                push_text(&mut out, w.as_str());
            },
            ParseError::MissingValue(w) => {
                push_text(&mut out, "missing value for ");
                push_text(&mut out, w.as_str());
            },
            ParseError::InvalidValue(f, v) => {
                push_text(&mut out, "invalid value for ");
                push_text(&mut out, f.as_str());
                push_text(&mut out, ": ");
                push_text(&mut out, v.as_str());
            },
            ParseError::DuplicateArgument(w) => {
                push_text(&mut out, "argument given more than once: ");
                push_text(&mut out, w.as_str());
            },
            ParseError::MissingUser => {
                push_text(&mut out, "missing required argument: --user");
            },
        }
        out
    }
}

/// The reply to a command text: the table of the query it asks, or the
/// description of why it was not understood.
pub open spec fn reply_spec(s: StoreView, text: Seq<char>) -> Seq<char> {
    match parse_spec(words(text)) {
        Err(e) => error_text(e),
        Ok(Command::UsernameHistoryQuery(q)) => table(
            "username"@,
            "record time"@,
            username_pairs(history_window(s.usernames, q.query())),
        ),
        Ok(Command::DeletedHistoryQuery(q)) => table(
            "message_id"@,
            "channel_id"@,
            deleted_text_pairs(deleted_window(s.deleted, q.query())),
        ),
    }
}

/// The rows of a deletion table, from deletion records.
pub open spec fn deleted_text_pairs(d: Seq<crate::record::DeletedMessageRecord>) -> Seq<
    (Seq<char>, Seq<char>),
> {
    d.map_values(
        |e: crate::record::DeletedMessageRecord| (e.message_id@, decimal(e.channel_id as nat)),
    )
}

/// Answers a command text addressed to the bot; always produces a reply.
pub fn dispatch(store: &HistoryStore, text: &str) -> (r: String)
    ensures
        r@ == reply_spec(store@, text@),
{
    let args = split_words(text);
    match parse_command(&args) {
        Err(e) => e.message(),
        Ok(Command::UsernameHistoryQuery(q)) => {
            let found = q.execute_on(store);
            username_table(&found)
        },
        Ok(Command::DeletedHistoryQuery(q)) => {
            let found = q.execute_on(store);
            proof {
                let w = deleted_window(store@.deleted, q.query());
                assert(entries(found@) == deleted_entries(w));
                assert(deleted_pairs(found@) =~= deleted_text_pairs(w)) by {
                    assert forall|k: int| 0 <= k < w.len() implies #[trigger] deleted_pairs(
                        found@,
                    )[k] == deleted_text_pairs(w)[k] by {
                        assert(entries(found@)[k] == deleted_entries(w)[k]);
                    }
                }
            }
            deleted_table(&found)
        },
    }
}

} // verus!
