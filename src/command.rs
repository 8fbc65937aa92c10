use vstd::prelude::*;

use vstd::string::StrSliceExecFns;

use crate::text::{decimal_value, parse_decimal, push_text, same_text, text_of, views};

verus! {

/// Query deletion records of a user: `--user` (required), `--skip` (default 0),
/// `--limit` (default 10).
#[derive(PartialEq, Eq, Structural, Clone, Copy, Debug)]
pub struct DeletedHistoryQueryCmd {
    pub user: u64,
    pub skip: usize,
    pub limit: usize,
}

/// Query username history of a user: `--user` (required), `--skip` (default 0),
/// `--limit` (default 10).
#[derive(PartialEq, Eq, Structural, Clone, Copy, Debug)]
pub struct UsernameHistoryQueryCmd {
    pub user: u64,
    pub skip: usize,
    pub limit: usize,
}

/// A command addressed to the bot.
#[derive(PartialEq, Eq, Structural, Clone, Copy, Debug)]
pub enum Command {
    /// `deleted`: recalled messages of a user.
    DeletedHistoryQuery(DeletedHistoryQueryCmd),
    /// `username`: former usernames of a user.
    UsernameHistoryQuery(UsernameHistoryQueryCmd),
}

/// Why a command text was not understood. Each carries the words concerned.
#[derive(Clone, Debug)]
pub enum ParseError {
    /// No command word follows the mention.
    MissingCommand,
    UnknownCommand(String),
    UnknownArgument(String),
    /// A flag came last, without its value.
    MissingValue(String),
    /// A flag and the value given to it, which is not a number in range.
    InvalidValue(String, String),
    DuplicateArgument(String),
    /// `--user` was not given.
    MissingUser,
}

/// A parse error with its words as character sequences.
pub enum ParseErrorView {
    MissingCommand,
    UnknownCommand(Seq<char>),
    UnknownArgument(Seq<char>),
    MissingValue(Seq<char>),
    InvalidValue(Seq<char>, Seq<char>),
    DuplicateArgument(Seq<char>),
    MissingUser,
}

impl View for ParseError {
    type V = ParseErrorView;

    open spec fn view(&self) -> ParseErrorView {
        match self {
            ParseError::MissingCommand => ParseErrorView::MissingCommand,
            ParseError::UnknownCommand(w) => ParseErrorView::UnknownCommand(w@),
            ParseError::UnknownArgument(w) => ParseErrorView::UnknownArgument(w@),
            ParseError::MissingValue(w) => ParseErrorView::MissingValue(w@),
            ParseError::InvalidValue(f, v) => ParseErrorView::InvalidValue(f@, v@),
            ParseError::DuplicateArgument(w) => ParseErrorView::DuplicateArgument(w@),
            ParseError::MissingUser => ParseErrorView::MissingUser,
        }
    }
}

/// The three flags of both commands.
#[derive(PartialEq, Eq, Structural, Clone, Copy, Debug)]
pub enum Flag {
    User,
    Skip,
    Limit,
}

/// The flag a word names, in its long or short form.
pub open spec fn flag_of(w: Seq<char>) -> Option<Flag> {
    if w == "--user"@ || w == "-u"@ {
        Some(Flag::User)
    } else if w == "--skip"@ || w == "-s"@ {
        Some(Flag::Skip)
    } else if w == "--limit"@ || w == "-l"@ {
        Some(Flag::Limit)
    } else {
        None
    }
}

/// The flags given so far.
#[derive(PartialEq, Eq, Structural, Clone, Copy, Debug)]
pub struct FlagValues {
    pub user: Option<u64>,
    pub skip: Option<usize>,
    pub limit: Option<usize>,
}

/// Whether a flag was given already.
pub open spec fn is_set(acc: FlagValues, f: Flag) -> bool {
    match f {
        Flag::User => acc.user is Some,
        Flag::Skip => acc.skip is Some,
        Flag::Limit => acc.limit is Some,
    }
}

/// The value of a flag read from a word: a `u64` for `--user`, a `usize` for the others.
pub open spec fn flag_value(f: Flag, w: Seq<char>) -> Option<u64> {
    match decimal_value(w) {
        Some(n) => if f == Flag::User || n <= usize::MAX {
            Some(n)
        } else {
            None
        },
        None => None,
    }
}

/// The flags with one more given.
pub open spec fn with_flag(acc: FlagValues, f: Flag, n: u64) -> FlagValues {
    match f {
        Flag::User => FlagValues { user: Some(n), ..acc },
        Flag::Skip => FlagValues { skip: Some(n as usize), ..acc },
        Flag::Limit => FlagValues { limit: Some(n as usize), ..acc },
    }
}

/// Reads flag-value pairs from position `i` on, each flag at most once.
pub open spec fn parse_flags(args: Seq<Seq<char>>, i: int, acc: FlagValues) -> Result<
    FlagValues,
    ParseErrorView,
>
    decreases args.len() - i,
{
    if i < 0 || i >= args.len() {
        Ok(acc)
    } else {
        let w = args[i];
        match flag_of(w) {
            None => Err(ParseErrorView::UnknownArgument(w)),
            Some(f) => if is_set(acc, f) {
                Err(ParseErrorView::DuplicateArgument(w))
            } else if i + 1 >= args.len() {
                Err(ParseErrorView::MissingValue(w))
            } else {
                match flag_value(f, args[i + 1]) {
                    None => Err(ParseErrorView::InvalidValue(w, args[i + 1])),
                    Some(n) => parse_flags(args, i + 2, with_flag(acc, f, n)),
                }
            },
        }
    }
}

/// No flag given yet.
pub open spec fn no_flags() -> FlagValues {
    FlagValues { user: None, skip: None, limit: None }
}

/// The command that a list of words denotes. The first word is the mention of
/// the bot and is not read; the second names the command; flags follow.
pub open spec fn parse_spec(args: Seq<Seq<char>>) -> Result<Command, ParseErrorView> {
    if args.len() < 2 {
        Err(ParseErrorView::MissingCommand)
    } else if args[1] != "deleted"@ && args[1] != "username"@ {
        Err(ParseErrorView::UnknownCommand(args[1]))
    } else {
        match parse_flags(args, 2, no_flags()) {
            Err(e) => Err(e),
            Ok(f) => match f.user {
                None => Err(ParseErrorView::MissingUser),
                Some(user) => {
                    let skip = match f.skip {
                        Some(s) => s,
                        None => 0,
                    };
                    let limit = match f.limit {
                        Some(l) => l,
                        None => 10,
                    };
                    if args[1] == "deleted"@ {
                        Ok(Command::DeletedHistoryQuery(DeletedHistoryQueryCmd { user, skip, limit }))
                    } else {
                        Ok(Command::UsernameHistoryQuery(UsernameHistoryQueryCmd { user, skip, limit }))
                    }
                },
            },
        }
    }
}

fn read_flag(w: &String) -> (r: Option<Flag>)
    ensures
        r == flag_of(w@),
{
    if same_text(w.as_str(), "--user") || same_text(w.as_str(), "-u") {
        Some(Flag::User)
    } else if same_text(w.as_str(), "--skip") || same_text(w.as_str(), "-s") {
        Some(Flag::Skip)
    } else if same_text(w.as_str(), "--limit") || same_text(w.as_str(), "-l") {
        Some(Flag::Limit)
    } else {
        None
    }
}

/// Parses the words of a command text; see `parse_spec`.
pub fn parse_command(args: &Vec<String>) -> (r: Result<Command, ParseError>)
    ensures
        match r {
            Ok(c) => parse_spec(views(args@)) == Ok::<Command, ParseErrorView>(c),
            Err(e) => parse_spec(views(args@)) == Err::<Command, ParseErrorView>(e@),
        },
{
    let ghost a = views(args@);
    if args.len() < 2 {
        return Err(ParseError::MissingCommand);
    }
    assert(a[1] == args@[1]@);
    let deleted = same_text(args[1].as_str(), "deleted");
    let username = same_text(args[1].as_str(), "username");
    if !deleted && !username {
        return Err(ParseError::UnknownCommand(args[1].clone()));
    }
    let mut acc = FlagValues { user: None, skip: None, limit: None };
    let mut i: usize = 2;
    while i < args.len()
        invariant
            2 <= i,
            a == views(args@),
            a.len() == args.len(),
            deleted == (a[1] == "deleted"@),
            username == (a[1] == "username"@),
            deleted || username,
            parse_flags(a, 2, no_flags()) == parse_flags(a, i as int, acc),
        decreases args.len() - i,
    {
        let w = &args[i];
        assert(a[i as int] == w@);
        let f = match read_flag(w) {
            None => {
                assert(parse_flags(a, i as int, acc) == Err::<FlagValues, ParseErrorView>(
                    ParseErrorView::UnknownArgument(w@),
                ));
                return Err(ParseError::UnknownArgument(w.clone()));
            },
            Some(f) => f,
        };
        let taken = match f {
            Flag::User => acc.user.is_some(),
            Flag::Skip => acc.skip.is_some(),
            Flag::Limit => acc.limit.is_some(),
        };
        if taken {
            assert(is_set(acc, f));
            assert(parse_flags(a, i as int, acc) == Err::<FlagValues, ParseErrorView>(
                ParseErrorView::DuplicateArgument(w@),
            ));
            return Err(ParseError::DuplicateArgument(w.clone()));
        }
        if i + 1 >= args.len() {
            return Err(ParseError::MissingValue(w.clone()));
        }
        let v = &args[i + 1];
        assert(a[i + 1] == v@);
        let n = match parse_decimal(v.as_str()) {
            None => {
                return Err(ParseError::InvalidValue(w.clone(), v.clone()));
            },
            Some(n) => n,
        };
        match f {
            Flag::User => {
                acc.user = Some(n);
            },
            Flag::Skip => {
                if n > usize::MAX as u64 {
                    return Err(ParseError::InvalidValue(w.clone(), v.clone()));
                }
                acc.skip = Some(n as usize);
            },
            Flag::Limit => {
                if n > usize::MAX as u64 {
                    return Err(ParseError::InvalidValue(w.clone(), v.clone()));
                }
                acc.limit = Some(n as usize);
            },
        }
        i = i + 2;
    }
    let user = match acc.user {
        None => {
            return Err(ParseError::MissingUser);
        },
        Some(u) => u,
    };
    let skip = match acc.skip {
        Some(s) => s,
        None => 0,
    };
    let limit = match acc.limit {
        Some(l) => l,
        None => 10,
    };
    if deleted {
        Ok(Command::DeletedHistoryQuery(DeletedHistoryQueryCmd { user, skip, limit }))
    } else {
        Ok(Command::UsernameHistoryQuery(UsernameHistoryQueryCmd { user, skip, limit }))
    }
}

} // verus!

verus! {

/// The commands of the plain slash syntax.
#[derive(Clone, Debug)]
pub enum Commands {
    /// `/query_user <username>`
    QueryUser { username: String },
    /// `/hello`
    Hello,
}

/// The end of the piece that starts at `from` in a text split on single spaces.
pub open spec fn piece_end(s: Seq<char>, from: int) -> int
    decreases s.len() - from,
{
    if from < 0 || from >= s.len() {
        s.len() as int
    } else if s[from] == ' ' {
        from
    } else {
        piece_end(s, from + 1)
    }
}

proof fn lemma_piece_end(s: Seq<char>, from: int, k: int)
    requires
        0 <= from <= k <= s.len(),
        forall|j: int| from <= j < k ==> s[j] != ' ',
        k == s.len() || s[k] == ' ',
    ensures
        piece_end(s, from) == k,
    decreases k - from,
{
    if from < k {
        lemma_piece_end(s, from + 1, k);
    }
}

fn find_piece_end(s: &str, from: usize) -> (r: usize)
    requires
        from <= s@.len(),
    ensures
        r == piece_end(s@, from as int),
        from <= r <= s@.len(),
{
    let n = s.unicode_len();
    let mut k = from;
    while k < n && s.get_char(k) != ' '
        invariant
            from <= k <= n,
            n == s@.len(),
            forall|j: int| from <= j < k ==> s@[j] != ' ',
        decreases n - k,
    {
        k = k + 1;
    }
    proof {
        lemma_piece_end(s@, from as int, k as int);
    }
    k
}

/// The first piece of a text split on single spaces.
pub open spec fn first_piece(s: Seq<char>) -> Seq<char> {
    s.subrange(0, piece_end(s, 0))
}

impl Commands {
    /// Reads a slash command: the text is split on single spaces, the first
    /// piece names the command, and `/query_user` takes the next piece.
    pub fn from_str(s: &str) -> (r: Result<Commands, String>)
        ensures
            match r {
                Ok(Commands::QueryUser { username }) => first_piece(s@) == "/query_user"@
                    && piece_end(s@, 0) < s@.len() && username@ == s@.subrange(
                    piece_end(s@, 0) + 1,
                    piece_end(s@, piece_end(s@, 0) + 1),
                ),
                Ok(Commands::Hello) => first_piece(s@) == "/hello"@,
                Err(e) => (first_piece(s@) == "/query_user"@ && piece_end(s@, 0) == s@.len() && e@
                    == "username not found"@) || (first_piece(s@) != "/query_user"@
                    && first_piece(s@) != "/hello"@ && e@ == "unknown command: "@ + first_piece(
                    s@,
                )),
            },
    {
        let n = s.unicode_len();
        let e0 = find_piece_end(s, 0);
        let first = s.substring_char(0, e0);
        if same_text(first, "/query_user") {
            if e0 < n {
                let e1 = find_piece_end(s, e0 + 1);
                let username = text_of(s.substring_char(e0 + 1, e1));
                Ok(Commands::QueryUser { username })
            } else {
                Err(text_of("username not found"))
            }
        } else if same_text(first, "/hello") {
            Ok(Commands::Hello)
        } else {
            let mut e = text_of("unknown command: ");
            push_text(&mut e, first);
            Err(e)
        }
    }
}

} // verus!
