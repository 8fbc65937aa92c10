use selene_bot::command::{parse_command, Command, Commands, DeletedHistoryQueryCmd, ParseError, UsernameHistoryQueryCmd};

fn words(ws: &[&str]) -> Vec<String> {
    ws.iter().map(|w| w.to_string()).collect()
}

#[test]
fn test_cli() {
    let cmd = ["@<this—bot>", "--help"];
    match parse_command(&words(&cmd)) {
        Ok(cmd) => panic!("a flag is no command: {:?}", cmd),
        Err(info) => println!("{}", info.message()),
    }
}

#[test]
fn test() {
    let args = parse_command(&words(&["test", "deleted", "--help"]));
    match args {
        Err(e) => {
            assert!(matches!(e, ParseError::UnknownArgument(ref w) if w == "--help"));
            println!("{}", e.message());
        }
        Ok(c) => panic!("unexpected {:?}", c),
    }
}

#[test]
fn parse_defaults() {
    let r = parse_command(&words(&["@bot", "username", "--user", "42"])).unwrap();
    assert_eq!(
        r,
        Command::UsernameHistoryQuery(UsernameHistoryQueryCmd { user: 42, skip: 0, limit: 10 })
    );
}

#[test]
fn parse_short_flags() {
    let r = parse_command(&words(&["@bot", "deleted", "-l", "3", "-u", "7", "-s", "2"])).unwrap();
    assert_eq!(
        r,
        Command::DeletedHistoryQuery(DeletedHistoryQueryCmd { user: 7, skip: 2, limit: 3 })
    );
}

#[test]
fn parse_errors() {
    assert!(matches!(parse_command(&words(&["@bot"])), Err(ParseError::MissingCommand)));
    assert!(matches!(
        parse_command(&words(&["@bot", "hello"])),
        Err(ParseError::UnknownCommand(ref w)) if w == "hello"
    ));
    assert!(matches!(
        parse_command(&words(&["@bot", "username", "--limit", "1"])),
        Err(ParseError::MissingUser)
    ));
    assert!(matches!(
        parse_command(&words(&["@bot", "username", "--user"])),
        Err(ParseError::MissingValue(ref w)) if w == "--user"
    ));
    assert!(matches!(
        parse_command(&words(&["@bot", "username", "--user", "x1"])),
        Err(ParseError::InvalidValue(ref f, ref v)) if f == "--user" && v == "x1"
    ));
    assert!(matches!(
        parse_command(&words(&["@bot", "username", "-u", "1", "--user", "2"])),
        Err(ParseError::DuplicateArgument(ref w)) if w == "--user"
    ));
    assert!(matches!(
        parse_command(&words(&["@bot", "username", "--user", "18446744073709551616"])),
        Err(ParseError::InvalidValue(_, _))
    ));
}

#[test]
fn parse_largest_user() {
    let r = parse_command(&words(&["@bot", "username", "--user", "18446744073709551615"])).unwrap();
    assert_eq!(
        r,
        Command::UsernameHistoryQuery(UsernameHistoryQueryCmd { user: u64::MAX, skip: 0, limit: 10 })
    );
}

#[test]
fn error_messages() {
    assert_eq!(ParseError::UnknownCommand("hello".to_string()).message(), "unknown command: hello");
    assert_eq!(ParseError::MissingUser.message(), "missing required argument: --user");
    assert_eq!(
        ParseError::InvalidValue("--limit".to_string(), "x".to_string()).message(),
        "invalid value for --limit: x"
    );
}

#[test]
fn slash_commands() {
    assert!(matches!(Commands::from_str("/hello"), Ok(Commands::Hello)));
    assert!(matches!(Commands::from_str("/hello there"), Ok(Commands::Hello)));
    match Commands::from_str("/query_user alice bob") {
        Ok(Commands::QueryUser { username }) => assert_eq!(username, "alice"),
        other => panic!("unexpected {:?}", other),
    }
    match Commands::from_str("/query_user  alice") {
        Ok(Commands::QueryUser { username }) => assert_eq!(username, ""),
        other => panic!("unexpected {:?}", other),
    }
    assert_eq!(Commands::from_str("/query_user").unwrap_err(), "username not found");
    assert_eq!(Commands::from_str("/bye now").unwrap_err(), "unknown command: /bye");
    assert_eq!(Commands::from_str("").unwrap_err(), "unknown command: ");
}
