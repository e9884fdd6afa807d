use irc_message::Code;
use irc_message::Message;
use irc_message::ParseError;
use irc_message::Prefix;
use irc_message::PrefixUser;
use irc_message::parse_prefix;

#[test]
fn test_full() {
    let res = Message::parse(":org.prefix.cool COMMAND arg1 arg2 arg3 :suffix is pretty cool yo");
    assert!(res.is_ok());
    let msg = res.ok().unwrap();
    assert_eq!(msg.code, Code::Unknown("COMMAND".to_string()));
    assert_eq!(
        msg.args,
        vec!["arg1", "arg2", "arg3", "suffix is pretty cool yo"]
    );
}

#[test]
fn test_no_prefix() {
    let res = Message::parse("NICK arg1 arg2 arg3 :suffix is pretty cool yo");
    assert!(res.is_ok());
    let msg = res.ok().unwrap();
    assert_eq!(msg.prefix, None);
    assert_eq!(msg.code, Code::Nick);
    assert_eq!(
        msg.args,
        vec!["arg1", "arg2", "arg3", "suffix is pretty cool yo"]
    );
}

#[test]
fn test_no_suffix() {
    let res = Message::parse(":org.prefix.cool NICK arg1 arg2 arg3");
    assert!(res.is_ok());
    let msg = res.ok().unwrap();
    assert_eq!(msg.code, Code::Nick);
    assert_eq!(msg.args, vec!["arg1", "arg2", "arg3"]);
}

#[test]
fn test_no_args() {
    let res = Message::parse(":org.prefix.cool NICK :suffix is pretty cool yo");
    assert!(res.is_ok());
    let msg = res.ok().unwrap();
    assert_eq!(msg.code, Code::Nick);
    assert_eq!(msg.args, vec!["suffix is pretty cool yo"]);
}

#[test]
fn test_only_command() {
    let res = Message::parse("NICK");
    assert!(res.is_ok());
    let msg = res.ok().unwrap();
    assert_eq!(msg.prefix, None);
    assert_eq!(msg.code, Code::Nick);
    assert_eq!(msg.args.len(), 0);
}

#[test]
fn test_empty_message() {
    let res = Message::parse("");
    assert!(res.is_err());
    let err: ParseError = res.err().unwrap();
    assert!(err == ParseError::EmptyMessage);
}

#[test]
fn test_empty_message_trim() {
    let res = Message::parse("    ");
    assert!(res.is_err());
    let err: ParseError = res.err().unwrap();
    assert!(err == ParseError::EmptyMessage);
}

#[test]
fn test_only_prefix() {
    let res = Message::parse(":org.prefix.cool");
    assert!(res.is_err());
    let err: ParseError = res.err().unwrap();
    assert!(err == ParseError::UnexpectedEnd);
}

#[test]
fn test_prefix_none() {
    let res = Message::parse("COMMAND :suffix is pretty cool yo");
    assert!(res.is_ok());
    let msg = res.ok().unwrap();
    assert_eq!(msg.args, vec!["suffix is pretty cool yo"]);
}

#[test]
fn test_prefix_server() {
    let res = Message::parse(":irc.freenode.net COMMAND :suffix is pretty cool yo");
    assert!(res.is_ok());
    let msg = res.ok().unwrap();
    assert_eq!(msg.prefix, Some(Prefix::Server("irc.freenode.net".into())));
}

#[test]
fn test_prefix_user() {
    let res = Message::parse(":bob!bob@bob.com COMMAND :suffix is pretty cool yo");
    assert!(res.is_ok());
    let msg = res.ok().unwrap();
    assert_eq!(
        msg.prefix,
        Some(Prefix::User(PrefixUser::new("bob", "bob", "bob.com")))
    );
}

#[test]
fn test_user_prefix_full_line() {
    let res = Message::parse(":bob!bob@bob.com COMMAND arg1 arg2 :free text here");
    assert!(res.is_ok());
    let msg = res.ok().unwrap();
    assert_eq!(
        msg.prefix,
        Some(Prefix::User(PrefixUser::new("bob", "bob", "bob.com")))
    );
    assert_eq!(msg.code, Code::Unknown("COMMAND".to_string()));
    assert_eq!(msg.args, vec!["arg1", "arg2", "free text here"]);
}

#[test]
fn test_server_prefix_no_trailing() {
    let res = Message::parse(":irc.example.net NICK arg1 arg2");
    assert!(res.is_ok());
    let msg = res.ok().unwrap();
    assert_eq!(msg.prefix, Some(Prefix::Server("irc.example.net".into())));
    assert_eq!(msg.code, Code::Nick);
    assert_eq!(msg.args, vec!["arg1", "arg2"]);
}

#[test]
fn test_prefix_without_command() {
    let res = Message::parse(":only.a.prefix");
    assert!(res.is_err());
    assert_eq!(res.err().unwrap(), ParseError::UnexpectedEnd);
}

#[test]
fn test_malformed_prefix_dropped() {
    let res = Message::parse(":nick!garbage COMMAND arg");
    assert!(res.is_ok());
    let msg = res.ok().unwrap();
    assert_eq!(msg.prefix, None);
    assert_eq!(msg.code, Code::Unknown("COMMAND".to_string()));
    assert_eq!(msg.args, vec!["arg"]);
}

#[test]
fn test_empty_command() {
    let res = Message::parse(":prefix.only ");
    assert!(res.is_err());
    assert_eq!(res.err().unwrap(), ParseError::EmptyCommand);
}

#[test]
fn test_crlf_stripped() {
    let res = Message::parse("PRIVMSG #chan :hello there\r\n");
    assert!(res.is_ok());
    let msg = res.ok().unwrap();
    assert_eq!(msg.code, Code::Privmsg);
    assert_eq!(msg.args, vec!["#chan", "hello there"]);
}

#[test]
fn test_crlf_only_command() {
    let res = Message::parse("NICK\r\n");
    assert!(res.is_ok());
    let msg = res.ok().unwrap();
    assert_eq!(msg.code, Code::Nick);
    assert_eq!(msg.args.len(), 0);
}

#[test]
fn test_numeric_reply_resolved() {
    let res = Message::parse(":irc.example.net 001 bob :Welcome to the network");
    assert!(res.is_ok());
    let msg = res.ok().unwrap();
    assert_eq!(msg.code, Code::RplWelcome);
    assert_eq!(msg.args, vec!["bob", "Welcome to the network"]);
}

#[test]
fn test_unknown_code_kept_verbatim() {
    let res = Message::parse("someLowercase x");
    assert!(res.is_ok());
    let msg = res.ok().unwrap();
    assert_eq!(msg.code, Code::Unknown("someLowercase".to_string()));

    let res = Message::parse("nick y");
    assert!(res.is_ok());
    // The table is case-sensitive: "nick" is not "NICK".
    assert_eq!(res.ok().unwrap().code, Code::Unknown("nick".to_string()));
}

#[test]
fn test_trailing_spaces_preserved() {
    let res = Message::parse("COMMAND :a  b   c ");
    assert!(res.is_ok());
    assert_eq!(res.ok().unwrap().args, vec!["a  b   c "]);
}

#[test]
fn test_empty_trailing() {
    let res = Message::parse("COMMAND :");
    assert!(res.is_ok());
    assert_eq!(res.ok().unwrap().args, vec![""]);
}

#[test]
fn test_deterministic() {
    let line = ":bob!bob@bob.com PRIVMSG #chan :hi there";
    let a = Message::parse(line);
    let b = Message::parse(line);
    assert_eq!(a, b);

    let bad = ":broken";
    assert_eq!(Message::parse(bad), Message::parse(bad));
}

#[test]
fn test_parse_prefix_server() {
    assert_eq!(
        parse_prefix("irc.example.net"),
        Some(Prefix::Server("irc.example.net".into()))
    );
}

#[test]
fn test_parse_prefix_user() {
    assert_eq!(
        parse_prefix("a!b@c"),
        Some(Prefix::User(PrefixUser::new("a", "b", "c")))
    );
}

#[test]
fn test_parse_prefix_ambiguous() {
    assert_eq!(parse_prefix("nick!garbage"), None);
}

#[test]
fn test_blank_variants() {
    assert_eq!(Message::parse("\t"), Err(ParseError::EmptyMessage));
    assert_eq!(Message::parse("\r\n"), Err(ParseError::EmptyMessage));
    assert_eq!(Message::parse(" \t \r\n"), Err(ParseError::EmptyMessage));
}

#[test]
fn test_double_space_keeps_empty_argument() {
    let res = Message::parse("COMMAND a  b");
    assert!(res.is_ok());
    assert_eq!(res.ok().unwrap().args, vec!["a", "", "b"]);
}
