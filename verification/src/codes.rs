//! The command/reply code of a protocol line: a closed set of known protocol
//! verbs and numeric replies, with a catch-all that keeps an unrecognized
//! token verbatim.

use vstd::prelude::*;
use crate::text::str_eq;

verus! {

/// A known protocol command or numeric reply, or `Unknown` carrying the raw
/// token unchanged when it matches no entry of the table.
#[derive(Clone, Debug, PartialEq, Eq)]
pub enum Code {
    Pass,
    Nick,
    User,
    Oper,
    Mode,
    Service,
    Quit,
    Squit,
    Join,
    Part,
    Topic,
    Names,
    List,
    Invite,
    Kick,
    Privmsg,
    Notice,
    Motd,
    Lusers,
    Version,
    Stats,
    Links,
    Time,
    Connect,
    Trace,
    Admin,
    Info,
    Servlist,
    Squery,
    Who,
    Whois,
    Whowas,
    Kill,
    Ping,
    Pong,
    Error,
    Away,
    Rehash,
    Die,
    Restart,
    Summon,
    Users,
    Wallops,
    Userhost,
    Ison,
    RplWelcome,
    RplYourHost,
    RplCreated,
    RplMyInfo,
    RplBounce,
    RplAway,
    RplWhoisUser,
    RplEndOfWhois,
    RplChannelModeIs,
    RplNoTopic,
    RplTopic,
    RplNamReply,
    RplEndOfNames,
    RplMotd,
    RplMotdStart,
    RplEndOfMotd,
    ErrNoSuchNick,
    ErrNoSuchChannel,
    ErrUnknownCommand,
    ErrNicknameInUse,
    ErrNotRegistered,
    ErrAlreadyRegistered,
    /// A token that matched no entry of the table, kept verbatim.
    Unknown(String),
}

/// The table: the known code a token resolves to, if any. The match is exact
/// and case-sensitive; no normalization.
pub open spec fn spec_known(s: Seq<char>) -> Option<Code> {
    if s == "PASS"@ {
        Some(Code::Pass)
    } else if s == "NICK"@ {
        Some(Code::Nick)
    } else if s == "USER"@ {
        Some(Code::User)
    } else if s == "OPER"@ {
        Some(Code::Oper)
    } else if s == "MODE"@ {
        Some(Code::Mode)
    } else if s == "SERVICE"@ {
        Some(Code::Service)
    } else if s == "QUIT"@ {
        Some(Code::Quit)
    } else if s == "SQUIT"@ {
        Some(Code::Squit)
    } else if s == "JOIN"@ {
        Some(Code::Join)
    } else if s == "PART"@ {
        Some(Code::Part)
    } else if s == "TOPIC"@ {
        Some(Code::Topic)
    } else if s == "NAMES"@ {
        Some(Code::Names)
    } else if s == "LIST"@ {
        Some(Code::List)
    } else if s == "INVITE"@ {
        Some(Code::Invite)
    } else if s == "KICK"@ {
        Some(Code::Kick)
    } else if s == "PRIVMSG"@ {
        Some(Code::Privmsg)
    } else if s == "NOTICE"@ {
        Some(Code::Notice)
    } else if s == "MOTD"@ {
        Some(Code::Motd)
    } else if s == "LUSERS"@ {
        Some(Code::Lusers)
    } else if s == "VERSION"@ {
        Some(Code::Version)
    } else if s == "STATS"@ {
        Some(Code::Stats)
    } else if s == "LINKS"@ {
        Some(Code::Links)
    } else if s == "TIME"@ {
        Some(Code::Time)
    } else if s == "CONNECT"@ {
        Some(Code::Connect)
    } else if s == "TRACE"@ {
        Some(Code::Trace)
    } else if s == "ADMIN"@ {
        Some(Code::Admin)
    } else if s == "INFO"@ {
        Some(Code::Info)
    } else if s == "SERVLIST"@ {
        Some(Code::Servlist)
    } else if s == "SQUERY"@ {
        Some(Code::Squery)
    } else if s == "WHO"@ {
        Some(Code::Who)
    } else if s == "WHOIS"@ {
        Some(Code::Whois)
    } else if s == "WHOWAS"@ {
        Some(Code::Whowas)
    } else if s == "KILL"@ {
        Some(Code::Kill)
    } else if s == "PING"@ {
        Some(Code::Ping)
    } else if s == "PONG"@ {
        Some(Code::Pong)
    } else if s == "ERROR"@ {
        Some(Code::Error)
    } else if s == "AWAY"@ {
        Some(Code::Away)
    } else if s == "REHASH"@ {
        Some(Code::Rehash)
    } else if s == "DIE"@ {
        Some(Code::Die)
    } else if s == "RESTART"@ {
        Some(Code::Restart)
    } else if s == "SUMMON"@ {
        Some(Code::Summon)
    } else if s == "USERS"@ {
        Some(Code::Users)
    } else if s == "WALLOPS"@ {
        Some(Code::Wallops)
    } else if s == "USERHOST"@ {
        Some(Code::Userhost)
    } else if s == "ISON"@ {
        Some(Code::Ison)
    } else if s == "001"@ {
        Some(Code::RplWelcome)
    } else if s == "002"@ {
        Some(Code::RplYourHost)
    } else if s == "003"@ {
        Some(Code::RplCreated)
    } else if s == "004"@ {
        Some(Code::RplMyInfo)
    } else if s == "005"@ {
        Some(Code::RplBounce)
    } else if s == "301"@ {
        Some(Code::RplAway)
    } else if s == "311"@ {
        Some(Code::RplWhoisUser)
    } else if s == "318"@ {
        Some(Code::RplEndOfWhois)
    } else if s == "324"@ {
        Some(Code::RplChannelModeIs)
    } else if s == "331"@ {
        Some(Code::RplNoTopic)
    } else if s == "332"@ {
        Some(Code::RplTopic)
    } else if s == "353"@ {
        Some(Code::RplNamReply)
    } else if s == "366"@ {
        Some(Code::RplEndOfNames)
    } else if s == "372"@ {
        Some(Code::RplMotd)
    } else if s == "375"@ {
        Some(Code::RplMotdStart)
    } else if s == "376"@ {
        Some(Code::RplEndOfMotd)
    } else if s == "401"@ {
        Some(Code::ErrNoSuchNick)
    } else if s == "403"@ {
        Some(Code::ErrNoSuchChannel)
    } else if s == "421"@ {
        Some(Code::ErrUnknownCommand)
    } else if s == "433"@ {
        Some(Code::ErrNicknameInUse)
    } else if s == "451"@ {
        Some(Code::ErrNotRegistered)
    } else if s == "462"@ {
        Some(Code::ErrAlreadyRegistered)
    } else {
        None
    }
}

impl Code {
    /// The wire text of a code: the token a known code stands for, or the raw
    /// token an unknown code carries.
    pub open spec fn text(self) -> Seq<char> {
        match self {
            Code::Pass => "PASS"@,
            Code::Nick => "NICK"@,
            Code::User => "USER"@,
            Code::Oper => "OPER"@,
            Code::Mode => "MODE"@,
            Code::Service => "SERVICE"@,
            Code::Quit => "QUIT"@,
            Code::Squit => "SQUIT"@,
            Code::Join => "JOIN"@,
            Code::Part => "PART"@,
            Code::Topic => "TOPIC"@,
            Code::Names => "NAMES"@,
            Code::List => "LIST"@,
            Code::Invite => "INVITE"@,
            Code::Kick => "KICK"@,
            Code::Privmsg => "PRIVMSG"@,
            Code::Notice => "NOTICE"@,
            Code::Motd => "MOTD"@,
            Code::Lusers => "LUSERS"@,
            Code::Version => "VERSION"@,
            Code::Stats => "STATS"@,
            Code::Links => "LINKS"@,
            Code::Time => "TIME"@,
            Code::Connect => "CONNECT"@,
            Code::Trace => "TRACE"@,
            Code::Admin => "ADMIN"@,
            Code::Info => "INFO"@,
            Code::Servlist => "SERVLIST"@,
            Code::Squery => "SQUERY"@,
            Code::Who => "WHO"@,
            Code::Whois => "WHOIS"@,
            Code::Whowas => "WHOWAS"@,
            Code::Kill => "KILL"@,
            Code::Ping => "PING"@,
            Code::Pong => "PONG"@,
            Code::Error => "ERROR"@,
            Code::Away => "AWAY"@,
            Code::Rehash => "REHASH"@,
            Code::Die => "DIE"@,
            Code::Restart => "RESTART"@,
            Code::Summon => "SUMMON"@,
            Code::Users => "USERS"@,
            Code::Wallops => "WALLOPS"@,
            Code::Userhost => "USERHOST"@,
            Code::Ison => "ISON"@,
            Code::RplWelcome => "001"@,
            Code::RplYourHost => "002"@,
            Code::RplCreated => "003"@,
            Code::RplMyInfo => "004"@,
            Code::RplBounce => "005"@,
            Code::RplAway => "301"@,
            Code::RplWhoisUser => "311"@,
            Code::RplEndOfWhois => "318"@,
            Code::RplChannelModeIs => "324"@,
            Code::RplNoTopic => "331"@,
            Code::RplTopic => "332"@,
            Code::RplNamReply => "353"@,
            Code::RplEndOfNames => "366"@,
            Code::RplMotd => "372"@,
            Code::RplMotdStart => "375"@,
            Code::RplEndOfMotd => "376"@,
            Code::ErrNoSuchNick => "401"@,
            Code::ErrNoSuchChannel => "403"@,
            Code::ErrUnknownCommand => "421"@,
            Code::ErrNicknameInUse => "433"@,
            Code::ErrNotRegistered => "451"@,
            Code::ErrAlreadyRegistered => "462"@,
            Code::Unknown(raw) => raw@,
        }
    }
}

/// `c` is what resolving `token` yields: the known code where the table has
/// the token, else `Unknown` carrying the token verbatim.
pub open spec fn resolves(token: Seq<char>, c: Code) -> bool {
    match spec_known(token) {
        Some(k) => c == k,
        None => c matches Code::Unknown(raw) && raw@ == token,
    }
}

/// Resolution never loses or normalizes the token: whatever a token resolves
/// to has that token as its wire text.
pub proof fn lemma_resolves_text(token: Seq<char>, c: Code)
    requires
        resolves(token, c),
    ensures
        c.text() == token,
{
}

/// Turn one raw code token into its typed value: an exact, case-sensitive
/// lookup in the table, with `Unknown` keeping the token unchanged otherwise.
pub fn resolve_code(token: &str) -> (c: Code)
    ensures
        resolves(token@, c),
{
    if str_eq(token, "PASS") {
        Code::Pass
    } else if str_eq(token, "NICK") {
        Code::Nick
    } else if str_eq(token, "USER") {
        Code::User
    } else if str_eq(token, "OPER") {
        Code::Oper
    } else if str_eq(token, "MODE") {
        Code::Mode
    } else if str_eq(token, "SERVICE") {
        Code::Service
    } else if str_eq(token, "QUIT") {
        Code::Quit
    } else if str_eq(token, "SQUIT") {
        Code::Squit
    } else if str_eq(token, "JOIN") {
        Code::Join
    } else if str_eq(token, "PART") {
        Code::Part
    } else if str_eq(token, "TOPIC") {
        Code::Topic
    } else if str_eq(token, "NAMES") {
        Code::Names
    } else if str_eq(token, "LIST") {
        Code::List
    } else if str_eq(token, "INVITE") {
        Code::Invite
    } else if str_eq(token, "KICK") {
        Code::Kick
    } else if str_eq(token, "PRIVMSG") {
        Code::Privmsg
    } else if str_eq(token, "NOTICE") {
        Code::Notice
    } else if str_eq(token, "MOTD") {
        Code::Motd
    } else if str_eq(token, "LUSERS") {
        Code::Lusers
    } else if str_eq(token, "VERSION") {
        Code::Version
    } else if str_eq(token, "STATS") {
        Code::Stats
    } else if str_eq(token, "LINKS") {
        Code::Links
    } else if str_eq(token, "TIME") {
        Code::Time
    } else if str_eq(token, "CONNECT") {
        Code::Connect
    } else if str_eq(token, "TRACE") {
        Code::Trace
    } else if str_eq(token, "ADMIN") {
        Code::Admin
    } else if str_eq(token, "INFO") {
        Code::Info
    } else if str_eq(token, "SERVLIST") {
        Code::Servlist
    } else if str_eq(token, "SQUERY") {
        Code::Squery
    } else if str_eq(token, "WHO") {
        Code::Who
    } else if str_eq(token, "WHOIS") {
        Code::Whois
    } else if str_eq(token, "WHOWAS") {
        Code::Whowas
    } else if str_eq(token, "KILL") {
        Code::Kill
    } else if str_eq(token, "PING") {
        Code::Ping
    } else if str_eq(token, "PONG") {
        Code::Pong
    } else if str_eq(token, "ERROR") {
        Code::Error
    } else if str_eq(token, "AWAY") {
        Code::Away
    } else if str_eq(token, "REHASH") {
        Code::Rehash
    } else if str_eq(token, "DIE") {
        Code::Die
    } else if str_eq(token, "RESTART") {
        Code::Restart
    } else if str_eq(token, "SUMMON") {
        Code::Summon
    } else if str_eq(token, "USERS") {
        Code::Users
    } else if str_eq(token, "WALLOPS") {
        Code::Wallops
    } else if str_eq(token, "USERHOST") {
        Code::Userhost
    } else if str_eq(token, "ISON") {
        Code::Ison
    } else if str_eq(token, "001") {
        Code::RplWelcome
    } else if str_eq(token, "002") {
        Code::RplYourHost
    } else if str_eq(token, "003") {
        Code::RplCreated
    } else if str_eq(token, "004") {
        Code::RplMyInfo
    } else if str_eq(token, "005") {
        Code::RplBounce
    } else if str_eq(token, "301") {
        Code::RplAway
    } else if str_eq(token, "311") {
        Code::RplWhoisUser
    } else if str_eq(token, "318") {
        Code::RplEndOfWhois
    } else if str_eq(token, "324") {
        Code::RplChannelModeIs
    } else if str_eq(token, "331") {
        Code::RplNoTopic
    } else if str_eq(token, "332") {
        Code::RplTopic
    } else if str_eq(token, "353") {
        Code::RplNamReply
    } else if str_eq(token, "366") {
        Code::RplEndOfNames
    } else if str_eq(token, "372") {
        Code::RplMotd
    } else if str_eq(token, "375") {
        Code::RplMotdStart
    } else if str_eq(token, "376") {
        Code::RplEndOfMotd
    } else if str_eq(token, "401") {
        Code::ErrNoSuchNick
    } else if str_eq(token, "403") {
        Code::ErrNoSuchChannel
    } else if str_eq(token, "421") {
        Code::ErrUnknownCommand
    } else if str_eq(token, "433") {
        Code::ErrNicknameInUse
    } else if str_eq(token, "451") {
        Code::ErrNotRegistered
    } else if str_eq(token, "462") {
        Code::ErrAlreadyRegistered
    } else {
        Code::Unknown(token.to_owned())
    }
}

} // verus!
