//! The structured form of one protocol line, and the parser that produces it.
//!
//! `Message::parse` consumes one already-delimited line — optionally
//! CRLF-terminated — and yields a `Message` (origin prefix, code, arguments)
//! or a `ParseError` naming the structural defect. The whole grammar is
//! stated over the line's characters by `spec_parse`, and the parser is
//! proved to return exactly what `spec_parse` says, for every input.

use vstd::prelude::*;
use crate::codes::resolve_code;
use crate::codes::resolves;
use crate::codes::Code;
use crate::codes::lemma_resolves_text;
use crate::text::all_ws;
use crate::text::find_char;
use crate::text::is_blank;
use crate::text::spec_find;

verus! {

/// Why a line could not be parsed.
#[derive(Clone, Copy, Debug, Eq, Ord, PartialEq, PartialOrd)]
pub enum ParseError {
    /// No command token could be extracted: the line was exhausted before one
    /// was found.
    EmptyCommand,
    /// The line was empty, or whitespace alone.
    EmptyMessage,
    /// The line ended where more input was required: a prefix with no command
    /// after it.
    UnexpectedEnd,
}

/// The `nick!user@host` form of an origin prefix.
#[derive(Clone, Debug, Eq, PartialEq)]
pub struct PrefixUser {
    /// Nickname: the part before `!`.
    pub nickname: String,
    /// Username: the part between `!` and `@`.
    pub username: String,
    /// Hostname: the part after `@`.
    pub hostname: String,
}

/// Where a message originated: a bare server name, or a user triple.
#[derive(Clone, Debug, Eq, PartialEq)]
pub enum Prefix {
    /// The origin matched `nick!user@host` exactly.
    User(PrefixUser),
    /// The origin was a bare token with no `!`.
    Server(String),
}

/// One successfully parsed protocol line.
#[derive(Clone, Debug, Eq, PartialEq)]
pub struct Message {
    /// The origin, absent when the line carried no leading `:origin` token or
    /// when that token was ambiguous (`!` without a following `@`).
    pub prefix: Option<Prefix>,
    /// The resolved command or numeric reply.
    pub code: Code,
    /// Positional arguments in wire order; a trailing `:`-introduced
    /// free-text token, if present, is the final element, spaces preserved.
    pub args: Vec<String>,
}

/// Mathematical image of `PrefixUser`: the three parts as character
/// sequences.
pub struct PrefixUserView {
    pub nickname: Seq<char>,
    pub username: Seq<char>,
    pub hostname: Seq<char>,
}

/// Mathematical image of `Prefix`.
pub enum PrefixView {
    User(PrefixUserView),
    Server(Seq<char>),
}

/// Mathematical image of `Message`: the code as its wire text, each argument
/// as its characters.
pub struct MessageView {
    pub prefix: Option<PrefixView>,
    pub code: Seq<char>,
    pub args: Seq<Seq<char>>,
}

impl View for PrefixUser {
    type V = PrefixUserView;

    open spec fn view(&self) -> PrefixUserView {
        PrefixUserView {
            nickname: self.nickname@,
            username: self.username@,
            hostname: self.hostname@,
        }
    }
}

impl View for Prefix {
    type V = PrefixView;

    open spec fn view(&self) -> PrefixView {
        match self {
            Prefix::User(u) => PrefixView::User(u@),
            Prefix::Server(s) => PrefixView::Server(s@),
        }
    }
}

/// The view of an optional prefix.
pub open spec fn opt_prefix_view(p: Option<Prefix>) -> Option<PrefixView> {
    match p {
        Some(q) => Some(q@),
        None => None,
    }
}

/// The views of a sequence of owned strings.
pub open spec fn args_views(ss: Seq<String>) -> Seq<Seq<char>> {
    Seq::new(ss.len(), |i: int| ss[i]@)
}

impl View for Message {
    type V = MessageView;

    open spec fn view(&self) -> MessageView {
        MessageView {
            prefix: opt_prefix_view(self.prefix),
            code: self.code.text(),
            args: args_views(self.args@),
        }
    }
}

/// `s` with one trailing CRLF removed, when it ends in one.
pub open spec fn strip_crlf(s: Seq<char>) -> Seq<char> {
    if s.len() >= 2 && s[s.len() - 2] == '\r' && s[s.len() - 1] == '\n' {
        s.subrange(0, s.len() - 2)
    } else {
        s
    }
}

/// What an origin token means: a bare token is a server; `nick!user@host`
/// is a user; `!` with no later `@` is ambiguous and means no prefix at all.
pub open spec fn spec_parse_prefix(token: Seq<char>) -> Option<PrefixView> {
    match spec_find(token, '!') {
        None => Some(PrefixView::Server(token)),
        Some(p) => {
            let rest = token.subrange(p as int + 1, token.len() as int);
            match spec_find(rest, '@') {
                None => None,
                Some(q) => Some(PrefixView::User(PrefixUserView {
                    nickname: token.subrange(0, p as int),
                    username: rest.subrange(0, q as int),
                    hostname: rest.subrange(q as int + 1, rest.len() as int),
                })),
            }
        },
    }
}

/// The argument region of a line, cut into tokens: space-separated words
/// until a `:`-introduced token swallows the remainder verbatim.
pub open spec fn spec_args(s: Seq<char>) -> Seq<Seq<char>>
    decreases s.len(),
    via spec_args_decreases
{
    if s.len() == 0 {
        Seq::empty()
    } else if s[0] == ':' {
        seq![s.subrange(1, s.len() as int)]
    } else {
        match spec_find(s, ' ') {
            None => seq![s],
            Some(i) => seq![s.subrange(0, i as int)] + spec_args(
                s.subrange(i as int + 1, s.len() as int),
            ),
        }
    }
}

#[via_fn]
proof fn spec_args_decreases(s: Seq<char>) {
    crate::text::lemma_find_from(s, ' ', 0);
}

/// The line after the optional prefix: the code token, then the arguments.
pub open spec fn spec_parse_rest(prefix: Option<PrefixView>, s: Seq<char>) -> Result<
    MessageView,
    ParseError,
> {
    match spec_find(s, ' ') {
        None => if s.len() == 0 {
            Err(ParseError::EmptyCommand)
        } else {
            Ok(MessageView { prefix, code: s, args: Seq::empty() })
        },
        Some(j) => Ok(MessageView {
            prefix,
            code: s.subrange(0, j as int),
            args: spec_args(s.subrange(j as int + 1, s.len() as int)),
        }),
    }
}

/// The whole grammar: what parsing a raw line yields, field by field, or
/// with which error it fails — blank lines are `EmptyMessage`, a prefix with
/// nothing after it is `UnexpectedEnd`, a line exhausted before a command
/// token is `EmptyCommand`.
pub open spec fn spec_parse(line: Seq<char>) -> Result<MessageView, ParseError> {
    if all_ws(line) {
        Err(ParseError::EmptyMessage)
    } else {
        let s = strip_crlf(line);
        if s.len() > 0 && s[0] == ':' {
            match spec_find(s, ' ') {
                None => Err(ParseError::UnexpectedEnd),
                Some(i) => spec_parse_rest(
                    spec_parse_prefix(s.subrange(1, i as int)),
                    s.subrange(i as int + 1, s.len() as int),
                ),
            }
        } else {
            spec_parse_rest(None, s)
        }
    }
}

impl PrefixUser {
    /// A user prefix from its three parts.
    pub fn new(nick: &str, user: &str, host: &str) -> (r: PrefixUser)
        ensures
            r@ == (PrefixUserView { nickname: nick@, username: user@, hostname: host@ }),
    {
        PrefixUser {
            nickname: nick.to_owned(),
            username: user.to_owned(),
            hostname: host.to_owned(),
        }
    }
}

/// Resolve an origin token, exactly as `spec_parse_prefix` says: a `Server`,
/// a `User`, or nothing when the token is ambiguous. Never an error.
pub fn parse_prefix(prefix: &str) -> (r: Option<Prefix>)
    ensures
        opt_prefix_view(r) == spec_parse_prefix(prefix@),
{
    let n: usize = prefix.unicode_len();
    match find_char(prefix, '!') {
        None => Some(Prefix::Server(prefix.to_owned())),
        Some(p) => {
            let nick = prefix.substring_char(0, p);
            let rest = prefix.substring_char(p + 1, n);
            let rn: usize = rest.unicode_len();
            match find_char(rest, '@') {
                None => None,
                Some(q) => {
                    let user = rest.substring_char(0, q);
                    let host = rest.substring_char(q + 1, rn);
                    Some(Prefix::User(PrefixUser::new(nick, user, host)))
                },
            }
        },
    }
}

impl Message {
    /// Parse one raw protocol line into a `Message`, or say why it is
    /// malformed. Returns exactly what `spec_parse` states for every input:
    /// `Ok` precisely on the lines `spec_parse` accepts, with every field
    /// pinned down, and otherwise the error `spec_parse` names.
    pub fn parse(line: &str) -> (r: Result<Message, ParseError>)
        ensures
            match (r, spec_parse(line@)) {
                (Ok(m), Ok(v)) => m@ == v && resolves(v.code, m.code),
                (Err(e), Err(v)) => e == v,
                _ => false,
            },
    {
        if is_blank(line) {
            return Err(ParseError::EmptyMessage);
        }
        let n: usize = line.unicode_len();
        let mut state: &str = line;
        if n >= 2 && line.get_char(n - 2) == '\r' && line.get_char(n - 1) == '\n' {
            state = line.substring_char(0, n - 2);
        }
        proof {
            assert(state@ == strip_crlf(line@));
        }
        let ghost s_stripped = state@;

        // Look for a prefix.
        let mut prefix: Option<Prefix> = None;
        let sn0: usize = state.unicode_len();
        if sn0 > 0 && state.get_char(0) == ':' {
            match find_char(state, ' ') {
                None => {
                    return Err(ParseError::UnexpectedEnd);
                },
                Some(i) => {
                    prefix = parse_prefix(state.substring_char(1, i));
                    let rest = state.substring_char(i + 1, sn0);
                    state = rest;
                    proof {
                        assert(opt_prefix_view(prefix) == spec_parse_prefix(
                            s_stripped.subrange(1, i as int),
                        ));
                        assert(state@ == s_stripped.subrange(
                            i as int + 1,
                            s_stripped.len() as int,
                        ));
                    }
                },
            }
        }
        proof {
            assert(spec_parse(line@) == spec_parse_rest(opt_prefix_view(prefix), state@));
        }
        let ghost pv = opt_prefix_view(prefix);

        // Look for the command/reply code.
        let sn: usize = state.unicode_len();
        let pieces: (&str, &str) = match find_char(state, ' ') {
            None => {
                if sn == 0 {
                    return Err(ParseError::EmptyCommand);
                }
                (state, state.substring_char(0, 0))
            },
            Some(j) => (state.substring_char(0, j), state.substring_char(j + 1, sn)),
        };
        let code_text: &str = pieces.0;
        state = pieces.1;
        proof {
            assert(spec_args(Seq::<char>::empty()) =~= Seq::<Seq<char>>::empty());
            assert(spec_parse(line@) == Ok::<MessageView, ParseError>(
                MessageView { prefix: pv, code: code_text@, args: spec_args(state@) },
            ));
        }

        // Cut the remainder into arguments; a ':'-introduced token takes the
        // rest of the line verbatim and ends the walk.
        let mut args: Vec<String> = Vec::new();
        let ghost args_region = state@;
        proof {
            assert(args_views(args@) + spec_args(state@) =~= spec_args(args_region));
        }
        loop
            invariant_except_break
                spec_args(args_region) == args_views(args@) + spec_args(state@),
            ensures
                spec_args(args_region) == args_views(args@),
            decreases state@.len(),
        {
            let m: usize = state.unicode_len();
            if m == 0 {
                proof {
                    assert(spec_args(state@) =~= Seq::<Seq<char>>::empty());
                    assert(args_views(args@) + spec_args(state@) =~= args_views(args@));
                }
                break;
            }
            if state.get_char(0) == ':' {
                let ghost old_args = args@;
                args.push(state.substring_char(1, m).to_owned());
                proof {
                    assert(spec_args(state@) =~= seq![state@.subrange(1, state@.len() as int)]);
                    assert(args_views(args@) =~= args_views(old_args) + spec_args(state@));
                }
                break;
            }
            match find_char(state, ' ') {
                None => {
                    let ghost old_args = args@;
                    args.push(state.to_owned());
                    proof {
                        assert(spec_args(state@) =~= seq![state@]);
                        assert(args_views(args@) =~= args_views(old_args) + spec_args(state@));
                    }
                    break;
                },
                Some(k) => {
                    let ghost old_args = args@;
                    let ghost old_state = state@;
                    args.push(state.substring_char(0, k).to_owned());
                    let rest = state.substring_char(k + 1, m);
                    state = rest;
                    proof {
                        assert(spec_args(old_state) == seq![old_state.subrange(0, k as int)]
                            + spec_args(state@));
                        assert(args_views(args@) =~= args_views(old_args) + seq![
                            old_state.subrange(0, k as int),
                        ]);
                        assert(args_views(args@) + spec_args(state@) =~= spec_args(args_region));
                    }
                },
            }
        }

        // Resolve the code token and assemble.
        let code = resolve_code(code_text);
        proof {
            lemma_resolves_text(code_text@, code);
        }
        let msg = Message { prefix, code, args };
        proof {
            assert(msg@ == (MessageView { prefix: pv, code: code_text@, args: spec_args(
                args_region,
            ) }));
        }
        Ok(msg)
    }
}

} // verus!
