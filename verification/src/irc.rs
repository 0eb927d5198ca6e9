//! The wire protocol: splitting a raw line into a frame, resolving the
//! sender from the origin prefix, and mapping a frame to a structured
//! message.
//!
//! A line is `@<tags> ` (optional), `:<origin> ` (optional), a command
//! token, then parameters separated by single spaces; a parameter that
//! starts with `:` takes the rest of the line verbatim. Parsing is stated
//! against spec-level parsers over character sequences
//! (`spec_parse_raw_line`, `spec_map_frame`) and the executable functions
//! are proved to return exactly their results.

use vstd::prelude::*;
use vstd::string::StrSliceExecFns;
use vstd::string::StringExecFns;
use crate::text::find_char;
use crate::text::lemma_scan_to;
use crate::text::lemma_scan_to_from;
use crate::text::parse_u16;
use crate::text::scan_to;
use crate::text::spec_parse_u16;
use crate::text::str_eq_str;
use crate::text::substring_owned;

verus! {

/// A structured inbound or outbound protocol message, one variant per
/// recognized command.
#[derive(Debug, Clone, PartialEq, Eq)]
pub enum TwitchIrcCommand {
    Privmsg { channel: String, sender: String, content: String },
    Join { joiner: String, channel: String },
    Part { channel: String },
    Pass { token: String },
    Nick { nick: String },
    Ping { content: String },
    Pong { content: String },
    Numeric { command: u16, params: Vec<String> },
}

/// Spec-level twin of `TwitchIrcCommand`, over character sequences.
pub enum CommandModel {
    Privmsg { channel: Seq<char>, sender: Seq<char>, content: Seq<char> },
    Join { joiner: Seq<char>, channel: Seq<char> },
    Part { channel: Seq<char> },
    Pass { token: Seq<char> },
    Nick { nick: Seq<char> },
    Ping { content: Seq<char> },
    Pong { content: Seq<char> },
    Numeric { command: u16, params: Seq<Seq<char>> },
}

impl View for TwitchIrcCommand {
    type V = CommandModel;

    open spec fn view(&self) -> CommandModel {
        match self {
            TwitchIrcCommand::Privmsg { channel, sender, content } => CommandModel::Privmsg {
                channel: channel@,
                sender: sender@,
                content: content@,
            },
            TwitchIrcCommand::Join { joiner, channel } => CommandModel::Join {
                joiner: joiner@,
                channel: channel@,
            },
            TwitchIrcCommand::Part { channel } => CommandModel::Part { channel: channel@ },
            TwitchIrcCommand::Pass { token } => CommandModel::Pass { token: token@ },
            TwitchIrcCommand::Nick { nick } => CommandModel::Nick { nick: nick@ },
            TwitchIrcCommand::Ping { content } => CommandModel::Ping { content: content@ },
            TwitchIrcCommand::Pong { content } => CommandModel::Pong { content: content@ },
            TwitchIrcCommand::Numeric { command, params } => CommandModel::Numeric {
                command: *command,
                params: params.deep_view(),
            },
        }
    }
}

/// One wire line split into its raw parts, before semantic validation.
#[derive(Debug, Clone, PartialEq, Eq)]
pub struct RawIrcMessage {
    pub raw_tags: Option<String>,
    pub raw_origin: Option<String>,
    pub raw_command: String,
    pub params: Vec<String>,
}

/// Spec-level twin of `RawIrcMessage`.
pub struct FrameModel {
    pub tags: Option<Seq<char>>,
    pub origin: Option<Seq<char>>,
    pub command: Seq<char>,
    pub params: Seq<Seq<char>>,
}

impl View for RawIrcMessage {
    type V = FrameModel;

    open spec fn view(&self) -> FrameModel {
        FrameModel {
            tags: self.raw_tags.deep_view(),
            origin: self.raw_origin.deep_view(),
            command: self.raw_command@,
            params: self.params.deep_view(),
        }
    }
}

/// Structural failures of line splitting.
#[derive(Debug, Clone, Copy, PartialEq, Eq, Structural)]
pub enum RawIrcParseError {
    BadSpaces,
    NoParams,
}

/// Semantic failures of mapping a frame to a message.
#[derive(Debug, Clone, Copy, PartialEq, Eq, Structural)]
pub enum TwitchIrcParseError {
    BadOrigin,
    BadSenderInOrigin,
    MismatchedSenderInOrigin,
    BadCommand,
    BadParams,
    MissingSender,
}

/// Where the token that begins at `i` ends: at the next space, or at the
/// end of the line.
pub open spec fn token_end(s: Seq<char>, i: int) -> int {
    scan_to(s, i, ' ')
}

/// The position after the space that ends a token, when there is one.
pub open spec fn next_start(s: Seq<char>, e: int) -> int {
    if e < s.len() {
        e + 1
    } else {
        e
    }
}

/// The parameters collected from position `i` on: tokens in order, until
/// an empty token or the end of the line; a token that starts with `:`
/// contributes the rest of the line past the `:` and ends collection.
pub open spec fn spec_parse_params(s: Seq<char>, i: int) -> Seq<Seq<char>>
    decreases s.len() - i when 0 <= i <= s.len() via spec_parse_params_decreases
{
    let e = token_end(s, i);
    if i >= s.len() || e == i {
        Seq::empty()
    } else if s[i] == ':' {
        seq![s.subrange(i + 1, s.len() as int)]
    } else {
        seq![s.subrange(i, e)] + spec_parse_params(s, next_start(s, e))
    }
}

#[via_fn]
proof fn spec_parse_params_decreases(s: Seq<char>, i: int) {
    lemma_scan_to(s, i, ' ');
}

/// What splitting one raw line yields: the optional tag blob (`@` stripped),
/// the optional origin (`:` stripped), the command token, and the
/// parameters; `BadSpaces` when no command token is found, `NoParams` when
/// no parameter is.
pub open spec fn spec_parse_raw_line(s: Seq<char>) -> Result<FrameModel, RawIrcParseError> {
    let e1 = token_end(s, 0);
    let t1 = s.subrange(0, e1);
    let tags = if t1.len() > 0 && t1[0] == '@' {
        Some(t1.skip(1))
    } else {
        None
    };
    let i2 = if tags is Some {
        next_start(s, e1)
    } else {
        0
    };
    let e2 = token_end(s, i2);
    let t2 = s.subrange(i2, e2);
    let origin = if t2.len() > 0 && t2[0] == ':' {
        Some(t2.skip(1))
    } else {
        None
    };
    let i3 = if origin is Some {
        next_start(s, e2)
    } else {
        i2
    };
    let e3 = token_end(s, i3);
    if e3 == i3 {
        Err(RawIrcParseError::BadSpaces)
    } else {
        let command = s.subrange(i3, e3);
        let params = spec_parse_params(s, next_start(s, e3));
        if params.len() == 0 {
            Err(RawIrcParseError::NoParams)
        } else {
            Ok(FrameModel { tags, origin, command, params })
        }
    }
}

impl RawIrcMessage {
    /// Splits one raw protocol line into tag blob, origin, command and
    /// parameters, exactly as `spec_parse_raw_line` says.
    pub fn try_from(value: &str) -> (r: Result<RawIrcMessage, RawIrcParseError>)
        ensures
            match r {
                Ok(m) => spec_parse_raw_line(value@) == Ok::<FrameModel, RawIrcParseError>(m@),
                Err(e) => spec_parse_raw_line(value@) == Err::<FrameModel, RawIrcParseError>(e),
            },
    {
        let ghost s = value@;
        let n = value.unicode_len();

        proof {
            lemma_scan_to(s, 0, ' ');
        }
        let e1 = find_char(value, 0, ' ');
        let mut pos: usize = 0;
        let mut raw_tags: Option<String> = None;
        if e1 > 0 && value.get_char(0) == '@' {
            raw_tags = Some(substring_owned(value, 1, e1));
            pos = if e1 < n { e1 + 1 } else { e1 };
            proof {
                assert(s.subrange(0, e1 as int).skip(1) =~= s.subrange(1, e1 as int));
            }
        }
        assert(raw_tags.deep_view() == {
            let t1 = s.subrange(0, token_end(s, 0));
            if t1.len() > 0 && t1[0] == '@' { Some(t1.skip(1)) } else { None::<Seq<char>> }
        });
        assert(pos as int == {
            let t1 = s.subrange(0, token_end(s, 0));
            if t1.len() > 0 && t1[0] == '@' { next_start(s, token_end(s, 0)) } else { 0int }
        });

        proof {
            lemma_scan_to(s, pos as int, ' ');
        }
        let e2 = find_char(value, pos, ' ');
        let ghost i2 = pos as int;
        let mut raw_origin: Option<String> = None;
        if e2 > pos && value.get_char(pos) == ':' {
            raw_origin = Some(substring_owned(value, pos + 1, e2));
            pos = if e2 < n { e2 + 1 } else { e2 };
            proof {
                assert(s.subrange(i2, e2 as int).skip(1) =~= s.subrange(i2 + 1, e2 as int));
            }
        }
        assert(raw_origin.deep_view() == {
            let t2 = s.subrange(i2, token_end(s, i2));
            if t2.len() > 0 && t2[0] == ':' { Some(t2.skip(1)) } else { None::<Seq<char>> }
        });

        proof {
            lemma_scan_to(s, pos as int, ' ');
        }
        let e3 = find_char(value, pos, ' ');
        let ghost i3 = pos as int;
        if e3 == pos {
            return Err(RawIrcParseError::BadSpaces);
        }
        let raw_command = substring_owned(value, pos, e3);
        pos = if e3 < n { e3 + 1 } else { e3 };
        let ghost p0 = pos as int;
        assert(p0 == next_start(s, token_end(s, i3)));

        let mut params: Vec<String> = Vec::new();
        loop
            invariant_except_break
                pos <= n,
                n == s.len(),
                value@ == s,
                spec_parse_params(s, p0) == params.deep_view() + spec_parse_params(
                    s,
                    pos as int,
                ),
            ensures
                spec_parse_params(s, p0) == params.deep_view(),
            decreases n - pos,
        {
            proof {
                lemma_scan_to(s, pos as int, ' ');
            }
            let e = find_char(value, pos, ' ');
            if e == pos {
                proof {
                    assert(spec_parse_params(s, pos as int) =~= Seq::<Seq<char>>::empty());
                    assert(params.deep_view() + Seq::<Seq<char>>::empty() =~= params.deep_view());
                }
                break;
            }
            if value.get_char(pos) == ':' {
                let ghost dv0 = params.deep_view();
                let trailing = substring_owned(value, pos + 1, n);
                params.push(trailing);
                proof {
                    assert(spec_parse_params(s, pos as int) =~= seq![
                        s.subrange(pos + 1, s.len() as int),
                    ]);
                    assert(params.deep_view() =~= dv0 + seq![s.subrange(pos + 1, s.len() as int)]);
                }
                break;
            }
            let ghost dv0 = params.deep_view();
            let ghost oldpos = pos as int;
            let tok = substring_owned(value, pos, e);
            params.push(tok);
            pos = if e < n { e + 1 } else { e };
            proof {
                assert(params.deep_view() =~= dv0 + seq![s.subrange(oldpos, e as int)]);
                assert(spec_parse_params(s, oldpos) == seq![s.subrange(oldpos, e as int)]
                    + spec_parse_params(s, pos as int));
                assert(dv0 + (seq![s.subrange(oldpos, e as int)] + spec_parse_params(
                    s,
                    pos as int,
                )) =~= (dv0 + seq![s.subrange(oldpos, e as int)]) + spec_parse_params(
                    s,
                    pos as int,
                ));
            }
        }

        if params.len() == 0 {
            proof {
                assert(params.deep_view().len() == 0);
            }
            return Err(RawIrcParseError::NoParams);
        }
        proof {
            assert(params.deep_view().len() > 0);
        }
        Ok(RawIrcMessage { raw_tags, raw_origin, raw_command, params })
    }
}

/// The host suffix that every non-empty origin must end with.
pub open spec fn host_suffix() -> Seq<char> {
    "tmi.twitch.tv"@
}

/// The sender taken from the part of the origin before the host suffix:
/// the components before the first `!`, the first `@` after it, and the
/// first `.` after that. Either only the hostname prefix is present,
/// non-empty, with nothing after its dot; or all three components are
/// present with nothing after the dot and textually equal. Everything
/// else is an error.
pub open spec fn spec_resolve_prefix(p: Seq<char>) -> Result<Seq<char>, TwitchIrcParseError> {
    let eb = scan_to(p, 0, '!');
    let has_nick = eb < p.len();
    let u_start = if has_nick {
        eb + 1
    } else {
        0
    };
    let ea = scan_to(p, u_start, '@');
    let has_user = ea < p.len();
    let h_start = if has_user {
        ea + 1
    } else {
        u_start
    };
    let ed = scan_to(p, h_start, '.');
    let has_host = ed < p.len();
    if !has_host {
        Err(TwitchIrcParseError::BadSenderInOrigin)
    } else {
        let rem_empty = ed + 1 == p.len();
        let host = p.subrange(h_start, ed);
        if !has_nick && !has_user {
            if rem_empty && host.len() > 0 {
                Ok(host)
            } else {
                Err(TwitchIrcParseError::BadSenderInOrigin)
            }
        } else if has_nick && has_user {
            if rem_empty {
                let nick = p.subrange(0, eb);
                let user = p.subrange(u_start, ea);
                if nick == user && nick == host {
                    Ok(user)
                } else {
                    Err(TwitchIrcParseError::MismatchedSenderInOrigin)
                }
            } else {
                Err(TwitchIrcParseError::BadSenderInOrigin)
            }
        } else {
            Err(TwitchIrcParseError::BadSenderInOrigin)
        }
    }
}

/// The sender resolved from an optional origin: an absent origin carries
/// no sender; a present one must end with the host suffix, and an empty
/// part before the suffix also carries no sender.
pub open spec fn spec_resolve_sender(origin: Option<Seq<char>>) -> Result<
    Option<Seq<char>>,
    TwitchIrcParseError,
> {
    match origin {
        None => Ok(None),
        Some(o) => {
            let hs = host_suffix();
            if o.len() < hs.len() || o.subrange(o.len() - hs.len(), o.len() as int) != hs {
                Err(TwitchIrcParseError::BadOrigin)
            } else {
                let prefix = o.subrange(0, o.len() - hs.len());
                if prefix.len() == 0 {
                    Ok(None)
                } else {
                    match spec_resolve_prefix(prefix) {
                        Ok(sender) => Ok(Some(sender)),
                        Err(e) => Err(e),
                    }
                }
            }
        },
    }
}

/// The structured message a frame maps to, with per-command validation:
/// `PRIVMSG` needs a sender and `[#channel, content]`; `PING`/`PONG` one
/// parameter; `JOIN` a sender and one `#channel` parameter with a
/// non-empty name; a command of decimal digits is a numeric reply; all
/// else is `BadCommand`.
pub open spec fn spec_map_frame(f: FrameModel) -> Result<CommandModel, TwitchIrcParseError> {
    match spec_resolve_sender(f.origin) {
        Err(e) => Err(e),
        Ok(sender) => {
            if f.command == "PRIVMSG"@ {
                match sender {
                    None => Err(TwitchIrcParseError::MissingSender),
                    Some(snd) => {
                        if f.params.len() != 2 {
                            Err(TwitchIrcParseError::BadParams)
                        } else {
                            let chan = f.params[0];
                            if chan.len() > 0 && chan[0] == '#' {
                                Ok(CommandModel::Privmsg {
                                    channel: chan.skip(1),
                                    sender: snd,
                                    content: f.params[1],
                                })
                            } else {
                                Err(TwitchIrcParseError::BadParams)
                            }
                        }
                    },
                }
            } else if f.command == "PING"@ {
                if f.params.len() != 1 {
                    Err(TwitchIrcParseError::BadParams)
                } else {
                    Ok(CommandModel::Ping { content: f.params[0] })
                }
            } else if f.command == "PONG"@ {
                if f.params.len() != 1 {
                    Err(TwitchIrcParseError::BadParams)
                } else {
                    Ok(CommandModel::Pong { content: f.params[0] })
                }
            } else if f.command == "JOIN"@ {
                if f.params.len() != 1 {
                    Err(TwitchIrcParseError::BadParams)
                } else {
                    let t = f.params[0];
                    if t.len() >= 2 && t[0] == '#' {
                        match sender {
                            None => Err(TwitchIrcParseError::MissingSender),
                            Some(j) => Ok(CommandModel::Join { joiner: j, channel: t.skip(1) }),
                        }
                    } else {
                        Err(TwitchIrcParseError::BadParams)
                    }
                }
            } else {
                match spec_parse_u16(f.command) {
                    Some(code) => Ok(CommandModel::Numeric { command: code, params: f.params }),
                    None => Err(TwitchIrcParseError::BadCommand),
                }
            }
        },
    }
}

/// The sender denoted by the part of an origin before the host suffix,
/// exactly as `spec_resolve_prefix` says.
fn resolve_prefix(p: &str) -> (r: Result<String, TwitchIrcParseError>)
    ensures
        match r {
            Ok(snd) => spec_resolve_prefix(p@) == Ok::<Seq<char>, TwitchIrcParseError>(snd@),
            Err(e) => spec_resolve_prefix(p@) == Err::<Seq<char>, TwitchIrcParseError>(e),
        },
{
    let m = p.unicode_len();
    proof {
        lemma_scan_to(p@, 0, '!');
    }
    let eb = find_char(p, 0, '!');
    let has_nick = eb < m;
    let u_start = if has_nick {
        eb + 1
    } else {
        0
    };
    proof {
        lemma_scan_to(p@, u_start as int, '@');
    }
    let ea = find_char(p, u_start, '@');
    let has_user = ea < m;
    let h_start = if has_user {
        ea + 1
    } else {
        u_start
    };
    proof {
        lemma_scan_to(p@, h_start as int, '.');
    }
    let ed = find_char(p, h_start, '.');
    let has_host = ed < m;
    if !has_host {
        return Err(TwitchIrcParseError::BadSenderInOrigin);
    }
    let rem_empty = ed + 1 == m;
    if !has_nick && !has_user {
        if rem_empty && ed > h_start {
            Ok(substring_owned(p, h_start, ed))
        } else {
            Err(TwitchIrcParseError::BadSenderInOrigin)
        }
    } else if has_nick && has_user {
        if rem_empty {
            let nick = p.substring_char(0, eb);
            let user = p.substring_char(u_start, ea);
            let host = p.substring_char(h_start, ed);
            if str_eq_str(nick, user) && str_eq_str(nick, host) {
                Ok(substring_owned(p, u_start, ea))
            } else {
                Err(TwitchIrcParseError::MismatchedSenderInOrigin)
            }
        } else {
            Err(TwitchIrcParseError::BadSenderInOrigin)
        }
    } else {
        Err(TwitchIrcParseError::BadSenderInOrigin)
    }
}

/// The sender resolved from an optional origin string, exactly as
/// `spec_resolve_sender` says.
pub fn resolve_sender(origin: &Option<String>) -> (r: Result<Option<String>, TwitchIrcParseError>)
    ensures
        match r {
            Ok(snd) => spec_resolve_sender(origin.deep_view()) == Ok::<
                Option<Seq<char>>,
                TwitchIrcParseError,
            >(snd.deep_view()),
            Err(e) => spec_resolve_sender(origin.deep_view()) == Err::<
                Option<Seq<char>>,
                TwitchIrcParseError,
            >(e),
        },
{
    match origin {
        None => Ok(None),
        Some(o) => {
            let os = o.as_str();
            let n = os.unicode_len();
            let suffix = "tmi.twitch.tv";
            let sl = suffix.unicode_len();
            if n < sl {
                return Err(TwitchIrcParseError::BadOrigin);
            }
            let tail = os.substring_char(n - sl, n);
            if !str_eq_str(tail, suffix) {
                return Err(TwitchIrcParseError::BadOrigin);
            }
            let plen = n - sl;
            if plen == 0 {
                return Ok(None);
            }
            let pref = os.substring_char(0, plen);
            match resolve_prefix(pref) {
                Ok(snd) => Ok(Some(snd)),
                Err(e) => Err(e),
            }
        },
    }
}

/// A validated protocol message.
#[derive(Debug, Clone, PartialEq, Eq)]
pub struct TwitchIrcMessage {
    pub command: TwitchIrcCommand,
}

impl View for TwitchIrcMessage {
    type V = CommandModel;

    open spec fn view(&self) -> CommandModel {
        self.command@
    }
}

impl TwitchIrcMessage {
    /// Maps a raw frame to a structured message, exactly as
    /// `spec_map_frame` says.
    pub fn try_from(value: RawIrcMessage) -> (r: Result<TwitchIrcMessage, TwitchIrcParseError>)
        ensures
            match r {
                Ok(m) => spec_map_frame(value@) == Ok::<CommandModel, TwitchIrcParseError>(m@),
                Err(e) => spec_map_frame(value@) == Err::<CommandModel, TwitchIrcParseError>(e),
            },
    {
        let ghost f = value@;
        let sender = match resolve_sender(&value.raw_origin) {
            Ok(s) => s,
            Err(e) => return Err(e),
        };
        let cmd = value.raw_command.as_str();
        if str_eq_str(cmd, "PRIVMSG") {
            let snd = match sender {
                Some(s) => s,
                None => return Err(TwitchIrcParseError::MissingSender),
            };
            if value.params.len() != 2 {
                return Err(TwitchIrcParseError::BadParams);
            }
            let mut params = value.params;
            let content = match params.pop() {
                Some(c) => c,
                None => unreached(),
            };
            let channel_raw = match params.pop() {
                Some(c) => c,
                None => unreached(),
            };
            proof {
                assert(channel_raw@ == f.params[0]);
                assert(content@ == f.params[1]);
            }
            let cs = channel_raw.as_str();
            let cn = cs.unicode_len();
            if cn == 0 || cs.get_char(0) != '#' {
                return Err(TwitchIrcParseError::BadParams);
            }
            let channel = substring_owned(cs, 1, cn);
            proof {
                assert(channel@ =~= f.params[0].skip(1));
            }
            Ok(TwitchIrcMessage {
                command: TwitchIrcCommand::Privmsg { channel, sender: snd, content },
            })
        } else if str_eq_str(cmd, "PING") {
            if value.params.len() != 1 {
                return Err(TwitchIrcParseError::BadParams);
            }
            let mut params = value.params;
            let content = match params.pop() {
                Some(c) => c,
                None => unreached(),
            };
            Ok(TwitchIrcMessage { command: TwitchIrcCommand::Ping { content } })
        } else if str_eq_str(cmd, "PONG") {
            if value.params.len() != 1 {
                return Err(TwitchIrcParseError::BadParams);
            }
            let mut params = value.params;
            let content = match params.pop() {
                Some(c) => c,
                None => unreached(),
            };
            Ok(TwitchIrcMessage { command: TwitchIrcCommand::Pong { content } })
        } else if str_eq_str(cmd, "JOIN") {
            if value.params.len() != 1 {
                return Err(TwitchIrcParseError::BadParams);
            }
            let mut params = value.params;
            let t = match params.pop() {
                Some(c) => c,
                None => unreached(),
            };
            let ts = t.as_str();
            let tn = ts.unicode_len();
            if !(tn >= 2 && ts.get_char(0) == '#') {
                return Err(TwitchIrcParseError::BadParams);
            }
            let joiner = match sender {
                Some(s) => s,
                None => return Err(TwitchIrcParseError::MissingSender),
            };
            let channel = substring_owned(ts, 1, tn);
            proof {
                assert(channel@ =~= f.params[0].skip(1));
            }
            Ok(TwitchIrcMessage { command: TwitchIrcCommand::Join { joiner, channel } })
        } else {
            match parse_u16(cmd) {
                Some(code) => Ok(TwitchIrcMessage {
                    command: TwitchIrcCommand::Numeric { command: code, params: value.params },
                }),
                None => Err(TwitchIrcParseError::BadCommand),
            }
        }
    }
}

/// The wire line of a chat message from a three-part origin whose parts
/// all equal `nick`: `:nick!nick@nick.tmi.twitch.tv PRIVMSG #chan :text`.
pub open spec fn wellformed_privmsg_line(
    nick: Seq<char>,
    chan: Seq<char>,
    text: Seq<char>,
) -> Seq<char> {
    ":"@ + nick + "!"@ + nick + "@"@ + nick + "."@ + "tmi.twitch.tv"@ + " "@ + "PRIVMSG"@ + " "@
        + "#"@ + chan + " "@ + ":"@ + text
}

/// Every well-formed chat line with a three-part matching origin parses:
/// splitting yields the origin and the two parameters, and mapping yields
/// the chat message with the origin's name as sender, the channel behind
/// its `#`, and the trailing text verbatim, spaces included. The name may
/// not contain the origin delimiters or spaces; the channel may not
/// contain spaces.
#[verifier::rlimit(100)]
pub proof fn lemma_wellformed_privmsg_parses(nick: Seq<char>, chan: Seq<char>, text: Seq<char>)
    requires
        forall|j: int|
            0 <= j < nick.len() ==> nick[j] != ' ' && nick[j] != '!' && nick[j] != '@' && nick[j]
                != '.',
        forall|j: int| 0 <= j < chan.len() ==> chan[j] != ' ',
    ensures
        spec_parse_raw_line(wellformed_privmsg_line(nick, chan, text)) matches Ok(f)
            && spec_map_frame(f) == Ok::<CommandModel, TwitchIrcParseError>(
            CommandModel::Privmsg { channel: chan, sender: nick, content: text },
        ),
{
    reveal_strlit(":");
    reveal_strlit("!");
    reveal_strlit("@");
    reveal_strlit(".");
    reveal_strlit("#");
    reveal_strlit(" ");
    reveal_strlit("tmi.twitch.tv");
    reveal_strlit("PRIVMSG");

    let s = wellformed_privmsg_line(nick, chan, text);
    let host = "tmi.twitch.tv"@;
    let n = nick.len() as int;
    let m = chan.len() as int;

    assert(host.len() == 13);
    assert("PRIVMSG"@.len() == 7);
    assert(s.len() == 3 * n + 29 + m + text.len());

    let sep1 = 3 * n + 17;
    let cmd0 = 3 * n + 18;
    let sep2 = 3 * n + 25;
    let hash = 3 * n + 26;
    let sep3 = 3 * n + 27 + m;
    let colon2 = 3 * n + 28 + m;

    assert forall|j: int| 0 <= j < 13 implies host[j] != ' ' by {
        assert(host[0] == 't');
        assert(host[1] == 'm');
        assert(host[2] == 'i');
        assert(host[3] == '.');
        assert(host[4] == 't');
        assert(host[5] == 'w');
        assert(host[6] == 'i');
        assert(host[7] == 't');
        assert(host[8] == 'c');
        assert(host[9] == 'h');
        assert(host[10] == '.');
        assert(host[11] == 't');
        assert(host[12] == 'v');
    }
    assert forall|j: int| 0 <= j < 7 implies "PRIVMSG"@[j] != ' ' by {
        assert("PRIVMSG"@[0] == 'P');
        assert("PRIVMSG"@[1] == 'R');
        assert("PRIVMSG"@[2] == 'I');
        assert("PRIVMSG"@[3] == 'V');
        assert("PRIVMSG"@[4] == 'M');
        assert("PRIVMSG"@[5] == 'S');
        assert("PRIVMSG"@[6] == 'G');
    }

    // where each character of the line comes from
    assert(s[0] == ':');
    assert forall|j: int| 1 <= j < 1 + n implies s[j] == nick[j - 1] by {}
    assert(s[1 + n] == '!');
    assert forall|j: int| 2 + n <= j < 2 + 2 * n implies s[j] == nick[j - (2 + n)] by {}
    assert(s[2 + 2 * n] == '@');
    assert forall|j: int| 3 + 2 * n <= j < 3 + 3 * n implies s[j] == nick[j - (3 + 2 * n)] by {}
    assert(s[3 + 3 * n] == '.');
    assert forall|j: int| 4 + 3 * n <= j < sep1 implies s[j] == host[j - (4 + 3 * n)] by {}
    assert(s[sep1] == ' ');
    assert forall|j: int| cmd0 <= j < sep2 implies s[j] == "PRIVMSG"@[j - cmd0] by {}
    assert(s[sep2] == ' ');
    assert(s[hash] == '#');
    assert forall|j: int| hash + 1 <= j < sep3 implies s[j] == chan[j - (hash + 1)] by {}
    assert(s[sep3] == ' ');
    assert(s[colon2] == ':');

    // the first token is the whole origin
    assert forall|j: int| 0 <= j < sep1 implies s[j] != ' ' by {}
    lemma_scan_to_from(s, 0, sep1, ' ');
    let t1 = s.subrange(0, sep1);
    assert(t1[0] == ':');
    assert(t1[0] != '@');

    let orig = nick + "!"@ + nick + "@"@ + nick + "."@ + host;
    assert(t1.skip(1) =~= orig);

    // the command token
    lemma_scan_to_from(s, cmd0, sep2, ' ');
    let cmd = s.subrange(cmd0, sep2);
    assert(cmd =~= "PRIVMSG"@);

    // the parameters: the channel token, then the trailing text
    assert forall|j: int| hash <= j < sep3 implies s[j] != ' ' by {}
    lemma_scan_to_from(s, hash, sep3, ' ');
    assert(s[hash] != ':');
    crate::text::lemma_scan_to(s, colon2, ' ');
    assert(token_end(s, colon2) != colon2);
    assert(s.subrange(colon2 + 1, s.len() as int) =~= text);
    assert(spec_parse_params(s, colon2) == seq![text]);
    let param0 = s.subrange(hash, sep3);
    assert(param0 =~= "#"@ + chan);
    assert(spec_parse_params(s, hash) == seq![param0] + seq![text]);
    assert(seq![param0] + seq![text] =~= seq![param0, text]);

    assert(spec_parse_raw_line(s) matches Ok(f) && f == FrameModel {
        tags: None,
        origin: Some(orig),
        command: cmd,
        params: seq![param0, text],
    });

    // the origin resolves to the matching name
    assert(orig.len() == 3 * n + 16);
    assert(orig.subrange(orig.len() - 13, orig.len() as int) =~= host);
    let pfx = orig.subrange(0, 3 * n + 3);
    assert(pfx =~= nick + "!"@ + nick + "@"@ + nick + "."@);
    assert forall|j: int| 0 <= j < n implies pfx[j] == nick[j] by {}
    assert(pfx[n] == '!');
    assert forall|j: int| n + 1 <= j < 2 * n + 1 implies pfx[j] == nick[j - (n + 1)] by {}
    assert(pfx[2 * n + 1] == '@');
    assert forall|j: int| 2 * n + 2 <= j < 3 * n + 2 implies pfx[j] == nick[j - (2 * n + 2)] by {}
    assert(pfx[3 * n + 2] == '.');
    lemma_scan_to_from(pfx, 0, n, '!');
    lemma_scan_to_from(pfx, n + 1, 2 * n + 1, '@');
    lemma_scan_to_from(pfx, 2 * n + 2, 3 * n + 2, '.');
    assert(pfx.subrange(0, n) =~= nick);
    assert(pfx.subrange(n + 1, 2 * n + 1) =~= nick);
    assert(pfx.subrange(2 * n + 2, 3 * n + 2) =~= nick);
    assert(spec_resolve_prefix(pfx) == Ok::<Seq<char>, TwitchIrcParseError>(nick));
    assert(spec_resolve_sender(Some(orig)) == Ok::<Option<Seq<char>>, TwitchIrcParseError>(
        Some(nick),
    ));

    // the frame maps to the chat message
    assert(param0.len() > 0 && param0[0] == '#');
    assert(param0.skip(1) =~= chan);
}

/// Parsing is a function of the raw line alone: equal raw lines split to
/// equal frames and map to structurally identical messages, so parsing
/// one line twice yields identical results.
pub proof fn lemma_reparse_identical(raw1: Seq<char>, raw2: Seq<char>)
    requires
        raw1 == raw2,
    ensures
        spec_parse_raw_line(raw1) == spec_parse_raw_line(raw2),
        spec_parse_raw_line(raw1) matches Ok(f1) ==> (spec_parse_raw_line(raw2) matches Ok(f2)
            && spec_map_frame(f1) == spec_map_frame(f2)),
{
}

/// The name of a structural parse error, as diagnostics write it.
pub open spec fn raw_err_name(e: RawIrcParseError) -> Seq<char> {
    match e {
        RawIrcParseError::BadSpaces => "BadSpaces"@,
        RawIrcParseError::NoParams => "NoParams"@,
    }
}

impl RawIrcParseError {
    /// The error's name.
    pub fn describe(&self) -> (r: String)
        ensures
            r@ == raw_err_name(*self),
    {
        match self {
            RawIrcParseError::BadSpaces => String::from_str("BadSpaces"),
            RawIrcParseError::NoParams => String::from_str("NoParams"),
        }
    }
}

/// The name of a semantic parse error, as diagnostics write it.
pub open spec fn twitch_err_name(e: TwitchIrcParseError) -> Seq<char> {
    match e {
        TwitchIrcParseError::BadOrigin => "BadOrigin"@,
        TwitchIrcParseError::BadSenderInOrigin => "BadSenderInOrigin"@,
        TwitchIrcParseError::MismatchedSenderInOrigin => "MismatchedSenderInOrigin"@,
        TwitchIrcParseError::BadCommand => "BadCommand"@,
        TwitchIrcParseError::BadParams => "BadParams"@,
        TwitchIrcParseError::MissingSender => "MissingSender"@,
    }
}

impl TwitchIrcParseError {
    /// The error's name.
    pub fn describe(&self) -> (r: String)
        ensures
            r@ == twitch_err_name(*self),
    {
        match self {
            TwitchIrcParseError::BadOrigin => String::from_str("BadOrigin"),
            TwitchIrcParseError::BadSenderInOrigin => String::from_str("BadSenderInOrigin"),
            TwitchIrcParseError::MismatchedSenderInOrigin => String::from_str(
                "MismatchedSenderInOrigin",
            ),
            TwitchIrcParseError::BadCommand => String::from_str("BadCommand"),
            TwitchIrcParseError::BadParams => String::from_str("BadParams"),
            TwitchIrcParseError::MissingSender => String::from_str("MissingSender"),
        }
    }
}

/// The display text of a chat message: `[#channel] sender: content`.
pub open spec fn privmsg_text(channel: Seq<char>, sender: Seq<char>, content: Seq<char>) -> Seq<
    char,
> {
    "[#"@ + channel + "] "@ + sender + ": "@ + content
}

/// The display text of a ping: `[ping content]`.
pub open spec fn ping_text(content: Seq<char>) -> Seq<char> {
    "[ping "@ + content + "]"@
}

/// The message kinds other than chat messages and pings have no display
/// form of their own.
#[derive(Debug, Clone, Copy, PartialEq, Eq, Structural)]
pub struct StringifyNotImplementedError;

/// A one-line display form of a message: `privmsg_text` for a chat
/// message, `ping_text` for a ping, and an error for every other kind.
pub fn stringify_message(message: &TwitchIrcMessage) -> (r: Result<
    String,
    StringifyNotImplementedError,
>)
    ensures
        match r {
            Ok(text) => match message@ {
                CommandModel::Privmsg { channel, sender, content } => text@ == privmsg_text(
                    channel,
                    sender,
                    content,
                ),
                CommandModel::Ping { content } => text@ == ping_text(content),
                _ => false,
            },
            Err(_) => !(message@ is Privmsg) && !(message@ is Ping),
        },
{
    match &message.command {
        TwitchIrcCommand::Privmsg { channel, sender, content } => {
            let mut text = String::from_str("[#");
            text.append(channel.as_str());
            text.append("] ");
            text.append(sender.as_str());
            text.append(": ");
            text.append(content.as_str());
            Ok(text)
        },
        TwitchIrcCommand::Ping { content } => {
            let mut text = String::from_str("[ping ");
            text.append(content.as_str());
            text.append("]");
            Ok(text)
        },
        _ => Err(StringifyNotImplementedError),
    }
}

} // verus!
