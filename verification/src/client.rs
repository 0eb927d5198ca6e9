//! The connection-lifecycle and dispatch logic: credential and join lines,
//! classification of the login wait, the handshake state machine, and the
//! decision, for each inbound line and outbound request, of what to write
//! to the wire and what to show on the display.
//!
//! The functions here compute decisions from plain values; the surrounding
//! program performs the socket reads and writes and hands the results
//! back.

use vstd::prelude::*;
use vstd::string::StringExecFns;
use std::sync::mpsc::Receiver;
use std::sync::mpsc::Sender;
use crate::actions::TerminalAction;
use crate::actions::TerminalActionModel;
use crate::actions::TwitchAction;
use crate::actions::TwitchActionModel;
use crate::config::BotMode;
use crate::config::BotModeModel;
use crate::config::TwitchLogin;
use crate::config::TwitchLoginModel;
use crate::irc::CommandModel;
use crate::irc::RawIrcMessage;
use crate::irc::TwitchIrcCommand;
use crate::irc::TwitchIrcMessage;
use crate::irc::raw_err_name;
use crate::irc::spec_map_frame;
use crate::irc::spec_parse_raw_line;
use crate::irc::twitch_err_name;
use crate::text::spec_starts_with;
use crate::text::str_starts_with;
use crate::text::str_eq_str;
use vstd::string::StrSliceExecFns;

verus! {

/// How long the login step waits for a reply before retrying.
pub const LOGIN_TIMEOUT_SECONDS: u16 = 5;

/// How long the client sleeps between login attempts.
pub const LOGIN_RETRY_SECONDS: u16 = 10;

/// What the client needs to know to run a connection.
pub struct TwitchClientConfig {
    pub irc_addr: String,
    pub login: TwitchLogin,
    pub channel: String,
    pub bot_mode: BotMode,
}

impl TwitchClientConfig {
    /// A configuration from its four parts.
    pub fn new(irc_addr: String, login: TwitchLogin, channel: String, bot_mode: BotMode) -> (r:
        TwitchClientConfig)
        ensures
            r.irc_addr@ == irc_addr@,
            r.login@ == login@,
            r.channel@ == channel@,
            r.bot_mode@ == bot_mode@,
    {
        TwitchClientConfig { irc_addr, login, channel, bot_mode }
    }
}

/// A client bundled with its two channel endpoints: the display events it
/// produces and the requests it consumes.
pub struct TwitchClient {
    pub config: TwitchClientConfig,
    pub terminal_action_tx: Sender<TerminalAction>,
    pub twitch_action_rx: Receiver<TwitchAction>,
}

/// What the stream reader hands over: one raw line, or the end of the
/// stream.
#[derive(Debug, Clone, PartialEq, Eq)]
pub enum RawStreamAction {
    Receive(String),
    EndOfStream,
}

/// Spec-level twin of `RawStreamAction`.
pub enum RawStreamActionModel {
    Receive(Seq<char>),
    EndOfStream,
}

impl View for RawStreamAction {
    type V = RawStreamActionModel;

    open spec fn view(&self) -> RawStreamActionModel {
        match self {
            RawStreamAction::Receive(raw) => RawStreamActionModel::Receive(raw@),
            RawStreamAction::EndOfStream => RawStreamActionModel::EndOfStream,
        }
    }
}

/// How one login attempt ended.
#[derive(Debug, Clone, Copy, PartialEq, Eq, Structural)]
pub enum TwitchLoginResult {
    Success,
    Fail,
    Timeout,
}

/// Where the connection stands: its states in the order they are passed
/// through, with the number of finished login attempts while
/// authenticating.
#[derive(Debug, Clone, Copy, PartialEq, Eq, Structural)]
pub enum ConnectionState {
    Connecting,
    Authenticating { attempts: u64 },
    Joining,
    Active,
    Closed,
}

/// The wire line `PASS <token>`.
pub open spec fn pass_wire(token: Seq<char>) -> Seq<char> {
    "PASS "@ + token + "\r\n"@
}

/// The wire line `NICK <nick>`.
pub open spec fn nick_wire(nick: Seq<char>) -> Seq<char> {
    "NICK "@ + nick + "\r\n"@
}

/// The wire line `JOIN #<channel>`.
pub open spec fn join_wire(channel: Seq<char>) -> Seq<char> {
    "JOIN #"@ + channel + "\r\n"@
}

/// The wire line `PONG :<content>`.
pub open spec fn pong_wire(content: Seq<char>) -> Seq<char> {
    "PONG :"@ + content + "\r\n"@
}

/// The wire line `PRIVMSG #<channel> :<message>`.
pub open spec fn privmsg_wire(channel: Seq<char>, message: Seq<char>) -> Seq<char> {
    "PRIVMSG #"@ + channel + " :"@ + message + "\r\n"@
}

/// The nick a login authenticates as: the configured username, or the
/// fixed anonymous placeholder.
pub open spec fn login_nick(login: TwitchLoginModel) -> Seq<char> {
    match login {
        TwitchLoginModel::Auth { username, .. } => username,
        TwitchLoginModel::Anonymous => "justinfan1337"@,
    }
}

/// The password a login authenticates with: the configured token behind
/// the `oauth:` scheme, or the fixed anonymous placeholder.
pub open spec fn login_pass(login: TwitchLoginModel) -> Seq<char> {
    match login {
        TwitchLoginModel::Auth { token, .. } => "oauth:"@ + token,
        TwitchLoginModel::Anonymous => "forsenCD"@,
    }
}

/// The two credential lines one login attempt sends: the `PASS` line,
/// then the `NICK` line.
pub fn credential_lines(login: &TwitchLogin) -> (r: (String, String))
    ensures
        r.0@ == pass_wire(login_pass(login@)),
        r.1@ == nick_wire(login_nick(login@)),
{
    let mut pass_line = String::from_str("PASS ");
    let mut nick_line = String::from_str("NICK ");
    match login {
        TwitchLogin::Auth { username, token } => {
            pass_line.append("oauth:");
            pass_line.append(token.as_str());
            nick_line.append(username.as_str());
        },
        TwitchLogin::Anonymous => {
            pass_line.append("forsenCD");
            nick_line.append("justinfan1337");
        },
    }
    pass_line.append("\r\n");
    nick_line.append("\r\n");
    proof {
        match login@ {
            TwitchLoginModel::Auth { username, token } => {
                assert(pass_line@ =~= pass_wire(login_pass(login@)));
                assert(nick_line@ =~= nick_wire(login_nick(login@)));
            },
            TwitchLoginModel::Anonymous => {
                assert(pass_line@ =~= pass_wire(login_pass(login@)));
                assert(nick_line@ =~= nick_wire(login_nick(login@)));
            },
        }
    }
    (pass_line, nick_line)
}

/// The line that joins the configured channel.
pub fn join_line(channel: &str) -> (r: String)
    ensures
        r@ == join_wire(channel@),
{
    let mut line = String::from_str("JOIN #");
    line.append(channel);
    line.append("\r\n");
    proof {
        assert(line@ =~= join_wire(channel@));
    }
    line
}

/// The reply to a ping.
pub fn pong_line(content: &str) -> (r: String)
    ensures
        r@ == pong_wire(content@),
{
    let mut line = String::from_str("PONG :");
    line.append(content);
    line.append("\r\n");
    proof {
        assert(line@ =~= pong_wire(content@));
    }
    line
}

/// The line that sends a chat message to a channel.
pub fn privmsg_line(channel: &str, message: &str) -> (r: String)
    ensures
        r@ == privmsg_wire(channel@, message@),
{
    let mut line = String::from_str("PRIVMSG #");
    line.append(channel);
    line.append(" :");
    line.append(message);
    line.append("\r\n");
    proof {
        assert(line@ =~= privmsg_wire(channel@, message@));
    }
    line
}

/// Whether a raw line announces a successful login: it parses, and maps
/// to the numeric reply with code 1.
pub open spec fn spec_login_success(raw: Seq<char>) -> bool {
    match spec_parse_raw_line(raw) {
        Err(_) => false,
        Ok(f) => match spec_map_frame(f) {
            Err(_) => false,
            Ok(c) => c matches CommandModel::Numeric { command, .. } && command == 1,
        },
    }
}

/// Classifies what the login wait produced: no line within the timeout is
/// a timeout; a line that announces success is a success; anything else,
/// the end of the stream included, is a failure.
pub fn classify_login_wait(outcome: Option<RawStreamAction>) -> (r: TwitchLoginResult)
    ensures
        r == match outcome {
            None => TwitchLoginResult::Timeout,
            Some(action) => match action@ {
                RawStreamActionModel::EndOfStream => TwitchLoginResult::Fail,
                RawStreamActionModel::Receive(raw) => if spec_login_success(raw) {
                    TwitchLoginResult::Success
                } else {
                    TwitchLoginResult::Fail
                },
            },
        },
{
    match outcome {
        None => TwitchLoginResult::Timeout,
        Some(RawStreamAction::EndOfStream) => TwitchLoginResult::Fail,
        Some(RawStreamAction::Receive(raw)) => {
            match RawIrcMessage::try_from(raw.as_str()) {
                Err(_) => TwitchLoginResult::Fail,
                Ok(frame) => match TwitchIrcMessage::try_from(frame) {
                    Err(_) => TwitchLoginResult::Fail,
                    Ok(message) => match &message.command {
                        TwitchIrcCommand::Numeric { command, .. } => {
                            if *command == 1 {
                                TwitchLoginResult::Success
                            } else {
                                TwitchLoginResult::Fail
                            }
                        },
                        _ => TwitchLoginResult::Fail,
                    },
                },
            }
        },
    }
}

/// The attempt count after one more finished attempt.
pub open spec fn next_attempt(attempts: u64) -> u64 {
    if attempts == u64::MAX {
        attempts
    } else {
        (attempts + 1) as u64
    }
}

/// Advances the handshake by one finished login attempt: success moves on
/// to joining; a failure or a timeout counts the attempt, says so on the
/// display, and stays authenticating. Retries are not bounded.
pub fn advance_authentication(attempts: u64, result: TwitchLoginResult) -> (r: (
    ConnectionState,
    Option<TerminalAction>,
))
    ensures
        result == TwitchLoginResult::Success ==> r == (
            ConnectionState::Joining,
            None::<TerminalAction>,
        ),
        result == TwitchLoginResult::Fail ==> (r.0 == (ConnectionState::Authenticating {
            attempts: next_attempt(attempts),
        }) && (r.1 matches Some(notice) && notice@ == TerminalActionModel::PrintDebug(
            "Auth failed. Retrying in 10 seconds..."@,
        ))),
        result == TwitchLoginResult::Timeout ==> (r.0 == (ConnectionState::Authenticating {
            attempts: next_attempt(attempts),
        }) && (r.1 matches Some(notice) && notice@ == TerminalActionModel::PrintDebug(
            "Auth timed out. Retrying in 10 seconds..."@,
        ))),
{
    match result {
        TwitchLoginResult::Success => (ConnectionState::Joining, None),
        TwitchLoginResult::Fail => {
            let attempts = if attempts == u64::MAX {
                attempts
            } else {
                attempts + 1
            };
            (
                ConnectionState::Authenticating { attempts },
                Some(
                    TerminalAction::PrintDebug(
                        String::from_str("Auth failed. Retrying in 10 seconds..."),
                    ),
                ),
            )
        },
        TwitchLoginResult::Timeout => {
            let attempts = if attempts == u64::MAX {
                attempts
            } else {
                attempts + 1
            };
            (
                ConnectionState::Authenticating { attempts },
                Some(
                    TerminalAction::PrintDebug(
                        String::from_str("Auth timed out. Retrying in 10 seconds..."),
                    ),
                ),
            )
        },
    }
}

/// The numeric replies the dispatcher ignores: the welcome block after
/// the success code, and the membership listing codes.
pub open spec fn is_ignored_numeric(code: u16) -> bool {
    code == 2 || code == 3 || code == 4 || code == 353 || code == 366 || code == 375 || code == 372
        || code == 376
}

/// The debug text shown for a line that is received but not handled.
pub open spec fn raw_notice_text(raw: Seq<char>) -> Seq<char> {
    "[raw] "@ + raw
}

/// The debug text noting a join.
pub open spec fn join_notice_text(joiner: Seq<char>, channel: Seq<char>) -> Seq<char> {
    "[client] "@ + joiner + " joined #"@ + channel + "."@
}

/// The debug text shown for a line that failed to parse, naming the error
/// and quoting the line.
pub open spec fn parse_error_text(name: Seq<char>, raw: Seq<char>) -> Seq<char> {
    "[error] Encountered "@ + name + " while parsing this message: \""@ + raw + "\""@
}

/// The debug notice shown when the stream ends.
pub open spec fn closed_notice_text() -> Seq<char> {
    "[client] Connection closed."@
}

/// What handling one event produces: display events for the rendering
/// surface, and lines to write to the wire, each in order.
#[derive(Debug, Clone, PartialEq, Eq)]
pub struct MessageOutcome {
    pub displays: Vec<TerminalAction>,
    pub writes: Vec<String>,
}

/// Spec-level twin of `MessageOutcome`.
pub struct MessageOutcomeModel {
    pub displays: Seq<TerminalActionModel>,
    pub writes: Seq<Seq<char>>,
}

impl View for MessageOutcome {
    type V = MessageOutcomeModel;

    open spec fn view(&self) -> MessageOutcomeModel {
        MessageOutcomeModel { displays: self.displays.deep_view(), writes: self.writes.deep_view() }
    }
}

/// The outcome with no displays and no writes.
pub open spec fn empty_outcome() -> MessageOutcomeModel {
    MessageOutcomeModel { displays: Seq::empty(), writes: Seq::empty() }
}

/// The reply the bot evaluator gives to a chat message: with a configured
/// prefix, a message `<prefix>echo <text>` is answered with the fixed
/// lead-in and `<text>`; `<prefix>ping...` with the fixed pong phrase; and
/// exactly `<prefix>raid` with the fixed rejoin token. Everything else,
/// and every message while the evaluator is off, gets no reply.
pub open spec fn spec_bot_reply(
    bot: BotModeModel,
    channel: Seq<char>,
    content: Seq<char>,
) -> Option<Seq<char>> {
    match bot {
        BotModeModel::Off => None,
        BotModeModel::WithPrefix(p) => {
            if !spec_starts_with(content, p) {
                None
            } else {
                let rest = content.skip(p.len() as int);
                if spec_starts_with(rest, "echo "@) {
                    Some(privmsg_wire(channel, "SingsMic "@ + rest.skip(5)))
                } else if spec_starts_with(rest, "ping"@) {
                    Some(privmsg_wire(channel, "pong FutureMan"@))
                } else if rest == "raid"@ {
                    Some(privmsg_wire(channel, "+join"@))
                } else {
                    None
                }
            }
        },
    }
}

/// The bot evaluator, exactly as `spec_bot_reply` says.
pub fn bot_reply(bot_mode: &BotMode, channel: &str, content: &str) -> (r: Option<String>)
    ensures
        match r {
            Some(line) => spec_bot_reply(bot_mode@, channel@, content@) == Some(line@),
            None => spec_bot_reply(bot_mode@, channel@, content@) is None,
        },
{
    match bot_mode {
        BotMode::Off => None,
        BotMode::WithPrefix(prefix) => {
            let ps = prefix.as_str();
            if !str_starts_with(content, ps) {
                return None;
            }
            let n = content.unicode_len();
            let plen = ps.unicode_len();
            let rest = content.substring_char(plen, n);
            proof {
                assert(rest@ =~= content@.skip(ps@.len() as int));
            }
            if str_starts_with(rest, "echo ") {
                proof {
                    reveal_strlit("echo ");
                }
                let rlen = rest.unicode_len();
                let arg = rest.substring_char(5, rlen);
                proof {
                    assert(arg@ =~= rest@.skip(5));
                }
                let mut reply = String::from_str("SingsMic ");
                reply.append(arg);
                proof {
                    assert(reply@ =~= "SingsMic "@ + rest@.skip(5));
                }
                Some(privmsg_line(channel, reply.as_str()))
            } else if str_starts_with(rest, "ping") {
                Some(privmsg_line(channel, "pong FutureMan"))
            } else if str_eq_str(rest, "raid") {
                Some(privmsg_line(channel, "+join"))
            } else {
                None
            }
        },
    }
}

/// What handling one structured message produces: a ping is shown and
/// answered; a chat message is shown and handed to the bot evaluator; a
/// join is noted; an ignored numeric produces nothing; everything else is
/// shown raw.
pub open spec fn spec_handle_message(
    c: CommandModel,
    bot: BotModeModel,
    default_raw: Seq<char>,
) -> MessageOutcomeModel {
    match c {
        CommandModel::Ping { content } => MessageOutcomeModel {
            displays: seq![TerminalActionModel::PrintPing(content)],
            writes: seq![pong_wire(content)],
        },
        CommandModel::Privmsg { channel, sender, content } => MessageOutcomeModel {
            displays: seq![
                TerminalActionModel::PrintPrivmsg { channel, username: sender, message: content },
            ],
            writes: match spec_bot_reply(bot, channel, content) {
                Some(w) => seq![w],
                None => Seq::empty(),
            },
        },
        CommandModel::Join { joiner, channel } => MessageOutcomeModel {
            displays: seq![TerminalActionModel::PrintDebug(join_notice_text(joiner, channel))],
            writes: Seq::empty(),
        },
        CommandModel::Numeric { command, .. } => if is_ignored_numeric(command) {
            empty_outcome()
        } else {
            MessageOutcomeModel {
                displays: seq![TerminalActionModel::PrintDebug(raw_notice_text(default_raw))],
                writes: Seq::empty(),
            }
        },
        _ => MessageOutcomeModel {
            displays: seq![TerminalActionModel::PrintDebug(raw_notice_text(default_raw))],
            writes: Seq::empty(),
        },
    }
}

/// An ignored numeric reply produces no display event and no write; every
/// other numeric reply produces exactly the raw debug notice, whatever
/// its parameters and whatever the bot mode.
pub proof fn lemma_numeric_display(
    code: u16,
    params: Seq<Seq<char>>,
    bot: BotModeModel,
    raw: Seq<char>,
)
    ensures
        is_ignored_numeric(code) ==> spec_handle_message(
            CommandModel::Numeric { command: code, params },
            bot,
            raw,
        ) == empty_outcome(),
        !is_ignored_numeric(code) ==> spec_handle_message(
            CommandModel::Numeric { command: code, params },
            bot,
            raw,
        ) == (MessageOutcomeModel {
            displays: seq![TerminalActionModel::PrintDebug(raw_notice_text(raw))],
            writes: Seq::empty(),
        }),
{
}

/// The debug event quoting an unhandled raw line.
fn raw_notice(raw: &str) -> (r: TerminalAction)
    ensures
        r@ == TerminalActionModel::PrintDebug(raw_notice_text(raw@)),
{
    let mut text = String::from_str("[raw] ");
    text.append(raw);
    proof {
        assert(text@ =~= raw_notice_text(raw@));
    }
    TerminalAction::PrintDebug(text)
}

/// Handles one structured message, exactly as `spec_handle_message` says.
pub fn handle_message(message: &TwitchIrcMessage, bot_mode: &BotMode, default_raw: &str) -> (r:
    MessageOutcome)
    ensures
        r@ == spec_handle_message(message@, bot_mode@, default_raw@),
{
    let mut displays: Vec<TerminalAction> = Vec::new();
    let mut writes: Vec<String> = Vec::new();
    match &message.command {
        TwitchIrcCommand::Ping { content } => {
            displays.push(TerminalAction::PrintPing(content.clone()));
            writes.push(pong_line(content.as_str()));
            let r = MessageOutcome { displays, writes };
            proof {
                assert(r@.displays =~= seq![TerminalActionModel::PrintPing(content@)]);
                assert(r@.writes =~= seq![pong_wire(content@)]);
            }
            r
        },
        TwitchIrcCommand::Privmsg { channel, sender, content } => {
            displays.push(
                TerminalAction::PrintPrivmsg {
                    channel: channel.clone(),
                    username: sender.clone(),
                    message: content.clone(),
                },
            );
            match bot_reply(bot_mode, channel.as_str(), content.as_str()) {
                Some(line) => {
                    writes.push(line);
                    let r = MessageOutcome { displays, writes };
                    proof {
                        assert(r@.displays =~= seq![
                            TerminalActionModel::PrintPrivmsg {
                                channel: channel@,
                                username: sender@,
                                message: content@,
                            },
                        ]);
                        assert(r@.writes =~= seq![
                            spec_bot_reply(bot_mode@, channel@, content@).unwrap(),
                        ]);
                    }
                    r
                },
                None => {
                    let r = MessageOutcome { displays, writes };
                    proof {
                        assert(r@.displays =~= seq![
                            TerminalActionModel::PrintPrivmsg {
                                channel: channel@,
                                username: sender@,
                                message: content@,
                            },
                        ]);
                        assert(r@.writes =~= Seq::<Seq<char>>::empty());
                    }
                    r
                },
            }
        },
        TwitchIrcCommand::Join { joiner, channel } => {
            let mut text = String::from_str("[client] ");
            text.append(joiner.as_str());
            text.append(" joined #");
            text.append(channel.as_str());
            text.append(".");
            proof {
                assert(text@ =~= join_notice_text(joiner@, channel@));
            }
            displays.push(TerminalAction::PrintDebug(text));
            let r = MessageOutcome { displays, writes };
            proof {
                assert(r@.displays =~= seq![
                    TerminalActionModel::PrintDebug(join_notice_text(joiner@, channel@)),
                ]);
                assert(r@.writes =~= Seq::<Seq<char>>::empty());
            }
            r
        },
        TwitchIrcCommand::Numeric { command, .. } => {
            let code = *command;
            if !(code == 2 || code == 3 || code == 4 || code == 353 || code == 366 || code == 375
                || code == 372 || code == 376) {
                displays.push(raw_notice(default_raw));
            }
            let r = MessageOutcome { displays, writes };
            proof {
                if is_ignored_numeric(code) {
                    assert(r@.displays =~= Seq::<TerminalActionModel>::empty());
                } else {
                    assert(r@.displays =~= seq![
                        TerminalActionModel::PrintDebug(raw_notice_text(default_raw@)),
                    ]);
                }
                assert(r@.writes =~= Seq::<Seq<char>>::empty());
            }
            r
        },
        _ => {
            displays.push(raw_notice(default_raw));
            let r = MessageOutcome { displays, writes };
            proof {
                assert(r@.displays =~= seq![
                    TerminalActionModel::PrintDebug(raw_notice_text(default_raw@)),
                ]);
                assert(r@.writes =~= Seq::<Seq<char>>::empty());
            }
            r
        },
    }
}

/// What one inbound raw line produces: a line that fails either parsing
/// stage is quoted in a debug event naming the error; a line that parses
/// is handled as `spec_handle_message` says.
pub open spec fn spec_inbound_outcome(raw: Seq<char>, bot: BotModeModel) -> MessageOutcomeModel {
    match spec_parse_raw_line(raw) {
        Err(e) => MessageOutcomeModel {
            displays: seq![
                TerminalActionModel::PrintDebug(parse_error_text(raw_err_name(e), raw)),
            ],
            writes: Seq::empty(),
        },
        Ok(f) => match spec_map_frame(f) {
            Err(e) => MessageOutcomeModel {
                displays: seq![
                    TerminalActionModel::PrintDebug(parse_error_text(twitch_err_name(e), raw)),
                ],
                writes: Seq::empty(),
            },
            Ok(c) => spec_handle_message(c, bot, raw),
        },
    }
}

/// The debug event quoting a line that failed to parse.
fn parse_error_notice(name: &str, raw: &str) -> (r: TerminalAction)
    ensures
        r@ == TerminalActionModel::PrintDebug(parse_error_text(name@, raw@)),
{
    let mut text = String::from_str("[error] Encountered ");
    text.append(name);
    text.append(" while parsing this message: \"");
    text.append(raw);
    text.append("\"");
    proof {
        assert(text@ =~= parse_error_text(name@, raw@));
    }
    TerminalAction::PrintDebug(text)
}

/// Processes one inbound raw line, exactly as `spec_inbound_outcome`
/// says.
pub fn process_inbound_line(raw: &str, bot_mode: &BotMode) -> (r: MessageOutcome)
    ensures
        r@ == spec_inbound_outcome(raw@, bot_mode@),
{
    match RawIrcMessage::try_from(raw) {
        Err(e) => {
            let name = e.describe();
            let mut displays: Vec<TerminalAction> = Vec::new();
            displays.push(parse_error_notice(name.as_str(), raw));
            let writes: Vec<String> = Vec::new();
            let r = MessageOutcome { displays, writes };
            proof {
                assert(r@.displays =~= seq![
                    TerminalActionModel::PrintDebug(parse_error_text(raw_err_name(e), raw@)),
                ]);
                assert(r@.writes =~= Seq::<Seq<char>>::empty());
            }
            r
        },
        Ok(frame) => {
            let ghost fm = frame@;
            match TwitchIrcMessage::try_from(frame) {
                Err(e) => {
                    let name = e.describe();
                    let mut displays: Vec<TerminalAction> = Vec::new();
                    displays.push(parse_error_notice(name.as_str(), raw));
                    let writes: Vec<String> = Vec::new();
                    let r = MessageOutcome { displays, writes };
                    proof {
                        assert(r@.displays =~= seq![
                            TerminalActionModel::PrintDebug(
                                parse_error_text(twitch_err_name(e), raw@),
                            ),
                        ]);
                        assert(r@.writes =~= Seq::<Seq<char>>::empty());
                    }
                    r
                },
                Ok(message) => handle_message(&message, bot_mode, raw),
            }
        },
    }
}

/// Processes what the stream reader handed over: a received line is
/// processed as `spec_inbound_outcome` says; the end of the stream closes
/// the connection with a final notice.
pub fn process_stream_action(action: RawStreamAction, bot_mode: &BotMode) -> (r: (
    bool,
    MessageOutcome,
))
    ensures
        match action@ {
            RawStreamActionModel::Receive(raw) => !r.0 && r.1@ == spec_inbound_outcome(
                raw,
                bot_mode@,
            ),
            RawStreamActionModel::EndOfStream => r.0 && r.1@ == (MessageOutcomeModel {
                displays: seq![TerminalActionModel::PrintDebug(closed_notice_text())],
                writes: Seq::empty(),
            }),
        },
{
    match action {
        RawStreamAction::Receive(raw) => (false, process_inbound_line(raw.as_str(), bot_mode)),
        RawStreamAction::EndOfStream => {
            let mut displays: Vec<TerminalAction> = Vec::new();
            displays.push(TerminalAction::PrintDebug(String::from_str(
                "[client] Connection closed.",
            )));
            let writes: Vec<String> = Vec::new();
            let r = MessageOutcome { displays, writes };
            proof {
                assert(r@.displays =~= seq![TerminalActionModel::PrintDebug(closed_notice_text())]);
                assert(r@.writes =~= Seq::<Seq<char>>::empty());
            }
            (true, r)
        },
    }
}

/// What an outbound request produces: with configured credentials, a send
/// request writes the chat line and echoes it to the display under the
/// configured name; an anonymous identity cannot post, so the request is
/// dropped; a connect request is a retained no-op.
pub open spec fn spec_outbound_outcome(
    action: TwitchActionModel,
    login: TwitchLoginModel,
    channel: Seq<char>,
) -> MessageOutcomeModel {
    match action {
        TwitchActionModel::SendPrivmsg { message } => match login {
            TwitchLoginModel::Auth { username, .. } => MessageOutcomeModel {
                displays: seq![
                    TerminalActionModel::PrintPrivmsg { channel, username, message },
                ],
                writes: seq![privmsg_wire(channel, message)],
            },
            TwitchLoginModel::Anonymous => empty_outcome(),
        },
        TwitchActionModel::Connect => empty_outcome(),
    }
}

/// Processes one outbound request, exactly as `spec_outbound_outcome`
/// says.
pub fn process_outbound_action(action: TwitchAction, login: &TwitchLogin, channel: &str) -> (r:
    MessageOutcome)
    ensures
        r@ == spec_outbound_outcome(action@, login@, channel@),
{
    let mut displays: Vec<TerminalAction> = Vec::new();
    let mut writes: Vec<String> = Vec::new();
    match action {
        TwitchAction::SendPrivmsg { message } => match login {
            TwitchLogin::Auth { username, .. } => {
                let ghost msgv = message@;
                writes.push(privmsg_line(channel, message.as_str()));
                displays.push(
                    TerminalAction::PrintPrivmsg {
                        channel: String::from_str(channel),
                        username: username.clone(),
                        message,
                    },
                );
                let r = MessageOutcome { displays, writes };
                proof {
                    assert(r@.writes =~= seq![privmsg_wire(channel@, msgv)]);
                    assert(r@.displays =~= seq![
                        TerminalActionModel::PrintPrivmsg {
                            channel: channel@,
                            username: username@,
                            message: msgv,
                        },
                    ]);
                }
                r
            },
            TwitchLogin::Anonymous => {
                let r = MessageOutcome { displays, writes };
                proof {
                    assert(r@.displays =~= Seq::<TerminalActionModel>::empty());
                    assert(r@.writes =~= Seq::<Seq<char>>::empty());
                }
                r
            },
        },
        TwitchAction::Connect => {
            let r = MessageOutcome { displays, writes };
            proof {
                assert(r@.displays =~= Seq::<TerminalActionModel>::empty());
                assert(r@.writes =~= Seq::<Seq<char>>::empty());
            }
            r
        },
    }
}

/// The display notice announcing the login attempt: the configured name,
/// or the anonymous fallback.
pub fn auth_attempt_notice(login: &TwitchLogin) -> (r: TerminalAction)
    ensures
        r@ == TerminalActionModel::PrintDebug(
            match login@ {
                TwitchLoginModel::Auth { username, .. } => "[client] Attempting to auth as \""@
                    + username + "\"..."@,
                TwitchLoginModel::Anonymous =>
                "[client] Login info not specified -- will auth as anonymous user"@,
            },
        ),
{
    match login {
        TwitchLogin::Auth { username, .. } => {
            let mut text = String::from_str("[client] Attempting to auth as \"");
            text.append(username.as_str());
            text.append("\"...");
            proof {
                assert(text@ =~= "[client] Attempting to auth as \""@ + login@->Auth_username
                    + "\"..."@);
            }
            TerminalAction::PrintDebug(text)
        },
        TwitchLogin::Anonymous => TerminalAction::PrintDebug(
            String::from_str("[client] Login info not specified -- will auth as anonymous user"),
        ),
    }
}

/// The display notice announcing the successful login and the coming
/// channel join.
pub fn auth_success_notice(channel: &str) -> (r: TerminalAction)
    ensures
        r@ == TerminalActionModel::PrintDebug(
            "[client] Auth successful! Connecting to channel #"@ + channel@ + "..."@,
        ),
{
    let mut text = String::from_str("[client] Auth successful! Connecting to channel #");
    text.append(channel);
    text.append("...");
    proof {
        assert(text@ =~= "[client] Auth successful! Connecting to channel #"@ + channel@
            + "..."@);
    }
    TerminalAction::PrintDebug(text)
}

} // verus!
