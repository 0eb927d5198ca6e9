use tuisen::actions::TerminalAction;
use tuisen::actions::TwitchAction;
use tuisen::client::ConnectionState;
use tuisen::client::RawStreamAction;
use tuisen::client::TwitchLoginResult;
use tuisen::client::advance_authentication;
use tuisen::client::classify_login_wait;
use tuisen::client::credential_lines;
use tuisen::client::join_line;
use tuisen::client::pong_line;
use tuisen::client::privmsg_line;
use tuisen::client::process_inbound_line;
use tuisen::client::process_outbound_action;
use tuisen::client::process_stream_action;
use tuisen::config::BotMode;
use tuisen::config::TwitchLogin;

#[test]
fn ping_is_shown_and_answered() {
    let outcome = process_inbound_line("PING :tmi.twitch.tv", &BotMode::Off);
    assert_eq!(outcome.displays, vec![TerminalAction::PrintPing("tmi.twitch.tv".to_string())]);
    assert_eq!(outcome.writes, vec!["PONG :tmi.twitch.tv\r\n".to_string()]);
}

#[test]
fn privmsg_is_shown() {
    let outcome = process_inbound_line(
        ":nick!nick@nick.tmi.twitch.tv PRIVMSG #chan :hello",
        &BotMode::Off,
    );
    assert_eq!(
        outcome.displays,
        vec![TerminalAction::PrintPrivmsg {
            channel: "chan".to_string(),
            username: "nick".to_string(),
            message: "hello".to_string(),
        }]
    );
    assert_eq!(outcome.writes, Vec::<String>::new());
}

#[test]
fn join_is_noted() {
    let outcome = process_inbound_line(":nick!nick@nick.tmi.twitch.tv JOIN #chan", &BotMode::Off);
    assert_eq!(
        outcome.displays,
        vec![TerminalAction::PrintDebug("[client] nick joined #chan.".to_string())]
    );
    assert_eq!(outcome.writes, Vec::<String>::new());
}

#[test]
fn ignored_numeric_codes_produce_nothing() {
    for code in ["002", "003", "004", "353", "366", "375", "372", "376"] {
        let line = format!(":tmi.twitch.tv {} nick :x", code);
        let outcome = process_inbound_line(&line, &BotMode::Off);
        assert_eq!(outcome.displays, Vec::<TerminalAction>::new(), "code {}", code);
        assert_eq!(outcome.writes, Vec::<String>::new(), "code {}", code);
    }
}

#[test]
fn other_numeric_codes_are_shown_raw() {
    let line = ":tmi.twitch.tv 421 nick WHISPER :Unknown command";
    let outcome = process_inbound_line(line, &BotMode::Off);
    assert_eq!(
        outcome.displays,
        vec![TerminalAction::PrintDebug(format!("[raw] {}", line))]
    );
}

#[test]
fn unhandled_kinds_are_shown_raw() {
    let line = "PONG :tmi.twitch.tv";
    let outcome = process_inbound_line(line, &BotMode::Off);
    assert_eq!(
        outcome.displays,
        vec![TerminalAction::PrintDebug(format!("[raw] {}", line))]
    );
}

#[test]
fn frame_errors_are_reported_and_recovered() {
    let outcome = process_inbound_line("PRIVMSG", &BotMode::Off);
    assert_eq!(
        outcome.displays,
        vec![TerminalAction::PrintDebug(
            "[error] Encountered NoParams while parsing this message: \"PRIVMSG\"".to_string()
        )]
    );
    assert_eq!(outcome.writes, Vec::<String>::new());
}

#[test]
fn semantic_errors_are_reported_and_recovered() {
    let line = ":nick!alice@bob.tmi.twitch.tv PRIVMSG #chan :hi";
    let outcome = process_inbound_line(line, &BotMode::Off);
    assert_eq!(
        outcome.displays,
        vec![TerminalAction::PrintDebug(format!(
            "[error] Encountered MismatchedSenderInOrigin while parsing this message: \"{}\"",
            line
        ))]
    );
}

#[test]
fn bot_echo_replies_once() {
    let prefix = BotMode::WithPrefix("!".to_string());
    let outcome = process_inbound_line(
        ":nick!nick@nick.tmi.twitch.tv PRIVMSG #chan :!echo hi",
        &prefix,
    );
    assert_eq!(outcome.writes, vec!["PRIVMSG #chan :SingsMic hi\r\n".to_string()]);
    assert_eq!(outcome.displays.len(), 1);
}

#[test]
fn bot_ignores_unknown_commands() {
    let prefix = BotMode::WithPrefix("!".to_string());
    let outcome = process_inbound_line(
        ":nick!nick@nick.tmi.twitch.tv PRIVMSG #chan :!unknown",
        &prefix,
    );
    assert_eq!(outcome.writes, Vec::<String>::new());
    assert_eq!(outcome.displays.len(), 1);
}

#[test]
fn bot_answers_ping_prefix() {
    let prefix = BotMode::WithPrefix("!".to_string());
    let outcome = process_inbound_line(
        ":nick!nick@nick.tmi.twitch.tv PRIVMSG #chan :!pingpong",
        &prefix,
    );
    assert_eq!(outcome.writes, vec!["PRIVMSG #chan :pong FutureMan\r\n".to_string()]);
}

#[test]
fn bot_answers_exact_raid() {
    let prefix = BotMode::WithPrefix("!".to_string());
    let outcome = process_inbound_line(
        ":nick!nick@nick.tmi.twitch.tv PRIVMSG #chan :!raid",
        &prefix,
    );
    assert_eq!(outcome.writes, vec!["PRIVMSG #chan :+join\r\n".to_string()]);
}

#[test]
fn bot_raid_must_match_exactly() {
    let prefix = BotMode::WithPrefix("!".to_string());
    let outcome = process_inbound_line(
        ":nick!nick@nick.tmi.twitch.tv PRIVMSG #chan :!raid now",
        &prefix,
    );
    assert_eq!(outcome.writes, Vec::<String>::new());
}

#[test]
fn bot_stays_off_without_prefix() {
    let outcome = process_inbound_line(
        ":nick!nick@nick.tmi.twitch.tv PRIVMSG #chan :!echo hi",
        &BotMode::Off,
    );
    assert_eq!(outcome.writes, Vec::<String>::new());
}

#[test]
fn end_of_stream_closes_with_notice() {
    let (closed, outcome) = process_stream_action(RawStreamAction::EndOfStream, &BotMode::Off);
    assert!(closed);
    assert_eq!(
        outcome.displays,
        vec![TerminalAction::PrintDebug("[client] Connection closed.".to_string())]
    );
}

#[test]
fn received_line_keeps_stream_open() {
    let (closed, outcome) = process_stream_action(
        RawStreamAction::Receive("PING :x".to_string()),
        &BotMode::Off,
    );
    assert!(!closed);
    assert_eq!(outcome.writes, vec!["PONG :x\r\n".to_string()]);
}

#[test]
fn welcome_numeric_is_login_success() {
    let outcome = Some(RawStreamAction::Receive(
        ":tmi.twitch.tv 001 nick :Welcome, GLHF!".to_string(),
    ));
    assert_eq!(classify_login_wait(outcome), TwitchLoginResult::Success);
}

#[test]
fn other_numeric_is_login_fail() {
    let outcome = Some(RawStreamAction::Receive(":tmi.twitch.tv 372 nick :motd".to_string()));
    assert_eq!(classify_login_wait(outcome), TwitchLoginResult::Fail);
}

#[test]
fn unparsable_line_is_login_fail() {
    let outcome = Some(RawStreamAction::Receive("".to_string()));
    assert_eq!(classify_login_wait(outcome), TwitchLoginResult::Fail);
}

#[test]
fn end_of_stream_is_login_fail() {
    assert_eq!(classify_login_wait(Some(RawStreamAction::EndOfStream)), TwitchLoginResult::Fail);
}

#[test]
fn no_line_within_timeout_is_login_timeout() {
    assert_eq!(classify_login_wait(None), TwitchLoginResult::Timeout);
}

#[test]
fn login_success_moves_to_joining() {
    let (state, notice) = advance_authentication(0, TwitchLoginResult::Success);
    assert_eq!(state, ConnectionState::Joining);
    assert_eq!(notice, None);
}

#[test]
fn login_timeout_counts_attempt_and_retries() {
    let (state, notice) = advance_authentication(0, TwitchLoginResult::Timeout);
    assert_eq!(state, ConnectionState::Authenticating { attempts: 1 });
    assert_eq!(
        notice,
        Some(TerminalAction::PrintDebug("Auth timed out. Retrying in 10 seconds...".to_string()))
    );
}

#[test]
fn login_fail_counts_attempt_and_retries() {
    let (state, notice) = advance_authentication(3, TwitchLoginResult::Fail);
    assert_eq!(state, ConnectionState::Authenticating { attempts: 4 });
    assert_eq!(
        notice,
        Some(TerminalAction::PrintDebug("Auth failed. Retrying in 10 seconds...".to_string()))
    );
}

#[test]
fn configured_credentials_build_the_login_lines() {
    let login = TwitchLogin::Auth {
        username: "alice".to_string(),
        token: "SECRET-REDACTED".to_string(),
    };
    let (pass, nick) = credential_lines(&login);
    assert_eq!(pass, "PASS oauth:SECRET-REDACTED\r\n".to_string());
    assert_eq!(nick, "NICK alice\r\n".to_string());
}

#[test]
fn anonymous_login_uses_the_placeholders() {
    let (pass, nick) = credential_lines(&TwitchLogin::Anonymous);
    assert_eq!(pass, "PASS forsenCD\r\n".to_string());
    assert_eq!(nick, "NICK justinfan1337\r\n".to_string());
}

#[test]
fn wire_lines_are_exact() {
    assert_eq!(join_line("chan"), "JOIN #chan\r\n".to_string());
    assert_eq!(pong_line("abc"), "PONG :abc\r\n".to_string());
    assert_eq!(privmsg_line("chan", "hi there"), "PRIVMSG #chan :hi there\r\n".to_string());
}

#[test]
fn authenticated_send_writes_and_echoes() {
    let login = TwitchLogin::Auth {
        username: "alice".to_string(),
        token: "SECRET-REDACTED".to_string(),
    };
    let outcome = process_outbound_action(
        TwitchAction::SendPrivmsg { message: "hi all".to_string() },
        &login,
        "chan",
    );
    assert_eq!(outcome.writes, vec!["PRIVMSG #chan :hi all\r\n".to_string()]);
    assert_eq!(
        outcome.displays,
        vec![TerminalAction::PrintPrivmsg {
            channel: "chan".to_string(),
            username: "alice".to_string(),
            message: "hi all".to_string(),
        }]
    );
}

#[test]
fn anonymous_send_is_dropped() {
    let outcome = process_outbound_action(
        TwitchAction::SendPrivmsg { message: "hi".to_string() },
        &TwitchLogin::Anonymous,
        "chan",
    );
    assert_eq!(outcome.writes, Vec::<String>::new());
    assert_eq!(outcome.displays, Vec::<TerminalAction>::new());
}

#[test]
fn connect_request_is_a_no_op() {
    let login = TwitchLogin::Auth {
        username: "alice".to_string(),
        token: "SECRET-REDACTED".to_string(),
    };
    let outcome = process_outbound_action(TwitchAction::Connect, &login, "chan");
    assert_eq!(outcome.writes, Vec::<String>::new());
    assert_eq!(outcome.displays, Vec::<TerminalAction>::new());
}
