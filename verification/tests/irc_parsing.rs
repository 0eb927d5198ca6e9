use tuisen::irc::RawIrcMessage;
use tuisen::irc::RawIrcParseError;
use tuisen::irc::StringifyNotImplementedError;
use tuisen::irc::TwitchIrcCommand;
use tuisen::irc::TwitchIrcMessage;
use tuisen::irc::TwitchIrcParseError;
use tuisen::irc::stringify_message;

fn parse_full(line: &str) -> Result<TwitchIrcMessage, TwitchIrcParseError> {
    let raw = RawIrcMessage::try_from(line).expect("raw parse should succeed");
    TwitchIrcMessage::try_from(raw)
}

#[test]
fn splits_tags_origin_command_params() {
    let m = RawIrcMessage::try_from("@badge=1 :tmi.twitch.tv CLEARCHAT #chan user").unwrap();
    assert_eq!(m.raw_tags, Some("badge=1".to_string()));
    assert_eq!(m.raw_origin, Some("tmi.twitch.tv".to_string()));
    assert_eq!(m.raw_command, "CLEARCHAT".to_string());
    assert_eq!(m.params, vec!["#chan".to_string(), "user".to_string()]);
}

#[test]
fn trailing_param_keeps_spaces() {
    let m = RawIrcMessage::try_from("PRIVMSG #chan :hello  spaced world").unwrap();
    assert_eq!(m.params, vec!["#chan".to_string(), "hello  spaced world".to_string()]);
}

#[test]
fn double_space_stops_param_collection() {
    let m = RawIrcMessage::try_from("CMD a  b").unwrap();
    assert_eq!(m.params, vec!["a".to_string()]);
}

#[test]
fn empty_line_is_bad_spaces() {
    assert_eq!(RawIrcMessage::try_from("").unwrap_err(), RawIrcParseError::BadSpaces);
}

#[test]
fn tags_alone_are_bad_spaces() {
    assert_eq!(RawIrcMessage::try_from("@tag").unwrap_err(), RawIrcParseError::BadSpaces);
}

#[test]
fn command_without_params_is_no_params() {
    assert_eq!(RawIrcMessage::try_from("PRIVMSG").unwrap_err(), RawIrcParseError::NoParams);
}

#[test]
fn origin_without_command_is_bad_spaces() {
    assert_eq!(
        RawIrcMessage::try_from(":tmi.twitch.tv").unwrap_err(),
        RawIrcParseError::BadSpaces
    );
}

#[test]
fn wellformed_privmsg_parses() {
    let m = parse_full(":nick!nick@nick.tmi.twitch.tv PRIVMSG #chan :text with spaces").unwrap();
    assert_eq!(
        m.command,
        TwitchIrcCommand::Privmsg {
            channel: "chan".to_string(),
            sender: "nick".to_string(),
            content: "text with spaces".to_string(),
        }
    );
}

#[test]
fn mismatched_origin_parts_are_rejected() {
    let e = parse_full(":nick!alice@bob.tmi.twitch.tv PRIVMSG #chan :hi").unwrap_err();
    assert_eq!(e, TwitchIrcParseError::MismatchedSenderInOrigin);
}

#[test]
fn origin_without_host_suffix_is_bad_origin() {
    let e = parse_full(":server 001 nick :Welcome").unwrap_err();
    assert_eq!(e, TwitchIrcParseError::BadOrigin);
}

#[test]
fn partial_origin_components_are_bad_sender() {
    let e = parse_full(":nick!user.tmi.twitch.tv PRIVMSG #chan :hi").unwrap_err();
    assert_eq!(e, TwitchIrcParseError::BadSenderInOrigin);
}

#[test]
fn bare_hostname_prefix_is_the_sender() {
    let m = parse_full(":somebody.tmi.twitch.tv PRIVMSG #chan :hi").unwrap();
    assert_eq!(
        m.command,
        TwitchIrcCommand::Privmsg {
            channel: "chan".to_string(),
            sender: "somebody".to_string(),
            content: "hi".to_string(),
        }
    );
}

#[test]
fn privmsg_without_origin_misses_sender() {
    let e = parse_full("PRIVMSG #chan :hi").unwrap_err();
    assert_eq!(e, TwitchIrcParseError::MissingSender);
}

#[test]
fn privmsg_with_one_param_is_bad_params() {
    let e = parse_full(":nick!nick@nick.tmi.twitch.tv PRIVMSG #chan").unwrap_err();
    assert_eq!(e, TwitchIrcParseError::BadParams);
}

#[test]
fn privmsg_channel_needs_hash() {
    let e = parse_full(":nick!nick@nick.tmi.twitch.tv PRIVMSG chan :hi").unwrap_err();
    assert_eq!(e, TwitchIrcParseError::BadParams);
}

#[test]
fn ping_parses_content() {
    let m = parse_full("PING :tmi.twitch.tv").unwrap();
    assert_eq!(m.command, TwitchIrcCommand::Ping { content: "tmi.twitch.tv".to_string() });
}

#[test]
fn pong_parses_content() {
    let m = parse_full("PONG :tmi.twitch.tv").unwrap();
    assert_eq!(m.command, TwitchIrcCommand::Pong { content: "tmi.twitch.tv".to_string() });
}

#[test]
fn ping_with_two_params_is_bad_params() {
    let e = parse_full("PING a b").unwrap_err();
    assert_eq!(e, TwitchIrcParseError::BadParams);
}

#[test]
fn join_parses_joiner_and_channel() {
    let m = parse_full(":nick!nick@nick.tmi.twitch.tv JOIN #chan").unwrap();
    assert_eq!(
        m.command,
        TwitchIrcCommand::Join { joiner: "nick".to_string(), channel: "chan".to_string() }
    );
}

#[test]
fn join_with_empty_channel_is_bad_params() {
    let e = parse_full(":nick!nick@nick.tmi.twitch.tv JOIN #").unwrap_err();
    assert_eq!(e, TwitchIrcParseError::BadParams);
}

#[test]
fn join_without_sender_misses_sender() {
    let e = parse_full("JOIN #chan").unwrap_err();
    assert_eq!(e, TwitchIrcParseError::MissingSender);
}

#[test]
fn numeric_with_leading_zeros_parses() {
    let m = parse_full(":tmi.twitch.tv 001 nick :Welcome").unwrap();
    assert_eq!(
        m.command,
        TwitchIrcCommand::Numeric {
            command: 1,
            params: vec!["nick".to_string(), "Welcome".to_string()],
        }
    );
}

#[test]
fn numeric_overflow_is_bad_command() {
    let e = parse_full(":tmi.twitch.tv 65536 nick").unwrap_err();
    assert_eq!(e, TwitchIrcParseError::BadCommand);
}

#[test]
fn unknown_word_is_bad_command() {
    let e = parse_full("WHISPER target :psst").unwrap_err();
    assert_eq!(e, TwitchIrcParseError::BadCommand);
}

#[test]
fn reparsing_a_line_yields_identical_events() {
    let line = ":nick!nick@nick.tmi.twitch.tv PRIVMSG #chan :once more";
    let first = parse_full(line).unwrap();
    let second = parse_full(line).unwrap();
    assert_eq!(first, second);
}

#[test]
fn stringify_formats_privmsg() {
    let m = parse_full(":nick!nick@nick.tmi.twitch.tv PRIVMSG #chan :hello there").unwrap();
    assert_eq!(stringify_message(&m).unwrap(), "[#chan] nick: hello there".to_string());
}

#[test]
fn stringify_formats_ping() {
    let m = parse_full("PING :tmi.twitch.tv").unwrap();
    assert_eq!(stringify_message(&m).unwrap(), "[ping tmi.twitch.tv]".to_string());
}

#[test]
fn stringify_rejects_other_messages() {
    let m = parse_full(":tmi.twitch.tv 372 nick :motd").unwrap();
    assert_eq!(stringify_message(&m).unwrap_err(), StringifyNotImplementedError);
}
