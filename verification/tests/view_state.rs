use std::sync::mpsc;

use tuisen::actions::TerminalAction;
use tuisen::actions::TwitchAction;
use tuisen::app::App;
use tuisen::app::ChatItem;
use tuisen::app::InputMode;
use tuisen::app::KeyInput;
use tuisen::app::ScrollState;

fn fresh_app(width: u16, height: u16) -> (App, mpsc::Sender<TerminalAction>, mpsc::Receiver<TwitchAction>) {
    let (terminal_tx, terminal_rx) = mpsc::channel::<TerminalAction>();
    let (twitch_tx, twitch_rx) = mpsc::channel::<TwitchAction>();
    // init subtracts the chrome: 2 columns and 5 rows
    let app = App::init(width + 2, height + 5, terminal_rx, twitch_tx);
    (app, terminal_tx, twitch_rx)
}

#[test]
fn init_starts_empty_at_the_bottom() {
    let (app, _tx, _rx) = fresh_app(20, 4);
    assert_eq!(app.chat_width, 20);
    assert_eq!(app.chat_height, 4);
    assert!(app.chat_items.is_empty());
    assert!(app.chat_lines.is_empty());
    assert_eq!(app.scroll_state, ScrollState::Bottom);
    assert!(!app.scroll_active);
    assert_eq!(app.input_field, "".to_string());
    assert_eq!(app.input_mode, InputMode::Normal);
}

#[test]
fn init_saturates_tiny_terminals() {
    let (terminal_tx, terminal_rx) = mpsc::channel::<TerminalAction>();
    let (twitch_tx, _twitch_rx) = mpsc::channel::<TwitchAction>();
    drop(terminal_tx);
    let app = App::init(1, 3, terminal_rx, twitch_tx);
    assert_eq!(app.chat_width, 0);
    assert_eq!(app.chat_height, 0);
}

#[test]
fn wrapped_lines_follow_the_width() {
    let item = ChatItem::Debug { content: "Foo   bar baz".to_string() };
    assert_eq!(item.wrapped_lines(10), vec!["Foo   bar".to_string(), "baz".to_string()]);
    assert_eq!(item.wrapped_lines(20), vec!["Foo   bar baz".to_string()]);
}

#[test]
fn wrapped_lines_format_each_kind() {
    let p = ChatItem::Privmsg {
        channel: "chan".to_string(),
        username: "nick".to_string(),
        message: "hi".to_string(),
    };
    assert_eq!(p.wrapped_lines(40), vec!["[#chan] nick: hi".to_string()]);
    let g = ChatItem::Ping { content: "x".to_string() };
    assert_eq!(g.wrapped_lines(40), vec!["[ping x]".to_string()]);
}

#[test]
fn push_to_chat_appends_wrapped_lines() {
    let (mut app, _tx, _rx) = fresh_app(10, 4);
    app.push_to_chat(ChatItem::Debug { content: "Foo   bar baz".to_string() });
    assert_eq!(app.chat_lines, vec!["Foo   bar".to_string(), "baz".to_string()]);
    assert_eq!(app.chat_items.len(), 1);
    assert_eq!(app.scroll_state, ScrollState::Bottom);
}

#[test]
fn scroll_offset_follows_new_lines() {
    let (mut app, _tx, _rx) = fresh_app(20, 2);
    for i in 0..6 {
        app.push_to_chat(ChatItem::Debug { content: format!("line {}", i) });
    }
    app.refresh_scroll_activation();
    assert!(app.scroll_active);
    assert_eq!(app.get_scroll_offset_limit(), 4);
    app.handle_key(KeyInput::Up);
    assert_eq!(app.scroll_state, ScrollState::Offset(1));
    app.push_to_chat(ChatItem::Debug { content: "one more".to_string() });
    assert_eq!(app.scroll_state, ScrollState::Offset(2));
}

#[test]
fn scroll_steps_walk_between_the_ends() {
    let (mut app, _tx, _rx) = fresh_app(20, 2);
    for i in 0..5 {
        app.push_to_chat(ChatItem::Debug { content: format!("line {}", i) });
    }
    app.refresh_scroll_activation();
    assert_eq!(app.get_scroll_offset_limit(), 3);
    app.handle_key(KeyInput::Up);
    assert_eq!(app.scroll_state, ScrollState::Offset(1));
    app.handle_key(KeyInput::Up);
    assert_eq!(app.scroll_state, ScrollState::Offset(2));
    app.handle_key(KeyInput::Up);
    assert_eq!(app.scroll_state, ScrollState::Top);
    app.handle_key(KeyInput::Down);
    assert_eq!(app.scroll_state, ScrollState::Offset(2));
    app.handle_key(KeyInput::Down);
    assert_eq!(app.scroll_state, ScrollState::Offset(1));
    app.handle_key(KeyInput::Down);
    assert_eq!(app.scroll_state, ScrollState::Bottom);
    app.handle_key(KeyInput::Home);
    assert_eq!(app.scroll_state, ScrollState::Top);
    app.handle_key(KeyInput::End);
    assert_eq!(app.scroll_state, ScrollState::Bottom);
}

#[test]
fn growing_the_view_resets_scroll_when_everything_fits() {
    let (mut app, _tx, _rx) = fresh_app(20, 2);
    for i in 0..4 {
        app.push_to_chat(ChatItem::Debug { content: format!("line {}", i) });
    }
    app.refresh_scroll_activation();
    app.handle_key(KeyInput::Up);
    assert_eq!(app.scroll_state, ScrollState::Offset(1));
    app.refresh_chat_size(20, 10);
    assert_eq!(app.scroll_state, ScrollState::Bottom);
    assert!(!app.scroll_active);
}

#[test]
fn shrinking_the_view_keeps_the_top_line() {
    let (mut app, _tx, _rx) = fresh_app(20, 4);
    for i in 0..10 {
        app.push_to_chat(ChatItem::Debug { content: format!("line {}", i) });
    }
    app.refresh_scroll_activation();
    app.handle_key(KeyInput::Up);
    app.handle_key(KeyInput::Up);
    assert_eq!(app.scroll_state, ScrollState::Offset(2));
    // two rows fewer: the offset grows by two, keeping the top line fixed
    app.refresh_chat_size(20, 2);
    assert_eq!(app.scroll_state, ScrollState::Offset(4));
}

#[test]
fn changing_width_rewraps_all_items() {
    let (mut app, _tx, _rx) = fresh_app(20, 4);
    app.push_to_chat(ChatItem::Debug { content: "Foo   bar baz".to_string() });
    assert_eq!(app.chat_lines, vec!["Foo   bar baz".to_string()]);
    app.refresh_chat_size(10, 4);
    assert_eq!(app.chat_lines, vec!["Foo   bar".to_string(), "baz".to_string()]);
    assert_eq!(app.chat_width, 10);
}

#[test]
fn visible_lines_window_follows_the_scroll() {
    let (mut app, _tx, _rx) = fresh_app(20, 2);
    for i in 0..5 {
        app.push_to_chat(ChatItem::Debug { content: format!("line {}", i) });
    }
    app.refresh_scroll_activation();
    assert_eq!(app.visible_lines(), vec!["line 3".to_string(), "line 4".to_string()]);
    app.handle_key(KeyInput::Up);
    assert_eq!(app.visible_lines(), vec!["line 2".to_string(), "line 3".to_string()]);
    app.handle_key(KeyInput::Home);
    assert_eq!(app.visible_lines(), vec!["line 0".to_string(), "line 1".to_string()]);
}

#[test]
fn visible_lines_show_everything_when_short() {
    let (mut app, _tx, _rx) = fresh_app(20, 5);
    app.push_to_chat(ChatItem::Debug { content: "only".to_string() });
    assert_eq!(app.visible_lines(), vec!["only".to_string()]);
}

#[test]
fn try_recv_shows_a_waiting_event() {
    let (mut app, tx, _rx) = fresh_app(30, 4);
    tx.send(TerminalAction::PrintPrivmsg {
        channel: "chan".to_string(),
        username: "nick".to_string(),
        message: "hi".to_string(),
    })
    .unwrap();
    app.try_recv_terminal_action();
    assert_eq!(
        app.chat_items,
        vec![ChatItem::Privmsg {
            channel: "chan".to_string(),
            username: "nick".to_string(),
            message: "hi".to_string(),
        }]
    );
    assert_eq!(app.chat_lines, vec!["[#chan] nick: hi".to_string()]);
}

#[test]
fn try_recv_without_event_changes_nothing() {
    let (mut app, _tx, _rx) = fresh_app(30, 4);
    app.try_recv_terminal_action();
    assert!(app.chat_items.is_empty());
}

#[test]
fn keys_edit_the_input_field() {
    let (mut app, _tx, rx) = fresh_app(30, 4);
    assert!(!app.handle_key(KeyInput::Char('i')));
    assert_eq!(app.input_mode, InputMode::Insert);
    for c in "  hi all ".chars() {
        app.handle_key(KeyInput::Char(c));
    }
    app.handle_key(KeyInput::Backspace { alt: false });
    assert_eq!(app.input_field, "  hi all".to_string());
    app.handle_key(KeyInput::Enter);
    assert_eq!(app.input_field, "".to_string());
    assert_eq!(rx.try_recv().unwrap(), TwitchAction::SendPrivmsg { message: "hi all".to_string() });
}

#[test]
fn enter_keeps_blank_input_and_sends_nothing() {
    let (mut app, _tx, rx) = fresh_app(30, 4);
    app.handle_key(KeyInput::Char('i'));
    app.handle_key(KeyInput::Char(' '));
    app.handle_key(KeyInput::Enter);
    assert_eq!(app.input_field, " ".to_string());
    assert!(rx.try_recv().is_err());
}

#[test]
fn alt_backspace_deletes_the_last_word() {
    let (mut app, _tx, _rx) = fresh_app(30, 4);
    app.handle_key(KeyInput::Char('i'));
    for c in "one two three  ".chars() {
        app.handle_key(KeyInput::Char(c));
    }
    app.handle_key(KeyInput::Backspace { alt: true });
    assert_eq!(app.input_field, "one two ".to_string());
    app.handle_key(KeyInput::Backspace { alt: true });
    assert_eq!(app.input_field, "one ".to_string());
    app.handle_key(KeyInput::Backspace { alt: true });
    assert_eq!(app.input_field, "".to_string());
}

#[test]
fn quit_key_works_only_in_normal_mode() {
    let (mut app, _tx, _rx) = fresh_app(30, 4);
    assert!(app.handle_key(KeyInput::Char('q')));
    app.handle_key(KeyInput::Char('i'));
    assert!(!app.handle_key(KeyInput::Char('q')));
    assert_eq!(app.input_field, "q".to_string());
    app.handle_key(KeyInput::Esc);
    assert_eq!(app.input_mode, InputMode::Normal);
    assert!(app.handle_key(KeyInput::Char('q')));
}

#[test]
fn mode_titles_are_exact() {
    assert_eq!(InputMode::Normal.title_string(), "[ normal ]".to_string());
    assert_eq!(InputMode::Insert.title_string(), "[ insert ]".to_string());
}
