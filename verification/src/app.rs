//! The chat view state: items shown, their wrapped lines, the scroll
//! position, and the input field. Line wrapping is done by the `textwrap`
//! crate behind a trusted declaration; every state change around it is
//! verified, under the well-formedness invariant `wf` that keeps the
//! scroll offset inside the scrollable range.

use vstd::prelude::*;
use vstd::string::StrSliceExecFns;
use vstd::string::StringExecFns;
use std::sync::mpsc::Receiver;
use std::sync::mpsc::Sender;
use crate::actions::TerminalAction;
use crate::actions::TerminalActionModel;
use crate::actions::TwitchAction;
use crate::channel::send_twitch_action;
use crate::channel::try_recv_terminal;
use crate::irc::ping_text;
use crate::irc::privmsg_text;
use crate::text::push_char;
use crate::text::spec_trim;
use crate::text::spec_word_deleted;
use crate::text::substring_owned;
use crate::text::trim_owned;
use crate::text::word_deleted;

verus! {

/// Input longer than this is flagged in the input area's character count.
pub const INSERT_LEN_WARN: usize = 500;

/// Where the view is scrolled to: pinned to the newest lines, a fixed
/// number of lines above that, or pinned to the oldest lines.
#[derive(Debug, Clone, Copy, PartialEq, Eq, Structural)]
pub enum ScrollState {
    Bottom,
    Offset(usize),
    Top,
}

/// Whether keys navigate or edit the input field.
#[derive(Debug, Clone, Copy, PartialEq, Eq, Structural)]
pub enum InputMode {
    Normal,
    Insert,
}

impl InputMode {
    /// The title shown over the input area.
    pub fn title_string(&self) -> (r: String)
        ensures
            r@ == match self {
                InputMode::Normal => "[ normal ]"@,
                InputMode::Insert => "[ insert ]"@,
            },
    {
        match self {
            InputMode::Normal => String::from_str("[ normal ]"),
            InputMode::Insert => String::from_str("[ insert ]"),
        }
    }
}

/// One entry of the chat view.
#[derive(Debug, Clone, PartialEq, Eq)]
pub enum ChatItem {
    Privmsg { channel: String, username: String, message: String },
    Debug { content: String },
    Ping { content: String },
}

/// Spec-level twin of `ChatItem`.
pub enum ChatItemModel {
    Privmsg { channel: Seq<char>, username: Seq<char>, message: Seq<char> },
    Debug { content: Seq<char> },
    Ping { content: Seq<char> },
}

impl View for ChatItem {
    type V = ChatItemModel;

    open spec fn view(&self) -> ChatItemModel {
        match self {
            ChatItem::Privmsg { channel, username, message } => ChatItemModel::Privmsg {
                channel: channel@,
                username: username@,
                message: message@,
            },
            ChatItem::Debug { content } => ChatItemModel::Debug { content: content@ },
            ChatItem::Ping { content } => ChatItemModel::Ping { content: content@ },
        }
    }
}

impl DeepView for ChatItem {
    type V = ChatItemModel;

    open spec fn deep_view(&self) -> ChatItemModel {
        self.view()
    }
}

/// The lines `textwrap::wrap` breaks a text into at a given width.
pub uninterp spec fn wrapped_of(s: Seq<char>, width: nat) -> Seq<Seq<char>>;

/// Relies on `textwrap::wrap`: breaks text into lines of at most `width`
/// display columns, preferring word boundaries; the lines are a function
/// of the text and the width alone.
#[verifier::external_body]
fn wrap_text(s: &str, width: usize) -> (r: Vec<String>)
    ensures
        r.deep_view() == wrapped_of(s@, width as nat),
{
    textwrap::wrap(s, width).into_iter().map(|cow| cow.to_string()).collect()
}

/// The one-line display text of a chat item, before wrapping.
pub open spec fn chat_item_text(item: ChatItemModel) -> Seq<char> {
    match item {
        ChatItemModel::Debug { content } => content,
        ChatItemModel::Ping { content } => ping_text(content),
        ChatItemModel::Privmsg { channel, username, message } => privmsg_text(
            channel,
            username,
            message,
        ),
    }
}

impl ChatItem {
    /// The display lines of this item at the given width: its display
    /// text, wrapped.
    pub fn wrapped_lines(&self, width: usize) -> (r: Vec<String>)
        ensures
            r.deep_view() == wrapped_of(chat_item_text(self@), width as nat),
    {
        let unwrapped: String = match self {
            ChatItem::Debug { content } => content.clone(),
            ChatItem::Ping { content } => {
                let mut text = String::from_str("[ping ");
                text.append(content.as_str());
                text.append("]");
                proof {
                    assert(text@ =~= ping_text(content@));
                }
                text
            },
            ChatItem::Privmsg { channel, username, message } => {
                let mut text = String::from_str("[#");
                text.append(channel.as_str());
                text.append("] ");
                text.append(username.as_str());
                text.append(": ");
                text.append(message.as_str());
                proof {
                    assert(text@ =~= privmsg_text(channel@, username@, message@));
                }
                text
            },
        };
        wrap_text(unwrapped.as_str(), width)
    }
}

/// The whole view state, between the display-event channel it drains and
/// the request channel it feeds.
pub struct App {
    pub terminal_action_rx: Receiver<TerminalAction>,
    pub twitch_action_tx: Sender<TwitchAction>,
    pub chat_items: Vec<ChatItem>,
    pub chat_lines: Vec<String>,
    pub scroll_state: ScrollState,
    pub scroll_active: bool,
    pub input_field: String,
    pub input_mode: InputMode,
    pub chat_width: u16,
    pub chat_height: u16,
}

impl App {
    /// How far the view can be scrolled up: the lines that do not fit.
    pub open spec fn spec_offset_limit(&self) -> int {
        if self.chat_lines@.len() > self.chat_height as int {
            self.chat_lines@.len() - self.chat_height as int
        } else {
            0
        }
    }

    /// Well-formedness: scrolling is active only while lines overflow the
    /// view, and a scroll offset lies strictly between the ends.
    pub open spec fn wf(&self) -> bool {
        &&& (self.scroll_active ==> self.chat_lines@.len() > self.chat_height as int)
        &&& (self.scroll_state matches ScrollState::Offset(n) ==> 1 <= n
            < self.spec_offset_limit())
        &&& (self.scroll_state is Top ==> self.chat_lines@.len() > self.chat_height as int)
    }

    /// A fresh view state over the given channel endpoints, sized to the
    /// terminal minus the chrome: two columns of side borders, and five
    /// rows of borders and input area.
    pub fn init(
        init_width: u16,
        init_height: u16,
        terminal_action_rx: Receiver<TerminalAction>,
        twitch_action_tx: Sender<TwitchAction>,
    ) -> (r: App)
        ensures
            r.wf(),
            r.chat_items@.len() == 0,
            r.chat_lines@.len() == 0,
            r.scroll_state is Bottom,
            !r.scroll_active,
            r.input_field@.len() == 0,
            r.input_mode is Normal,
            r.chat_width as int == if init_width >= 2 { init_width - 2 } else { 0int },
            r.chat_height as int == if init_height >= 5 { init_height - 5 } else { 0int },
    {
        App {
            terminal_action_rx,
            twitch_action_tx,
            chat_items: Vec::new(),
            chat_lines: Vec::new(),
            scroll_state: ScrollState::Bottom,
            scroll_active: false,
            input_field: String::new(),
            input_mode: InputMode::Normal,
            chat_width: init_width.saturating_sub(2),
            chat_height: init_height.saturating_sub(5),
        }
    }

    /// How far the view can be scrolled up.
    pub fn get_scroll_offset_limit(&self) -> (r: usize)
        ensures
            r == self.spec_offset_limit(),
    {
        self.chat_lines.len().saturating_sub(self.chat_height as usize)
    }
}

/// The scroll state after lines are appended: an offset away from the
/// bottom grows with the lines, so the visible window keeps its place.
pub open spec fn pushed_scroll_state(st: ScrollState, added: nat) -> ScrollState {
    match st {
        ScrollState::Offset(n) => if n > 0 {
            ScrollState::Offset((n + added) as usize)
        } else {
            st
        },
        _ => st,
    }
}

/// How pushing one item changes the view state: the item is appended, its
/// wrapped lines are appended, the scroll offset keeps its place, and
/// everything else stays.
pub open spec fn push_relation(pre: App, post: App, item: ChatItemModel) -> bool {
    let added = wrapped_of(chat_item_text(item), pre.chat_width as nat);
    &&& post.chat_items.deep_view() == pre.chat_items.deep_view().push(item)
    &&& post.chat_lines.deep_view() == pre.chat_lines.deep_view() + added
    &&& post.scroll_state == pushed_scroll_state(pre.scroll_state, added.len())
    &&& post.scroll_active == pre.scroll_active
    &&& post.input_field@ == pre.input_field@
    &&& post.input_mode == pre.input_mode
    &&& post.chat_width == pre.chat_width
    &&& post.chat_height == pre.chat_height
}

/// The chat item a display event is shown as.
pub open spec fn chat_item_of_action(a: TerminalActionModel) -> ChatItemModel {
    match a {
        TerminalActionModel::PrintDebug(text) => ChatItemModel::Debug { content: text },
        TerminalActionModel::PrintPrivmsg { channel, username, message } => ChatItemModel::Privmsg {
            channel,
            username,
            message,
        },
        TerminalActionModel::PrintPing(content) => ChatItemModel::Ping { content },
    }
}

/// The lines of a row of items, each wrapped at one width, in order.
pub open spec fn rewrapped_lines(items: Seq<ChatItemModel>, width: nat) -> Seq<Seq<char>>
    decreases items.len(),
{
    if items.len() == 0 {
        Seq::empty()
    } else {
        rewrapped_lines(items.drop_last(), width) + wrapped_of(chat_item_text(items.last()), width)
    }
}

/// The scroll state and activation after the lines are rebuilt: when
/// nothing overflows any more, the view resets to an inactive bottom;
/// otherwise an offset moves with the change in line count so the visible
/// window keeps its place, falling back to the bottom when it cannot.
pub open spec fn rewrap_adjusted(
    st: ScrollState,
    active: bool,
    old_len: int,
    new_len: int,
    height: u16,
) -> (ScrollState, bool) {
    if new_len <= height as int {
        (ScrollState::Bottom, false)
    } else {
        match st {
            ScrollState::Bottom => (ScrollState::Bottom, active),
            ScrollState::Top => (ScrollState::Top, active),
            ScrollState::Offset(n) => if n + new_len - old_len > 0 {
                (ScrollState::Offset((n + new_len - old_len) as usize), active)
            } else {
                (ScrollState::Bottom, active)
            },
        }
    }
}

/// The scroll state and activation after the view height changes: when
/// nothing overflows the new height, the view resets to an inactive
/// bottom; otherwise an offset moves against the height change so the
/// topmost visible line stays, falling back to the bottom when it cannot.
pub open spec fn height_adjusted(
    st: ScrollState,
    active: bool,
    lines_len: int,
    old_h: u16,
    new_h: u16,
) -> (ScrollState, bool) {
    if old_h == new_h {
        (st, active)
    } else if lines_len <= new_h as int {
        (ScrollState::Bottom, false)
    } else {
        match st {
            ScrollState::Bottom => (ScrollState::Bottom, active),
            ScrollState::Top => (ScrollState::Top, active),
            ScrollState::Offset(n) => {
                let adjusted = n - (new_h as int - old_h as int);
                if adjusted > 0 {
                    (ScrollState::Offset(adjusted as usize), active)
                } else {
                    (ScrollState::Bottom, active)
                }
            },
        }
    }
}

/// One keyboard input, as the view state reads it: the keys it reacts to,
/// and `Other` for the rest. A backspace carries whether the word-delete
/// modifier was held.
#[derive(Debug, Clone, Copy, PartialEq, Eq, Structural)]
pub enum KeyInput {
    Char(char),
    Up,
    Down,
    Home,
    End,
    Esc,
    Enter,
    Backspace { alt: bool },
    Other,
}

/// One scroll step up: the bottom moves to the first offset, an offset
/// grows by one, and the step onto the far end lands on `Top`.
pub open spec fn scroll_up_state(st: ScrollState, limit: int) -> ScrollState {
    match st {
        ScrollState::Top => ScrollState::Top,
        ScrollState::Bottom => if limit == 1 {
            ScrollState::Top
        } else {
            ScrollState::Offset(1)
        },
        ScrollState::Offset(n) => if n + 1 == limit {
            ScrollState::Top
        } else {
            ScrollState::Offset((n + 1) as usize)
        },
    }
}

/// One scroll step down: an offset shrinks by one, the step onto the near
/// end lands on `Bottom`, and the top steps to the last offset.
pub open spec fn scroll_down_state(st: ScrollState, limit: int) -> ScrollState {
    match st {
        ScrollState::Bottom => ScrollState::Bottom,
        ScrollState::Offset(n) => if n <= 1 {
            ScrollState::Bottom
        } else {
            ScrollState::Offset((n - 1) as usize)
        },
        ScrollState::Top => if limit == 1 {
            ScrollState::Bottom
        } else {
            ScrollState::Offset((limit - 1) as usize)
        },
    }
}

/// The scroll state after one key: the navigation keys move it in normal
/// mode while scrolling is active; nothing else touches it.
pub open spec fn spec_key_scroll(pre: App, key: KeyInput) -> ScrollState {
    if pre.input_mode is Normal && pre.scroll_active {
        match key {
            KeyInput::Up => scroll_up_state(pre.scroll_state, pre.spec_offset_limit()),
            KeyInput::Down => scroll_down_state(pre.scroll_state, pre.spec_offset_limit()),
            KeyInput::Home => ScrollState::Top,
            KeyInput::End => ScrollState::Bottom,
            _ => pre.scroll_state,
        }
    } else {
        pre.scroll_state
    }
}

/// The input mode after one key: `i` enters insert mode, escape leaves
/// it.
pub open spec fn spec_key_mode(pre: App, key: KeyInput) -> InputMode {
    match pre.input_mode {
        InputMode::Normal => if key == KeyInput::Char('i') {
            InputMode::Insert
        } else {
            InputMode::Normal
        },
        InputMode::Insert => if key is Esc {
            InputMode::Normal
        } else {
            InputMode::Insert
        },
    }
}

/// The input field after one key, in insert mode: a character is
/// appended; a plain backspace drops the last character; a backspace with
/// the modifier drops the last word; enter clears a field whose trimmed
/// content is non-empty. Normal mode never edits the field.
pub open spec fn spec_key_input(pre: App, key: KeyInput) -> Seq<char> {
    if pre.input_mode is Insert {
        match key {
            KeyInput::Backspace { alt } => if alt && pre.input_field@.len() > 0 {
                spec_word_deleted(pre.input_field@)
            } else if pre.input_field@.len() > 0 {
                pre.input_field@.drop_last()
            } else {
                pre.input_field@
            },
            KeyInput::Enter => if spec_trim(pre.input_field@).len() > 0 {
                Seq::empty()
            } else {
                pre.input_field@
            },
            KeyInput::Char(c) => pre.input_field@.push(c),
            _ => pre.input_field@,
        }
    } else {
        pre.input_field@
    }
}

/// The window of lines the view shows: the newest lines at the bottom,
/// the window `o` lines above the bottom at offset `o`, or the oldest
/// lines at the top.
pub open spec fn spec_visible_lines(app: App) -> Seq<Seq<char>> {
    let lines = app.chat_lines.deep_view();
    let h = app.chat_height as int;
    match app.scroll_state {
        ScrollState::Bottom => lines.subrange(
            if lines.len() >= h {
                lines.len() - h
            } else {
                0
            },
            lines.len() as int,
        ),
        ScrollState::Offset(o) => lines.subrange(lines.len() - h - o, lines.len() - o),
        ScrollState::Top => lines.subrange(0, h),
    }
}

/// Whether two view states show the same thing.
pub open spec fn same_view_state(pre: App, post: App) -> bool {
    &&& post.chat_items.deep_view() == pre.chat_items.deep_view()
    &&& post.chat_lines.deep_view() == pre.chat_lines.deep_view()
    &&& post.scroll_state == pre.scroll_state
    &&& post.scroll_active == pre.scroll_active
    &&& post.input_field@ == pre.input_field@
    &&& post.input_mode == pre.input_mode
    &&& post.chat_width == pre.chat_width
    &&& post.chat_height == pre.chat_height
}

impl App {
    /// Appends one item to the chat, wrapping it at the current width and
    /// keeping the scroll position on the same lines.
    pub fn push_to_chat(&mut self, item: ChatItem)
        requires
            old(self).wf(),
        ensures
            final(self).wf(),
            push_relation(*old(self), *final(self), item@),
    {
        let ghost itemv = item@;
        let ghost old_lines = self.chat_lines.deep_view();
        let ghost old_items = self.chat_items.deep_view();
        let width: usize = self.chat_width as usize;
        let mut item_lines = item.wrapped_lines(width);
        let item_line_count = item_lines.len();
        let ghost added = wrapped_of(chat_item_text(itemv), self.chat_width as nat);
        proof {
            assert(added.len() == item_line_count);
        }
        self.chat_lines.append(&mut item_lines);
        self.chat_items.push(item);
        proof {
            assert(self.chat_lines.deep_view() =~= old_lines + added);
            assert(self.chat_items.deep_view() =~= old_items.push(itemv));
        }
        let total = self.chat_lines.len();
        match self.scroll_state {
            ScrollState::Offset(n) => {
                if n > 0 {
                    proof {
                        assert(n < old(self).spec_offset_limit());
                        assert(total == old_lines.len() + added.len());
                    }
                    self.scroll_state = ScrollState::Offset(n + item_line_count);
                }
            },
            _ => {},
        }
    }

    /// Shows one display event as a chat item.
    pub fn apply_terminal_action(&mut self, action: TerminalAction)
        requires
            old(self).wf(),
        ensures
            final(self).wf(),
            push_relation(*old(self), *final(self), chat_item_of_action(action@)),
    {
        match action {
            TerminalAction::PrintDebug(text) => self.push_to_chat(
                ChatItem::Debug { content: text },
            ),
            TerminalAction::PrintPrivmsg { channel, username, message } => self.push_to_chat(
                ChatItem::Privmsg { channel, username, message },
            ),
            TerminalAction::PrintPing(content) => self.push_to_chat(ChatItem::Ping { content }),
        }
    }

    /// Polls the display-event channel once: when an event is waiting, it
    /// is shown; when none is, the view stays as it is.
    pub fn try_recv_terminal_action(&mut self)
        requires
            old(self).wf(),
        ensures
            final(self).wf(),
            same_view_state(*old(self), *final(self)) || (exists|a: TerminalActionModel|
                push_relation(*old(self), *final(self), chat_item_of_action(a))),
    {
        match try_recv_terminal(&self.terminal_action_rx) {
            Some(action) => {
                let ghost av = action@;
                self.apply_terminal_action(action);
                proof {
                    assert(push_relation(*old(self), *self, chat_item_of_action(av)));
                }
            },
            None => {},
        }
    }

    /// Rebuilds the chat lines by wrapping every item at the current
    /// width, keeping the scroll position on the same lines.
    pub fn rewrap_lines(&mut self)
        requires
            old(self).wf(),
        ensures
            final(self).wf(),
            final(self).chat_lines.deep_view() == rewrapped_lines(
                old(self).chat_items.deep_view(),
                old(self).chat_width as nat,
            ),
            (final(self).scroll_state, final(self).scroll_active) == rewrap_adjusted(
                old(self).scroll_state,
                old(self).scroll_active,
                old(self).chat_lines.deep_view().len() as int,
                rewrapped_lines(
                    old(self).chat_items.deep_view(),
                    old(self).chat_width as nat,
                ).len() as int,
                old(self).chat_height,
            ),
            final(self).chat_items.deep_view() == old(self).chat_items.deep_view(),
            final(self).input_field@ == old(self).input_field@,
            final(self).input_mode == old(self).input_mode,
            final(self).chat_width == old(self).chat_width,
            final(self).chat_height == old(self).chat_height,
    {
        let old_line_count = self.chat_lines.len();
        let width: usize = self.chat_width as usize;
        let mut new_lines: Vec<String> = Vec::new();
        let mut idx: usize = 0;
        let n = self.chat_items.len();
        while idx < n
            invariant
                0 <= idx <= n,
                *self == *old(self),
                n == self.chat_items@.len(),
                width == self.chat_width as usize,
                new_lines.deep_view() == rewrapped_lines(
                    self.chat_items.deep_view().subrange(0, idx as int),
                    self.chat_width as nat,
                ),
            decreases n - idx,
        {
            let mut lines = self.chat_items[idx].wrapped_lines(width);
            let ghost pre = new_lines.deep_view();
            new_lines.append(&mut lines);
            idx = idx + 1;
            proof {
                let items = self.chat_items.deep_view();
                assert(items.subrange(0, idx as int).drop_last() =~= items.subrange(0, idx - 1));
                assert(items.subrange(0, idx as int).last() == items[idx - 1]);
                assert(new_lines.deep_view() =~= pre + wrapped_of(
                    chat_item_text(items[idx - 1]),
                    self.chat_width as nat,
                ));
            }
        }
        proof {
            assert(self.chat_items.deep_view().subrange(0, n as int) =~= self.chat_items.deep_view());
        }
        self.chat_lines = new_lines;
        let new_line_count = self.chat_lines.len();
        if new_line_count <= self.chat_height as usize {
            self.scroll_active = false;
            self.scroll_state = ScrollState::Bottom;
        } else {
            match self.scroll_state {
                ScrollState::Bottom => {},
                ScrollState::Top => {},
                ScrollState::Offset(off) => {
                    if new_line_count >= old_line_count {
                        let grow = new_line_count - old_line_count;
                        self.scroll_state = ScrollState::Offset(off + grow);
                    } else {
                        let shrink = old_line_count - new_line_count;
                        if off > shrink {
                            self.scroll_state = ScrollState::Offset(off - shrink);
                        } else {
                            self.scroll_state = ScrollState::Bottom;
                        }
                    }
                },
            }
        }
    }

    /// Takes a new view size over: a changed width rewraps the lines; a
    /// changed height moves the scroll offset so the topmost visible line
    /// stays, and resets the scroll when nothing overflows any more.
    pub fn refresh_chat_size(&mut self, new_chat_width: u16, new_chat_height: u16)
        requires
            old(self).wf(),
        ensures
            final(self).wf(),
            final(self).chat_width == new_chat_width,
            final(self).chat_height == new_chat_height,
            final(self).chat_items.deep_view() == old(self).chat_items.deep_view(),
            final(self).input_field@ == old(self).input_field@,
            final(self).input_mode == old(self).input_mode,
            final(self).chat_lines.deep_view() == (if old(self).chat_width == new_chat_width {
                old(self).chat_lines.deep_view()
            } else {
                rewrapped_lines(old(self).chat_items.deep_view(), new_chat_width as nat)
            }),
            ({
                let mid = if old(self).chat_width == new_chat_width {
                    (old(self).scroll_state, old(self).scroll_active)
                } else {
                    rewrap_adjusted(
                        old(self).scroll_state,
                        old(self).scroll_active,
                        old(self).chat_lines.deep_view().len() as int,
                        rewrapped_lines(
                            old(self).chat_items.deep_view(),
                            new_chat_width as nat,
                        ).len() as int,
                        old(self).chat_height,
                    )
                };
                (final(self).scroll_state, final(self).scroll_active) == height_adjusted(
                    mid.0,
                    mid.1,
                    final(self).chat_lines.deep_view().len() as int,
                    old(self).chat_height,
                    new_chat_height,
                )
            }),
    {
        if self.chat_width != new_chat_width {
            self.chat_width = new_chat_width;
            self.rewrap_lines();
        }
        if self.chat_height != new_chat_height {
            let line_count = self.chat_lines.len();
            if line_count <= new_chat_height as usize {
                self.scroll_active = false;
                self.scroll_state = ScrollState::Bottom;
            } else {
                match self.scroll_state {
                    ScrollState::Bottom => {},
                    ScrollState::Top => {},
                    ScrollState::Offset(n) => {
                        if new_chat_height >= self.chat_height {
                            let dec = (new_chat_height - self.chat_height) as usize;
                            if n > dec {
                                self.scroll_state = ScrollState::Offset(n - dec);
                            } else {
                                self.scroll_state = ScrollState::Bottom;
                            }
                        } else {
                            let inc = (self.chat_height - new_chat_height) as usize;
                            self.scroll_state = ScrollState::Offset(n + inc);
                        }
                    },
                }
            }
            self.chat_height = new_chat_height;
        }
    }

    /// Handles one key. In normal mode `q` quits, `i` enters insert mode,
    /// and the arrow, home and end keys move the scroll position while
    /// scrolling is active. In insert mode escape leaves, characters and
    /// backspace edit the input field, and enter sends the trimmed input
    /// as a chat request and clears the field. Returns whether to quit.
    pub fn handle_key(&mut self, key: KeyInput) -> (quit: bool)
        requires
            old(self).wf(),
        ensures
            final(self).wf(),
            quit == (old(self).input_mode is Normal && key == KeyInput::Char('q')),
            final(self).scroll_state == spec_key_scroll(*old(self), key),
            final(self).input_mode == spec_key_mode(*old(self), key),
            final(self).input_field@ == spec_key_input(*old(self), key),
            final(self).chat_items.deep_view() == old(self).chat_items.deep_view(),
            final(self).chat_lines.deep_view() == old(self).chat_lines.deep_view(),
            final(self).scroll_active == old(self).scroll_active,
            final(self).chat_width == old(self).chat_width,
            final(self).chat_height == old(self).chat_height,
    {
        match self.input_mode {
            InputMode::Normal => match key {
                KeyInput::Char(c) => {
                    if c == 'q' {
                        return true;
                    }
                    if c == 'i' {
                        self.input_mode = InputMode::Insert;
                    }
                    false
                },
                KeyInput::Up => {
                    if self.scroll_active {
                        let limit = self.get_scroll_offset_limit();
                        self.scroll_state = match self.scroll_state {
                            ScrollState::Top => ScrollState::Top,
                            ScrollState::Bottom => {
                                if limit == 1 {
                                    ScrollState::Top
                                } else {
                                    ScrollState::Offset(1)
                                }
                            },
                            ScrollState::Offset(n) => {
                                if n + 1 == limit {
                                    ScrollState::Top
                                } else {
                                    ScrollState::Offset(n + 1)
                                }
                            },
                        };
                    }
                    false
                },
                KeyInput::Down => {
                    if self.scroll_active {
                        let limit = self.get_scroll_offset_limit();
                        self.scroll_state = match self.scroll_state {
                            ScrollState::Bottom => ScrollState::Bottom,
                            ScrollState::Offset(n) => {
                                if n <= 1 {
                                    ScrollState::Bottom
                                } else {
                                    ScrollState::Offset(n - 1)
                                }
                            },
                            ScrollState::Top => {
                                if limit == 1 {
                                    ScrollState::Bottom
                                } else {
                                    ScrollState::Offset(limit - 1)
                                }
                            },
                        };
                    }
                    false
                },
                KeyInput::Home => {
                    if self.scroll_active {
                        self.scroll_state = ScrollState::Top;
                    }
                    false
                },
                KeyInput::End => {
                    if self.scroll_active {
                        self.scroll_state = ScrollState::Bottom;
                    }
                    false
                },
                _ => false,
            },
            InputMode::Insert => match key {
                KeyInput::Esc => {
                    self.input_mode = InputMode::Normal;
                    false
                },
                KeyInput::Backspace { alt } => {
                    let len = self.input_field.as_str().unicode_len();
                    if alt && len > 0 {
                        let shortened = word_deleted(self.input_field.as_str());
                        self.input_field = shortened;
                    } else if len > 0 {
                        let shortened = substring_owned(self.input_field.as_str(), 0, len - 1);
                        proof {
                            assert(shortened@ =~= old(self).input_field@.drop_last());
                        }
                        self.input_field = shortened;
                    }
                    false
                },
                KeyInput::Enter => {
                    let trimmed = trim_owned(self.input_field.as_str());
                    if trimmed.as_str().unicode_len() > 0 {
                        let _delivered = send_twitch_action(
                            &self.twitch_action_tx,
                            TwitchAction::SendPrivmsg { message: trimmed },
                        );
                        self.input_field = String::new();
                    }
                    false
                },
                KeyInput::Char(c) => {
                    push_char(&mut self.input_field, c);
                    false
                },
                _ => false,
            },
        }
    }

    /// The lines the view shows: the window of `chat_height` lines picked
    /// by the scroll state, or everything from the chosen edge when fewer
    /// lines exist.
    pub fn visible_lines(&self) -> (r: Vec<String>)
        requires
            self.wf(),
        ensures
            r.deep_view() == spec_visible_lines(*self),
    {
        let total = self.chat_lines.len();
        let h = self.chat_height as usize;
        let lo: usize;
        let hi: usize;
        match self.scroll_state {
            ScrollState::Bottom => {
                lo = if total >= h {
                    total - h
                } else {
                    0
                };
                hi = total;
            },
            ScrollState::Offset(o) => {
                lo = total - h - o;
                hi = total - o;
            },
            ScrollState::Top => {
                lo = 0;
                hi = h;
            },
        }
        let mut out: Vec<String> = Vec::new();
        let mut i = lo;
        while i < hi
            invariant
                lo <= i <= hi <= total,
                total == self.chat_lines@.len(),
                out.deep_view() == self.chat_lines.deep_view().subrange(lo as int, i as int),
            decreases hi - i,
        {
            let line = self.chat_lines[i].clone();
            proof {
                assert(line == self.chat_lines@[i as int]);
                assert(line@ == self.chat_lines.deep_view()[i as int]);
            }
            let ghost pre_dv = out.deep_view();
            let ghost linev = line@;
            out.push(line);
            proof {
                assert(out.deep_view() =~= pre_dv.push(linev));
                assert(pre_dv.push(linev) =~= self.chat_lines.deep_view().subrange(
                    lo as int,
                    i + 1,
                ));
            }
            i = i + 1;
        }
        out
    }

    /// Latches scrolling on once the lines overflow the view.
    pub fn refresh_scroll_activation(&mut self)
        requires
            old(self).wf(),
        ensures
            final(self).wf(),
            final(self).scroll_active == (old(self).scroll_active || old(
                self,
            ).chat_lines@.len() > old(self).chat_height as int),
            final(self).chat_items.deep_view() == old(self).chat_items.deep_view(),
            final(self).chat_lines.deep_view() == old(self).chat_lines.deep_view(),
            final(self).scroll_state == old(self).scroll_state,
            final(self).input_field@ == old(self).input_field@,
            final(self).input_mode == old(self).input_mode,
            final(self).chat_width == old(self).chat_width,
            final(self).chat_height == old(self).chat_height,
    {
        if !self.scroll_active && self.chat_lines.len() > self.chat_height as usize {
            self.scroll_active = true;
        }
    }
}

} // verus!
