//! The event types exchanged with the two external collaborators: actions
//! the input surface asks the client to perform, and display events the
//! client pushes to the rendering surface.

use vstd::prelude::*;

verus! {

/// A request from the input surface to the client.
#[derive(Debug, Clone, PartialEq, Eq)]
pub enum TwitchAction {
    Connect,
    SendPrivmsg { message: String },
}

/// Spec-level twin of `TwitchAction`.
pub enum TwitchActionModel {
    Connect,
    SendPrivmsg { message: Seq<char> },
}

impl View for TwitchAction {
    type V = TwitchActionModel;

    open spec fn view(&self) -> TwitchActionModel {
        match self {
            TwitchAction::Connect => TwitchActionModel::Connect,
            TwitchAction::SendPrivmsg { message } => TwitchActionModel::SendPrivmsg {
                message: message@,
            },
        }
    }
}

/// A display event pushed to the rendering surface.
#[derive(Debug, Clone, PartialEq, Eq)]
pub enum TerminalAction {
    PrintPrivmsg { channel: String, username: String, message: String },
    PrintPing(String),
    PrintDebug(String),
}

/// Spec-level twin of `TerminalAction`.
pub enum TerminalActionModel {
    PrintPrivmsg { channel: Seq<char>, username: Seq<char>, message: Seq<char> },
    PrintPing(Seq<char>),
    PrintDebug(Seq<char>),
}

impl View for TerminalAction {
    type V = TerminalActionModel;

    open spec fn view(&self) -> TerminalActionModel {
        match self {
            TerminalAction::PrintPrivmsg { channel, username, message } =>
                TerminalActionModel::PrintPrivmsg {
                channel: channel@,
                username: username@,
                message: message@,
            },
            TerminalAction::PrintPing(content) => TerminalActionModel::PrintPing(content@),
            TerminalAction::PrintDebug(text) => TerminalActionModel::PrintDebug(text@),
        }
    }
}

impl DeepView for TerminalAction {
    type V = TerminalActionModel;

    open spec fn deep_view(&self) -> TerminalActionModel {
        self.view()
    }
}

} // verus!
