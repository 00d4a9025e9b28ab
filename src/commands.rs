use std::collections::HashMap;
use vstd::prelude::*;

verus! {

broadcast use vstd::std_specs::hash::group_hash_axioms;

/// What the conversation expects next from a user.
#[derive(Debug, Clone, Copy, PartialEq, Eq, Structural)]
pub enum State {
    /// Idle: commands and voice notes are handled.
    Start,
    WaitingForTypefullyApiKey,
    WaitingForOpenAiApiKey,
    WaitingForDeleteConfirmation,
}

impl Default for State {
    fn default() -> (r: State)
        ensures
            r == State::Start,
    {
        State::Start
    }
}

/// The commands a user can send.
#[derive(Debug, Clone, Copy, PartialEq, Eq, Structural)]
pub enum BotCommand {
    Help,
    SetApiKey,
    SetTypefullyKey,
    Usage,
    ToggleRewrite,
    Start,
    DeleteAccount,
}

/// The class of an incoming message.
#[derive(Debug, Clone, Copy, PartialEq, Eq, Structural)]
pub enum MessageKind {
    Command(BotCommand),
    Text,
    Voice,
    /// Anything else (a photo, a sticker, ...).
    Other,
}

/// The handler that an incoming message is given to.
#[derive(Debug, Clone, Copy, PartialEq, Eq, Structural)]
pub enum Handler {
    Help,
    Start,
    SetApiKey,
    SetTypefullyKey,
    Usage,
    ToggleRewrite,
    DeleteAccount,
    ReceiveTypefullyApiKey,
    ReceiveOpenAiApiKey,
    HandleDeleteConfirmation,
    HandleVoiceNote,
    InvalidState,
}

/// Routing: a command is handled in every state; any other message goes to
/// the handler of the awaited input; when idle, a voice note goes to the
/// pipeline and everything else cannot be handled.
pub open spec fn route(state: State, kind: MessageKind) -> Handler {
    match kind {
        MessageKind::Command(c) => match c {
            BotCommand::Help => Handler::Help,
            BotCommand::SetApiKey => Handler::SetApiKey,
            BotCommand::SetTypefullyKey => Handler::SetTypefullyKey,
            BotCommand::Usage => Handler::Usage,
            BotCommand::ToggleRewrite => Handler::ToggleRewrite,
            BotCommand::Start => Handler::Start,
            BotCommand::DeleteAccount => Handler::DeleteAccount,
        },
        _ => match state {
            State::WaitingForTypefullyApiKey => Handler::ReceiveTypefullyApiKey,
            State::WaitingForOpenAiApiKey => Handler::ReceiveOpenAiApiKey,
            State::WaitingForDeleteConfirmation => Handler::HandleDeleteConfirmation,
            State::Start => if kind is Voice {
                Handler::HandleVoiceNote
            } else {
                Handler::InvalidState
            },
        },
    }
}

/// The state after a message of class `kind` in state `state`, given whether
/// the sender has a user record, whether the drafting service accepted the
/// key sent, and whether the text is the deletion confirmation. Every pair of
/// state and class has exactly one next state.
pub open spec fn transition(
    state: State,
    kind: MessageKind,
    known: bool,
    key_accepted: bool,
    confirmed: bool,
) -> State {
    match route(state, kind) {
        Handler::Start => if known {
            state
        } else {
            State::WaitingForTypefullyApiKey
        },
        Handler::SetApiKey => State::WaitingForOpenAiApiKey,
        Handler::SetTypefullyKey => State::WaitingForTypefullyApiKey,
        Handler::DeleteAccount => State::WaitingForDeleteConfirmation,
        Handler::ReceiveTypefullyApiKey => if known && key_accepted {
            State::Start
        } else {
            state
        },
        Handler::ReceiveOpenAiApiKey => if known {
            State::Start
        } else {
            state
        },
        Handler::HandleDeleteConfirmation => if !confirmed || known {
            State::Start
        } else {
            state
        },
        _ => state,
    }
}

/// Selects the one handler for a message of class `kind` in state `state`.
pub fn bot_schema(state: State, kind: MessageKind) -> (r: Handler)
    ensures
        r == route(state, kind),
{
    match kind {
        MessageKind::Command(c) => match c {
            BotCommand::Help => Handler::Help,
            BotCommand::SetApiKey => Handler::SetApiKey,
            BotCommand::SetTypefullyKey => Handler::SetTypefullyKey,
            BotCommand::Usage => Handler::Usage,
            BotCommand::ToggleRewrite => Handler::ToggleRewrite,
            BotCommand::Start => Handler::Start,
            BotCommand::DeleteAccount => Handler::DeleteAccount,
        },
        _ => match state {
            State::WaitingForTypefullyApiKey => Handler::ReceiveTypefullyApiKey,
            State::WaitingForOpenAiApiKey => Handler::ReceiveOpenAiApiKey,
            State::WaitingForDeleteConfirmation => Handler::HandleDeleteConfirmation,
            State::Start => match kind {
                MessageKind::Voice => Handler::HandleVoiceNote,
                _ => Handler::InvalidState,
            },
        },
    }
}

/// The conversation state of every user, keyed by identity.
pub struct Sessions {
    states: HashMap<i64, State>,
}

impl View for Sessions {
    type V = Map<i64, State>;

    closed spec fn view(&self) -> Map<i64, State> {
        self.states@
    }
}

/// The state of `id`: `Start` for an identity never seen.
pub open spec fn state_of(sessions: Map<i64, State>, id: i64) -> State {
    if sessions.contains_key(id) {
        sessions[id]
    } else {
        State::Start
    }
}

impl Sessions {
    pub fn new() -> (r: Sessions)
        ensures
            r@ == Map::<i64, State>::empty(),
    {
        Sessions { states: HashMap::new() }
    }

    pub fn get(&self, id: i64) -> (r: State)
        ensures
            r == state_of(self@, id),
    {
        match self.states.get(&id) {
            Some(s) => *s,
            None => State::Start,
        }
    }

    pub fn update(&mut self, id: i64, state: State)
        ensures
            final(self)@ == old(self)@.insert(id, state),
    {
        self.states.insert(id, state);
    }
}

} // verus!
