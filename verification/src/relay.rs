//! The relay of one message, as a state machine.
//!
//! [`Relay::start`] looks at a message and asks for a first action. The
//! caller carries the action out and hands its outcome to [`Relay::step`],
//! which asks for the next one, until the action is [`Action::Stop`].

use crate::command::{classify, command_of, Command};
use crate::config::{Config, ConfigView};
use crate::flag::{restart_from, restart_requested};
use crate::text::{decimal, decimal_text};
use vstd::prelude::*;

verus! {

/// The largest number of tokens that a completion may use.
pub const TOKEN_LIMIT: u32 = 4096;

/// A message that arrived in a channel.
#[derive(Clone, Debug, PartialEq, Eq)]
pub struct InboundMessage {
    /// Whether a bot wrote the message.
    pub author_is_bot: bool,
    /// The channel that the message arrived in.
    pub channel: u64,
    /// The text of the message.
    pub content: String,
}

/// A message as plain values.
pub struct MessageView {
    pub author_is_bot: bool,
    pub channel: u64,
    pub content: Seq<char>,
}

impl View for InboundMessage {
    type V = MessageView;

    open spec fn view(&self) -> MessageView {
        MessageView {
            author_is_bot: self.author_is_bot,
            channel: self.channel,
            content: self.content@,
        }
    }
}

/// What the language model is asked.
#[derive(Clone, Debug, PartialEq, Eq)]
pub struct ChatRequest {
    /// The conversation that the prompt belongs to.
    pub conversation: String,
    /// The text to answer.
    pub prompt: String,
    /// Whether the conversation starts anew, without its history.
    pub restart: bool,
    /// The prompt that tells the model its role.
    pub system_prompt: String,
    /// The largest number of tokens that the model may use.
    pub token_limit: u32,
}

/// A request as plain values.
pub struct ChatRequestView {
    pub conversation: Seq<char>,
    pub prompt: Seq<char>,
    pub restart: bool,
    pub system_prompt: Seq<char>,
    pub token_limit: u32,
}

impl View for ChatRequest {
    type V = ChatRequestView;

    open spec fn view(&self) -> ChatRequestView {
        ChatRequestView {
            conversation: self.conversation@,
            prompt: self.prompt@,
            restart: self.restart,
            system_prompt: self.system_prompt@,
            token_limit: self.token_limit,
        }
    }
}

/// What the relay asks its caller to do.
#[derive(Clone, Debug, PartialEq, Eq)]
pub enum Action {
    /// Post a new message with this text in the channel.
    Send { channel: u64, content: String },
    /// Look up what the store holds under the key.
    ReadFlag { key: String },
    /// Store the boolean under the key, in place of what was there.
    WriteFlag { key: String, restart: bool },
    /// Ask the language model for a completion.
    Complete { request: ChatRequest },
    /// Replace the text of a message that was posted before.
    Edit { channel: u64, message: u64, content: String },
    /// Put the reason of a failure on record.
    Report { detail: String },
    /// Nothing is left to do.
    Stop,
}

/// An action as plain values.
pub enum ActionView {
    Send { channel: u64, content: Seq<char> },
    ReadFlag { key: Seq<char> },
    WriteFlag { key: Seq<char>, restart: bool },
    Complete { request: ChatRequestView },
    Edit { channel: u64, message: u64, content: Seq<char> },
    Report { detail: Seq<char> },
    Stop,
}

impl View for Action {
    type V = ActionView;

    open spec fn view(&self) -> ActionView {
        match self {
            Action::Send { channel, content } => ActionView::Send {
                channel: *channel,
                content: content@,
            },
            Action::ReadFlag { key } => ActionView::ReadFlag { key: key@ },
            Action::WriteFlag { key, restart } => ActionView::WriteFlag {
                key: key@,
                restart: *restart,
            },
            Action::Complete { request } => ActionView::Complete { request: request@ },
            Action::Edit { channel, message, content } => ActionView::Edit {
                channel: *channel,
                message: *message,
                content: content@,
            },
            Action::Report { detail } => ActionView::Report { detail: detail@ },
            Action::Stop => ActionView::Stop,
        }
    }
}

/// What came of an action.
#[derive(Debug, PartialEq, Eq)]
pub enum Event {
    /// A message was to be posted: the id of the new message, `None` where
    /// posting failed.
    Sent { message: Option<u64> },
    /// The store was read: the boolean found under the key, `None` where the
    /// key holds no boolean or the read failed.
    FlagRead { flag: Option<bool> },
    /// The language model was asked: its text, or the reason of the
    /// failure.
    Completed { reply: Result<String, String> },
    /// The action was carried out and has nothing to tell.
    Done,
}

/// An outcome as plain values.
pub enum EventView {
    Sent { message: Option<u64> },
    FlagRead { flag: Option<bool> },
    Completed { reply: Result<Seq<char>, Seq<char>> },
    Done,
}

impl View for Event {
    type V = EventView;

    open spec fn view(&self) -> EventView {
        match self {
            Event::Sent { message } => EventView::Sent { message: *message },
            Event::FlagRead { flag } => EventView::FlagRead { flag: *flag },
            Event::Completed { reply } => EventView::Completed {
                reply: match reply {
                    Ok(text) => Ok(text@),
                    Err(detail) => Err(detail@),
                },
            },
            Event::Done => EventView::Done,
        }
    }
}

/// How far the relay of a message has come. Each phase but the last waits
/// for the outcome of the action asked for last.
#[derive(Debug, PartialEq, Eq)]
pub enum Phase {
    /// The confirmation of a restart is being posted; the flag is set next.
    Confirming,
    /// The stored flag is being read.
    ReadingFlag,
    /// The flag was found set and is being cleared.
    ClearingFlag,
    /// The placeholder is being posted.
    Announcing { restart: bool },
    /// The language model is being asked; its answer goes into the
    /// placeholder.
    Completing { placeholder: u64 },
    /// The apology is being written into the placeholder; the reason of the
    /// failure is put on record next.
    Apologising { detail: String },
    /// The last action is being carried out.
    Closing,
    /// Nothing is left to do.
    Finished,
}

/// A phase as plain values.
pub enum PhaseView {
    Confirming,
    ReadingFlag,
    ClearingFlag,
    Announcing { restart: bool },
    Completing { placeholder: u64 },
    Apologising { detail: Seq<char> },
    Closing,
    Finished,
}

impl View for Phase {
    type V = PhaseView;

    open spec fn view(&self) -> PhaseView {
        match self {
            Phase::Confirming => PhaseView::Confirming,
            Phase::ReadingFlag => PhaseView::ReadingFlag,
            Phase::ClearingFlag => PhaseView::ClearingFlag,
            Phase::Announcing { restart } => PhaseView::Announcing { restart: *restart },
            Phase::Completing { placeholder } => PhaseView::Completing {
                placeholder: *placeholder,
            },
            Phase::Apologising { detail } => PhaseView::Apologising { detail: detail@ },
            Phase::Closing => PhaseView::Closing,
            Phase::Finished => PhaseView::Finished,
        }
    }
}

/// The text that confirms a restart.
pub open spec fn confirmation_text() -> Seq<char> {
    "Ok, I am starting a new conversation."@
}

/// The text that answers an unknown command.
pub open spec fn rejection_text() -> Seq<char> {
    "Sorry, I do not recognize this command. Do you mean to say /restart to start a new conversation?"@
}

/// The text shown where the language model failed.
pub open spec fn apology_text() -> Seq<char> {
    "Sorry, an error has occurred. Please try again later!"@
}

/// The key under which the store holds the flag of a channel, which also
/// names the channel's conversation: the channel's id in decimal notation.
pub open spec fn channel_key(channel: u64) -> Seq<char> {
    decimal(channel as nat)
}

/// What the language model is asked for a message.
pub open spec fn request_for(config: ConfigView, message: MessageView, restart: bool)
    -> ChatRequestView {
    ChatRequestView {
        conversation: channel_key(message.channel),
        prompt: message.content,
        restart,
        system_prompt: config.system_prompt,
        token_limit: TOKEN_LIMIT,
    }
}

/// The posting of the placeholder.
pub open spec fn announcement(config: ConfigView, message: MessageView) -> ActionView {
    ActionView::Send { channel: message.channel, content: config.placeholder }
}

/// The phase and the action that the relay of a message begins with.
///
/// A bot's message asks for nothing. The restart command is confirmed, a
/// text that only looks like a command is turned down, and for any other
/// text the stored flag is read.
pub open spec fn first_step(config: ConfigView, message: MessageView) -> (PhaseView, ActionView) {
    if message.author_is_bot {
        (PhaseView::Finished, ActionView::Stop)
    } else {
        match command_of(message.content) {
            Command::Restart => (
                PhaseView::Confirming,
                ActionView::Send { channel: message.channel, content: confirmation_text() },
            ),
            Command::Unknown => (
                PhaseView::Closing,
                ActionView::Send { channel: message.channel, content: rejection_text() },
            ),
            Command::Chat => (
                PhaseView::ReadingFlag,
                ActionView::ReadFlag { key: channel_key(message.channel) },
            ),
        }
    }
}

/// The phase that follows and the action asked for next, given the outcome
/// of the action asked for last.
///
/// A phase that waits for an answer (the flag, the id of the placeholder,
/// the completion) ends the relay where the outcome is of another kind, and
/// so does a placeholder that could not be posted. The other phases go on
/// whatever the outcome is.
pub open spec fn next_step(
    config: ConfigView,
    message: MessageView,
    phase: PhaseView,
    event: EventView,
) -> (PhaseView, ActionView) {
    match phase {
        PhaseView::Confirming => (
            PhaseView::Closing,
            ActionView::WriteFlag { key: channel_key(message.channel), restart: true },
        ),
        PhaseView::ReadingFlag => match event {
            EventView::FlagRead { flag } => if restart_from(flag) {
                (
                    PhaseView::ClearingFlag,
                    ActionView::WriteFlag { key: channel_key(message.channel), restart: false },
                )
            } else {
                (PhaseView::Announcing { restart: false }, announcement(config, message))
            },
            _ => (PhaseView::Finished, ActionView::Stop),
        },
        PhaseView::ClearingFlag => (
            PhaseView::Announcing { restart: true },
            announcement(config, message),
        ),
        PhaseView::Announcing { restart } => match event {
            EventView::Sent { message: Some(placeholder) } => (
                PhaseView::Completing { placeholder },
                ActionView::Complete { request: request_for(config, message, restart) },
            ),
            _ => (PhaseView::Finished, ActionView::Stop),
        },
        PhaseView::Completing { placeholder } => match event {
            EventView::Completed { reply: Ok(text) } => (
                PhaseView::Closing,
                ActionView::Edit { channel: message.channel, message: placeholder, content: text },
            ),
            EventView::Completed { reply: Err(detail) } => (
                PhaseView::Apologising { detail },
                ActionView::Edit {
                    channel: message.channel,
                    message: placeholder,
                    content: apology_text(),
                },
            ),
            _ => (PhaseView::Finished, ActionView::Stop),
        },
        PhaseView::Apologising { detail } => (PhaseView::Closing, ActionView::Report { detail }),
        PhaseView::Closing => (PhaseView::Finished, ActionView::Stop),
        PhaseView::Finished => (PhaseView::Finished, ActionView::Stop),
    }
}

/// The relay of one message: the settings, the message, and how far its
/// handling has come.
#[derive(Debug, PartialEq, Eq)]
pub struct Relay {
    pub config: Config,
    pub message: InboundMessage,
    pub phase: Phase,
}

/// A relay as plain values.
pub struct RelayView {
    pub config: ConfigView,
    pub message: MessageView,
    pub phase: PhaseView,
}

impl View for Relay {
    type V = RelayView;

    open spec fn view(&self) -> RelayView {
        RelayView { config: self.config@, message: self.message@, phase: self.phase@ }
    }
}

fn key_of(channel: u64) -> (key: String)
    ensures
        key@ == channel_key(channel),
{
    decimal_text(channel)
}

fn announce(config: &Config, message: &InboundMessage) -> (action: Action)
    ensures
        action@ == announcement(config@, message@),
{
    Action::Send { channel: message.channel, content: config.placeholder.clone() }
}

impl Relay {
    /// Begins the relay of a message under the given settings.
    pub fn start(config: &Config, message: InboundMessage) -> (begun: (Relay, Action))
        ensures
            begun.0@.config == config@,
            begun.0@.message == message@,
            (begun.0@.phase, begun.1@) == first_step(config@, message@),
    {
        let (phase, action) = if message.author_is_bot {
            (Phase::Finished, Action::Stop)
        } else {
            match classify(message.content.as_str()) {
                Command::Restart => (
                    Phase::Confirming,
                    Action::Send {
                        channel: message.channel,
                        content: "Ok, I am starting a new conversation.".to_owned(),
                    },
                ),
                Command::Unknown => (
                    Phase::Closing,
                    Action::Send {
                        channel: message.channel,
                        content: "Sorry, I do not recognize this command. Do you mean to say /restart to start a new conversation?".to_owned(),
                    },
                ),
                Command::Chat => (
                    Phase::ReadingFlag,
                    Action::ReadFlag { key: key_of(message.channel) },
                ),
            }
        };
        let config = Config {
            discord_token: config.discord_token.clone(),
            placeholder: config.placeholder.clone(),
            system_prompt: config.system_prompt.clone(),
            llm_endpoint: config.llm_endpoint.clone(),
        };
        (Relay { config, message, phase }, action)
    }

    /// Takes the outcome of the action asked for last and asks for the next
    /// one. The settings and the message stay as they are.
    pub fn step(self, event: Event) -> (next: (Relay, Action))
        ensures
            next.0@.config == self@.config,
            next.0@.message == self@.message,
            (next.0@.phase, next.1@) == next_step(
                self@.config,
                self@.message,
                self@.phase,
                event@,
            ),
    {
        let Relay { config, message, phase } = self;
        let (phase, action) = match phase {
            Phase::Confirming => (
                Phase::Closing,
                Action::WriteFlag { key: key_of(message.channel), restart: true },
            ),
            Phase::ReadingFlag => match event {
                Event::FlagRead { flag } => if restart_requested(flag) {
                    (
                        Phase::ClearingFlag,
                        Action::WriteFlag { key: key_of(message.channel), restart: false },
                    )
                } else {
                    (Phase::Announcing { restart: false }, announce(&config, &message))
                },
                _ => (Phase::Finished, Action::Stop),
            },
            Phase::ClearingFlag => (
                Phase::Announcing { restart: true },
                announce(&config, &message),
            ),
            Phase::Announcing { restart } => match event {
                Event::Sent { message: Some(placeholder) } => (
                    Phase::Completing { placeholder },
                    Action::Complete {
                        request: ChatRequest {
                            conversation: key_of(message.channel),
                            prompt: message.content.clone(),
                            restart,
                            system_prompt: config.system_prompt.clone(),
                            token_limit: TOKEN_LIMIT,
                        },
                    },
                ),
                _ => (Phase::Finished, Action::Stop),
            },
            Phase::Completing { placeholder } => match event {
                Event::Completed { reply: Ok(text) } => (
                    Phase::Closing,
                    Action::Edit { channel: message.channel, message: placeholder, content: text },
                ),
                Event::Completed { reply: Err(detail) } => (
                    Phase::Apologising { detail },
                    Action::Edit {
                        channel: message.channel,
                        message: placeholder,
                        content: "Sorry, an error has occurred. Please try again later!".to_owned(),
                    },
                ),
                _ => (Phase::Finished, Action::Stop),
            },
            Phase::Apologising { detail } => (Phase::Closing, Action::Report { detail }),
            Phase::Closing => (Phase::Finished, Action::Stop),
            Phase::Finished => (Phase::Finished, Action::Stop),
        };
        (Relay { config, message, phase }, action)
    }

    /// Whether nothing is left to do.
    pub fn finished(&self) -> (done: bool)
        ensures
            done == (self@.phase == PhaseView::Finished),
    {
        match self.phase {
            Phase::Finished => true,
            _ => false,
        }
    }
}

} // verus!
