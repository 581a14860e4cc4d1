//! What the relay of a message comes to, once every action is carried out.
//!
//! The state machine of [`crate::relay`] only asks for actions. Here the
//! asking is played through against a model of what lies outside (the
//! store, the channel, the language model), and what holds of every such
//! play is proved.

use crate::command::{command_of, has_command_mark, is_restart, Command};
use crate::config::ConfigView;
use crate::relay::{
    announcement, apology_text, channel_key, confirmation_text, first_step, next_step,
    rejection_text, request_for, ActionView, EventView, MessageView, PhaseView,
};
use crate::text::decimal_is_one_to_one;
use vstd::prelude::*;

verus! {

/// What lies outside the relay while one message is handled.
pub struct World {
    /// The booleans that the store holds, by key.
    pub flags: Map<Seq<char>, bool>,
    /// What posting a message comes to: the id of the new message, `None`
    /// where posting fails.
    pub posted: Option<u64>,
    /// What the language model answers: its text, or the reason of its
    /// failure.
    pub reply: Result<Seq<char>, Seq<char>>,
}

/// What the relay of a message came to: the actions that were carried out,
/// in their order, and the booleans that the store holds afterwards.
pub struct Outcome {
    pub actions: Seq<ActionView>,
    pub flags: Map<Seq<char>, bool>,
}

/// The boolean that the store holds under a key, if any.
pub open spec fn flag_at(flags: Map<Seq<char>, bool>, key: Seq<char>) -> Option<bool> {
    if flags.dom().contains(key) {
        Some(flags[key])
    } else {
        None
    }
}

/// The store after an action was carried out. Only a write changes it: the
/// key then holds the boolean written, whatever it held before.
pub open spec fn flags_after(flags: Map<Seq<char>, bool>, action: ActionView) -> Map<
    Seq<char>,
    bool,
> {
    match action {
        ActionView::WriteFlag { key, restart } => flags.insert(key, restart),
        _ => flags,
    }
}

/// The outcome that carrying an action out hands back to the relay.
pub open spec fn outcome_of(world: World, action: ActionView) -> EventView {
    match action {
        ActionView::Send { .. } => EventView::Sent { message: world.posted },
        ActionView::ReadFlag { key } => EventView::FlagRead { flag: flag_at(world.flags, key) },
        ActionView::Complete { .. } => EventView::Completed { reply: world.reply },
        _ => EventView::Done,
    }
}

/// A bound on the number of actions that a phase can still ask for.
pub open spec fn steps_left(phase: PhaseView) -> nat {
    match phase {
        PhaseView::Finished => 0,
        PhaseView::Closing => 1,
        PhaseView::Confirming => 2,
        PhaseView::Apologising { .. } => 2,
        PhaseView::Completing { .. } => 3,
        PhaseView::Announcing { .. } => 4,
        PhaseView::ClearingFlag => 5,
        PhaseView::ReadingFlag => 6,
    }
}

/// Plays the relay on from a phase and the action it asked for: the action
/// is carried out, its outcome handed back, and so on until the relay asks
/// to stop.
pub open spec fn run(
    config: ConfigView,
    message: MessageView,
    phase: PhaseView,
    action: ActionView,
    world: World,
) -> Outcome
    decreases steps_left(phase), (if action is Stop { 0nat } else { 1nat }),
{
    if action is Stop {
        Outcome { actions: Seq::empty(), flags: world.flags }
    } else {
        let event = outcome_of(world, action);
        let after = World { flags: flags_after(world.flags, action), ..world };
        let (next_phase, next_action) = next_step(config, message, phase, event);
        let rest = run(config, message, next_phase, next_action, after);
        Outcome { actions: seq![action] + rest.actions, flags: rest.flags }
    }
}

/// The whole relay of one message.
pub open spec fn handle(config: ConfigView, message: MessageView, world: World) -> Outcome {
    let (phase, action) = first_step(config, message);
    run(config, message, phase, action, world)
}

/// What is asked for once the placeholder is posted: the completion, then
/// the edit that puts the answer or the apology into the placeholder, and
/// after an apology the record of the failure.
pub open spec fn completion_part(
    config: ConfigView,
    message: MessageView,
    restart: bool,
    placeholder: u64,
    reply: Result<Seq<char>, Seq<char>>,
) -> Seq<ActionView> {
    let ask = ActionView::Complete { request: request_for(config, message, restart) };
    match reply {
        Ok(text) => seq![
            ask,
            ActionView::Edit { channel: message.channel, message: placeholder, content: text },
        ],
        Err(detail) => seq![
            ask,
            ActionView::Edit {
                channel: message.channel,
                message: placeholder,
                content: apology_text(),
            },
            ActionView::Report { detail },
        ],
    }
}

/// Every action of the relay of a message, written out case by case.
pub open spec fn transcript(config: ConfigView, message: MessageView, world: World) -> Seq<
    ActionView,
> {
    let key = channel_key(message.channel);
    if message.author_is_bot {
        Seq::empty()
    } else {
        match command_of(message.content) {
            Command::Restart => seq![
                ActionView::Send { channel: message.channel, content: confirmation_text() },
                ActionView::WriteFlag { key, restart: true },
            ],
            Command::Unknown => seq![
                ActionView::Send { channel: message.channel, content: rejection_text() },
            ],
            Command::Chat => {
                let restart = flag_at(world.flags, key) == Some(true);
                let opening = if restart {
                    seq![
                        ActionView::ReadFlag { key },
                        ActionView::WriteFlag { key, restart: false },
                        announcement(config, message),
                    ]
                } else {
                    seq![ActionView::ReadFlag { key }, announcement(config, message)]
                };
                match world.posted {
                    None => opening,
                    Some(placeholder) => opening + completion_part(
                        config,
                        message,
                        restart,
                        placeholder,
                        world.reply,
                    ),
                }
            },
        }
    }
}

/// The relay of a message asks for exactly the actions of its transcript,
/// in that order, and so for six at most. The store changes by the one
/// write of the transcript, where it has one, and not otherwise.
pub proof fn relay_follows_transcript(config: ConfigView, message: MessageView, world: World)
    ensures
        handle(config, message, world).actions == transcript(config, message, world),
        handle(config, message, world).actions.len() <= 6,
        handle(config, message, world).flags == if message.author_is_bot {
            world.flags
        } else {
            match command_of(message.content) {
                Command::Restart => world.flags.insert(channel_key(message.channel), true),
                Command::Unknown => world.flags,
                Command::Chat => if flag_at(world.flags, channel_key(message.channel)) == Some(
                    true,
                ) {
                    world.flags.insert(channel_key(message.channel), false)
                } else {
                    world.flags
                },
            }
        },
{
    reveal_with_fuel(run, 8);
    assert(handle(config, message, world).actions =~= transcript(config, message, world));
}

/// A message that a bot wrote is passed over: nothing is posted, and the
/// store stays as it was.
pub proof fn bot_message_is_passed_over(config: ConfigView, message: MessageView, world: World)
    requires
        message.author_is_bot,
    ensures
        handle(config, message, world).actions == Seq::<ActionView>::empty(),
        handle(config, message, world).flags == world.flags,
{
}

/// The restart command, in whatever case its letters are written, is
/// confirmed in the channel, and the store then holds `true` for the
/// channel. Nothing else is done, and no other key changes.
pub proof fn restart_command_sets_flag(config: ConfigView, message: MessageView, world: World)
    requires
        !message.author_is_bot,
        is_restart(message.content),
    ensures
        handle(config, message, world).actions == seq![
            ActionView::Send { channel: message.channel, content: confirmation_text() },
            ActionView::WriteFlag { key: channel_key(message.channel), restart: true },
        ],
        handle(config, message, world).flags == world.flags.insert(
            channel_key(message.channel),
            true,
        ),
        flag_at(handle(config, message, world).flags, channel_key(message.channel)) == Some(
            true,
        ),
{
    reveal_with_fuel(run, 4);
    let out = handle(config, message, world);
    assert(out.actions =~= seq![
        ActionView::Send { channel: message.channel, content: confirmation_text() },
        ActionView::WriteFlag { key: channel_key(message.channel), restart: true },
    ]);
}

/// A text that begins with a slash and is not the restart command is
/// answered with the fixed rejection. Nothing else is done, and the store
/// stays as it was.
pub proof fn unknown_command_is_rejected(config: ConfigView, message: MessageView, world: World)
    requires
        !message.author_is_bot,
        has_command_mark(message.content),
        !is_restart(message.content),
    ensures
        handle(config, message, world).actions == seq![
            ActionView::Send { channel: message.channel, content: rejection_text() },
        ],
        handle(config, message, world).flags == world.flags,
{
    reveal_with_fuel(run, 3);
    let out = handle(config, message, world);
    assert(out.actions =~= seq![
        ActionView::Send { channel: message.channel, content: rejection_text() },
    ]);
}

/// Where the store holds `true` for the channel, a message that is no
/// command clears the flag: after the read, `false` is written before
/// anything is posted, and the store then holds `false` for the channel.
/// Where the placeholder can be posted, the completion that is asked for
/// next starts a new conversation.
pub proof fn set_flag_is_used_up(config: ConfigView, message: MessageView, world: World)
    requires
        !message.author_is_bot,
        command_of(message.content) == Command::Chat,
        flag_at(world.flags, channel_key(message.channel)) == Some(true),
    ensures
        handle(config, message, world).flags == world.flags.insert(
            channel_key(message.channel),
            false,
        ),
        flag_at(handle(config, message, world).flags, channel_key(message.channel)) == Some(
            false,
        ),
        handle(config, message, world).actions.len() >= 3,
        handle(config, message, world).actions[0] == (ActionView::ReadFlag {
            key: channel_key(message.channel),
        }),
        handle(config, message, world).actions[1] == (ActionView::WriteFlag {
            key: channel_key(message.channel),
            restart: false,
        }),
        handle(config, message, world).actions[2] == announcement(config, message),
        world.posted is None ==> handle(config, message, world).actions.len() == 3,
        world.posted is Some ==> handle(config, message, world).actions.len() > 3 && handle(
            config,
            message,
            world,
        ).actions[3] == (ActionView::Complete { request: request_for(config, message, true) }),
{
    reveal_with_fuel(run, 8);
}

/// Where the store holds no flag for the channel, or one that is not set, a
/// message that is no command leaves the store as it was: after the read
/// the placeholder is posted at once. Where it can be posted, the
/// completion that is asked for next goes on with the conversation.
pub proof fn unset_flag_keeps_conversation(config: ConfigView, message: MessageView, world: World)
    requires
        !message.author_is_bot,
        command_of(message.content) == Command::Chat,
        flag_at(world.flags, channel_key(message.channel)) != Some(true),
    ensures
        handle(config, message, world).flags == world.flags,
        handle(config, message, world).actions.len() >= 2,
        handle(config, message, world).actions[0] == (ActionView::ReadFlag {
            key: channel_key(message.channel),
        }),
        handle(config, message, world).actions[1] == announcement(config, message),
        world.posted is None ==> handle(config, message, world).actions.len() == 2,
        world.posted is Some ==> handle(config, message, world).actions.len() > 2 && handle(
            config,
            message,
            world,
        ).actions[2] == (ActionView::Complete { request: request_for(config, message, false) }),
{
    reveal_with_fuel(run, 8);
}

/// Where the language model answers, its text goes into the placeholder as
/// it is: the last action writes exactly that text into the message that
/// was posted as the placeholder, and no failure is put on record.
pub proof fn answer_replaces_placeholder(
    config: ConfigView,
    message: MessageView,
    world: World,
    placeholder: u64,
    text: Seq<char>,
)
    requires
        !message.author_is_bot,
        command_of(message.content) == Command::Chat,
        world.posted == Some(placeholder),
        world.reply == Ok::<Seq<char>, Seq<char>>(text),
    ensures
        handle(config, message, world).actions.len() >= 4,
        handle(config, message, world).actions.last() == (ActionView::Edit {
            channel: message.channel,
            message: placeholder,
            content: text,
        }),
        forall|i: int|
            0 <= i < handle(config, message, world).actions.len() ==> !(#[trigger] handle(
                config,
                message,
                world,
            ).actions[i] is Report),
{
    reveal_with_fuel(run, 8);
}

/// Where the language model fails, the fixed apology goes into the
/// placeholder, whatever the reason of the failure says; the reason is put
/// on record afterwards, and that is the last action.
pub proof fn failure_is_apologised_for(
    config: ConfigView,
    message: MessageView,
    world: World,
    placeholder: u64,
    detail: Seq<char>,
)
    requires
        !message.author_is_bot,
        command_of(message.content) == Command::Chat,
        world.posted == Some(placeholder),
        world.reply == Err::<Seq<char>, Seq<char>>(detail),
    ensures
        handle(config, message, world).actions.len() >= 5,
        handle(config, message, world).actions[handle(config, message, world).actions.len() - 2]
            == (ActionView::Edit {
            channel: message.channel,
            message: placeholder,
            content: apology_text(),
        }),
        handle(config, message, world).actions.last() == (ActionView::Report { detail }),
{
    reveal_with_fuel(run, 8);
}

/// Each channel has a key of its own.
pub proof fn channels_have_their_own_keys(one: u64, other: u64)
    ensures
        channel_key(one) == channel_key(other) <==> one == other,
{
    decimal_is_one_to_one(one as nat, other as nat);
}

/// The relay of a message leaves the flags of all other channels as they
/// were, whatever the message is.
pub proof fn other_channels_keep_their_flags(
    config: ConfigView,
    message: MessageView,
    world: World,
    other: u64,
)
    requires
        other != message.channel,
    ensures
        flag_at(handle(config, message, world).flags, channel_key(other)) == flag_at(
            world.flags,
            channel_key(other),
        ),
{
    channels_have_their_own_keys(message.channel, other);
    relay_follows_transcript(config, message, world);
}

} // verus!
