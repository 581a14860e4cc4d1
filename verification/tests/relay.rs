use discord_relay::config::Config;
use discord_relay::relay::{Action, ChatRequest, Event, InboundMessage, Phase, Relay, TOKEN_LIMIT};
use std::collections::HashMap;

const CONFIRMATION: &str = "Ok, I am starting a new conversation.";
const REJECTION: &str =
    "Sorry, I do not recognize this command. Do you mean to say /restart to start a new conversation?";
const APOLOGY: &str = "Sorry, an error has occurred. Please try again later!";

/// What lies outside the relay in these tests.
struct World {
    flags: HashMap<String, bool>,
    posted: Option<u64>,
    reply: Result<String, String>,
}

fn settings() -> Config {
    Config::resolve(
        Some("secret".to_string()),
        Some("Thinking".to_string()),
        Some("You are a pirate.".to_string()),
        None,
    )
    .unwrap()
}

fn human(channel: u64, content: &str) -> InboundMessage {
    InboundMessage {
        author_is_bot: false,
        channel,
        content: content.to_string(),
    }
}

fn bot(channel: u64, content: &str) -> InboundMessage {
    InboundMessage {
        author_is_bot: true,
        channel,
        content: content.to_string(),
    }
}

fn world(flags: &[(&str, bool)], posted: Option<u64>, reply: Result<&str, &str>) -> World {
    World {
        flags: flags.iter().map(|(k, v)| (k.to_string(), *v)).collect(),
        posted,
        reply: reply.map(|t| t.to_string()).map_err(|e| e.to_string()),
    }
}

fn request(conversation: &str, prompt: &str, restart: bool) -> Action {
    Action::Complete {
        request: ChatRequest {
            conversation: conversation.to_string(),
            prompt: prompt.to_string(),
            restart,
            system_prompt: "You are a pirate.".to_string(),
            token_limit: 4096,
        },
    }
}

fn send(channel: u64, content: &str) -> Action {
    Action::Send {
        channel,
        content: content.to_string(),
    }
}

fn edit(channel: u64, message: u64, content: &str) -> Action {
    Action::Edit {
        channel,
        message,
        content: content.to_string(),
    }
}

fn read(key: &str) -> Action {
    Action::ReadFlag {
        key: key.to_string(),
    }
}

fn write(key: &str, restart: bool) -> Action {
    Action::WriteFlag {
        key: key.to_string(),
        restart,
    }
}

/// Carries out every action that the relay asks for and gives back what
/// was asked, in order.
fn handle(config: &Config, message: InboundMessage, world: &mut World) -> Vec<Action> {
    let mut done = Vec::new();
    let (mut relay, mut action) = Relay::start(config, message);
    let mut rounds = 0;
    while action != Action::Stop {
        rounds += 1;
        assert!(rounds <= 6, "the relay asks for at most six actions");
        let event = match &action {
            Action::Send { .. } => Event::Sent {
                message: world.posted,
            },
            Action::ReadFlag { key } => Event::FlagRead {
                flag: world.flags.get(key).copied(),
            },
            Action::WriteFlag { key, restart } => {
                world.flags.insert(key.clone(), *restart);
                Event::Done
            }
            Action::Complete { .. } => Event::Completed {
                reply: world.reply.clone(),
            },
            Action::Edit { .. } | Action::Report { .. } => Event::Done,
            Action::Stop => unreachable!(),
        };
        done.push(action);
        (relay, action) = relay.step(event);
    }
    assert!(relay.finished());
    done
}

#[test]
fn token_limit_is_fixed() {
    assert_eq!(TOKEN_LIMIT, 4096);
}

#[test]
fn bot_message_asks_for_nothing() {
    let config = settings();
    for content in ["hello", "/restart", "/help", ""] {
        let mut w = world(&[("5", true)], Some(9), Ok("hi"));
        let (relay, action) = Relay::start(&config, bot(5, content));
        assert_eq!(action, Action::Stop);
        assert!(relay.finished());
        assert_eq!(handle(&config, bot(5, content), &mut w), vec![]);
        assert_eq!(w.flags.len(), 1);
        assert_eq!(w.flags.get("5"), Some(&true));
    }
}

#[test]
fn restart_is_confirmed_and_stored() {
    let config = settings();
    for content in ["/restart", "/RESTART", "/rEsTaRt"] {
        let mut w = world(&[("8", false)], Some(9), Ok("hi"));
        let asked = handle(&config, human(77, content), &mut w);
        assert_eq!(asked, vec![send(77, CONFIRMATION), write("77", true)]);
        assert_eq!(w.flags.get("77"), Some(&true));
        assert_eq!(w.flags.get("8"), Some(&false));
        assert_eq!(w.flags.len(), 2);
    }
}

#[test]
fn restart_is_stored_though_confirmation_fails() {
    let config = settings();
    let mut w = world(&[], None, Ok("hi"));
    let asked = handle(&config, human(77, "/restart"), &mut w);
    assert_eq!(asked, vec![send(77, CONFIRMATION), write("77", true)]);
    assert_eq!(w.flags.get("77"), Some(&true));
}

#[test]
fn restart_overwrites_stored_flag() {
    let config = settings();
    let mut w = world(&[("77", false)], Some(1), Ok("hi"));
    handle(&config, human(77, "/restart"), &mut w);
    assert_eq!(w.flags.get("77"), Some(&true));
    handle(&config, human(77, "/Restart"), &mut w);
    assert_eq!(w.flags.get("77"), Some(&true));
}

#[test]
fn unknown_command_is_rejected() {
    let config = settings();
    for content in ["/", "/help", "/restart please", "/restarts"] {
        let mut w = world(&[("3", true)], Some(9), Ok("hi"));
        let asked = handle(&config, human(3, content), &mut w);
        assert_eq!(asked, vec![send(3, REJECTION)]);
        assert_eq!(w.flags.len(), 1);
        assert_eq!(w.flags.get("3"), Some(&true));
    }
}

#[test]
fn set_flag_is_cleared_and_passed_on() {
    let config = settings();
    let mut w = world(&[("12", true), ("13", true)], Some(500), Ok("Ahoy!"));
    let asked = handle(&config, human(12, "hello there"), &mut w);
    assert_eq!(
        asked,
        vec![
            read("12"),
            write("12", false),
            send(12, "Thinking"),
            request("12", "hello there", true),
            edit(12, 500, "Ahoy!"),
        ]
    );
    assert_eq!(w.flags.get("12"), Some(&false));
    assert_eq!(w.flags.get("13"), Some(&true));
}

#[test]
fn flag_is_used_once() {
    let config = settings();
    let mut w = world(&[], Some(500), Ok("Ahoy!"));
    handle(&config, human(12, "/restart"), &mut w);
    let first = handle(&config, human(12, "one"), &mut w);
    let second = handle(&config, human(12, "two"), &mut w);
    assert_eq!(first[3], request("12", "one", true));
    assert_eq!(
        second,
        vec![
            read("12"),
            send(12, "Thinking"),
            request("12", "two", false),
            edit(12, 500, "Ahoy!"),
        ]
    );
    assert_eq!(w.flags.get("12"), Some(&false));
}

#[test]
fn set_flag_is_cleared_though_placeholder_fails() {
    let config = settings();
    let mut w = world(&[("12", true)], None, Ok("Ahoy!"));
    let asked = handle(&config, human(12, "hello"), &mut w);
    assert_eq!(asked, vec![read("12"), write("12", false), send(12, "Thinking")]);
    assert_eq!(w.flags.get("12"), Some(&false));
}

#[test]
fn absent_flag_means_no_restart() {
    let config = settings();
    let mut w = world(&[("13", true)], Some(500), Ok("Ahoy!"));
    let asked = handle(&config, human(12, "hello there"), &mut w);
    assert_eq!(
        asked,
        vec![
            read("12"),
            send(12, "Thinking"),
            request("12", "hello there", false),
            edit(12, 500, "Ahoy!"),
        ]
    );
    assert_eq!(w.flags.get("12"), None);
    assert_eq!(w.flags.get("13"), Some(&true));
}

#[test]
fn unset_flag_means_no_restart() {
    let config = settings();
    let mut w = world(&[("12", false)], Some(500), Ok("Ahoy!"));
    let asked = handle(&config, human(12, "hello there"), &mut w);
    assert_eq!(asked[1], send(12, "Thinking"));
    assert_eq!(asked[2], request("12", "hello there", false));
    assert_eq!(w.flags.get("12"), Some(&false));
}

#[test]
fn placeholder_failure_ends_the_relay() {
    let config = settings();
    let mut w = world(&[], None, Ok("Ahoy!"));
    let asked = handle(&config, human(12, "hello"), &mut w);
    assert_eq!(asked, vec![read("12"), send(12, "Thinking")]);
    assert!(w.flags.is_empty());
}

#[test]
fn answer_goes_into_placeholder() {
    let config = settings();
    for text in ["T", "", "/restart", "line one\nline two", "\u{1f600} \u{e9}"] {
        let mut w = world(&[], Some(31), Ok(text));
        let asked = handle(&config, human(4, "question"), &mut w);
        assert_eq!(asked.len(), 4);
        assert_eq!(asked[3], edit(4, 31, text));
    }
}

#[test]
fn failure_gives_apology_whatever_the_reason() {
    let config = settings();
    for reason in ["", "rate limited", "Unexpected error", APOLOGY, "T"] {
        let mut w = world(&[], Some(31), Err(reason));
        let asked = handle(&config, human(4, "question"), &mut w);
        assert_eq!(
            asked,
            vec![
                read("4"),
                send(4, "Thinking"),
                request("4", "question", false),
                edit(4, 31, APOLOGY),
                Action::Report {
                    detail: reason.to_string()
                },
            ]
        );
    }
}

#[test]
fn default_settings_reach_the_actions() {
    let config = Config::resolve(Some("secret".to_string()), None, None, None).unwrap();
    let mut w = world(&[], Some(2), Ok("fine"));
    let asked = handle(&config, human(1, "how are you?"), &mut w);
    assert_eq!(asked[1], send(1, "Typing ..."));
    assert_eq!(
        asked[2],
        Action::Complete {
            request: ChatRequest {
                conversation: "1".to_string(),
                prompt: "how are you?".to_string(),
                restart: false,
                system_prompt: ".".to_string(),
                token_limit: 4096,
            },
        }
    );
}

#[test]
fn key_is_the_channel_in_decimal() {
    let config = settings();
    let (_, action) = Relay::start(&config, human(u64::MAX, "hi"));
    assert_eq!(action, read("18446744073709551615"));
    let (_, action) = Relay::start(&config, human(0, "hi"));
    assert_eq!(action, read("0"));
    let (relay, _) = Relay::start(&config, human(1098765432101234567, "/restart"));
    let (_, action) = relay.step(Event::Done);
    assert_eq!(action, write("1098765432101234567", true));
}

#[test]
fn start_keeps_settings_and_message() {
    let config = settings();
    let (relay, _) = Relay::start(&config, human(6, "hi"));
    assert_eq!(relay.config, config);
    assert_eq!(relay.message, human(6, "hi"));
    assert_eq!(relay.phase, Phase::ReadingFlag);
    let (relay, _) = relay.step(Event::FlagRead { flag: None });
    assert_eq!(relay.config, config);
    assert_eq!(relay.message, human(6, "hi"));
    assert_eq!(relay.phase, Phase::Announcing { restart: false });
}

#[test]
fn phases_follow_each_other() {
    let config = settings();
    let (relay, _) = Relay::start(&config, human(6, "hi"));
    let (relay, _) = relay.step(Event::FlagRead { flag: Some(true) });
    assert_eq!(relay.phase, Phase::ClearingFlag);
    let (relay, _) = relay.step(Event::Done);
    assert_eq!(relay.phase, Phase::Announcing { restart: true });
    let (relay, _) = relay.step(Event::Sent { message: Some(70) });
    assert_eq!(relay.phase, Phase::Completing { placeholder: 70 });
    let (relay, action) = relay.step(Event::Completed {
        reply: Err("down".to_string()),
    });
    assert_eq!(
        relay.phase,
        Phase::Apologising {
            detail: "down".to_string()
        }
    );
    assert_eq!(action, edit(6, 70, APOLOGY));
    assert!(!relay.finished());
    let (relay, action) = relay.step(Event::Done);
    assert_eq!(relay.phase, Phase::Closing);
    assert_eq!(
        action,
        Action::Report {
            detail: "down".to_string()
        }
    );
    let (relay, action) = relay.step(Event::Done);
    assert_eq!(relay.phase, Phase::Finished);
    assert_eq!(action, Action::Stop);
    assert!(relay.finished());
}

#[test]
fn outcome_of_another_kind_ends_the_relay() {
    let config = settings();
    let (relay, _) = Relay::start(&config, human(6, "hi"));
    let (relay, action) = relay.step(Event::Sent { message: Some(1) });
    assert_eq!(action, Action::Stop);
    assert!(relay.finished());

    let (relay, _) = Relay::start(&config, human(6, "hi"));
    let (relay, _) = relay.step(Event::FlagRead { flag: None });
    let (relay, action) = relay.step(Event::Done);
    assert_eq!(action, Action::Stop);
    assert!(relay.finished());

    let (relay, _) = Relay::start(&config, human(6, "hi"));
    let (relay, _) = relay.step(Event::FlagRead { flag: None });
    let (relay, _) = relay.step(Event::Sent { message: Some(1) });
    let (relay, action) = relay.step(Event::FlagRead { flag: Some(true) });
    assert_eq!(action, Action::Stop);
    assert!(relay.finished());
}

#[test]
fn finished_relay_stays_finished() {
    let config = settings();
    let (relay, _) = Relay::start(&config, bot(6, "hi"));
    let (relay, action) = relay.step(Event::Completed {
        reply: Ok("late".to_string()),
    });
    assert_eq!(action, Action::Stop);
    let (relay, action) = relay.step(Event::Sent { message: Some(3) });
    assert_eq!(action, Action::Stop);
    assert!(relay.finished());
}

#[test]
fn fire_and_forget_outcomes_are_not_looked_at() {
    let config = settings();
    let (relay, _) = Relay::start(&config, human(6, "/restart"));
    let (relay, action) = relay.step(Event::Completed {
        reply: Err("odd".to_string()),
    });
    assert_eq!(action, write("6", true));
    let (_, action) = relay.step(Event::FlagRead { flag: Some(false) });
    assert_eq!(action, Action::Stop);
}

#[test]
fn other_channels_keep_their_flags() {
    let config = settings();
    for content in ["/restart", "/help", "hello"] {
        let mut w = world(&[("1", true), ("21", false), ("2", true)], Some(9), Ok("hi"));
        handle(&config, human(12, content), &mut w);
        assert_eq!(w.flags.get("1"), Some(&true));
        assert_eq!(w.flags.get("21"), Some(&false));
        assert_eq!(w.flags.get("2"), Some(&true));
    }
}

#[test]
fn channels_have_their_own_keys() {
    let config = settings();
    let channels = [0u64, 1, 10, 100, 101, 110, 1000000, u64::MAX - 1, u64::MAX];
    for (i, one) in channels.iter().enumerate() {
        for (j, other) in channels.iter().enumerate() {
            let (_, first) = Relay::start(&config, human(*one, "hi"));
            let (_, second) = Relay::start(&config, human(*other, "hi"));
            assert_eq!(first == second, i == j);
        }
    }
}

#[test]
fn relay_never_asks_for_more_than_six_actions() {
    let config = settings();
    for content in ["/restart", "/help", "hello", ""] {
        for flag in [None, Some(false), Some(true)] {
            for posted in [None, Some(3)] {
                for reply in [Ok("fine"), Err("down")] {
                    let stored: Vec<(&str, bool)> = flag.iter().map(|f| ("12", *f)).collect();
                    let mut w = world(&stored, posted, reply);
                    let asked = handle(&config, human(12, content), &mut w);
                    assert!(asked.len() <= 6);
                    let posts = asked
                        .iter()
                        .filter(|a| matches!(a, Action::Send { .. }))
                        .count();
                    let edits = asked
                        .iter()
                        .filter(|a| matches!(a, Action::Edit { .. }))
                        .count();
                    let writes = asked
                        .iter()
                        .filter(|a| matches!(a, Action::WriteFlag { .. }))
                        .count();
                    let asks = asked
                        .iter()
                        .filter(|a| matches!(a, Action::Complete { .. }))
                        .count();
                    assert!(posts <= 1 && edits <= 1 && writes <= 1 && asks <= 1);
                }
            }
        }
    }
}
