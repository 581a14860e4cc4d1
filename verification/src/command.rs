//! What kind of message a text is.

use crate::text::{
    ascii_lower, ascii_lowercase, eq_ignore_ascii_case, same_ignoring_ascii_case, starts_with,
};
use vstd::prelude::*;

verus! {

/// The kinds of message text.
#[derive(Clone, Copy, Debug, PartialEq, Eq, Structural)]
pub enum Command {
    /// The request to start a new conversation.
    Restart,
    /// A text that begins like a command and is none that the relay knows.
    Unknown,
    /// Anything else: a message for the language model.
    Chat,
}

/// Whether a text is the restart command: `/restart`, its letters in either
/// case, and nothing before or after it.
pub open spec fn is_restart(text: Seq<char>) -> bool {
    same_ignoring_ascii_case(text, "/restart"@)
}

/// Whether a text begins with the slash that marks a command.
pub open spec fn has_command_mark(text: Seq<char>) -> bool {
    text.len() > 0 && text[0] == '/'
}

/// The kind of a message text. The restart command is looked for first, so
/// it is never taken for an unknown command.
pub open spec fn command_of(text: Seq<char>) -> Command {
    if is_restart(text) {
        Command::Restart
    } else if has_command_mark(text) {
        Command::Unknown
    } else {
        Command::Chat
    }
}

/// Tells what kind of message a text is.
pub fn classify(text: &str) -> (command: Command)
    ensures
        command == command_of(text@),
{
    if eq_ignore_ascii_case(text, "/restart") {
        Command::Restart
    } else if starts_with(text, "/") {
        proof {
            reveal_strlit("/");
            assert("/"@[0] == text@.subrange(0, 1)[0]);
        }
        Command::Unknown
    } else {
        proof {
            reveal_strlit("/");
            if has_command_mark(text@) {
                assert("/"@ =~= text@.subrange(0, 1));
            }
        }
        Command::Chat
    }
}

/// The restart command spelled out: a text is the command exactly when it
/// has eight characters, each of which folds to the character of `/restart`
/// in its place. So the command itself begins with the command mark.
pub proof fn restart_spelling(text: Seq<char>)
    ensures
        "/restart"@ == seq!['/', 'r', 'e', 's', 't', 'a', 'r', 't'],
        is_restart(text) <==> text.len() == 8 && forall|i: int|
            0 <= i < 8 ==> ascii_lower(#[trigger] text[i]) == "/restart"@[i],
        is_restart(text) ==> has_command_mark(text),
{
    reveal_strlit("/restart");
    let word = "/restart"@;
    let folded = ascii_lowercase(text);
    let folded_word = ascii_lowercase(word);
    assert(word =~= seq!['/', 'r', 'e', 's', 't', 'a', 'r', 't']);
    assert(folded_word =~= word);
    if is_restart(text) {
        assert(folded.len() == 8);
        assert forall|i: int| 0 <= i < 8 implies ascii_lower(#[trigger] text[i])
            == word[i] by {
            assert(folded[i] == folded_word[i]);
        }
        assert(ascii_lower(text[0]) == '/');
    }
    if text.len() == 8 && forall|i: int|
        0 <= i < 8 ==> ascii_lower(#[trigger] text[i]) == word[i] {
        assert(folded =~= folded_word);
    }
}

} // verus!
