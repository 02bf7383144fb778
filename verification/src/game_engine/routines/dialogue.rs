//! Running a conversation from its first line to its last.

use crate::models::dialogue::dialogue::{
    process_dialogue_text, substituted, Dialogue, PLACEHOLDER_PATTERN,
};
use crate::pattern::captures_of;
use crate::text::{from_chars, to_chars, trim, trimmed};
use vstd::prelude::*;

verus! {

pub struct DialogueRoutine {
    /// The line that the conversation begins with.
    pub root_node: Dialogue,
}

/// What the player is asked for after a line has been shown.
#[derive(Clone, Copy, Debug, PartialEq, Eq, Structural)]
pub enum Prompt {
    /// One of the answers of the line.
    Choice,
    /// A text to type.
    Input,
    /// Nothing but a key to go on.
    Continue,
}

/// What the player is asked for after a line: a choice where the line has
/// answers, else a text where it asks for one, else a key to go on.
pub open spec fn prompt_of(node: Dialogue) -> Prompt {
    if node.responses matches Some(r) && r@.len() > 0 {
        Prompt::Choice
    } else if node.has_input == Some(true) {
        Prompt::Input
    } else {
        Prompt::Continue
    }
}

impl DialogueRoutine {
    /// The conversation that begins with the given line.
    pub fn new(root_node: Dialogue) -> (out: Self)
        ensures
            out.root_node == root_node,
    {
        DialogueRoutine { root_node }
    }

    /// What may be shown of the save file in a conversation, name by name.
    pub fn whitelisted_data() -> (data: Vec<(String, String)>)
        ensures
            data@.len() == 2,
            data@[0].0@ == "player.name"@,
            data@[0].1@ == "Nick"@,
            data@[1].0@ == "player.height"@,
            data@[1].1@ == "Tall"@,
    {
        let mut data: Vec<(String, String)> = Vec::new();
        data.push((String::from_str("player.name"), String::from_str("Nick")));
        data.push((String::from_str("player.height"), String::from_str("Tall")));
        data
    }

    /// The text of a line as it is shown, with what the player has typed so
    /// far and what may be shown of the save file put in.
    pub fn shown_text(node: &Dialogue, args: &Vec<String>, data: &Vec<(String, String)>) -> (out:
        String)
        ensures
            out@ == match captures_of(PLACEHOLDER_PATTERN@, node.text@) {
                Some(pairs) => substituted(node.text@, pairs, args@, data@),
                None => node.text@,
            },
    {
        process_dialogue_text(node.get_text(), args, data)
    }

    /// What the player is asked for after a line has been shown.
    pub fn prompt(node: &Dialogue) -> (out: Prompt)
        ensures
            out == prompt_of(*node),
    {
        if node.is_choices_node() {
            Prompt::Choice
        } else if node.is_input_node() {
            Prompt::Input
        } else {
            Prompt::Continue
        }
    }

    /// Takes what the player typed: trimmed, it is added to the arguments
    /// of the conversation. A text of nothing but white space is not taken,
    /// and the player is asked again.
    pub fn take_input(args: &mut Vec<String>, input: &str) -> (taken: bool)
        ensures
            taken == (trimmed(input@).len() > 0),
            taken ==> final(args)@.len() == old(args)@.len() + 1 && final(args)@.last()@ == trimmed(
                input@,
            ) && final(args)@.drop_last() == old(args)@,
            !taken ==> final(args)@ == old(args)@,
    {
        let chars: Vec<char> = to_chars(input);
        let core: Vec<char> = trim(&chars);
        if core.len() == 0 {
            false
        } else {
            args.push(from_chars(&core));
            assert(args@.drop_last() =~= old(args)@);
            true
        }
    }

    /// Whether the conversation is over after a line: no line follows it.
    pub fn is_over(node: &Dialogue) -> (out: bool)
        ensures
            out == (node.next_id is None),
    {
        node.is_end_node()
    }
}

} // verus!
