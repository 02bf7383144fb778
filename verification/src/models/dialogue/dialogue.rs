//! A line of dialogue, and the text that is shown for it.

use crate::models::dialogue::character_type::CharacterType;
use crate::models::dialogue::dialogue_response::DialogueResponse;
use crate::pattern::{capture_pairs, captures_of, find_captures, Capture};
use crate::text::{
    from_chars, has_prefix_at, parse_number, parsed_number, replace, replaced, same_chars,
    starts_with, to_chars,
};
use vstd::prelude::*;

verus! {

/// One line of a conversation.
#[derive(Clone, Debug)]
pub struct Dialogue {
    pub id: u32,
    /// Who speaks: a player or a non-player character of this number.
    pub character_id: u32,
    pub character_type: CharacterType,
    /// Whether a conversation begins with this line.
    pub root: Option<bool>,
    /// The name under which such a line is found.
    pub root_name: Option<String>,
    pub text: String,
    /// The answers to choose from, where there are any.
    pub responses: Option<Vec<DialogueResponse>>,
    /// Whether the player types an answer.
    pub has_input: Option<bool>,
    pub input_type: Option<String>,
    /// The line that follows.
    pub next_id: Option<u32>,
}

impl Dialogue {
    /// A line of the given parts.
    pub fn new(
        id: u32,
        character_id: u32,
        character_type: CharacterType,
        root: Option<bool>,
        root_name: Option<String>,
        text: String,
        responses: Option<Vec<DialogueResponse>>,
        has_input: Option<bool>,
        input_type: Option<String>,
        next_id: Option<u32>,
    ) -> (out: Dialogue)
        ensures
            out.id == id,
            out.character_id == character_id,
            out.character_type == character_type,
            out.root == root,
            out.root_name == root_name,
            out.text == text,
            out.responses == responses,
            out.has_input == has_input,
            out.input_type == input_type,
            out.next_id == next_id,
    {
        Dialogue {
            id,
            character_id,
            character_type,
            root,
            root_name,
            text,
            responses,
            has_input,
            input_type,
            next_id,
        }
    }

    /// Whether the conversation ends with this line: no line follows.
    pub fn is_end_node(&self) -> (out: bool)
        ensures
            out == (self.next_id is None),
    {
        self.next_id.is_none()
    }

    /// Whether the player types an answer to this line.
    pub fn is_input_node(&self) -> (out: bool)
        ensures
            out == (self.has_input == Some(true)),
    {
        match self.has_input {
            Some(flag) => flag,
            None => false,
        }
    }

    /// Whether a conversation begins with this line.
    pub fn is_root_node(&self) -> (out: bool)
        ensures
            out == (self.root == Some(true)),
    {
        match self.root {
            Some(flag) => flag,
            None => false,
        }
    }

    /// Whether the line has answers to choose from: at least one.
    pub fn is_choices_node(&self) -> (out: bool)
        ensures
            out == (self.responses matches Some(r) && r@.len() > 0),
    {
        match &self.responses {
            Some(responses) => responses.len() > 0,
            None => false,
        }
    }

    /// The text of the line.
    pub fn get_text(&self) -> (out: &str)
        ensures
            out@ == self.text@,
    {
        self.text.as_str()
    }

    /// The answers of the line.
    pub fn get_responses(&self) -> (out: &Option<Vec<DialogueResponse>>)
        ensures
            *out == self.responses,
    {
        &self.responses
    }

    /// The answers of the line, to be changed in place.
    pub fn get_responses_mut(&mut self) -> (out: Option<&mut Vec<DialogueResponse>>)
        ensures
            match out {
                Some(responses) => {
                    &&& old(self).responses == Some(*responses)
                    &&& final(self).responses == Some(*final(responses))
                },
                None => old(self).responses is None && final(self).responses is None,
            },
            final(self).id == old(self).id,
            final(self).character_id == old(self).character_id,
            final(self).character_type == old(self).character_type,
            final(self).root == old(self).root,
            final(self).root_name == old(self).root_name,
            final(self).text == old(self).text,
            final(self).has_input == old(self).has_input,
            final(self).input_type == old(self).input_type,
            final(self).next_id == old(self).next_id,
    {
        match &mut self.responses {
            Some(responses) => Some(responses),
            None => None,
        }
    }
}

/// The answers that a line is loaded with: none where the save file holds
/// no answer to it.
pub fn responses_found(found: Vec<DialogueResponse>) -> (out: Option<Vec<DialogueResponse>>)
    ensures
        out == if found@.len() == 0 {
            None
        } else {
            Some(found)
        },
{
    if found.len() == 0 {
        None
    } else {
        Some(found)
    }
}

/// The pattern of a placeholder: braces around one or more letters, digits,
/// dots, underscores and square brackets.
pub const PLACEHOLDER_PATTERN: &'static str = "\\{([a-zA-Z0-9._\\[\\]]+)\\}";

/// The value that the whitelist gives a name: that of the last entry of
/// this name.
pub open spec fn entry_value(data: Seq<(String, String)>, name: Seq<char>) -> Option<Seq<char>>
    decreases data.len(),
{
    if data.len() == 0 {
        None
    } else if data.last().0@ == name {
        Some(data.last().1@)
    } else {
        entry_value(data.drop_last(), name)
    }
}

/// The argument that a placeholder of the form `args[N]` asks for, where
/// there is an argument of that number.
pub open spec fn indexed_argument(inner: Seq<char>, args: Seq<String>) -> Option<Seq<char>> {
    let rest = inner.skip(5);
    if rest.len() > 0 && rest.last() == ']' {
        match parsed_number(rest.drop_last()) {
            Some(n) => if n < args.len() {
                Some(args[n as int]@)
            } else {
                None
            },
            None => None,
        }
    } else {
        None
    }
}

/// What stands in for a placeholder, where anything does: for `args[N]` the
/// argument of that number, for a name that begins with `player.` the value
/// that the whitelist gives it.
pub open spec fn placeholder_value(
    inner: Seq<char>,
    args: Seq<String>,
    data: Seq<(String, String)>,
) -> Option<Seq<char>> {
    if starts_with(inner, "args["@) {
        indexed_argument(inner, args)
    } else if starts_with(inner, "player."@) {
        entry_value(data, inner)
    } else {
        None
    }
}

/// The text after one placeholder has been dealt with: every occurrence of
/// it replaced by what stands in for it, or the text as it was where
/// nothing does.
pub open spec fn filled(
    text: Seq<char>,
    capture: (Seq<char>, Seq<char>),
    args: Seq<String>,
    data: Seq<(String, String)>,
) -> Seq<char> {
    match placeholder_value(capture.1, args, data) {
        Some(value) => replaced(text, capture.0, value),
        None => text,
    }
}

/// The text after the placeholders have been dealt with one after the
/// other, in the order in which they were found.
pub open spec fn substituted(
    text: Seq<char>,
    captures: Seq<(Seq<char>, Seq<char>)>,
    args: Seq<String>,
    data: Seq<(String, String)>,
) -> Seq<char>
    decreases captures.len(),
{
    if captures.len() == 0 {
        text
    } else {
        substituted(filled(text, captures[0], args, data), captures.drop_first(), args, data)
    }
}

/// Looks a name up in the whitelist.
fn find_entry(data: &Vec<(String, String)>, name: &Vec<char>) -> (out: Option<Vec<char>>)
    ensures
        match out {
            Some(value) => entry_value(data@, name@) == Some(value@),
            None => entry_value(data@, name@) is None,
        },
{
    let mut i: usize = data.len();
    proof {
        assert(data@.take(i as int) =~= data@);
    }
    while i > 0
        invariant
            i <= data@.len(),
            entry_value(data@, name@) == entry_value(data@.take(i as int), name@),
        decreases i,
    {
        i = i - 1;
        proof {
            assert(data@.take(i + 1).drop_last() =~= data@.take(i as int));
            assert(data@.take(i + 1).last() == data@[i as int]);
        }
        let key: Vec<char> = to_chars(data[i].0.as_str());
        if same_chars(&key, name) {
            return Some(to_chars(data[i].1.as_str()));
        }
    }
    None
}

/// Finds what stands in for a placeholder.
fn find_value(inner: &Vec<char>, args: &Vec<String>, data: &Vec<(String, String)>) -> (out: Option<
    Vec<char>,
>)
    ensures
        match out {
            Some(value) => placeholder_value(inner@, args@, data@) == Some(value@),
            None => placeholder_value(inner@, args@, data@) is None,
        },
{
    let args_mark: Vec<char> = to_chars("args[");
    let player_mark: Vec<char> = to_chars("player.");
    proof {
        reveal_strlit("args[");
        assert("args["@.len() == 5);
        assert(inner@.skip(0) =~= inner@);
    }
    if has_prefix_at(inner, 0, &args_mark) {
        let len: usize = inner.len();
        let count: usize = args.len();
        proof {
            if len > 5 {
                assert(inner@.skip(5).last() == inner@[len - 1]);
            }
        }
        if len > 5 && inner[len - 1] == ']' {
            let mut digits: Vec<char> = Vec::new();
            let mut i: usize = 5;
            while i < len - 1
                invariant
                    5 <= i <= len - 1,
                    len == inner@.len(),
                    digits@ == inner@.subrange(5, i as int),
                decreases len - i,
            {
                digits.push(inner[i]);
                assert(inner@.subrange(5, i + 1) =~= inner@.subrange(5, i as int).push(
                    inner@[i as int],
                ));
                i = i + 1;
            }
            assert(inner@.skip(5).drop_last() =~= inner@.subrange(5, len - 1));
            assert(inner@.skip(5).last() == inner@[len - 1]);
            assert(digits@ == inner@.skip(5).drop_last());
            match parse_number(&digits, u64::MAX) {
                Some(n) => {
                    if n < count as u64 {
                        Some(to_chars(args[n as usize].as_str()))
                    } else {
                        None
                    }
                },
                None => None,
            }
        } else {
            None
        }
    } else if has_prefix_at(inner, 0, &player_mark) {
        find_entry(data, inner)
    } else {
        None
    }
}

/// Puts values in the place of the placeholders that were found in a text.
///
/// The placeholders are dealt with in the order given. Of each, every
/// occurrence in the text as it then stands is replaced: `{args[N]}` by the
/// argument of number `N`, where there is one, and a name that begins with
/// `player.` by the value that the whitelist gives it, where it gives one.
/// Every other placeholder stays as it is.
pub fn substitute_placeholders(
    text: &str,
    captures: &Vec<Capture>,
    args: &Vec<String>,
    whitelisted_data: &Vec<(String, String)>,
) -> (out: String)
    ensures
        out@ == substituted(text@, capture_pairs(captures@), args@, whitelisted_data@),
{
    let mut result: Vec<char> = to_chars(text);
    let ghost pairs: Seq<(Seq<char>, Seq<char>)> = capture_pairs(captures@);
    let mut i: usize = 0;
    proof {
        assert(pairs.skip(0) =~= pairs);
    }
    while i < captures.len()
        invariant
            i <= captures@.len(),
            pairs == capture_pairs(captures@),
            substituted(result@, pairs.skip(i as int), args@, whitelisted_data@) == substituted(
                text@,
                pairs,
                args@,
                whitelisted_data@,
            ),
        decreases captures@.len() - i,
    {
        let whole: Vec<char> = to_chars(captures[i].whole.as_str());
        let inner: Vec<char> = to_chars(captures[i].inner.as_str());
        proof {
            assert(pairs.skip(i as int)[0] == (whole@, inner@));
            assert(pairs.skip(i as int).drop_first() =~= pairs.skip(i + 1));
        }
        match find_value(&inner, args, whitelisted_data) {
            Some(value) => {
                result = replace(&result, &whole, &value);
            },
            None => {},
        }
        i = i + 1;
    }
    from_chars(&result)
}

/// The text of a line as it is shown: the placeholders that `regex` finds
/// in it are replaced as `substitute_placeholders` tells.
///
/// `args` holds what the player has typed in this conversation so far;
/// `whitelisted_data` holds, name by name as a list of pairs, what may be
/// shown of the save file.
pub fn process_dialogue_text(
    text: &str,
    args: &Vec<String>,
    whitelisted_data: &Vec<(String, String)>,
) -> (out: String)
    ensures
        out@ == match captures_of(PLACEHOLDER_PATTERN@, text@) {
            Some(pairs) => substituted(text@, pairs, args@, whitelisted_data@),
            None => text@,
        },
{
    match find_captures(PLACEHOLDER_PATTERN, text) {
        Some(captures) => substitute_placeholders(text, &captures, args, whitelisted_data),
        None => String::from_str(text),
    }
}

} // verus!
