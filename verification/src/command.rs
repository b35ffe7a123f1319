//! The line protocol on the agent's input: one command per line, a command
//! word and, after the first space, its arguments.

use crate::text::{lemma_prefix_len_split, lemma_prefix_len_without, prefix_len, split_once, trim,
    trimmed};
use vstd::prelude::*;

verus! {

/// The command word and the arguments that `line` holds, or `None` where the
/// line is empty but for white space. The word ends at the first space of the
/// trimmed line; the arguments are what follows that space.
pub open spec fn parsed_line(line: Seq<char>) -> Option<(Seq<char>, Seq<char>)> {
    let content = trimmed(line);
    let word = prefix_len(content, ' ') as int;
    if content.len() == 0 {
        None
    } else if word < content.len() {
        Some((content.take(word), content.skip(word + 1)))
    } else {
        Some((content, Seq::empty()))
    }
}

/// The command word of `line`, if it holds one.
pub open spec fn command_word(line: Seq<char>) -> Option<Seq<char>> {
    match parsed_line(line) {
        Some((word, _)) => Some(word),
        None => None,
    }
}

/// Splits `line` into its command word and its arguments.
pub fn parse_line(line: &str) -> (parts: Option<(&str, &str)>)
    ensures
        match parts {
            Some((word, arguments)) => parsed_line(line@) == Some((word@, arguments@)),
            None => parsed_line(line@) is None,
        },
{
    if line.is_empty() {
        return None;
    }
    let content = trim(line);
    if content.is_empty() {
        return None;
    }
    match split_once(content, ' ') {
        Some((word, arguments)) => {
            proof {
                lemma_prefix_len_split(word@, ' ', arguments@);
            }
            Some((word, arguments))
        },
        None => {
            proof {
                lemma_prefix_len_without(content@, ' ');
                reveal_strlit("");
            }
            Some((content, ""))
        },
    }
}

} // verus!
