//! Recognition of the two chat commands. A command is the first
//! whitespace-delimited token of the text, with anything from the first
//! '@' on (a bot-name suffix) stripped, matched literally.

use vstd::prelude::*;
use crate::text::{chars_of, first_token, is_ws, is_ws_char, lemma_first_ws_index_exact, range_eq_str};

verus! {

/// The closed set of commands the moderation pipeline understands.
#[derive(Clone, Copy, PartialEq, Eq, Structural, Debug)]
pub enum Command {
    Start,
    Confirm,
}

/// The index of the first '@' of `s`, or `s.len()` if there is none.
pub open spec fn first_at_index(s: Seq<char>) -> int
    decreases s.len(),
{
    if s.len() == 0 {
        0
    } else if s[0] == '@' {
        0
    } else {
        1 + first_at_index(s.drop_first())
    }
}

pub proof fn lemma_first_at_index_exact(s: Seq<char>, j: int)
    requires
        0 <= j <= s.len(),
        forall|k: int| 0 <= k < j ==> s[k] != '@',
        j < s.len() ==> s[j] == '@',
    ensures
        first_at_index(s) == j,
    decreases j,
{
    if j > 0 {
        lemma_first_at_index_exact(s.drop_first(), j - 1);
    }
}

/// The command name carried by `t`: its first token up to any '@'.
pub open spec fn command_name(t: Seq<char>) -> Seq<char> {
    let tok = first_token(t);
    tok.take(first_at_index(tok))
}

/// The command `t` carries, if any: its command name matched literally.
pub open spec fn parse_command_spec(t: Seq<char>) -> Option<Command> {
    let name = command_name(t);
    if name == "/start"@ {
        Some(Command::Start)
    } else if name == "/confirm"@ {
        Some(Command::Confirm)
    } else {
        None
    }
}

/// Parses the command of a text message, as `parse_command_spec`
/// describes.
pub fn parse_command(text: &str) -> (r: Option<Command>)
    ensures
        r == parse_command_spec(text@),
{
    let cs = chars_of(text);
    let n = cs.len();
    let mut i: usize = 0;
    while i < n && is_ws_char(cs[i])
        invariant
            0 <= i <= n,
            n == cs@.len(),
            forall|k: int| 0 <= k < i ==> is_ws(cs@[k]),
        decreases n - i,
    {
        i = i + 1;
    }
    let mut j: usize = i;
    while j < n && !is_ws_char(cs[j])
        invariant
            i <= j <= n,
            n == cs@.len(),
            forall|k: int| i <= k < j ==> !is_ws(cs@[k]),
        decreases n - j,
    {
        j = j + 1;
    }
    let mut k: usize = i;
    while k < j && cs[k] != '@'
        invariant
            i <= k <= j <= n,
            n == cs@.len(),
            forall|kk: int| i <= kk < k ==> cs@[kk] != '@',
        decreases j - k,
    {
        k = k + 1;
    }
    proof {
        crate::text::lemma_trim_start_exact(cs@, i as int);
        let s = cs@.subrange(i as int, n as int);
        lemma_first_ws_index_exact(s, j - i);
        let tok = first_token(cs@);
        assert(tok =~= cs@.subrange(i as int, j as int));
        lemma_first_at_index_exact(tok, k - i);
        assert(command_name(cs@) =~= cs@.subrange(i as int, k as int));
    }
    if range_eq_str(&cs, i, k, "/start") {
        Some(Command::Start)
    } else if range_eq_str(&cs, i, k, "/confirm") {
        Some(Command::Confirm)
    } else {
        None
    }
}

} // verus!
