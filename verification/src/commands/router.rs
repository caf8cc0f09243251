//! The command text protocol: from the body of a message to a command name
//! and its arguments.
//!
//! The first word of a body is the command token. It names a command if it
//! begins with `!` followed by word characters or hyphens; the name is
//! taken in lower case. The words after it are the arguments.

use crate::text::{lowercase, split_words, to_lowercase, views, words};
use vstd::prelude::*;
use vstd::string::StrSliceExecFns;

verus! {

/// The pattern whose matches are collapsed to a single space.
pub const WHITESPACE_PATTERN: &'static str = "\\s+";

/// The pattern that a lower-cased command token must match; its first group
/// is the command name.
pub const COMMAND_PATTERN: &'static str = "^!([\\w-]+)";

/// What `Regex::replace_all` of the regex crate makes of `haystack` when the
/// regex is compiled from `pattern` and every match is replaced by
/// `replacement`; `None` where `pattern` does not compile.
pub uninterp spec fn regex_replace_all(
    pattern: Seq<char>,
    haystack: Seq<char>,
    replacement: Seq<char>,
) -> Option<Seq<char>>;

/// What capture group number `group` holds after `Regex::captures` of the
/// regex crate searched `haystack` with the regex compiled from `pattern`;
/// `None` where `pattern` does not compile, where nothing matches, and where
/// the group took no part in the match.
pub uninterp spec fn regex_capture(pattern: Seq<char>, haystack: Seq<char>, group: usize) -> Option<
    Seq<char>,
>;

/// The view of an optional string.
pub open spec fn text_of(s: Option<String>) -> Option<Seq<char>> {
    match s {
        Some(s) => Some(s@),
        None => None,
    }
}

/// `Regex::new` and `Regex::replace_all` of the regex crate: compiles
/// `pattern` and replaces each non-overlapping match in `haystack` by
/// `replacement`; yields nothing where `pattern` does not compile. A
/// replacement without `$` refers to no capture group and is copied as it
/// stands. The result depends on the three texts alone, and that is all the
/// contract claims: it gives the result its name.
#[verifier::external_body]
fn replace_all(pattern: &str, haystack: &str, replacement: &str) -> (out: Option<String>)
    requires
        !replacement@.contains('$'),
    ensures
        text_of(out) == regex_replace_all(pattern@, haystack@, replacement@),
{
    let re = regex::Regex::new(pattern).ok()?;
    Some(re.replace_all(haystack, replacement).into_owned())
}

/// `Regex::new`, `Regex::captures` and `Captures::get` of the regex crate:
/// compiles `pattern`, searches `haystack` for the leftmost match and hands
/// back the text of capture group `group`; yields nothing where `pattern`
/// does not compile, where nothing matches, and where the group took no part
/// in the match. The result depends on the two texts and the group number
/// alone, and that is all the contract claims: it gives the result its name.
#[verifier::external_body]
fn capture(pattern: &str, haystack: &str, group: usize) -> (out: Option<String>)
    ensures
        text_of(out) == regex_capture(pattern@, haystack@, group),
{
    let re = regex::Regex::new(pattern).ok()?;
    let found = re.captures(haystack)?;
    let part = found.get(group)?;
    Some(part.as_str().to_string())
}

/// A body with every run of white space collapsed to one space. Should the
/// pattern fail to compile, the body stands as it is.
pub open spec fn normalized(body: Seq<char>) -> Seq<char> {
    match regex_replace_all(WHITESPACE_PATTERN@, body, " "@) {
        Some(collapsed) => collapsed,
        None => body,
    }
}

/// The command that a token names: the first group of the command pattern in
/// the lower-cased token, if the token begins with `!`; else the empty text,
/// which names no command.
pub open spec fn command_of(token: Seq<char>) -> Seq<char> {
    if token.len() > 0 && token[0] == '!' {
        match regex_capture(COMMAND_PATTERN@, lowercase(token), 1) {
            Some(name) => name,
            None => Seq::empty(),
        }
    } else {
        Seq::empty()
    }
}

/// The words that a body is read from: none for an empty body, else the
/// words of the normalised body.
pub open spec fn tokens(body: Seq<char>) -> Seq<Seq<char>> {
    if body.len() == 0 {
        Seq::empty()
    } else {
        words(normalized(body))
    }
}

/// The command token of a body: its first word, if there is one.
pub open spec fn command_token(body: Seq<char>) -> Option<Seq<char>> {
    if tokens(body).len() == 0 {
        None
    } else {
        Some(tokens(body)[0])
    }
}

/// The arguments of a body: its words after the command token.
pub open spec fn arguments(body: Seq<char>) -> Seq<Seq<char>> {
    tokens(body).skip(1)
}

/// A command name and its arguments, as read from the body of a message.
#[derive(Debug)]
pub struct ParsedCommand {
    /// The command name in lower case; empty if the body names no command.
    pub command: String,
    /// The words after the command token.
    pub args: Vec<String>,
}

/// Collapses every run of white space in `body` to a single space.
pub fn normalize(body: &str) -> (out: String)
    ensures
        out@ == normalized(body@),
{
    proof {
        reveal_strlit(" ");
        assert(!" "@.contains('$'));
    }
    match replace_all(WHITESPACE_PATTERN, body, " ") {
        Some(collapsed) => collapsed,
        None => body.to_owned(),
    }
}

/// Reads the command that `token` names.
pub fn command_from(token: &str) -> (name: String)
    ensures
        name@ == command_of(token@),
{
    if !token.is_empty() && token.get_char(0) == '!' {
        let lowered = to_lowercase(token);
        match capture(COMMAND_PATTERN, lowered.as_str(), 1) {
            Some(name) => name,
            None => String::new(),
        }
    } else {
        String::new()
    }
}

/// Splits a body into the words that it is read from.
pub fn tokenize(body: &str) -> (found: Vec<String>)
    ensures
        views(found@) == tokens(body@),
{
    if body.is_empty() {
        Vec::new()
    } else {
        let normal = normalize(body);
        split_words(normal.as_str())
    }
}

/// Reads the command and its arguments from the words of a body: the first
/// word is the command token, the others are the arguments. Without words
/// there is nothing to read.
pub fn parse_tokens(tokens: Vec<String>) -> (parsed: Option<ParsedCommand>)
    ensures
        match parsed {
            None => tokens@.len() == 0,
            Some(found) => {
                &&& tokens@.len() > 0
                &&& found.command@ == command_of(tokens@[0]@)
                &&& found.args@ == tokens@.skip(1)
            },
        },
{
    let mut tokens = tokens;
    if tokens.len() == 0 {
        return None;
    }
    let ghost all = tokens@;
    let first = tokens.remove(0);
    let command = command_from(first.as_str());
    assert(tokens@ == all.skip(1));
    Some(ParsedCommand { command, args: tokens })
}

/// Reads the command and its arguments from the body of a message.
///
/// An empty body and a body of white space alone hold no command token and
/// yield nothing. Any other body yields its arguments and the command that
/// its token names, which is empty if the token names none.
pub fn parse(body: &str) -> (parsed: Option<ParsedCommand>)
    ensures
        match parsed {
            None => command_token(body@) is None,
            Some(found) => {
                &&& command_token(body@) matches Some(token)
                &&& found.command@ == command_of(token)
                &&& views(found.args@) == arguments(body@)
            },
        },
{
    let tokens = tokenize(body);
    let ghost all = tokens@;
    let parsed = parse_tokens(tokens);
    proof {
        if all.len() > 0 {
            assert(views(all.skip(1)) == views(all).skip(1));
        }
    }
    parsed
}

} // verus!
