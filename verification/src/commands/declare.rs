//! Declaring commands by named arguments, as in `help = "Says hello."`.
//!
//! A declaration is a list of arguments. The ones that count have a name and
//! a text as their value; a declaration says how many arguments it expects
//! and which names it asks for.

use crate::commands::table::{help_line, short_alias, CommandEntry, CommandTable};
use crate::text::{lowercase, same_text};
use vstd::prelude::*;
use vstd::string::StringExecFns;

verus! {

/// What stands to the right of the `=` of a named argument.
#[derive(Debug, Clone, PartialEq, Eq)]
pub enum ArgumentValue {
    /// A text.
    Text(String),
    /// Anything else, such as a number.
    Other,
}

/// One argument of a declaration.
#[derive(Debug, Clone, PartialEq, Eq)]
pub enum Argument {
    /// A name with a value: `name = value`.
    NameValue { name: String, value: ArgumentValue },
    /// A name that stands alone or heads a list: `name`, `name(...)`.
    Name { name: String },
    /// A value without a name.
    Value,
}

/// Why a declaration does not yield the text that was asked for.
#[derive(Debug, Clone, PartialEq, Eq)]
pub enum ArgumentError {
    /// The argument is there, but its value is no text.
    NotText { expected: String, arg: String },
    /// No argument goes by the name.
    Missing { expected: String, arg: String },
    /// The declaration has another number of arguments than expected, or
    /// the argument has no value at all.
    NotEnough { expected: String },
}

/// What looking up a name in a declaration comes to.
pub enum Lookup {
    /// The text of the argument.
    Text(Seq<char>),
    /// The argument is there, but its value is no text.
    NotText,
    /// No argument goes by the name.
    Missing,
    /// The declaration has another number of arguments than expected, or
    /// the argument has no value at all.
    NotEnough,
}

impl Argument {
    /// Whether this argument goes by the name `arg`.
    pub open spec fn is_named(&self, arg: Seq<char>) -> bool {
        match self {
            Argument::NameValue { name, .. } => name@ == arg,
            Argument::Name { name } => name@ == arg,
            Argument::Value => false,
        }
    }

    /// Whether this argument goes by the name `arg`.
    pub fn goes_by(&self, arg: &str) -> (yes: bool)
        ensures
            yes == self.is_named(arg@),
    {
        match self {
            Argument::NameValue { name, .. } => same_text(name.as_str(), arg),
            Argument::Name { name } => same_text(name.as_str(), arg),
            Argument::Value => false,
        }
    }
}

/// The position of the first argument that goes by the name `arg`, or the
/// number of arguments if none does.
pub open spec fn first_named(args: Seq<Argument>, arg: Seq<char>) -> int
    decreases args.len(),
{
    if args.len() == 0 {
        0
    } else if args[0].is_named(arg) {
        0
    } else {
        1 + first_named(args.drop_first(), arg)
    }
}

/// What looking up `arg` among `args` comes to, where `expected_args`
/// arguments are expected: the value of the first argument of that name.
pub open spec fn looked_up(args: Seq<Argument>, arg: Seq<char>, expected_args: usize) -> Lookup {
    let at = first_named(args, arg);
    if args.len() != expected_args {
        Lookup::NotEnough
    } else if at >= args.len() {
        Lookup::Missing
    } else {
        match args[at] {
            Argument::NameValue { value: ArgumentValue::Text(text), .. } => Lookup::Text(text@),
            Argument::NameValue { value: ArgumentValue::Other, .. } => Lookup::NotText,
            _ => Lookup::NotEnough,
        }
    }
}

/// If no argument before position `at` goes by the name `arg` and the one
/// at `at` does, or `at` is the end of the list, then `at` is the position
/// of the first argument of that name.
proof fn lemma_first_named_is(args: Seq<Argument>, arg: Seq<char>, at: int)
    requires
        0 <= at <= args.len(),
        forall|j: int| 0 <= j < at ==> !(#[trigger] args[j]).is_named(arg),
        at < args.len() ==> args[at].is_named(arg),
    ensures
        first_named(args, arg) == at,
    decreases args.len(),
{
    if args.len() > 0 && at > 0 {
        let rest = args.drop_first();
        assert(!args[0].is_named(arg));
        assert forall|j: int| 0 <= j < at - 1 implies !(#[trigger] rest[j]).is_named(arg) by {
            assert(rest[j] == args[j + 1]);
        }
        lemma_first_named_is(rest, arg, at - 1);
    }
}

impl ArgumentError {
    /// What the error reports.
    pub open spec fn text(&self) -> Seq<char> {
        match self {
            ArgumentError::NotText { expected, arg } => "expected `"@ + expected@
                + "`\n\nThe field '"@ + arg@ + "' needs to be a str literal!"@,
            ArgumentError::Missing { expected, arg } => "1expected `"@ + expected@
                + "`\n\nThe field '"@ + arg@ + "' is required!"@,
            ArgumentError::NotEnough { expected } => "expected `"@ + expected@
                + "` but not enough arguments where provided."@,
        }
    }

    /// Renders the error as text.
    pub fn message(&self) -> (s: String)
        ensures
            s@ == self.text(),
    {
        match self {
            ArgumentError::NotText { expected, arg } => {
                let mut s = String::from_str("expected `");
                s.append(expected.as_str());
                s.append("`\n\nThe field '");
                s.append(arg.as_str());
                s.append("' needs to be a str literal!");
                s
            },
            ArgumentError::Missing { expected, arg } => {
                let mut s = String::from_str("1expected `");
                s.append(expected.as_str());
                s.append("`\n\nThe field '");
                s.append(arg.as_str());
                s.append("' is required!");
                s
            },
            ArgumentError::NotEnough { expected } => {
                let mut s = String::from_str("expected `");
                s.append(expected.as_str());
                s.append("` but not enough arguments where provided.");
                s
            },
        }
    }
}

/// Whether `e` is the error for a lookup that came to `lookup`, with the
/// name and the expected form that it was made with.
pub open spec fn fails_as(
    e: ArgumentError,
    lookup: Lookup,
    arg: Seq<char>,
    expected: Seq<char>,
) -> bool {
    match lookup {
        Lookup::Text(_) => false,
        Lookup::NotText => e matches ArgumentError::NotText { expected: form, arg: name }
            && form@ == expected && name@ == arg,
        Lookup::Missing => e matches ArgumentError::Missing { expected: form, arg: name }
            && form@ == expected && name@ == arg,
        Lookup::NotEnough => e matches ArgumentError::NotEnough { expected: form } && form@
            == expected,
    }
}

/// How the outcome of `get_arg` shows what the lookup came to.
pub open spec fn reports(
    r: Result<String, ArgumentError>,
    lookup: Lookup,
    arg: Seq<char>,
    expected: Seq<char>,
) -> bool {
    match r {
        Ok(found) => lookup matches Lookup::Text(text) && found@ == text,
        Err(e) => fails_as(e, lookup, arg, expected),
    }
}

/// Looks up the text of the argument named `arg` in a declaration that
/// expects `expected_args` arguments. `expected` shows the form that the
/// declaration should have had and goes into the error where it has not.
pub fn get_arg(args: &Vec<Argument>, arg: &str, expected: &str, expected_args: usize) -> (r: Result<
    String,
    ArgumentError,
>)
    ensures
        reports(r, looked_up(args@, arg@, expected_args), arg@, expected@),
{
    if args.len() != expected_args {
        return Err(ArgumentError::NotEnough { expected: String::from_str(expected) });
    }
    let mut i: usize = 0;
    while i < args.len()
        invariant
            i <= args.len(),
            args.len() == expected_args,
            forall|j: int| 0 <= j < i ==> !(#[trigger] args@[j]).is_named(arg@),
        decreases args.len() - i,
    {
        if args[i].goes_by(arg) {
            proof {
                lemma_first_named_is(args@, arg@, i as int);
            }
            return match &args[i] {
                Argument::NameValue { value: ArgumentValue::Text(text), .. } => Ok(text.clone()),
                Argument::NameValue { value: ArgumentValue::Other, .. } => Err(
                    ArgumentError::NotText {
                        expected: String::from_str(expected),
                        arg: String::from_str(arg),
                    },
                ),
                _ => Err(ArgumentError::NotEnough { expected: String::from_str(expected) }),
            };
        }
        i += 1;
    }
    proof {
        lemma_first_named_is(args@, arg@, args@.len() as int);
    }
    Err(ArgumentError::Missing { expected: String::from_str(expected), arg: String::from_str(arg) })
}

/// The form of the declaration of a command.
pub const COMMAND_FORM: &'static str = "help = \"<description>\"";

/// The form of the declaration of a command table.
pub const TABLE_FORM: &'static str =
    "bot_name = \"<bot name>\", description = \"<bot description>\"";

impl<H> CommandEntry<H> {
    /// Registers a command that is declared by its one argument `help`.
    pub fn declare(name: &str, args: &Vec<Argument>, handler: H) -> (r: Result<
        CommandEntry<H>,
        ArgumentError,
    >)
        ensures
            match r {
                Ok(entry) => {
                    &&& looked_up(args@, "help"@, 1) matches Lookup::Text(help)
                    &&& entry.name_view() == lowercase(name@)
                    &&& entry.short_view() == short_alias(lowercase(name@))
                    &&& entry.help_view() == help_line(help)
                    &&& entry.handler_view() == handler
                },
                Err(e) => fails_as(e, looked_up(args@, "help"@, 1), "help"@, COMMAND_FORM@),
            },
    {
        match get_arg(args, "help", COMMAND_FORM, 1) {
            Ok(help) => Ok(CommandEntry::new(name, help.as_str(), handler)),
            Err(e) => Err(e),
        }
    }
}

impl<H> CommandTable<H> {
    /// Builds the table that is declared by its two arguments `bot_name` and
    /// `description`, which are looked up in this order.
    pub fn declare(args: &Vec<Argument>, entries: Vec<CommandEntry<H>>) -> (r: Result<
        CommandTable<H>,
        ArgumentError,
    >)
        ensures
            match r {
                Ok(table) => {
                    &&& looked_up(args@, "bot_name"@, 2) matches Lookup::Text(bot_name)
                    &&& looked_up(args@, "description"@, 2) matches Lookup::Text(description)
                    &&& table.bot_name_view() == bot_name
                    &&& table.description_view() == description
                    &&& table.entries_view() == entries@
                },
                Err(e) => if looked_up(args@, "bot_name"@, 2) is Text {
                    fails_as(e, looked_up(args@, "description"@, 2), "description"@, TABLE_FORM@)
                } else {
                    fails_as(e, looked_up(args@, "bot_name"@, 2), "bot_name"@, TABLE_FORM@)
                },
            },
    {
        let bot_name = match get_arg(args, "bot_name", TABLE_FORM, 2) {
            Ok(bot_name) => bot_name,
            Err(e) => return Err(e),
        };
        let description = match get_arg(args, "description", TABLE_FORM, 2) {
            Ok(description) => description,
            Err(e) => return Err(e),
        };
        Ok(CommandTable::new(bot_name.as_str(), description.as_str(), entries))
    }
}

} // verus!
