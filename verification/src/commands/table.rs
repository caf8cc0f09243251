//! The command table: registered commands, their short aliases, and the help
//! document that is generated from them.

use crate::commands::router::{arguments, command_of, command_token, parse};
use crate::commands::Message;
use crate::errors::Errors;
use crate::notice::Notice;
use crate::text::{
    lemma_filter_push, lowercase, push_char, same_text, segments, split_segments, to_lowercase,
    views,
};
use convert_case::{Case, Casing};
use vstd::prelude::*;
use vstd::string::{StrSliceExecFns, StringExecFns};

verus! {

broadcast use vstd::seq::Seq::lemma_flatten_push;

/// The snake-case form of an identifier, as `Casing::to_case` of the
/// convert_case crate computes it for `Case::Snake`.
pub uninterp spec fn snake_case(ident: Seq<char>) -> Seq<char>;

/// The HTML that the pulldown-cmark crate renders for a markdown text when
/// no extension is switched on.
pub uninterp spec fn markdown_html(markdown: Seq<char>) -> Seq<char>;

/// `Parser::new_ext` and `html::push_html` of the pulldown-cmark crate:
/// parses the markdown text without extensions and renders the events as
/// HTML into a fresh string. The result depends on the text alone, and that
/// is all the contract claims: it gives the result its name.
#[verifier::external_body]
fn render_html(markdown: &str) -> (html: String)
    ensures
        html@ == markdown_html(markdown@),
{
    let mut html = String::new();
    let parser = pulldown_cmark::Parser::new_ext(markdown, pulldown_cmark::Options::empty());
    pulldown_cmark::html::push_html(&mut html, parser);
    html
}

/// `Casing::to_case` of the convert_case crate with `Case::Snake`: splits the
/// identifier into words and joins their lower-case forms with underscores.
/// The result depends on the identifier alone, and that is all the contract
/// claims: it gives the result its name. The crate counts characters where
/// it slices by bytes, which can fail outside ASCII, so only ASCII
/// identifiers are handed to it.
#[verifier::external_body]
fn to_snake_case(ident: &str) -> (snake: String)
    requires
        ident.is_ascii(),
    ensures
        snake@ == snake_case(ident@),
{
    ident.to_case(Case::Snake)
}

/// The first characters of the non-empty segments of a name, in order.
pub open spec fn first_letters(name: Seq<char>) -> Seq<char> {
    segments(name).filter(|segment: Seq<char>| segment.len() > 0).map_values(
        |segment: Seq<char>| segment[0],
    )
}

/// The short alias of a name: the first characters of its underscore-delimited
/// segments, each in lower case, in order.
pub open spec fn short_alias(name: Seq<char>) -> Seq<char> {
    first_letters(name).map_values(|letter: char| lowercase(seq![letter])).flatten()
}

/// Collects the first characters of the non-empty segments of a name.
pub fn initials(name: &str) -> (letters: Vec<char>)
    ensures
        letters@ == first_letters(name@),
{
    let found = split_segments(name);
    let ghost keep = |segment: Seq<char>| segment.len() > 0;
    let ghost first = |segment: Seq<char>| segment[0];
    let mut letters: Vec<char> = Vec::new();
    proof {
        reveal_with_fuel(Seq::filter, 1);
        assert(views(found@).take(0) == Seq::<Seq<char>>::empty());
    }
    let mut i: usize = 0;
    while i < found.len()
        invariant
            i <= found.len(),
            keep == (|segment: Seq<char>| segment.len() > 0),
            first == (|segment: Seq<char>| segment[0]),
            letters@ == views(found@).take(i as int).filter(keep).map_values(first),
        decreases found.len() - i,
    {
        let segment = found[i].as_str();
        proof {
            let done = views(found@).take(i as int);
            assert(views(found@).take(i + 1) == done.push(segment@));
            lemma_filter_push(done, segment@, keep);
            if segment@.len() > 0 {
                assert(done.filter(keep).push(segment@).map_values(first) == done.filter(
                    keep,
                ).map_values(first).push(segment@[0]));
            }
        }
        if !segment.is_empty() {
            letters.push(segment.get_char(0));
        }
        i += 1;
    }
    proof {
        assert(views(found@).take(found@.len() as int) == views(found@));
    }
    letters
}

/// Derives the short alias of a command name.
pub fn derive_short_alias(name: &str) -> (alias: String)
    ensures
        alias@ == short_alias(name@),
{
    let letters = initials(name);
    let ghost lower = |letter: char| lowercase(seq![letter]);
    let mut alias = String::new();
    let mut i: usize = 0;
    while i < letters.len()
        invariant
            i <= letters.len(),
            lower == (|letter: char| lowercase(seq![letter])),
            alias@ == letters@.take(i as int).map_values(lower).flatten(),
        decreases letters.len() - i,
    {
        proof {
            let done = letters@.take(i as int).map_values(lower);
            let next = letters@.take(i + 1).map_values(lower);
            assert(next == done.push(lowercase(seq![letters@[i as int]])));
        }
        let mut letter = String::new();
        push_char(&mut letter, letters[i]);
        let lowered = to_lowercase(letter.as_str());
        alias.append(lowered.as_str());
        i += 1;
    }
    proof {
        assert(letters@.take(letters@.len() as int) == letters@);
    }
    alias
}

/// The line that a command contributes to the help document.
pub open spec fn help_line(help: Seq<char>) -> Seq<char> {
    "* "@ + help + "\n"@
}

/// What the help document opens with: the title, the description and the
/// heading of the command list.
pub open spec fn help_preamble(bot_name: Seq<char>, description: Seq<char>) -> Seq<char> {
    "# Help for the "@ + bot_name + " Bot\n\n"@ + description + "\n\n"@ + "## Commands\n"@
}

/// The help document: the preamble, then the help lines in registration
/// order.
pub open spec fn help_document(
    bot_name: Seq<char>,
    description: Seq<char>,
    lines: Seq<Seq<char>>,
) -> Seq<char> {
    help_preamble(bot_name, description) + lines.flatten()
}

/// Whether a command with this name and alias answers to `command`.
pub open spec fn answers_to(name: Seq<char>, short: Seq<char>, command: Seq<char>) -> bool {
    name == command || short == command
}

/// A registered command: its canonical name, its short alias, its help line
/// and its handler.
pub struct CommandEntry<H> {
    name: String,
    short: String,
    help: String,
    handler: H,
}

impl<H> CommandEntry<H> {
    #[verifier::type_invariant]
    spec fn alias_is_derived(&self) -> bool {
        self.short@ == short_alias(self.name@)
    }

    /// The canonical name.
    pub closed spec fn name_view(&self) -> Seq<char> {
        self.name@
    }

    /// The short alias.
    pub closed spec fn short_view(&self) -> Seq<char> {
        self.short@
    }

    /// The help line.
    pub closed spec fn help_view(&self) -> Seq<char> {
        self.help@
    }

    /// The handler.
    pub closed spec fn handler_view(&self) -> H {
        self.handler
    }

    /// Whether this command answers to `command`.
    pub open spec fn answers_spec(&self, command: Seq<char>) -> bool {
        answers_to(self.name_view(), self.short_view(), command)
    }

    /// Registers a command under `name` as it stands, with the short alias
    /// derived from it and the help line made of `help`. Command tokens are
    /// matched in lower case, so a name with a capital letter in it answers
    /// by its alias only.
    pub fn canonical(name: &str, help: &str, handler: H) -> (entry: CommandEntry<H>)
        ensures
            entry.name_view() == name@,
            entry.short_view() == short_alias(name@),
            entry.help_view() == help_line(help@),
            entry.handler_view() == handler,
    {
        let short = derive_short_alias(name);
        let mut line = String::from_str("* ");
        line.append(help);
        line.append("\n");
        CommandEntry { name: String::from_str(name), short, help: line, handler }
    }

    /// Registers a command under the lower-case form of `name`, with the
    /// short alias derived from that form and the help line made of `help`.
    pub fn new(name: &str, help: &str, handler: H) -> (entry: CommandEntry<H>)
        ensures
            entry.name_view() == lowercase(name@),
            entry.short_view() == short_alias(lowercase(name@)),
            entry.help_view() == help_line(help@),
            entry.handler_view() == handler,
    {
        let name = to_lowercase(name);
        CommandEntry::canonical(name.as_str(), help, handler)
    }

    /// Registers a command by an identifier in any case, as one would name a
    /// type or a function: the command goes by the snake-case form of the
    /// identifier. Identifiers outside ASCII are not converted and yield
    /// nothing.
    pub fn from_identifier(ident: &str, help: &str, handler: H) -> (entry: Option<
        CommandEntry<H>,
    >)
        ensures
            match entry {
                Some(entry) => {
                    &&& ident.is_ascii()
                    &&& entry.name_view() == lowercase(snake_case(ident@))
                    &&& entry.short_view() == short_alias(lowercase(snake_case(ident@)))
                    &&& entry.help_view() == help_line(help@)
                    &&& entry.handler_view() == handler
                },
                None => !ident.is_ascii(),
            },
    {
        if ident.is_ascii() {
            let snake = to_snake_case(ident);
            Some(CommandEntry::new(snake.as_str(), help, handler))
        } else {
            None
        }
    }

    /// The canonical name.
    pub fn name(&self) -> (name: &str)
        ensures
            name@ == self.name_view(),
    {
        self.name.as_str()
    }

    /// The short alias, which is always the one derived from the name.
    pub fn short(&self) -> (short: &str)
        ensures
            short@ == self.short_view(),
            short@ == short_alias(self.name_view()),
    {
        proof {
            use_type_invariant(self);
        }
        self.short.as_str()
    }

    /// The help line.
    pub fn help(&self) -> (help: &str)
        ensures
            help@ == self.help_view(),
    {
        self.help.as_str()
    }

    /// The handler.
    pub fn handler(&self) -> (handler: &H)
        ensures
            *handler == self.handler_view(),
    {
        &self.handler
    }

    /// Whether this command answers to `command`: by its canonical name or
    /// by its short alias.
    pub fn answers(&self, command: &str) -> (yes: bool)
        ensures
            yes == self.answers_spec(command@),
    {
        same_text(self.name.as_str(), command) || same_text(self.short.as_str(), command)
    }
}

/// The help lines of the entries, in order.
pub open spec fn help_lines<H>(entries: Seq<CommandEntry<H>>) -> Seq<Seq<char>> {
    entries.map_values(|entry: CommandEntry<H>| entry.help_view())
}

/// What a command name resolves to.
#[derive(Debug, Clone, Copy, PartialEq, Eq, Structural)]
pub enum Resolution {
    /// The registered command at this position of the table.
    Command(usize),
    /// The generated help.
    Help,
    /// Nothing: the name is silently ignored.
    Unknown,
}

/// Whether `resolution` is what `command` resolves to among `entries`: the
/// first entry that answers to it; failing that, the help for `help` and
/// `h`; nothing otherwise, and nothing for the empty name.
pub open spec fn resolves<H>(
    entries: Seq<CommandEntry<H>>,
    command: Seq<char>,
    resolution: Resolution,
) -> bool {
    match resolution {
        Resolution::Command(i) => {
            &&& command.len() > 0
            &&& i < entries.len()
            &&& entries[i as int].answers_spec(command)
            &&& forall|j: int| 0 <= j < i ==> !(#[trigger] entries[j]).answers_spec(command)
        },
        Resolution::Help => {
            &&& command.len() > 0
            &&& command == "help"@ || command == "h"@
            &&& forall|j: int|
                0 <= j < entries.len() ==> !(#[trigger] entries[j]).answers_spec(command)
        },
        Resolution::Unknown => {
            ||| command.len() == 0
            ||| {
                &&& command != "help"@
                &&& command != "h"@
                &&& forall|j: int|
                    0 <= j < entries.len() ==> !(#[trigger] entries[j]).answers_spec(command)
            }
        },
    }
}

/// The registered commands in registration order, with the help document
/// generated from them.
pub struct CommandTable<H> {
    bot_name: String,
    description: String,
    entries: Vec<CommandEntry<H>>,
    help_text: String,
    help_html: String,
}

impl<H> CommandTable<H> {
    #[verifier::type_invariant]
    spec fn help_is_generated(&self) -> bool {
        &&& self.help_text@ == help_document(
            self.bot_name@,
            self.description@,
            help_lines(self.entries@),
        )
        &&& self.help_html@ == markdown_html(self.help_text@)
    }

    /// The registered commands, in registration order.
    pub closed spec fn entries_view(&self) -> Seq<CommandEntry<H>> {
        self.entries@
    }

    /// The name of the bot.
    pub closed spec fn bot_name_view(&self) -> Seq<char> {
        self.bot_name@
    }

    /// The description of the bot.
    pub closed spec fn description_view(&self) -> Seq<char> {
        self.description@
    }

    /// The help document as markdown.
    pub open spec fn help_text_view(&self) -> Seq<char> {
        help_document(
            self.bot_name_view(),
            self.description_view(),
            help_lines(self.entries_view()),
        )
    }

    /// Builds the table and renders its help document, once.
    pub fn new(bot_name: &str, description: &str, entries: Vec<CommandEntry<H>>) -> (table:
        CommandTable<H>)
        ensures
            table.bot_name_view() == bot_name@,
            table.description_view() == description@,
            table.entries_view() == entries@,
    {
        let mut help_text = String::from_str("# Help for the ");
        help_text.append(bot_name);
        help_text.append(" Bot\n\n");
        help_text.append(description);
        help_text.append("\n\n");
        help_text.append("## Commands\n");
        let mut i: usize = 0;
        while i < entries.len()
            invariant
                i <= entries.len(),
                help_text@ == help_document(
                    bot_name@,
                    description@,
                    help_lines(entries@.take(i as int)),
                ),
            decreases entries.len() - i,
        {
            proof {
                let done = help_lines(entries@.take(i as int));
                let next = help_lines(entries@.take(i + 1));
                assert(next == done.push(entries@[i as int].help_view()));
            }
            help_text.append(entries[i].help());
            i += 1;
        }
        proof {
            assert(entries@.take(entries@.len() as int) == entries@);
        }
        let help_html = render_html(help_text.as_str());
        CommandTable {
            bot_name: String::from_str(bot_name),
            description: String::from_str(description),
            entries,
            help_text,
            help_html,
        }
    }

    /// The number of registered commands.
    pub fn len(&self) -> (n: usize)
        ensures
            n == self.entries_view().len(),
    {
        self.entries.len()
    }

    /// The command registered at position `i`, if there is one.
    pub fn entry(&self, i: usize) -> (entry: Option<&CommandEntry<H>>)
        ensures
            match entry {
                Some(entry) => {
                    &&& i < self.entries_view().len()
                    &&& *entry == self.entries_view()[i as int]
                },
                None => i >= self.entries_view().len(),
            },
    {
        if i < self.entries.len() {
            Some(&self.entries[i])
        } else {
            None
        }
    }

    /// The help document as markdown.
    pub fn help_text(&self) -> (text: &str)
        ensures
            text@ == self.help_text_view(),
    {
        proof {
            use_type_invariant(self);
        }
        self.help_text.as_str()
    }

    /// The help document as HTML.
    pub fn help_html(&self) -> (html: &str)
        ensures
            html@ == markdown_html(self.help_text_view()),
    {
        proof {
            use_type_invariant(self);
        }
        self.help_html.as_str()
    }

    /// The help document as the single notice that the help command sends:
    /// the markdown as its text, the HTML as its rendering.
    pub fn help_notice(&self) -> (notice: Notice)
        ensures
            notice.body@ == self.help_text_view(),
            notice.formatted_body matches Some(html) && html@ == markdown_html(
                self.help_text_view(),
            ),
    {
        proof {
            use_type_invariant(self);
        }
        Notice::html(self.help_text.clone(), self.help_html.clone())
    }

    /// Resolves a command name: to the first registered command that answers
    /// to it, else to the help if it is `help` or `h`, else to nothing. The
    /// empty name resolves to nothing.
    pub fn resolve(&self, command: &str) -> (resolution: Resolution)
        ensures
            resolves(self.entries_view(), command@, resolution),
    {
        if command.is_empty() {
            return Resolution::Unknown;
        }
        let mut i: usize = 0;
        while i < self.entries.len()
            invariant
                i <= self.entries.len(),
                command@.len() > 0,
                forall|j: int| 0 <= j < i ==> !(#[trigger] self.entries@[j]).answers_spec(command@),
            decreases self.entries.len() - i,
        {
            if self.entries[i].answers(command) {
                return Resolution::Command(i);
            }
            i += 1;
        }
        if same_text(command, "help") || same_text(command, "h") {
            Resolution::Help
        } else {
            Resolution::Unknown
        }
    }
}

/// A command name resolves to one thing only.
pub proof fn lemma_resolves_unique<H>(
    entries: Seq<CommandEntry<H>>,
    command: Seq<char>,
    first: Resolution,
    second: Resolution,
)
    requires
        resolves(entries, command, first),
        resolves(entries, command, second),
    ensures
        first == second,
{
}

/// Whether the body of a message names no command: it has no command token,
/// or its command token does not begin with `!`.
pub open spec fn names_no_command(body: Seq<char>) -> bool {
    match command_token(body) {
        None => true,
        Some(token) => token.len() == 0 || token[0] != '!',
    }
}

/// An empty body has no command token, so it names no command.
pub proof fn lemma_empty_body_names_no_command()
    ensures
        command_token(Seq::<char>::empty()) is None,
        names_no_command(Seq::<char>::empty()),
{
}

/// A body that names no command calls nothing, whatever the table holds:
/// either it has no command token at all, or its command token does not
/// begin with `!` and so names the empty command, which resolves to nothing.
pub proof fn lemma_no_command_resolves_to_nothing<H>(
    entries: Seq<CommandEntry<H>>,
    body: Seq<char>,
    resolution: Resolution,
)
    requires
        names_no_command(body),
    ensures
        match command_token(body) {
            None => true,
            Some(token) => {
                &&& command_of(token) == Seq::<char>::empty()
                &&& resolves(entries, command_of(token), resolution) ==> resolution
                    == Resolution::Unknown
            },
        },
{
}

/// The help document is a function of what it is generated from: tables of
/// the same bot name, description and help lines have the same document and
/// the same rendering of it.
pub proof fn lemma_help_is_deterministic<H>(first: CommandTable<H>, second: CommandTable<H>)
    requires
        first.bot_name_view() == second.bot_name_view(),
        first.description_view() == second.description_view(),
        help_lines(first.entries_view()) == help_lines(second.entries_view()),
    ensures
        first.help_text_view() == second.help_text_view(),
        markdown_html(first.help_text_view()) == markdown_html(second.help_text_view()),
{
}

impl<H> CommandTable<H> {
    /// Every registered handler accepts every message.
    pub open spec fn handlers_ready<V>(&self) -> bool where
        H: Fn(Message<V>) -> Result<(), Errors>,
     {
        forall|i: int, msg: Message<V>|
            0 <= i < self.entries_view().len() ==> #[trigger] call_requires(
                self.entries_view()[i].handler_view(),
                (msg,),
            )
    }

    /// Whether `notice` is the help notice of this table: the help document
    /// as its text, the rendering of that document as its HTML.
    pub open spec fn is_help_notice(&self, notice: Notice) -> bool {
        &&& notice.body@ == self.help_text_view()
        &&& notice.formatted_body matches Some(html)
        &&& html@ == markdown_html(self.help_text_view())
    }

    /// What invoking `resolution` on `msg` may yield: for a registered
    /// command, an outcome of its handler on the message; for the help, an
    /// outcome of `help` on the help notice and the message; for nothing,
    /// success.
    pub open spec fn invoked<V, G>(
        &self,
        resolution: Resolution,
        msg: Message<V>,
        help: G,
        r: Result<(), Errors>,
    ) -> bool where
        H: Fn(Message<V>) -> Result<(), Errors>,
        G: FnOnce(Notice, Message<V>) -> Result<(), Errors>,
     {
        match resolution {
            Resolution::Command(i) => call_ensures(
                self.entries_view()[i as int].handler_view(),
                (msg,),
                r,
            ),
            Resolution::Help => exists|notice: Notice|
                self.is_help_notice(notice) && #[trigger] call_ensures(help, (notice, msg), r),
            Resolution::Unknown => r is Ok,
        }
    }

    /// What matching `command` and invoking the match on `msg` may yield.
    pub open spec fn matched<V, G>(
        &self,
        command: Seq<char>,
        msg: Message<V>,
        help: G,
        r: Result<(), Errors>,
    ) -> bool where
        H: Fn(Message<V>) -> Result<(), Errors>,
        G: FnOnce(Notice, Message<V>) -> Result<(), Errors>,
     {
        exists|resolution: Resolution| #[trigger]
            resolves(self.entries_view(), command, resolution) && self.invoked(
                resolution,
                msg,
                help,
                r,
            )
    }

    /// Invokes what `command` resolves to on `msg`: the handler of a
    /// registered command, or `help` with the help notice. A name that
    /// resolves to nothing calls nothing and succeeds.
    pub fn match_command<V, G>(&self, command: &str, msg: Message<V>, help: G) -> (r: Result<
        (),
        Errors,
    >) where
        H: Fn(Message<V>) -> Result<(), Errors>,
        G: FnOnce(Notice, Message<V>) -> Result<(), Errors>,

        requires
            self.handlers_ready::<V>(),
            forall|notice: Notice, m: Message<V>| call_requires(help, (notice, m)),
        ensures
            self.matched(command@, msg, help, r),
    {
        let resolution = self.resolve(command);
        match resolution {
            Resolution::Command(i) => {
                assert(call_requires(self.entries_view()[i as int].handler_view(), (msg,)));
                let r = (self.entries[i].handler)(msg);
                assert(self.invoked(resolution, msg, help, r));
                r
            },
            Resolution::Help => {
                let notice = self.help_notice();
                let r = help(notice, msg);
                assert(self.invoked(resolution, msg, help, r));
                r
            },
            Resolution::Unknown => {
                assert(self.invoked(resolution, msg, help, Ok(())));
                Ok(())
            },
        }
    }

    /// Routes the body of a message: reads the command and its arguments,
    /// lets `build` make the message for those arguments, and invokes what
    /// the command resolves to. A body that names no command calls nothing
    /// and succeeds.
    pub fn dispatch<V, B, G>(&self, body: &str, build: B, help: G) -> (r: Result<(), Errors>) where
        H: Fn(Message<V>) -> Result<(), Errors>,
        B: FnOnce(Vec<String>) -> Message<V>,
        G: FnOnce(Notice, Message<V>) -> Result<(), Errors>,

        requires
            self.handlers_ready::<V>(),
            forall|notice: Notice, m: Message<V>| call_requires(help, (notice, m)),
            forall|args: Vec<String>| call_requires(build, (args,)),
        ensures
            names_no_command(body@) ==> r is Ok,
            match command_token(body@) {
                None => r is Ok,
                Some(token) => if command_of(token).len() == 0 {
                    r is Ok
                } else {
                    exists|args: Vec<String>, msg: Message<V>|
                        {
                            &&& views(args@) == arguments(body@)
                            &&& #[trigger] call_ensures(build, (args,), msg)
                            &&& self.matched(command_of(token), msg, help, r)
                        }
                },
            },
    {
        let parsed = match parse(body) {
            Some(parsed) => parsed,
            None => return Ok(()),
        };
        if parsed.command.as_str().is_empty() {
            return Ok(());
        }
        let ghost args = parsed.args;
        let msg = build(parsed.args);
        let r = self.match_command(parsed.command.as_str(), msg, help);
        assert(call_ensures(build, (args,), msg));
        r
    }
}

} // verus!
