//! The command registry: keywords that are answered locally, before the
//! model is asked anything.
//!
//! A command is registered under a name, with a description and a trigger
//! that tells which texts are meant for it. An incoming text goes to the
//! first registered command whose trigger accepts it; where none does, the
//! text is left for the model.

use crate::function_register::image::ImageCommand;
use crate::function_register::seedream::{
    image_request, ImageRequest, ImageRequestView, SeedreamCommand,
};
use crate::function_register::status::StatusCommand;
use crate::lookup::{
    distinct, first_true, index_of, lemma_first_true_is, lemma_first_true_none, lemma_index_of,
    lemma_index_of_absent, lemma_index_of_first, lemma_recorded_distinct, recorded,
};
use crate::message::{message_views, User, UserView};
use crate::reply::{text_reply, texts, Reply, ReplyView};
use crate::text::{has_prefix, same_text, to_chars, trim_bounds, trimmed};
use vstd::prelude::*;
use vstd::string::StringExecFns;

verus! {

/// How a command tells the texts that are meant for it. Both forms look
/// at the text without its surrounding white space.
#[derive(Debug, PartialEq, Eq)]
pub enum Trigger {
    /// The text is exactly this keyword.
    Exact(String),
    /// The text begins with this.
    Prefix(String),
}

/// What a `Trigger` holds.
pub enum TriggerView {
    Exact(Seq<char>),
    Prefix(Seq<char>),
}

impl View for Trigger {
    type V = TriggerView;

    open spec fn view(&self) -> TriggerView {
        match self {
            Trigger::Exact(k) => TriggerView::Exact(k@),
            Trigger::Prefix(p) => TriggerView::Prefix(p@),
        }
    }
}

/// Whether `trigger` accepts `text`.
pub open spec fn accepts(trigger: TriggerView, text: Seq<char>) -> bool {
    match trigger {
        TriggerView::Exact(k) => trimmed(text) == k,
        TriggerView::Prefix(p) => p.is_prefix_of(trimmed(text)),
    }
}

impl Trigger {
    /// Whether this trigger accepts `text`.
    pub fn matches(&self, text: &str) -> (r: bool)
        ensures
            r == accepts(self@, text@),
    {
        let chars = to_chars(text);
        let (from, to) = trim_bounds(&chars);
        match self {
            Trigger::Exact(k) => {
                let key = to_chars(k.as_str());
                let prefixed = has_prefix(&chars, from, to, &key);
                proof {
                    let body = chars@.subrange(from as int, to as int);
                    if key@.len() == body.len() {
                        assert(body.subrange(0, body.len() as int) =~= body);
                    }
                }
                prefixed && key.len() == to - from
            },
            Trigger::Prefix(p) => {
                let key = to_chars(p.as_str());
                has_prefix(&chars, from, to, &key)
            },
        }
    }
}

/// The commands that the library brings along.
#[derive(Clone, Copy, Debug, PartialEq, Eq, Structural)]
pub enum Builtin {
    Help,
    Clear,
    Status,
    Image,
    Seedream,
}

/// Which code answers a command: one of the built-in commands, or a
/// command that was registered from outside.
#[derive(Clone, Copy, Debug, PartialEq, Eq, Structural)]
pub enum CommandKind {
    Builtin(Builtin),
    Custom,
}

/// What is known of a registered command without running it.
pub struct CommandInfo {
    pub name: Seq<char>,
    pub description: Seq<char>,
    pub trigger: TriggerView,
    pub kind: CommandKind,
}

/// What a command asks of its caller once it has run.
#[derive(Debug, PartialEq, Eq)]
pub enum CommandOutcome {
    /// Nothing is sent.
    Silent,
    /// This reply is sent.
    Reply(Reply),
    /// The caller measures the server and sends `StatusCommand::settle` of
    /// what it found.
    Status,
    /// The caller looks for a file of the image library and sends
    /// `ImageCommand::settle` of its base64 text, or of how it failed.
    Image,
    /// The caller has this image generated and sends
    /// `SeedreamCommand::settle` of the addresses it gets, or of how it
    /// failed.
    Generate(ImageRequest),
}

/// What a `CommandOutcome` holds.
pub enum OutcomeView {
    Silent,
    Reply(ReplyView),
    Status,
    Image,
    Generate(ImageRequestView),
}

impl View for CommandOutcome {
    type V = OutcomeView;

    open spec fn view(&self) -> OutcomeView {
        match self {
            CommandOutcome::Silent => OutcomeView::Silent,
            CommandOutcome::Reply(r) => OutcomeView::Reply(r@),
            CommandOutcome::Status => OutcomeView::Status,
            CommandOutcome::Image => OutcomeView::Image,
            CommandOutcome::Generate(q) => OutcomeView::Generate(q@),
        }
    }
}

/// A command. The registry asks it once for its name, description and
/// trigger, and runs it on the texts that its trigger accepts.
pub trait Command: Send + Sync {
    /// The name the command is registered under.
    fn name(&self) -> &'static str;

    /// What the command does, as the help text tells it.
    fn description(&self) -> &'static str;

    /// Which texts are meant for this command.
    fn trigger(&self) -> Trigger;

    /// Runs the command on `text`, which came with the images at `images`.
    /// `commands` lists every registered command by name and description.
    /// A command that fails says so in its reply, and counts as having
    /// answered: it has no other way to fail.
    fn execute(
        &self,
        text: &str,
        images: &Vec<String>,
        user: &mut User,
        commands: &Vec<(String, String)>,
    ) -> CommandOutcome;
}

/// The characters of each pair of `entries`, in order.
pub open spec fn pairs(entries: Seq<(String, String)>) -> Seq<(Seq<char>, Seq<char>)> {
    entries.map_values(|e: (String, String)| (e.0@, e.1@))
}

/// One line of the help text for each of `entries`: name, colon, space,
/// description, line feed.
pub open spec fn help_lines(entries: Seq<(Seq<char>, Seq<char>)>) -> Seq<char>
    decreases entries.len(),
{
    if entries.len() == 0 {
        Seq::empty()
    } else {
        help_lines(entries.drop_last()) + entries.last().0 + ": "@ + entries.last().1 + "\n"@
    }
}

/// The help text for `entries`: a heading, then the line of each entry.
pub open spec fn help_text(entries: Seq<(Seq<char>, Seq<char>)>) -> Seq<char> {
    "可用命令:\n"@ + help_lines(entries)
}

/// What the `clear` command confirms with.
pub open spec fn cleared_text() -> Seq<char> {
    "历史记录已清理"@
}

/// `user` with an empty history.
pub open spec fn cleared(user: UserView) -> UserView {
    UserView { id: user.id, history: Seq::empty() }
}

/// The `help` command: lists every registered command.
pub struct HelpCommand;

impl Command for HelpCommand {
    fn name(&self) -> (r: &'static str)
        ensures
            r@ == "help"@,
    {
        "help"
    }

    fn description(&self) -> (r: &'static str)
        ensures
            r@ == "显示所有可用命令及说明"@,
    {
        "显示所有可用命令及说明"
    }

    fn trigger(&self) -> (r: Trigger)
        ensures
            r@ == TriggerView::Exact("help"@),
    {
        Trigger::Exact("help".to_string())
    }

    fn execute(
        &self,
        text: &str,
        images: &Vec<String>,
        user: &mut User,
        commands: &Vec<(String, String)>,
    ) -> (r: CommandOutcome)
        ensures
            *final(user) == *old(user),
            r@ == OutcomeView::Reply(text_reply(help_text(pairs(commands@)))),
    {
        let ghost entries = pairs(commands@);
        let mut output = String::from_str("可用命令:\n");
        let mut i: usize = 0;
        while i < commands.len()
            invariant
                i <= commands@.len(),
                entries == pairs(commands@),
                output@ == help_text(entries.take(i as int)),
            decreases commands@.len() - i,
        {
            assert(entries.take(i + 1).drop_last() =~= entries.take(i as int));
            output.append(commands[i].0.as_str());
            output.append(": ");
            output.append(commands[i].1.as_str());
            output.append("\n");
            i = i + 1;
        }
        assert(entries.take(commands@.len() as int) =~= entries);
        CommandOutcome::Reply(Reply::text(output))
    }
}

/// The `clear` command: empties the user's history.
pub struct ClearCommand;

impl Command for ClearCommand {
    fn name(&self) -> (r: &'static str)
        ensures
            r@ == "clear"@,
    {
        "clear"
    }

    fn description(&self) -> (r: &'static str)
        ensures
            r@ == "清空用户历史记录"@,
    {
        "清空用户历史记录"
    }

    fn trigger(&self) -> (r: Trigger)
        ensures
            r@ == TriggerView::Exact("clear"@),
    {
        Trigger::Exact("clear".to_string())
    }

    fn execute(
        &self,
        text: &str,
        images: &Vec<String>,
        user: &mut User,
        commands: &Vec<(String, String)>,
    ) -> (r: CommandOutcome)
        ensures
            final(user)@ == cleared(old(user)@),
            r@ == OutcomeView::Reply(text_reply(cleared_text())),
    {
        user.history.clear();
        assert(message_views(user.history@) =~= Seq::empty());
        CommandOutcome::Reply(Reply::text("历史记录已清理".to_string()))
    }
}

/// What the built-in command `builtin` is registered with.
pub open spec fn builtin_info(builtin: Builtin) -> CommandInfo {
    match builtin {
        Builtin::Help => CommandInfo {
            name: "help"@,
            description: "显示所有可用命令及说明"@,
            trigger: TriggerView::Exact("help"@),
            kind: CommandKind::Builtin(builtin),
        },
        Builtin::Clear => CommandInfo {
            name: "clear"@,
            description: "清空用户历史记录"@,
            trigger: TriggerView::Exact("clear"@),
            kind: CommandKind::Builtin(builtin),
        },
        Builtin::Status => CommandInfo {
            name: "status"@,
            description: "查询服务器状态"@,
            trigger: TriggerView::Exact("status"@),
            kind: CommandKind::Builtin(builtin),
        },
        Builtin::Image => CommandInfo {
            name: "image"@,
            description: "随机香图"@,
            trigger: TriggerView::Exact("image"@),
            kind: CommandKind::Builtin(builtin),
        },
        Builtin::Seedream => CommandInfo {
            name: "seedream"@,
            description: "使用 seedream 模型生成图像"@,
            trigger: TriggerView::Prefix("seedream "@),
            kind: CommandKind::Builtin(builtin),
        },
    }
}

/// What the built-in command `builtin` does to `user` and asks of its
/// caller, run on `text` that came with `images`, with `listing` the name
/// and description of every registered command.
pub open spec fn builtin_effect(
    builtin: Builtin,
    text: Seq<char>,
    images: Seq<Seq<char>>,
    user: UserView,
    listing: Seq<(Seq<char>, Seq<char>)>,
) -> (UserView, OutcomeView) {
    match builtin {
        Builtin::Help => (user, OutcomeView::Reply(text_reply(help_text(listing)))),
        Builtin::Clear => (cleared(user), OutcomeView::Reply(text_reply(cleared_text()))),
        Builtin::Status => (user, OutcomeView::Status),
        Builtin::Image => (user, OutcomeView::Image),
        Builtin::Seedream => (user, OutcomeView::Generate(image_request(text, images))),
    }
}

enum Handler {
    Builtin(Builtin),
    Custom(Box<dyn Command>),
}

struct CommandEntry {
    name: String,
    description: String,
    trigger: Trigger,
    handler: Handler,
}

impl CommandEntry {
    spec fn kind(self) -> CommandKind {
        match self.handler {
            Handler::Builtin(builtin) => CommandKind::Builtin(builtin),
            Handler::Custom(_) => CommandKind::Custom,
        }
    }

    spec fn info(self) -> CommandInfo {
        CommandInfo {
            name: self.name@,
            description: self.description@,
            trigger: self.trigger@,
            kind: self.kind(),
        }
    }

    fn custom(name: &str, description: &str, trigger: Trigger, command: Box<dyn Command>) -> (r:
        Self)
        ensures
            r.info() == (CommandInfo {
                name: name@,
                description: description@,
                trigger: trigger@,
                kind: CommandKind::Custom,
            }),
    {
        CommandEntry {
            name: name.to_string(),
            description: description.to_string(),
            trigger,
            handler: Handler::Custom(command),
        }
    }

    fn builtin(builtin: Builtin) -> (r: Self)
        ensures
            r.info() == builtin_info(builtin),
    {
        let (name, description, trigger) = match builtin {
            Builtin::Help => (HelpCommand.name(), HelpCommand.description(), HelpCommand.trigger()),
            Builtin::Clear => (
                ClearCommand.name(),
                ClearCommand.description(),
                ClearCommand.trigger(),
            ),
            Builtin::Status => (
                StatusCommand.name(),
                StatusCommand.description(),
                StatusCommand.trigger(),
            ),
            Builtin::Image => (
                ImageCommand.name(),
                ImageCommand.description(),
                ImageCommand.trigger(),
            ),
            Builtin::Seedream => (
                SeedreamCommand.name(),
                SeedreamCommand.description(),
                SeedreamCommand.trigger(),
            ),
        };
        CommandEntry {
            name: name.to_string(),
            description: description.to_string(),
            trigger,
            handler: Handler::Builtin(builtin),
        }
    }
}

/// The names of `commands`, in order.
pub open spec fn command_names(commands: Seq<CommandInfo>) -> Seq<Seq<char>> {
    commands.map_values(|c: CommandInfo| c.name)
}

/// The name and description of each of `commands`, in order.
pub open spec fn listing_of(commands: Seq<CommandInfo>) -> Seq<(Seq<char>, Seq<char>)> {
    commands.map_values(|c: CommandInfo| (c.name, c.description))
}

/// For each of `commands`, whether its trigger accepts `text`.
pub open spec fn acceptances(commands: Seq<CommandInfo>, text: Seq<char>) -> Seq<bool> {
    commands.map_values(|c: CommandInfo| accepts(c.trigger, text))
}

/// The position of the command that `text` goes to: the first whose
/// trigger accepts it.
pub open spec fn addressed(commands: Seq<CommandInfo>, text: Seq<char>) -> Option<int> {
    first_true(acceptances(commands, text))
}

/// `commands` after `command` was registered: it takes the place of the
/// command of its name, or comes last where the name is new.
pub open spec fn registered(commands: Seq<CommandInfo>, command: CommandInfo) -> Seq<CommandInfo> {
    match index_of(command_names(commands), command.name) {
        Some(i) => commands.update(i, command),
        None => commands.push(command),
    }
}

/// Registering a command records its name: no name is ever held twice.
pub proof fn lemma_registered_names(commands: Seq<CommandInfo>, command: CommandInfo)
    ensures
        command_names(registered(commands, command)) == recorded(
            command_names(commands),
            command.name,
        ),
        distinct(command_names(commands)) ==> distinct(
            command_names(registered(commands, command)),
        ),
        index_of(command_names(registered(commands, command)), command.name) is Some,
{
    let names = command_names(commands);
    lemma_index_of(names, command.name);
    match index_of(names, command.name) {
        Some(i) => {
            assert(command_names(commands.update(i, command)) =~= names);
        },
        None => {
            lemma_index_of_first(names.push(command.name), command.name, names.len() as int);
        },
    }
    if distinct(names) {
        lemma_recorded_distinct(names, command.name);
    }
}

/// The registered commands, in the order in which their names first came.
pub struct CommandRegistry {
    commands: Vec<CommandEntry>,
}

impl CommandRegistry {
    #[verifier::type_invariant]
    spec fn unique_names(self) -> bool {
        distinct(command_names(self.commands()))
    }

    /// The registered commands, in order.
    pub closed spec fn commands(self) -> Seq<CommandInfo> {
        self.commands@.map_values(|e: CommandEntry| e.info())
    }

    /// The name and description of each registered command, in order.
    pub open spec fn listing(self) -> Seq<(Seq<char>, Seq<char>)> {
        listing_of(self.commands())
    }

    /// The names of the registered commands, in order.
    pub open spec fn names(self) -> Seq<Seq<char>> {
        command_names(self.commands())
    }

    /// A registry without commands.
    pub fn new() -> (r: Self)
        ensures
            r.commands() == Seq::<CommandInfo>::empty(),
            distinct(r.names()),
    {
        let commands: Vec<CommandEntry> = Vec::new();
        CommandRegistry { commands }
    }

    fn find(&self, name: &str) -> (r: Option<usize>)
        ensures
            match r {
                Some(i) => index_of(command_names(self.commands()), name@) == Some(i as int) && i
                    < self.commands().len(),
                None => index_of(command_names(self.commands()), name@) is None,
            },
    {
        let ghost names = command_names(self.commands());
        let mut i: usize = 0;
        while i < self.commands.len()
            invariant
                i <= self.commands@.len(),
                names == command_names(self.commands()),
                forall|j: int| 0 <= j < i ==> names[j] != name@,
            decreases self.commands@.len() - i,
        {
            if same_text(self.commands[i].name.as_str(), name) {
                proof {
                    lemma_index_of_first(names, name@, i as int);
                }
                return Some(i);
            }
            i = i + 1;
        }
        proof {
            lemma_index_of_absent(names, name@);
        }
        None
    }

    fn install(&mut self, entry: CommandEntry)
        ensures
            distinct(final(self).names()),
            final(self).commands() == registered(old(self).commands(), entry.info()),
    {
        let ghost before = self.commands();
        let found = self.find(entry.name.as_str());
        proof {
            use_type_invariant(&*self);
            lemma_registered_names(before, entry.info());
        }
        let mut entries: Vec<CommandEntry> = Vec::new();
        core::mem::swap(&mut self.commands, &mut entries);
        match found {
            Some(i) => {
                entries.set(i, entry);
                assert(entries@.map_values(|e: CommandEntry| e.info()) =~= before.update(
                    i as int,
                    entry.info(),
                ));
            },
            None => {
                entries.push(entry);
                assert(entries@.map_values(|e: CommandEntry| e.info()) =~= before.push(
                    entry.info(),
                ));
            },
        }
        core::mem::swap(&mut self.commands, &mut entries);
    }

    /// Registers the built-in command `builtin`. A command registered
    /// earlier under the same name is replaced, where it stands.
    pub fn register_builtin(&mut self, builtin: Builtin)
        ensures
            distinct(final(self).names()),
            final(self).commands() == registered(old(self).commands(), builtin_info(builtin)),
    {
        self.install(CommandEntry::builtin(builtin));
    }

    /// Registers `command` under `name`, to be run on the texts that
    /// `trigger` accepts. A command registered earlier under the same name
    /// is replaced, where it stands.
    pub fn register_as(
        &mut self,
        name: &str,
        description: &str,
        trigger: Trigger,
        command: Box<dyn Command>,
    )
        ensures
            distinct(final(self).names()),
            final(self).commands() == registered(
                old(self).commands(),
                CommandInfo {
                    name: name@,
                    description: description@,
                    trigger: trigger@,
                    kind: CommandKind::Custom,
                },
            ),
    {
        self.install(CommandEntry::custom(name, description, trigger, command));
    }

    /// Registers `cmd` under the name it gives itself, with the description
    /// and the trigger it reports now.
    pub fn register<C: Command + 'static>(&mut self, cmd: C)
        ensures
            distinct(final(self).names()),
            exists|command: CommandInfo|
                command.kind == CommandKind::Custom && final(self).commands() == registered(
                    old(self).commands(),
                    command,
                ),
    {
        let name = cmd.name();
        let description = cmd.description();
        let trigger = cmd.trigger();
        let boxed: Box<dyn Command> = Box::new(cmd);
        self.register_as(name, description, trigger, boxed);
    }

    /// The name and description of every registered command, in order. No
    /// two of them share a name.
    pub fn list_commands(&self) -> (r: Vec<(String, String)>)
        ensures
            pairs(r@) == self.listing(),
            distinct(self.names()),
    {
        proof {
            use_type_invariant(self);
        }
        let ghost want = self.listing();
        let mut out: Vec<(String, String)> = Vec::new();
        let mut i: usize = 0;
        while i < self.commands.len()
            invariant
                i <= self.commands@.len(),
                want == self.listing(),
                pairs(out@) == want.take(i as int),
            decreases self.commands@.len() - i,
        {
            let ghost before = out@;
            let entry = (self.commands[i].name.clone(), self.commands[i].description.clone());
            out.push(entry);
            assert(pairs(out@) =~= pairs(before).push((entry.0@, entry.1@)));
            i = i + 1;
        }
        out
    }

    /// Hands `text`, which came with the images at `images`, to the first
    /// command whose trigger accepts it, and returns what that command
    /// asks for; `None`, with `user` untouched, where no trigger accepts
    /// the text. Of a command registered from outside nothing more is known
    /// than that it ran.
    pub fn handle(&self, text: &str, images: &Vec<String>, user: &mut User) -> (r: Option<
        CommandOutcome,
    >)
        ensures
            match addressed(self.commands(), text@) {
                None => r is None && *final(user) == *old(user),
                Some(i) => r is Some && (self.commands()[i].kind matches CommandKind::Builtin(
                    builtin,
                ) ==> (final(user)@, r->0@) == builtin_effect(
                    builtin,
                    text@,
                    texts(images@),
                    old(user)@,
                    self.listing(),
                )),
            },
    {
        let ghost flags = acceptances(self.commands(), text@);
        let mut i: usize = 0;
        while i < self.commands.len()
            invariant
                i <= self.commands@.len(),
                flags == acceptances(self.commands(), text@),
                forall|j: int| 0 <= j < i ==> !flags[j],
                *user == *old(user),
            decreases self.commands@.len() - i,
        {
            if self.commands[i].trigger.matches(text) {
                proof {
                    lemma_first_true_is(flags, i as int);
                }
                let listing = self.list_commands();
                let outcome = match &self.commands[i].handler {
                    Handler::Builtin(Builtin::Help) => HelpCommand.execute(
                        text,
                        images,
                        user,
                        &listing,
                    ),
                    Handler::Builtin(Builtin::Clear) => ClearCommand.execute(
                        text,
                        images,
                        user,
                        &listing,
                    ),
                    Handler::Builtin(Builtin::Status) => StatusCommand.execute(
                        text,
                        images,
                        user,
                        &listing,
                    ),
                    Handler::Builtin(Builtin::Image) => ImageCommand.execute(
                        text,
                        images,
                        user,
                        &listing,
                    ),
                    Handler::Builtin(Builtin::Seedream) => SeedreamCommand.execute(
                        text,
                        images,
                        user,
                        &listing,
                    ),
                    Handler::Custom(command) => command.execute(text, images, user, &listing),
                };
                return Some(outcome);
            }
            i = i + 1;
        }
        proof {
            lemma_first_true_none(flags);
        }
        None
    }
}

impl Default for CommandRegistry {
    /// The registry that every bot starts from: `clear`, then `help`.
    fn default() -> (r: Self)
        ensures
            r.commands() == seq![builtin_info(Builtin::Clear), builtin_info(Builtin::Help)],
            distinct(r.names()),
    {
        let mut registry = CommandRegistry::new();
        registry.register_builtin(Builtin::Clear);
        proof {
            lemma_index_of_absent(command_names(Seq::<CommandInfo>::empty()), "clear"@);
        }
        let ghost one = registry.commands();
        registry.register_builtin(Builtin::Help);
        proof {
            reveal_strlit("help");
            reveal_strlit("clear");
            assert("help"@.len() != "clear"@.len());
            lemma_index_of(command_names(one), "help"@);
        }
        registry
    }
}

} // verus!
