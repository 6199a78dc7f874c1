//! How `/codex` is registered with Discord.
use vstd::prelude::*;
use serenity::builder::{CreateCommand, CreateCommandOption};
use serenity::model::application::CommandOptionType;
use crate::commands::{self, CommandSet, Subcommand};

verus! {

/// What a registered option takes.
#[derive(Debug, Clone, Copy, PartialEq, Eq, Structural)]
pub enum OptionKind {
    SubCommand,
    Text,
    Integer,
}

/// What is registered of an option.
#[verifier::ext_equal]
pub struct OptionContent {
    pub kind: OptionKind,
    pub name: Seq<char>,
    pub description: Seq<char>,
    pub required: bool,
    pub options: Seq<OptionContent>,
}

/// What is registered of a command.
#[verifier::ext_equal]
pub struct CommandContent {
    pub name: Seq<char>,
    pub description: Option<Seq<char>>,
    pub options: Seq<OptionContent>,
}

/// Serenity's builder of a command. Nothing is said of what is inside but by
/// `command_content`.
#[verifier::external_type_specification]
#[verifier::external_body]
pub struct ExCreateCommand(serenity::builder::CreateCommand);

/// Serenity's builder of an option. Nothing is said of what is inside but by
/// `option_content`.
#[verifier::external_type_specification]
#[verifier::external_body]
pub struct ExCreateCommandOption(serenity::builder::CreateCommandOption);

/// What a `CreateCommand` holds: its name, its description if it has one, and
/// its options in order.
pub uninterp spec fn command_content(command: CreateCommand) -> CommandContent;

/// What a `CreateCommandOption` holds: its kind, name and description, whether it
/// must be given, and the options under it in order.
pub uninterp spec fn option_content(option: CreateCommandOption) -> OptionContent;

/// Calls `CreateCommand::new`: a command of the name, without a description
/// and without options.
#[verifier::external_body]
fn new_command(name: &str) -> (r: CreateCommand)
    ensures
        command_content(r) == (CommandContent { name: name@, description: None, options: seq![] }),
{
    CreateCommand::new(name)
}

/// Calls `CreateCommand::description`: sets the description and nothing else.
#[verifier::external_body]
fn describe_command(command: CreateCommand, description: &str) -> (r: CreateCommand)
    ensures
        command_content(r) == (CommandContent {
            description: Some(description@),
            ..command_content(command)
        }),
{
    command.description(description)
}

/// Calls `CreateCommand::add_option`: puts the option behind those that are
/// there.
#[verifier::external_body]
fn add_option(command: CreateCommand, option: CreateCommandOption) -> (r: CreateCommand)
    ensures
        command_content(r) == (CommandContent {
            options: command_content(command).options.push(option_content(option)),
            ..command_content(command)
        }),
{
    command.add_option(option)
}

/// Calls `CreateCommandOption::new`: an option of the kind, name and
/// description, not required and without options of its own.
#[verifier::external_body]
fn new_option(kind: OptionKind, name: &str, description: &str) -> (r: CreateCommandOption)
    ensures
        option_content(r) == (OptionContent {
            kind,
            name: name@,
            description: description@,
            required: false,
            options: seq![],
        }),
{
    let kind = match kind {
        OptionKind::SubCommand => CommandOptionType::SubCommand,
        OptionKind::Text => CommandOptionType::String,
        OptionKind::Integer => CommandOptionType::Integer,
    };
    CreateCommandOption::new(kind, name, description)
}

/// Calls `CreateCommandOption::required`: sets whether the option must be given,
/// and nothing else.
#[verifier::external_body]
fn set_required(option: CreateCommandOption, required: bool) -> (r: CreateCommandOption)
    ensures
        option_content(r) == (OptionContent { required, ..option_content(option) }),
{
    option.required(required)
}

/// Calls `CreateCommandOption::add_sub_option`: puts the option behind those
/// that are there.
#[verifier::external_body]
fn add_sub_option(option: CreateCommandOption, sub: CreateCommandOption) -> (r: CreateCommandOption)
    ensures
        option_content(r) == (OptionContent {
            options: option_content(option).options.push(option_content(sub)),
            ..option_content(option)
        }),
{
    option.add_sub_option(sub)
}

/// An option that takes a value.
pub open spec fn value_option(
    kind: OptionKind,
    name: Seq<char>,
    description: Seq<char>,
    required: bool,
) -> OptionContent {
    OptionContent { kind, name, description, required, options: seq![] }
}

/// How a subcommand is described to users.
pub open spec fn subcommand_description(set: CommandSet, sub: Subcommand) -> Seq<char> {
    match sub {
        Subcommand::Ask => "Queue a user turn"@,
        Subcommand::Steer => "Steer the active turn, or queue if idle"@,
        Subcommand::Queue => "Show queued turns"@,
        Subcommand::Model => "Show or switch model"@,
        Subcommand::Effort => "Show or switch reasoning effort"@,
        Subcommand::Models => "List available models"@,
        Subcommand::Status => "Show account, rate limits, and current session"@,
        Subcommand::Goal => "Set or inspect a goal"@,
        Subcommand::Pause => "Pause the current goal"@,
        Subcommand::Resume => match set {
            CommandSet::SessionActions => "Resume the current goal"@,
            CommandSet::SessionCommands =>
                "Resume a session by thread id, or resume the current goal"@,
        },
        Subcommand::GoalClear => "Clear the current goal"@,
        Subcommand::Session => match set {
            CommandSet::SessionActions => "Show, new, list, or switch sessions"@,
            CommandSet::SessionCommands => "Show current session"@,
        },
        Subcommand::New => "Start a new Codex session"@,
        Subcommand::Clear => "Clear the current Codex session"@,
        Subcommand::Sessions => "List Codex sessions"@,
        Subcommand::Interrupt => "Interrupt the active turn"@,
    }
}

/// The options that a subcommand takes.
pub open spec fn subcommand_options(set: CommandSet, sub: Subcommand) -> Seq<OptionContent> {
    match sub {
        Subcommand::Ask => seq![value_option(OptionKind::Text, "prompt"@, "Prompt text"@, true)],
        Subcommand::Steer => seq![
            value_option(OptionKind::Text, "message"@, "Steering text"@, true),
        ],
        Subcommand::Model => seq![
            value_option(OptionKind::Text, "name"@, "Model id, omit to show current"@, false),
        ],
        Subcommand::Effort => seq![
            value_option(
                OptionKind::Text,
                "level"@,
                match set {
                    CommandSet::SessionActions => "minimal, low, medium, high"@,
                    CommandSet::SessionCommands => "minimal, low, medium, high, xhigh"@,
                },
                false,
            ),
        ],
        Subcommand::Goal => seq![
            value_option(
                OptionKind::Text,
                "objective"@,
                "New objective, omit to show current goal"@,
                false,
            ),
            value_option(OptionKind::Integer, "token_budget"@, "Optional token budget"@, false),
        ],
        Subcommand::Resume => match set {
            CommandSet::SessionActions => seq![],
            CommandSet::SessionCommands => seq![
                value_option(OptionKind::Text, "thread_id"@, "Thread id to resume"@, false),
            ],
        },
        Subcommand::Session => match set {
            CommandSet::SessionActions => seq![
                value_option(OptionKind::Text, "action"@, "show, new, list, switch"@, false),
                value_option(OptionKind::Text, "thread_id"@, "Thread id for switch"@, false),
            ],
            CommandSet::SessionCommands => seq![],
        },
        _ => seq![],
    }
}

/// What is registered of a subcommand.
pub open spec fn subcommand_content(set: CommandSet, sub: Subcommand) -> OptionContent {
    OptionContent {
        kind: OptionKind::SubCommand,
        name: commands::subcommand_name(sub),
        description: subcommand_description(set, sub),
        required: false,
        options: subcommand_options(set, sub),
    }
}

/// What is registered of `/codex`.
pub open spec fn codex_command(set: CommandSet) -> CommandContent {
    CommandContent {
        name: "codex"@,
        description: Some("Use Codex through Discord"@),
        options: commands::subcommands_of(set).map_values(
            |sub: Subcommand| subcommand_content(set, sub),
        ),
    }
}

/// A subcommand with the name and description, without options.
fn plain_subcommand(sub: Subcommand, description: &str) -> (r: CreateCommandOption)
    ensures
        option_content(r) == (OptionContent {
            kind: OptionKind::SubCommand,
            name: commands::subcommand_name(sub),
            description: description@,
            required: false,
            options: seq![],
        }),
{
    new_option(OptionKind::SubCommand, sub.name(), description)
}

/// The option with which a subcommand is registered.
pub fn subcommand_option(set: CommandSet, sub: Subcommand) -> (r: CreateCommandOption)
    ensures
        option_content(r) == subcommand_content(set, sub),
{
    let r = match sub {
        Subcommand::Ask => add_sub_option(
            plain_subcommand(sub, "Queue a user turn"),
            set_required(new_option(OptionKind::Text, "prompt", "Prompt text"), true),
        ),
        Subcommand::Steer => add_sub_option(
            plain_subcommand(sub, "Steer the active turn, or queue if idle"),
            set_required(new_option(OptionKind::Text, "message", "Steering text"), true),
        ),
        Subcommand::Queue => plain_subcommand(sub, "Show queued turns"),
        Subcommand::Model => add_sub_option(
            plain_subcommand(sub, "Show or switch model"),
            new_option(OptionKind::Text, "name", "Model id, omit to show current"),
        ),
        Subcommand::Effort => add_sub_option(
            plain_subcommand(sub, "Show or switch reasoning effort"),
            new_option(
                OptionKind::Text,
                "level",
                match set {
                    CommandSet::SessionActions => "minimal, low, medium, high",
                    CommandSet::SessionCommands => "minimal, low, medium, high, xhigh",
                },
            ),
        ),
        Subcommand::Models => plain_subcommand(sub, "List available models"),
        Subcommand::Status => plain_subcommand(
            sub,
            "Show account, rate limits, and current session",
        ),
        Subcommand::Goal => add_sub_option(
            add_sub_option(
                plain_subcommand(sub, "Set or inspect a goal"),
                new_option(
                    OptionKind::Text,
                    "objective",
                    "New objective, omit to show current goal",
                ),
            ),
            new_option(OptionKind::Integer, "token_budget", "Optional token budget"),
        ),
        Subcommand::Pause => plain_subcommand(sub, "Pause the current goal"),
        Subcommand::Resume => match set {
            CommandSet::SessionActions => plain_subcommand(sub, "Resume the current goal"),
            CommandSet::SessionCommands => add_sub_option(
                plain_subcommand(sub, "Resume a session by thread id, or resume the current goal"),
                new_option(OptionKind::Text, "thread_id", "Thread id to resume"),
            ),
        },
        Subcommand::GoalClear => plain_subcommand(sub, "Clear the current goal"),
        Subcommand::Session => match set {
            CommandSet::SessionActions => add_sub_option(
                add_sub_option(
                    plain_subcommand(sub, "Show, new, list, or switch sessions"),
                    new_option(OptionKind::Text, "action", "show, new, list, switch"),
                ),
                new_option(OptionKind::Text, "thread_id", "Thread id for switch"),
            ),
            CommandSet::SessionCommands => plain_subcommand(sub, "Show current session"),
        },
        Subcommand::New => plain_subcommand(sub, "Start a new Codex session"),
        Subcommand::Clear => plain_subcommand(sub, "Clear the current Codex session"),
        Subcommand::Sessions => plain_subcommand(sub, "List Codex sessions"),
        Subcommand::Interrupt => plain_subcommand(sub, "Interrupt the active turn"),
    };
    assert(option_content(r).options =~= subcommand_options(set, sub));
    r
}

/// The commands that the gateway registers: `/codex` with its subcommands.
pub fn commands(set: CommandSet) -> (list: Vec<CreateCommand>)
    ensures
        list@.len() == 1,
        command_content(list@[0]) == codex_command(set),
{
    let subs = commands::subcommands(set);
    let mut command = describe_command(new_command("codex"), "Use Codex through Discord");
    let ghost all = codex_command(set).options;
    for i in 0..subs.len()
        invariant
            subs@ == commands::subcommands_of(set),
            all == codex_command(set).options,
            all.len() == subs.len(),
            command_content(command).name == "codex"@,
            command_content(command).description == Some("Use Codex through Discord"@),
            command_content(command).options == all.take(i as int),
    {
        command = add_option(command, subcommand_option(set, subs[i]));
        assert(all.take(i as int).push(all[i as int]) =~= all.take(i + 1));
    }
    assert(all.take(all.len() as int) =~= all);
    vec![command]
}

/// The subcommands that are registered are those that are carried out: any other
/// is answered as unknown.
pub proof fn law_registered_subcommands_are_handled(
    set: CommandSet,
    options: Seq<commands::CommandOption>,
)
    requires
        options.len() > 0,
    ensures
        (exists|i: int|
            0 <= i < codex_command(set).options.len() && (#[trigger] codex_command(
                set,
            ).options[i]).name == options[0].name@) <==> commands::action_of(set, options) != Ok::<
            _,
            commands::CommandError<Seq<char>>,
        >(commands::CommandAction::Respond("Unknown subcommand"@)),
{
    let list = commands::subcommands_of(set);
    let all = codex_command(set).options;
    let name = options[0].name@;
    commands::lemma_subcommand_named(list, name);
    match commands::subcommand_named(list, name) {
        Some(sub) => {
            let i = choose|i: int| 0 <= i < list.len() && list[i] == sub;
            assert(all[i] == subcommand_content(set, sub));
        },
        None => {
            assert forall|i: int| 0 <= i < all.len() implies (#[trigger] all[i]).name != name by {
                assert(all[i] == subcommand_content(set, list[i]));
            }
        },
    }
}

/// Two lists of options hold the same value for a registered option.
pub open spec fn same_value(
    a: Seq<commands::CommandOption>,
    b: Seq<commands::CommandOption>,
    option: OptionContent,
) -> bool {
    if option.kind == OptionKind::Integer {
        commands::integer_option(a, option.name) == commands::integer_option(b, option.name)
    } else {
        commands::text_option(a, option.name) == commands::text_option(b, option.name)
    }
}

/// What a subcommand asks of Codex depends on the options that are registered for
/// it and on nothing else.
pub proof fn law_only_registered_options_are_read(
    set: CommandSet,
    sub: Subcommand,
    a: Seq<commands::CommandOption>,
    b: Seq<commands::CommandOption>,
)
    requires
        commands::subcommands_of(set).contains(sub),
        forall|i: int|
            0 <= i < subcommand_options(set, sub).len() ==> same_value(
                a,
                b,
                #[trigger] subcommand_options(set, sub)[i],
            ),
    ensures
        commands::call_of(set, sub, a) == commands::call_of(set, sub, b),
{
    let all = subcommand_options(set, sub);
    if all.len() > 0 {
        assert(same_value(a, b, all[0]));
    }
    if all.len() > 1 {
        assert(same_value(a, b, all[1]));
    }
}

/// A command is refused for a missing option if and only if an option that is
/// registered as required is missing.
pub proof fn law_required_options(
    set: CommandSet,
    sub: Subcommand,
    options: Seq<commands::CommandOption>,
)
    ensures
        (exists|i: int|
            0 <= i < subcommand_options(set, sub).len() && (#[trigger] subcommand_options(
                set,
                sub,
            )[i]).required && commands::text_option(
                options,
                subcommand_options(set, sub)[i].name,
            ) is None) <==> (commands::call_of(set, sub, options) matches Err(
            commands::CommandError::MissingOption(_),
        )),
{
    let all = subcommand_options(set, sub);
    if sub == Subcommand::Ask || sub == Subcommand::Steer {
        assert(all[0].required);
    }
}

/// The option is a subcommand of this name and description.
pub open spec fn is_subcommand(
    option: OptionContent,
    name: Seq<char>,
    description: Seq<char>,
) -> bool {
    &&& option.kind == OptionKind::SubCommand
    &&& option.name == name
    &&& option.description == description
    &&& !option.required
}

/// The option takes a value of this kind under this name.
pub open spec fn takes_value(
    option: OptionContent,
    kind: OptionKind,
    name: Seq<char>,
    description: Seq<char>,
    required: bool,
) -> bool {
    &&& option.kind == kind
    &&& option.name == name
    &&& option.description == description
    &&& option.required == required
    &&& option.options.len() == 0
}

/// One command is registered, `/codex`, and under it the subcommands of the set in their
/// order and nothing else.
pub proof fn law_registered_command(set: CommandSet)
    ensures
        codex_command(set).name == "codex"@,
        codex_command(set).description == Some("Use Codex through Discord"@),
        codex_command(set).options.len() == commands::subcommands_of(set).len(),
        forall|i: int|
            0 <= i < codex_command(set).options.len() ==> #[trigger] codex_command(set).options[i]
                == subcommand_content(set, commands::subcommands_of(set)[i]),
{
}

/// How each subcommand is registered: its name, its description, and the options under
/// it, with what each takes and whether it must be given.
pub proof fn law_registered_subcommands(set: CommandSet, sub: Subcommand)
    ensures
        ({
            let c = subcommand_content(set, sub);
            let actions = set == CommandSet::SessionActions;
            match sub {
                Subcommand::Ask => {
                    &&& is_subcommand(c, "ask"@, "Queue a user turn"@)
                    &&& c.options.len() == 1
                    &&& takes_value(c.options[0], OptionKind::Text, "prompt"@, "Prompt text"@, true)
                },
                Subcommand::Steer => {
                    &&& is_subcommand(c, "steer"@, "Steer the active turn, or queue if idle"@)
                    &&& c.options.len() == 1
                    &&& takes_value(
                        c.options[0],
                        OptionKind::Text,
                        "message"@,
                        "Steering text"@,
                        true,
                    )
                },
                Subcommand::Queue => {
                    &&& is_subcommand(c, "queue"@, "Show queued turns"@)
                    &&& c.options.len() == 0
                },
                Subcommand::Model => {
                    &&& is_subcommand(c, "model"@, "Show or switch model"@)
                    &&& c.options.len() == 1
                    &&& takes_value(
                        c.options[0],
                        OptionKind::Text,
                        "name"@,
                        "Model id, omit to show current"@,
                        false,
                    )
                },
                Subcommand::Effort => {
                    &&& is_subcommand(c, "effort"@, "Show or switch reasoning effort"@)
                    &&& c.options.len() == 1
                    &&& takes_value(
                        c.options[0],
                        OptionKind::Text,
                        "level"@,
                        if actions {
                            "minimal, low, medium, high"@
                        } else {
                            "minimal, low, medium, high, xhigh"@
                        },
                        false,
                    )
                },
                Subcommand::Models => {
                    &&& is_subcommand(c, "models"@, "List available models"@)
                    &&& c.options.len() == 0
                },
                Subcommand::Status => {
                    &&& is_subcommand(
                        c,
                        "status"@,
                        "Show account, rate limits, and current session"@,
                    )
                    &&& c.options.len() == 0
                },
                Subcommand::Goal => {
                    &&& is_subcommand(c, "goal"@, "Set or inspect a goal"@)
                    &&& c.options.len() == 2
                    &&& takes_value(
                        c.options[0],
                        OptionKind::Text,
                        "objective"@,
                        "New objective, omit to show current goal"@,
                        false,
                    )
                    &&& takes_value(
                        c.options[1],
                        OptionKind::Integer,
                        "token_budget"@,
                        "Optional token budget"@,
                        false,
                    )
                },
                Subcommand::Pause => {
                    &&& is_subcommand(c, "pause"@, "Pause the current goal"@)
                    &&& c.options.len() == 0
                },
                Subcommand::Resume => if actions {
                    &&& is_subcommand(c, "resume"@, "Resume the current goal"@)
                    &&& c.options.len() == 0
                } else {
                    &&& is_subcommand(
                        c,
                        "resume"@,
                        "Resume a session by thread id, or resume the current goal"@,
                    )
                    &&& c.options.len() == 1
                    &&& takes_value(
                        c.options[0],
                        OptionKind::Text,
                        "thread_id"@,
                        "Thread id to resume"@,
                        false,
                    )
                },
                Subcommand::GoalClear => {
                    &&& is_subcommand(c, "goal-clear"@, "Clear the current goal"@)
                    &&& c.options.len() == 0
                },
                Subcommand::Session => if actions {
                    &&& is_subcommand(c, "session"@, "Show, new, list, or switch sessions"@)
                    &&& c.options.len() == 2
                    &&& takes_value(
                        c.options[0],
                        OptionKind::Text,
                        "action"@,
                        "show, new, list, switch"@,
                        false,
                    )
                    &&& takes_value(
                        c.options[1],
                        OptionKind::Text,
                        "thread_id"@,
                        "Thread id for switch"@,
                        false,
                    )
                } else {
                    &&& is_subcommand(c, "session"@, "Show current session"@)
                    &&& c.options.len() == 0
                },
                Subcommand::New => {
                    &&& is_subcommand(c, "new"@, "Start a new Codex session"@)
                    &&& c.options.len() == 0
                },
                Subcommand::Clear => {
                    &&& is_subcommand(c, "clear"@, "Clear the current Codex session"@)
                    &&& c.options.len() == 0
                },
                Subcommand::Sessions => {
                    &&& is_subcommand(c, "sessions"@, "List Codex sessions"@)
                    &&& c.options.len() == 0
                },
                Subcommand::Interrupt => {
                    &&& is_subcommand(c, "interrupt"@, "Interrupt the active turn"@)
                    &&& c.options.len() == 0
                },
            }
        }),
{
}

} // verus!
