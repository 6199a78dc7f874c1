//! The subcommands of `/codex`: which there are, and what each asks of Codex.
use vstd::prelude::*;
use crate::text;

verus! {

/// Which subcommands there are.
#[derive(Debug, Clone, Copy, PartialEq, Eq, Structural)]
pub enum CommandSet {
    /// `session` takes an action and does all that is done with sessions.
    SessionActions,
    /// `session`, `new`, `clear` and `sessions` do one thing each, `resume` can
    /// name a session, and the effort can be `xhigh`.
    SessionCommands,
}

/// A subcommand of `/codex`.
#[derive(Debug, Clone, Copy, PartialEq, Eq, Structural)]
pub enum Subcommand {
    Ask,
    Steer,
    Queue,
    Model,
    Effort,
    Models,
    Status,
    Goal,
    Pause,
    Resume,
    GoalClear,
    Session,
    New,
    Clear,
    Sessions,
    Interrupt,
}

/// How much a model is to reason.
#[derive(Debug, Clone, Copy, PartialEq, Eq, Structural)]
pub enum ReasoningEffort {
    Minimal,
    Low,
    Medium,
    High,
    XHigh,
}

/// What is done with sessions.
#[derive(Debug, Clone, Copy, PartialEq, Eq, Structural)]
pub enum SessionAction {
    Show,
    New,
    List,
    Switch,
}

/// What a goal is set to.
#[derive(Debug, Clone, Copy, PartialEq, Eq, Structural)]
pub enum GoalStatus {
    Active,
    Paused,
}

/// What Codex is asked for, on behalf of one channel.
#[derive(Debug, PartialEq, Eq)]
pub enum GatewayCall<T = String> {
    /// Queues a turn; with `steer`, steers the active turn if there is one.
    EnqueueTurn { text: T, steer: bool },
    QueueStatus,
    SetModel(T),
    ModelStatus,
    SetEffort(Option<ReasoningEffort>),
    EffortStatus,
    ListModels,
    Status,
    Goal { objective: Option<T>, token_budget: Option<i64> },
    SetGoalStatus(GoalStatus),
    ClearGoal,
    Session { action: SessionAction, thread_id: Option<T> },
    Interrupt,
}

impl View for GatewayCall {
    type V = GatewayCall<Seq<char>>;

    open spec fn view(&self) -> GatewayCall<Seq<char>> {
        match *self {
            GatewayCall::EnqueueTurn { text, steer } => GatewayCall::EnqueueTurn {
                text: text@,
                steer,
            },
            GatewayCall::QueueStatus => GatewayCall::QueueStatus,
            GatewayCall::SetModel(model) => GatewayCall::SetModel(model@),
            GatewayCall::ModelStatus => GatewayCall::ModelStatus,
            GatewayCall::SetEffort(effort) => GatewayCall::SetEffort(effort),
            GatewayCall::EffortStatus => GatewayCall::EffortStatus,
            GatewayCall::ListModels => GatewayCall::ListModels,
            GatewayCall::Status => GatewayCall::Status,
            GatewayCall::Goal { objective, token_budget } => GatewayCall::Goal {
                objective: objective.deep_view(),
                token_budget,
            },
            GatewayCall::SetGoalStatus(status) => GatewayCall::SetGoalStatus(status),
            GatewayCall::ClearGoal => GatewayCall::ClearGoal,
            GatewayCall::Session { action, thread_id } => GatewayCall::Session {
                action,
                thread_id: thread_id.deep_view(),
            },
            GatewayCall::Interrupt => GatewayCall::Interrupt,
        }
    }
}

/// What is done for a command.
#[derive(Debug, PartialEq, Eq)]
pub enum CommandAction<T = String> {
    /// Replies at once.
    Respond(T),
    /// Asks Codex, and replies with its answer.
    Call(GatewayCall<T>),
}

impl View for CommandAction {
    type V = CommandAction<Seq<char>>;

    open spec fn view(&self) -> CommandAction<Seq<char>> {
        match *self {
            CommandAction::Respond(content) => CommandAction::Respond(content@),
            CommandAction::Call(call) => CommandAction::Call(call@),
        }
    }
}

/// Why a command cannot be carried out.
#[derive(Debug, PartialEq, Eq)]
pub enum CommandError<T = String> {
    /// An option that the subcommand needs is missing.
    MissingOption(T),
    /// There is no such effort.
    UnknownEffort(CommandSet, T),
    /// There is no such session action.
    UnknownSessionAction(T),
}

impl View for CommandError {
    type V = CommandError<Seq<char>>;

    open spec fn view(&self) -> CommandError<Seq<char>> {
        match *self {
            CommandError::MissingOption(name) => CommandError::MissingOption(name@),
            CommandError::UnknownEffort(set, level) => CommandError::UnknownEffort(set, level@),
            CommandError::UnknownSessionAction(action) => CommandError::UnknownSessionAction(
                action@,
            ),
        }
    }
}

/// What a result holds, by its view.
pub open spec fn result_view<A: View, B: View>(r: Result<A, B>) -> Result<A::V, B::V> {
    match r {
        Ok(a) => Ok(a@),
        Err(b) => Err(b@),
    }
}

/// The value that a user gave for an option.
#[derive(Debug, PartialEq, Eq)]
pub enum OptionValue {
    Text(String),
    /// A text that is still being typed.
    Autocomplete(String),
    Integer(i64),
    SubCommand(Vec<CommandOption>),
    /// A value that no subcommand reads.
    Other,
}

/// An option that a user gave.
#[derive(Debug, PartialEq, Eq)]
pub struct CommandOption {
    pub name: String,
    pub value: OptionValue,
}

impl OptionValue {
    /// The text of a value that is one.
    pub open spec fn text(self) -> Option<Seq<char>> {
        match self {
            OptionValue::Text(t) => Some(t@),
            OptionValue::Autocomplete(t) => Some(t@),
            _ => None,
        }
    }

    /// The number of a value that is one.
    pub open spec fn integer(self) -> Option<i64> {
        match self {
            OptionValue::Integer(n) => Some(n),
            _ => None,
        }
    }
}

/// The first option of a name.
pub open spec fn option_named(options: Seq<CommandOption>, name: Seq<char>) -> Option<
    CommandOption,
>
    decreases options.len(),
{
    if options.len() == 0 {
        None
    } else if options[0].name@ == name {
        Some(options[0])
    } else {
        option_named(options.drop_first(), name)
    }
}

/// The options of the subcommand that a command was called with.
pub open spec fn sub_options(options: Seq<CommandOption>) -> Seq<CommandOption> {
    if options.len() == 0 {
        seq![]
    } else {
        match options[0].value {
            OptionValue::SubCommand(inner) => inner@,
            _ => seq![],
        }
    }
}

/// The text that the subcommand was given as the option `name`.
pub open spec fn text_option(options: Seq<CommandOption>, name: Seq<char>) -> Option<Seq<char>> {
    match option_named(sub_options(options), name) {
        Some(option) => option.value.text(),
        None => None,
    }
}

/// The number that the subcommand was given as the option `name`.
pub open spec fn integer_option(options: Seq<CommandOption>, name: Seq<char>) -> Option<i64> {
    match option_named(sub_options(options), name) {
        Some(option) => option.value.integer(),
        None => None,
    }
}

/// The first option of a name.
fn find_option<'a>(options: &'a Vec<CommandOption>, name: &str) -> (option: Option<
    &'a CommandOption,
>)
    ensures
        match option_named(options@, name@) {
            Some(o) => option == Some(&o),
            None => option is None,
        },
{
    assert(options@.skip(0) =~= options@);
    for i in 0..options.len()
        invariant
            option_named(options@.skip(i as int), name@) == option_named(options@, name@),
    {
        assert(options@.skip(i as int).drop_first() =~= options@.skip(i + 1));
        if text::same_text(options[i].name.as_str(), name) {
            return Some(&options[i]);
        }
    }
    None
}

/// The first option of a name among the options of the subcommand.
fn find_sub_option<'a>(options: &'a Vec<CommandOption>, name: &str) -> (option: Option<
    &'a CommandOption,
>)
    ensures
        match option_named(sub_options(options@), name@) {
            Some(o) => option == Some(&o),
            None => option is None,
        },
{
    if options.len() == 0 {
        return None;
    }
    match &options[0].value {
        OptionValue::SubCommand(inner) => find_option(inner, name),
        _ => None,
    }
}

/// The text that the subcommand was given as the option `name`, if it is a text.
pub fn sub_string_opt(options: &Vec<CommandOption>, name: &str) -> (r: Option<String>)
    ensures
        r.deep_view() == text_option(options@, name@),
{
    match find_sub_option(options, name) {
        Some(option) => match &option.value {
            OptionValue::Text(t) => Some(t.clone()),
            OptionValue::Autocomplete(t) => Some(t.clone()),
            _ => None,
        },
        None => None,
    }
}

/// The number that the subcommand was given as the option `name`, if it is one.
pub fn sub_i64_opt(options: &Vec<CommandOption>, name: &str) -> (r: Option<i64>)
    ensures
        r == integer_option(options@, name@),
{
    match find_sub_option(options, name) {
        Some(option) => match &option.value {
            OptionValue::Integer(n) => Some(*n),
            _ => None,
        },
        None => None,
    }
}

/// The text that the subcommand must be given as the option `name`.
pub fn sub_string(options: &Vec<CommandOption>, name: &str) -> (r: Result<String, CommandError>)
    ensures
        result_view(r) == (match text_option(options@, name@) {
            Some(t) => Ok(t),
            None => Err(CommandError::MissingOption(name@)),
        }),
{
    match sub_string_opt(options, name) {
        Some(t) => Ok(t),
        None => Err(CommandError::MissingOption(name.to_owned())),
    }
}

/// The name of a subcommand.
pub open spec fn subcommand_name(sub: Subcommand) -> Seq<char> {
    match sub {
        Subcommand::Ask => "ask"@,
        Subcommand::Steer => "steer"@,
        Subcommand::Queue => "queue"@,
        Subcommand::Model => "model"@,
        Subcommand::Effort => "effort"@,
        Subcommand::Models => "models"@,
        Subcommand::Status => "status"@,
        Subcommand::Goal => "goal"@,
        Subcommand::Pause => "pause"@,
        Subcommand::Resume => "resume"@,
        Subcommand::GoalClear => "goal-clear"@,
        Subcommand::Session => "session"@,
        Subcommand::New => "new"@,
        Subcommand::Clear => "clear"@,
        Subcommand::Sessions => "sessions"@,
        Subcommand::Interrupt => "interrupt"@,
    }
}

/// The subcommands of a set, in the order in which they are registered.
pub open spec fn subcommands_of(set: CommandSet) -> Seq<Subcommand> {
    match set {
        CommandSet::SessionActions => seq![
            Subcommand::Ask,
            Subcommand::Steer,
            Subcommand::Queue,
            Subcommand::Model,
            Subcommand::Effort,
            Subcommand::Models,
            Subcommand::Status,
            Subcommand::Goal,
            Subcommand::Pause,
            Subcommand::Resume,
            Subcommand::GoalClear,
            Subcommand::Session,
            Subcommand::Interrupt,
        ],
        CommandSet::SessionCommands => seq![
            Subcommand::Ask,
            Subcommand::Steer,
            Subcommand::Queue,
            Subcommand::Model,
            Subcommand::Effort,
            Subcommand::Models,
            Subcommand::Status,
            Subcommand::Goal,
            Subcommand::Pause,
            Subcommand::Resume,
            Subcommand::GoalClear,
            Subcommand::Session,
            Subcommand::New,
            Subcommand::Clear,
            Subcommand::Sessions,
            Subcommand::Interrupt,
        ],
    }
}

/// The first subcommand in the list that has the name.
pub open spec fn subcommand_named(list: Seq<Subcommand>, name: Seq<char>) -> Option<Subcommand>
    decreases list.len(),
{
    if list.len() == 0 {
        None
    } else if subcommand_name(list[0]) == name {
        Some(list[0])
    } else {
        subcommand_named(list.drop_first(), name)
    }
}

impl Subcommand {
    /// The name of the subcommand.
    pub fn name(self) -> (name: &'static str)
        ensures
            name@ == subcommand_name(self),
    {
        match self {
            Subcommand::Ask => "ask",
            Subcommand::Steer => "steer",
            Subcommand::Queue => "queue",
            Subcommand::Model => "model",
            Subcommand::Effort => "effort",
            Subcommand::Models => "models",
            Subcommand::Status => "status",
            Subcommand::Goal => "goal",
            Subcommand::Pause => "pause",
            Subcommand::Resume => "resume",
            Subcommand::GoalClear => "goal-clear",
            Subcommand::Session => "session",
            Subcommand::New => "new",
            Subcommand::Clear => "clear",
            Subcommand::Sessions => "sessions",
            Subcommand::Interrupt => "interrupt",
        }
    }
}

/// The subcommands of a set, in the order in which they are registered.
pub fn subcommands(set: CommandSet) -> (list: Vec<Subcommand>)
    ensures
        list@ == subcommands_of(set),
{
    let list = match set {
        CommandSet::SessionActions => vec![
            Subcommand::Ask,
            Subcommand::Steer,
            Subcommand::Queue,
            Subcommand::Model,
            Subcommand::Effort,
            Subcommand::Models,
            Subcommand::Status,
            Subcommand::Goal,
            Subcommand::Pause,
            Subcommand::Resume,
            Subcommand::GoalClear,
            Subcommand::Session,
            Subcommand::Interrupt,
        ],
        CommandSet::SessionCommands => vec![
            Subcommand::Ask,
            Subcommand::Steer,
            Subcommand::Queue,
            Subcommand::Model,
            Subcommand::Effort,
            Subcommand::Models,
            Subcommand::Status,
            Subcommand::Goal,
            Subcommand::Pause,
            Subcommand::Resume,
            Subcommand::GoalClear,
            Subcommand::Session,
            Subcommand::New,
            Subcommand::Clear,
            Subcommand::Sessions,
            Subcommand::Interrupt,
        ],
    };
    assert(list@ =~= subcommands_of(set));
    list
}

/// The subcommand of a set that has the name.
pub fn find_subcommand(set: CommandSet, name: &str) -> (sub: Option<Subcommand>)
    ensures
        sub == subcommand_named(subcommands_of(set), name@),
{
    let list = subcommands(set);
    assert(list@.skip(0) =~= list@);
    for i in 0..list.len()
        invariant
            subcommand_named(list@.skip(i as int), name@) == subcommand_named(list@, name@),
            list@ == subcommands_of(set),
    {
        assert(list@.skip(i as int).drop_first() =~= list@.skip(i + 1));
        if text::same_text(list[i].name(), name) {
            return Some(list[i]);
        }
    }
    None
}

/// What a level names: no effort of its own (`Some(None)`), an effort, or
/// nothing.
pub open spec fn effort_named(set: CommandSet, level: Seq<char>) -> Option<
    Option<ReasoningEffort>,
> {
    if level == "default"@ || level == "clear"@ || level == "none"@ {
        Some(None)
    } else if level == "minimal"@ {
        Some(Some(ReasoningEffort::Minimal))
    } else if level == "low"@ {
        Some(Some(ReasoningEffort::Low))
    } else if level == "medium"@ {
        Some(Some(ReasoningEffort::Medium))
    } else if level == "high"@ {
        Some(Some(ReasoningEffort::High))
    } else if level == "xhigh"@ && set == CommandSet::SessionCommands {
        Some(Some(ReasoningEffort::XHigh))
    } else {
        None
    }
}

/// The effort that a user asks for, in upper or lower case.
pub open spec fn effort_of(set: CommandSet, value: Seq<char>) -> Result<
    Option<ReasoningEffort>,
    CommandError<Seq<char>>,
> {
    match effort_named(set, text::lowercase(value)) {
        Some(effort) => Ok(effort),
        None => Err(CommandError::UnknownEffort(set, text::lowercase(value))),
    }
}

/// Reads the effort that a user asks for.
pub fn parse_effort(set: CommandSet, value: &str) -> (r: Result<
    Option<ReasoningEffort>,
    CommandError,
>)
    ensures
        match r {
            Ok(effort) => effort_of(set, value@) == Ok::<_, CommandError<Seq<char>>>(effort),
            Err(error) => effort_of(set, value@) == Err::<Option<ReasoningEffort>, _>(error@),
        },
{
    let level = value.to_ascii_lowercase();
    let l = level.as_str();
    if text::same_text(l, "default") || text::same_text(l, "clear") || text::same_text(l, "none") {
        Ok(None)
    } else if text::same_text(l, "minimal") {
        Ok(Some(ReasoningEffort::Minimal))
    } else if text::same_text(l, "low") {
        Ok(Some(ReasoningEffort::Low))
    } else if text::same_text(l, "medium") {
        Ok(Some(ReasoningEffort::Medium))
    } else if text::same_text(l, "high") {
        Ok(Some(ReasoningEffort::High))
    } else if set == CommandSet::SessionCommands && text::same_text(l, "xhigh") {
        Ok(Some(ReasoningEffort::XHigh))
    } else {
        Err(CommandError::UnknownEffort(set, level))
    }
}

/// What an action names.
pub open spec fn session_action_named(action: Seq<char>) -> Option<SessionAction> {
    if action == "show"@ {
        Some(SessionAction::Show)
    } else if action == "new"@ {
        Some(SessionAction::New)
    } else if action == "list"@ {
        Some(SessionAction::List)
    } else if action == "switch"@ {
        Some(SessionAction::Switch)
    } else {
        None
    }
}

/// The session action that a user asks for, in upper or lower case.
pub open spec fn session_action_of(value: Seq<char>) -> Result<
    SessionAction,
    CommandError<Seq<char>>,
> {
    match session_action_named(text::lowercase(value)) {
        Some(action) => Ok(action),
        None => Err(CommandError::UnknownSessionAction(text::lowercase(value))),
    }
}

/// Reads the session action that a user asks for.
pub fn parse_session_action(value: &str) -> (r: Result<SessionAction, CommandError>)
    ensures
        match r {
            Ok(action) => session_action_of(value@) == Ok::<_, CommandError<Seq<char>>>(action),
            Err(error) => session_action_of(value@) == Err::<SessionAction, _>(error@),
        },
{
    let action = value.to_ascii_lowercase();
    let a = action.as_str();
    if text::same_text(a, "show") {
        Ok(SessionAction::Show)
    } else if text::same_text(a, "new") {
        Ok(SessionAction::New)
    } else if text::same_text(a, "list") {
        Ok(SessionAction::List)
    } else if text::same_text(a, "switch") {
        Ok(SessionAction::Switch)
    } else {
        Err(CommandError::UnknownSessionAction(action))
    }
}

/// What a subcommand asks of Codex, given the options of the command.
pub open spec fn call_of(
    set: CommandSet,
    sub: Subcommand,
    options: Seq<CommandOption>,
) -> Result<GatewayCall<Seq<char>>, CommandError<Seq<char>>> {
    match sub {
        Subcommand::Ask => match text_option(options, "prompt"@) {
            Some(text) => Ok(GatewayCall::EnqueueTurn { text, steer: false }),
            None => Err(CommandError::MissingOption("prompt"@)),
        },
        Subcommand::Steer => match text_option(options, "message"@) {
            Some(text) => Ok(GatewayCall::EnqueueTurn { text, steer: true }),
            None => Err(CommandError::MissingOption("message"@)),
        },
        Subcommand::Queue => Ok(GatewayCall::QueueStatus),
        Subcommand::Model => match text_option(options, "name"@) {
            Some(model) => Ok(GatewayCall::SetModel(model)),
            None => Ok(GatewayCall::ModelStatus),
        },
        Subcommand::Effort => match text_option(options, "level"@) {
            Some(level) => match effort_of(set, level) {
                Ok(effort) => Ok(GatewayCall::SetEffort(effort)),
                Err(error) => Err(error),
            },
            None => Ok(GatewayCall::EffortStatus),
        },
        Subcommand::Models => Ok(GatewayCall::ListModels),
        Subcommand::Status => Ok(GatewayCall::Status),
        Subcommand::Goal => Ok(
            GatewayCall::Goal {
                objective: text_option(options, "objective"@),
                token_budget: integer_option(options, "token_budget"@),
            },
        ),
        Subcommand::Pause => Ok(GatewayCall::SetGoalStatus(GoalStatus::Paused)),
        Subcommand::Resume => if set == CommandSet::SessionCommands && text_option(
            options,
            "thread_id"@,
        ) is Some {
            Ok(
                GatewayCall::Session {
                    action: SessionAction::Switch,
                    thread_id: text_option(options, "thread_id"@),
                },
            )
        } else {
            Ok(GatewayCall::SetGoalStatus(GoalStatus::Active))
        },
        Subcommand::GoalClear => Ok(GatewayCall::ClearGoal),
        Subcommand::Session => if set == CommandSet::SessionCommands {
            Ok(GatewayCall::Session { action: SessionAction::Show, thread_id: None })
        } else {
            let action = match text_option(options, "action"@) {
                Some(action) => action,
                None => "show"@,
            };
            match session_action_of(action) {
                Ok(action) => Ok(
                    GatewayCall::Session { action, thread_id: text_option(options, "thread_id"@) },
                ),
                Err(error) => Err(error),
            }
        },
        Subcommand::New => Ok(
            GatewayCall::Session { action: SessionAction::New, thread_id: None },
        ),
        Subcommand::Clear => Ok(
            GatewayCall::Session { action: SessionAction::New, thread_id: None },
        ),
        Subcommand::Sessions => Ok(
            GatewayCall::Session { action: SessionAction::List, thread_id: None },
        ),
        Subcommand::Interrupt => Ok(GatewayCall::Interrupt),
    }
}

/// What is done for a command: the first of its options is the subcommand.
pub open spec fn action_of(set: CommandSet, options: Seq<CommandOption>) -> Result<
    CommandAction<Seq<char>>,
    CommandError<Seq<char>>,
> {
    if options.len() == 0 {
        Ok(CommandAction::Respond("Missing subcommand"@))
    } else {
        match subcommand_named(subcommands_of(set), options[0].name@) {
            None => Ok(CommandAction::Respond("Unknown subcommand"@)),
            Some(sub) => match call_of(set, sub, options) {
                Ok(call) => Ok(CommandAction::Call(call)),
                Err(error) => Err(error),
            },
        }
    }
}

/// What a subcommand asks of Codex, given the options of the command.
pub fn subcommand_call(
    set: CommandSet,
    sub: Subcommand,
    options: &Vec<CommandOption>,
) -> (r: Result<GatewayCall, CommandError>)
    ensures
        result_view(r) == call_of(set, sub, options@),
{
    match sub {
        Subcommand::Ask => match sub_string(options, "prompt") {
            Ok(prompt) => Ok(GatewayCall::EnqueueTurn { text: prompt, steer: false }),
            Err(error) => Err(error),
        },
        Subcommand::Steer => match sub_string(options, "message") {
            Ok(message) => Ok(GatewayCall::EnqueueTurn { text: message, steer: true }),
            Err(error) => Err(error),
        },
        Subcommand::Queue => Ok(GatewayCall::QueueStatus),
        Subcommand::Model => match sub_string_opt(options, "name") {
            Some(model) => Ok(GatewayCall::SetModel(model)),
            None => Ok(GatewayCall::ModelStatus),
        },
        Subcommand::Effort => match sub_string_opt(options, "level") {
            Some(level) => match parse_effort(set, level.as_str()) {
                Ok(effort) => Ok(GatewayCall::SetEffort(effort)),
                Err(error) => Err(error),
            },
            None => Ok(GatewayCall::EffortStatus),
        },
        Subcommand::Models => Ok(GatewayCall::ListModels),
        Subcommand::Status => Ok(GatewayCall::Status),
        Subcommand::Goal => {
            let objective = sub_string_opt(options, "objective");
            let token_budget = sub_i64_opt(options, "token_budget");
            Ok(GatewayCall::Goal { objective, token_budget })
        },
        Subcommand::Pause => Ok(GatewayCall::SetGoalStatus(GoalStatus::Paused)),
        Subcommand::Resume => {
            if set == CommandSet::SessionCommands {
                let thread_id = sub_string_opt(options, "thread_id");
                if thread_id.is_some() {
                    return Ok(GatewayCall::Session { action: SessionAction::Switch, thread_id });
                }
            }
            Ok(GatewayCall::SetGoalStatus(GoalStatus::Active))
        },
        Subcommand::GoalClear => Ok(GatewayCall::ClearGoal),
        Subcommand::Session => {
            if set == CommandSet::SessionCommands {
                return Ok(GatewayCall::Session { action: SessionAction::Show, thread_id: None });
            }
            let action = match sub_string_opt(options, "action") {
                Some(action) => action,
                None => "show".to_owned(),
            };
            let thread_id = sub_string_opt(options, "thread_id");
            match parse_session_action(action.as_str()) {
                Ok(action) => Ok(GatewayCall::Session { action, thread_id }),
                Err(error) => Err(error),
            }
        },
        Subcommand::New => Ok(
            GatewayCall::Session { action: SessionAction::New, thread_id: None },
        ),
        Subcommand::Clear => Ok(
            GatewayCall::Session { action: SessionAction::New, thread_id: None },
        ),
        Subcommand::Sessions => Ok(
            GatewayCall::Session { action: SessionAction::List, thread_id: None },
        ),
        Subcommand::Interrupt => Ok(GatewayCall::Interrupt),
    }
}

/// Decides what is done for a `/codex` command.
pub fn handle_codex_command(set: CommandSet, options: &Vec<CommandOption>) -> (r: Result<
    CommandAction,
    CommandError,
>)
    ensures
        result_view(r) == action_of(set, options@),
{
    if options.len() == 0 {
        return Ok(CommandAction::Respond("Missing subcommand".to_owned()));
    }
    match find_subcommand(set, options[0].name.as_str()) {
        None => Ok(CommandAction::Respond("Unknown subcommand".to_owned())),
        Some(sub) => match subcommand_call(set, sub, options) {
            Ok(call) => Ok(CommandAction::Call(call)),
            Err(error) => Err(error),
        },
    }
}

/// How an error is told to the user.
pub open spec fn error_message(error: CommandError<Seq<char>>) -> Seq<char> {
    match error {
        CommandError::MissingOption(name) => "missing required option `"@ + name + "`"@,
        CommandError::UnknownEffort(CommandSet::SessionActions, level) => "unknown effort `"@
            + level + "`; use default, minimal, low, medium, or high"@,
        CommandError::UnknownEffort(CommandSet::SessionCommands, level) => "unknown effort `"@
            + level + "`; use default, minimal, low, medium, high, or xhigh"@,
        CommandError::UnknownSessionAction(action) => "unknown session action `"@ + action + "`"@,
    }
}

impl CommandError {
    /// How the error is told to the user.
    pub fn message(&self) -> (r: String)
        ensures
            r@ == error_message(self@),
    {
        match self {
            CommandError::MissingOption(name) => text::concat3(
                "missing required option `",
                name.as_str(),
                "`",
            ),
            CommandError::UnknownEffort(set, level) => match *set {
                CommandSet::SessionActions => text::concat3(
                    "unknown effort `",
                    level.as_str(),
                    "`; use default, minimal, low, medium, or high",
                ),
                CommandSet::SessionCommands => text::concat3(
                    "unknown effort `",
                    level.as_str(),
                    "`; use default, minimal, low, medium, high, or xhigh",
                ),
            },
            CommandError::UnknownSessionAction(action) => text::concat3(
                "unknown session action `",
                action.as_str(),
                "`",
            ),
        }
    }
}

/// No two subcommands have the same name.
pub proof fn law_subcommand_names_differ(a: Subcommand, b: Subcommand)
    requires
        subcommand_name(a) == subcommand_name(b),
    ensures
        a == b,
{
    reveal_strlit("ask");
    reveal_strlit("steer");
    reveal_strlit("queue");
    reveal_strlit("model");
    reveal_strlit("effort");
    reveal_strlit("models");
    reveal_strlit("status");
    reveal_strlit("goal");
    reveal_strlit("pause");
    reveal_strlit("resume");
    reveal_strlit("goal-clear");
    reveal_strlit("session");
    reveal_strlit("new");
    reveal_strlit("clear");
    reveal_strlit("sessions");
    reveal_strlit("interrupt");
    assert("ask"@.len() == 3 && "ask"@[0] == 'a');
    assert("steer"@.len() == 5 && "steer"@[0] == 's');
    assert("queue"@.len() == 5 && "queue"@[0] == 'q');
    assert("model"@.len() == 5 && "model"@[0] == 'm');
    assert("effort"@.len() == 6 && "effort"@[0] == 'e');
    assert("models"@.len() == 6 && "models"@[0] == 'm');
    assert("status"@.len() == 6 && "status"@[0] == 's');
    assert("goal"@.len() == 4 && "goal"@[0] == 'g');
    assert("pause"@.len() == 5 && "pause"@[0] == 'p');
    assert("resume"@.len() == 6 && "resume"@[0] == 'r');
    assert("goal-clear"@.len() == 10 && "goal-clear"@[0] == 'g');
    assert("session"@.len() == 7 && "session"@[0] == 's');
    assert("new"@.len() == 3 && "new"@[0] == 'n');
    assert("clear"@.len() == 5 && "clear"@[0] == 'c');
    assert("sessions"@.len() == 8 && "sessions"@[0] == 's');
    assert("interrupt"@.len() == 9 && "interrupt"@[0] == 'i');
}

/// What `subcommand_named` finds is in the list and has the name; it finds
/// nothing only where no entry has the name.
pub proof fn lemma_subcommand_named(list: Seq<Subcommand>, name: Seq<char>)
    ensures
        match subcommand_named(list, name) {
            Some(sub) => list.contains(sub) && subcommand_name(sub) == name,
            None => forall|i: int| 0 <= i < list.len() ==> subcommand_name(#[trigger] list[i]) != name,
        },
    decreases list.len(),
{
    if list.len() > 0 {
        let rest = list.drop_first();
        if subcommand_name(list[0]) == name {
            assert(list.contains(list[0]));
        } else {
            lemma_subcommand_named(rest, name);
            match subcommand_named(rest, name) {
                Some(sub) => {
                    let i = choose|i: int| 0 <= i < rest.len() && rest[i] == sub;
                    assert(list[i + 1] == sub);
                },
                None => {
                    assert forall|i: int| 0 <= i < list.len() implies subcommand_name(
                        #[trigger] list[i],
                    ) != name by {
                        if i > 0 {
                            assert(rest[i - 1] == list[i]);
                        }
                    }
                },
            }
        }
    }
}

/// A subcommand of the set is carried out by its name, and any other name is
/// answered as unknown.
pub proof fn law_subcommands_are_found_by_name(set: CommandSet, name: Seq<char>, sub: Subcommand)
    ensures
        subcommand_named(subcommands_of(set), name) == Some(sub) <==> subcommands_of(set).contains(
            sub,
        ) && subcommand_name(sub) == name,
{
    let list = subcommands_of(set);
    lemma_subcommand_named(list, name);
    if list.contains(sub) && subcommand_name(sub) == name {
        let i = choose|i: int| 0 <= i < list.len() && list[i] == sub;
        assert(subcommand_name(list[i]) == name);
        law_subcommand_names_differ(subcommand_named(list, name)->0, sub);
    }
}

/// A command fails only where a required text is missing, or where an effort or
/// a session action is not known.
pub proof fn law_when_commands_fail(set: CommandSet, sub: Subcommand, options: Seq<CommandOption>)
    ensures
        call_of(set, sub, options) is Err <==> {
            ||| sub == Subcommand::Ask && text_option(options, "prompt"@) is None
            ||| sub == Subcommand::Steer && text_option(options, "message"@) is None
            ||| sub == Subcommand::Effort && text_option(options, "level"@) is Some
                && effort_named(set, text::lowercase(text_option(options, "level"@)->0)) is None
            ||| sub == Subcommand::Session && set == CommandSet::SessionActions && text_option(
                options,
                "action"@,
            ) is Some && session_action_named(
                text::lowercase(text_option(options, "action"@)->0),
            ) is None
        },
{
    reveal_strlit("show");
    assert(text::lowercase("show"@) =~= "show"@);
}

/// Efforts are read without regard to the case of their letters.
pub proof fn law_effort_ignores_case(set: CommandSet, a: Seq<char>, b: Seq<char>)
    requires
        text::lowercase(a) == text::lowercase(b),
    ensures
        effort_of(set, a) == effort_of(set, b),
{
}

/// Session actions are read without regard to the case of their letters.
pub proof fn law_session_action_ignores_case(a: Seq<char>, b: Seq<char>)
    requires
        text::lowercase(a) == text::lowercase(b),
    ensures
        session_action_of(a) == session_action_of(b),
{
}

/// The levels of the first set mean the same in the second, which adds `xhigh`
/// and nothing else.
pub proof fn law_efforts_of_the_sets(level: Seq<char>)
    ensures
        level != "xhigh"@ ==> effort_named(CommandSet::SessionActions, level) == effort_named(
            CommandSet::SessionCommands,
            level,
        ),
        effort_named(CommandSet::SessionActions, "xhigh"@) is None,
        effort_named(CommandSet::SessionCommands, "xhigh"@) == Some(Some(ReasoningEffort::XHigh)),
{
    reveal_strlit("default");
    reveal_strlit("clear");
    reveal_strlit("none");
    reveal_strlit("minimal");
    reveal_strlit("low");
    reveal_strlit("medium");
    reveal_strlit("high");
    reveal_strlit("xhigh");
    assert("xhigh"@[0] == 'x');
    assert("clear"@[0] == 'c');
}

/// But for the effort and for sessions, a subcommand that both sets have asks
/// the same of Codex in both.
pub proof fn law_sets_agree(sub: Subcommand, options: Seq<CommandOption>)
    requires
        sub != Subcommand::Effort,
        sub != Subcommand::Session,
        sub == Subcommand::Resume ==> text_option(options, "thread_id"@) is None,
    ensures
        call_of(CommandSet::SessionActions, sub, options) == call_of(
            CommandSet::SessionCommands,
            sub,
            options,
        ),
{
}

/// The subcommand asks this of Codex.
pub open spec fn subcommand_asks(
    set: CommandSet,
    sub: Subcommand,
    options: Seq<CommandOption>,
    call: GatewayCall<Seq<char>>,
) -> bool {
    call_of(set, sub, options) == Ok::<GatewayCall<Seq<char>>, CommandError<Seq<char>>>(call)
}

/// The subcommand is refused for this reason.
pub open spec fn subcommand_refused(
    set: CommandSet,
    sub: Subcommand,
    options: Seq<CommandOption>,
    error: CommandError<Seq<char>>,
) -> bool {
    call_of(set, sub, options) == Err::<GatewayCall<Seq<char>>, CommandError<Seq<char>>>(error)
}

/// A command whose subcommand has this name asks this of Codex.
pub open spec fn command_asks(
    set: CommandSet,
    name: Seq<char>,
    options: Seq<CommandOption>,
    call: GatewayCall<Seq<char>>,
) -> bool {
    options.len() > 0 && options[0].name@ == name ==> action_of(set, options) == Ok::<
        CommandAction<Seq<char>>,
        CommandError<Seq<char>>,
    >(CommandAction::Call(call))
}

/// A command whose subcommand has this name is refused for this reason.
pub open spec fn command_refused(
    set: CommandSet,
    name: Seq<char>,
    options: Seq<CommandOption>,
    error: CommandError<Seq<char>>,
) -> bool {
    options.len() > 0 && options[0].name@ == name ==> action_of(set, options) == Err::<
        CommandAction<Seq<char>>,
        CommandError<Seq<char>>,
    >(error)
}

/// The subcommand asks this of Codex, and so does a command that gives its name.
pub open spec fn asks(
    set: CommandSet,
    sub: Subcommand,
    name: Seq<char>,
    options: Seq<CommandOption>,
    call: GatewayCall<Seq<char>>,
) -> bool {
    subcommand_asks(set, sub, options, call) && command_asks(set, name, options, call)
}

/// The subcommand is refused for this reason, and so is a command that gives its name.
pub open spec fn refused(
    set: CommandSet,
    sub: Subcommand,
    name: Seq<char>,
    options: Seq<CommandOption>,
    error: CommandError<Seq<char>>,
) -> bool {
    subcommand_refused(set, sub, options, error) && command_refused(set, name, options, error)
}

/// A command is carried out as the subcommand of its name is.
proof fn lemma_action(set: CommandSet, i: int, options: Seq<CommandOption>)
    requires
        0 <= i < subcommands_of(set).len(),
        options.len() > 0,
        options[0].name@ == subcommand_name(subcommands_of(set)[i]),
    ensures
        action_of(set, options) == (match call_of(set, subcommands_of(set)[i], options) {
            Ok(call) => Ok(CommandAction::Call(call)),
            Err(error) => Err(error),
        }),
{
    let sub = subcommands_of(set)[i];
    assert(subcommands_of(set).contains(sub));
    law_subcommands_are_found_by_name(set, options[0].name@, sub);
}

/// `ask` queues a turn with the prompt, and is refused without one.
pub proof fn law_ask(set: CommandSet, options: Seq<CommandOption>)
    ensures
        match text_option(options, "prompt"@) {
            Some(prompt) => asks(
                set,
                Subcommand::Ask,
                "ask"@,
                options,
                GatewayCall::EnqueueTurn { text: prompt, steer: false },
            ),
            None => refused(
                set,
                Subcommand::Ask,
                "ask"@,
                options,
                CommandError::MissingOption("prompt"@),
            ),
        },
{
    if options.len() > 0 && options[0].name@ == "ask"@ {
        lemma_action(set, 0, options);
    }
}

/// `steer` steers with the message, and is refused without one.
pub proof fn law_steer(set: CommandSet, options: Seq<CommandOption>)
    ensures
        match text_option(options, "message"@) {
            Some(message) => asks(
                set,
                Subcommand::Steer,
                "steer"@,
                options,
                GatewayCall::EnqueueTurn { text: message, steer: true },
            ),
            None => refused(
                set,
                Subcommand::Steer,
                "steer"@,
                options,
                CommandError::MissingOption("message"@),
            ),
        },
{
    if options.len() > 0 && options[0].name@ == "steer"@ {
        lemma_action(set, 1, options);
    }
}

/// `queue` asks for the queue, whatever options come with it.
pub proof fn law_queue(set: CommandSet, options: Seq<CommandOption>)
    ensures
        asks(set, Subcommand::Queue, "queue"@, options, GatewayCall::QueueStatus),
{
    if options.len() > 0 && options[0].name@ == "queue"@ {
        lemma_action(set, 2, options);
    }
}

/// `model` sets the model that is named, and without a name asks which it is.
pub proof fn law_model(set: CommandSet, options: Seq<CommandOption>)
    ensures
        match text_option(options, "name"@) {
            Some(model) => asks(
                set,
                Subcommand::Model,
                "model"@,
                options,
                GatewayCall::SetModel(model),
            ),
            None => asks(set, Subcommand::Model, "model"@, options, GatewayCall::ModelStatus),
        },
{
    if options.len() > 0 && options[0].name@ == "model"@ {
        lemma_action(set, 3, options);
    }
}

/// `effort` sets the effort whose level is named, in upper or lower case, and without a
/// level asks which it is. Only one set knows `xhigh`, and a level that the set does not
/// know is refused.
pub proof fn law_effort(set: CommandSet, options: Seq<CommandOption>)
    ensures
        match text_option(options, "level"@) {
            None => asks(set, Subcommand::Effort, "effort"@, options, GatewayCall::EffortStatus),
            Some(value) => {
                let level = text::lowercase(value);
                let xhigh = set == CommandSet::SessionCommands && level == "xhigh"@;
                &&& level == "default"@ || level == "clear"@ || level == "none"@ ==> asks(
                    set,
                    Subcommand::Effort,
                    "effort"@,
                    options,
                    GatewayCall::SetEffort(None),
                )
                &&& level == "minimal"@ ==> asks(
                    set,
                    Subcommand::Effort,
                    "effort"@,
                    options,
                    GatewayCall::SetEffort(Some(ReasoningEffort::Minimal)),
                )
                &&& level == "low"@ ==> asks(
                    set,
                    Subcommand::Effort,
                    "effort"@,
                    options,
                    GatewayCall::SetEffort(Some(ReasoningEffort::Low)),
                )
                &&& level == "medium"@ ==> asks(
                    set,
                    Subcommand::Effort,
                    "effort"@,
                    options,
                    GatewayCall::SetEffort(Some(ReasoningEffort::Medium)),
                )
                &&& level == "high"@ ==> asks(
                    set,
                    Subcommand::Effort,
                    "effort"@,
                    options,
                    GatewayCall::SetEffort(Some(ReasoningEffort::High)),
                )
                &&& xhigh ==> asks(
                    set,
                    Subcommand::Effort,
                    "effort"@,
                    options,
                    GatewayCall::SetEffort(Some(ReasoningEffort::XHigh)),
                )
                &&& !xhigh && level != "default"@ && level != "clear"@ && level != "none"@ && level
                    != "minimal"@ && level != "low"@ && level != "medium"@ && level
                    != "high"@ ==> refused(
                    set,
                    Subcommand::Effort,
                    "effort"@,
                    options,
                    CommandError::UnknownEffort(set, level),
                )
            },
        },
{
    lemma_levels_differ();
    if options.len() > 0 && options[0].name@ == "effort"@ {
        lemma_action(set, 4, options);
    }
}

/// `models` asks for the models, whatever options come with it.
pub proof fn law_models(set: CommandSet, options: Seq<CommandOption>)
    ensures
        asks(set, Subcommand::Models, "models"@, options, GatewayCall::ListModels),
{
    if options.len() > 0 && options[0].name@ == "models"@ {
        lemma_action(set, 5, options);
    }
}

/// `status` asks for the status, whatever options come with it.
pub proof fn law_status(set: CommandSet, options: Seq<CommandOption>)
    ensures
        asks(set, Subcommand::Status, "status"@, options, GatewayCall::Status),
{
    if options.len() > 0 && options[0].name@ == "status"@ {
        lemma_action(set, 6, options);
    }
}

/// `goal` hands on the objective and the budget, each as it was given or left out, whatever
/// the other is.
pub proof fn law_goal(set: CommandSet, options: Seq<CommandOption>)
    ensures
        asks(
            set,
            Subcommand::Goal,
            "goal"@,
            options,
            GatewayCall::Goal {
                objective: text_option(options, "objective"@),
                token_budget: integer_option(options, "token_budget"@),
            },
        ),
{
    if options.len() > 0 && options[0].name@ == "goal"@ {
        lemma_action(set, 7, options);
    }
}

/// `pause` pauses the goal, whatever options come with it.
pub proof fn law_pause(set: CommandSet, options: Seq<CommandOption>)
    ensures
        asks(
            set,
            Subcommand::Pause,
            "pause"@,
            options,
            GatewayCall::SetGoalStatus(GoalStatus::Paused),
        ),
{
    if options.len() > 0 && options[0].name@ == "pause"@ {
        lemma_action(set, 8, options);
    }
}

/// `resume` switches to the session that is named, in the set in which it can name one,
/// and else makes the goal active.
pub proof fn law_resume(set: CommandSet, options: Seq<CommandOption>)
    ensures
        match (set, text_option(options, "thread_id"@)) {
            (CommandSet::SessionCommands, Some(id)) => asks(
                set,
                Subcommand::Resume,
                "resume"@,
                options,
                GatewayCall::Session { action: SessionAction::Switch, thread_id: Some(id) },
            ),
            _ => asks(
                set,
                Subcommand::Resume,
                "resume"@,
                options,
                GatewayCall::SetGoalStatus(GoalStatus::Active),
            ),
        },
{
    if options.len() > 0 && options[0].name@ == "resume"@ {
        lemma_action(set, 9, options);
    }
}

/// `goal-clear` clears the goal, whatever options come with it.
pub proof fn law_goal_clear(set: CommandSet, options: Seq<CommandOption>)
    ensures
        asks(set, Subcommand::GoalClear, "goal-clear"@, options, GatewayCall::ClearGoal),
{
    if options.len() > 0 && options[0].name@ == "goal-clear"@ {
        lemma_action(set, 10, options);
    }
}

/// `session` shows the session in one set. In the other it does the action that is named,
/// in upper or lower case, with the session that is named, shows where no action is, and
/// is refused where the action is not known.
pub proof fn law_session(set: CommandSet, options: Seq<CommandOption>)
    ensures
        set == CommandSet::SessionCommands ==> asks(
            set,
            Subcommand::Session,
            "session"@,
            options,
            GatewayCall::Session { action: SessionAction::Show, thread_id: None },
        ),
        set == CommandSet::SessionActions ==> ({
            let thread_id = text_option(options, "thread_id"@);
            match text_option(options, "action"@) {
                None => asks(
                    set,
                    Subcommand::Session,
                    "session"@,
                    options,
                    GatewayCall::Session { action: SessionAction::Show, thread_id },
                ),
                Some(value) => {
                    let action = text::lowercase(value);
                    &&& action == "show"@ ==> asks(
                        set,
                        Subcommand::Session,
                        "session"@,
                        options,
                        GatewayCall::Session { action: SessionAction::Show, thread_id },
                    )
                    &&& action == "new"@ ==> asks(
                        set,
                        Subcommand::Session,
                        "session"@,
                        options,
                        GatewayCall::Session { action: SessionAction::New, thread_id },
                    )
                    &&& action == "list"@ ==> asks(
                        set,
                        Subcommand::Session,
                        "session"@,
                        options,
                        GatewayCall::Session { action: SessionAction::List, thread_id },
                    )
                    &&& action == "switch"@ ==> asks(
                        set,
                        Subcommand::Session,
                        "session"@,
                        options,
                        GatewayCall::Session { action: SessionAction::Switch, thread_id },
                    )
                    &&& action != "show"@ && action != "new"@ && action != "list"@ && action
                        != "switch"@ ==> refused(
                        set,
                        Subcommand::Session,
                        "session"@,
                        options,
                        CommandError::UnknownSessionAction(action),
                    )
                },
            }
        }),
{
    lemma_actions_differ();
    if options.len() > 0 && options[0].name@ == "session"@ {
        lemma_action(set, 11, options);
    }
}

/// `new` starts a session, whatever options come with it.
/// Only one set has it.
pub proof fn law_new(set: CommandSet, options: Seq<CommandOption>)
    ensures
        subcommand_asks(
            set,
            Subcommand::New,
            options,
            GatewayCall::Session { action: SessionAction::New, thread_id: None },
        ),
        set == CommandSet::SessionCommands ==> command_asks(
            set,
            "new"@,
            options,
            GatewayCall::Session { action: SessionAction::New, thread_id: None },
        ),
{
    if set == CommandSet::SessionCommands && options.len() > 0 && options[0].name@ == "new"@ {
        lemma_action(set, 12, options);
    }
}

/// `clear` starts a session, as `new` does.
/// Only one set has it.
pub proof fn law_clear(set: CommandSet, options: Seq<CommandOption>)
    ensures
        subcommand_asks(
            set,
            Subcommand::Clear,
            options,
            GatewayCall::Session { action: SessionAction::New, thread_id: None },
        ),
        set == CommandSet::SessionCommands ==> command_asks(
            set,
            "clear"@,
            options,
            GatewayCall::Session { action: SessionAction::New, thread_id: None },
        ),
{
    if set == CommandSet::SessionCommands && options.len() > 0 && options[0].name@ == "clear"@ {
        lemma_action(set, 13, options);
    }
}

/// `sessions` lists the sessions, whatever options come with it.
/// Only one set has it.
pub proof fn law_sessions(set: CommandSet, options: Seq<CommandOption>)
    ensures
        subcommand_asks(
            set,
            Subcommand::Sessions,
            options,
            GatewayCall::Session { action: SessionAction::List, thread_id: None },
        ),
        set == CommandSet::SessionCommands ==> command_asks(
            set,
            "sessions"@,
            options,
            GatewayCall::Session { action: SessionAction::List, thread_id: None },
        ),
{
    if set == CommandSet::SessionCommands && options.len() > 0 && options[0].name@ == "sessions"@ {
        lemma_action(set, 14, options);
    }
}

/// `interrupt` interrupts, whatever options come with it.
pub proof fn law_interrupt(set: CommandSet, options: Seq<CommandOption>)
    ensures
        asks(set, Subcommand::Interrupt, "interrupt"@, options, GatewayCall::Interrupt),
{
    let last: int = if set == CommandSet::SessionActions {
        12
    } else {
        15
    };
    if options.len() > 0 && options[0].name@ == "interrupt"@ {
        lemma_action(set, last, options);
    }
}

/// A command without a subcommand, or with one that the set does not have, is answered
/// so, and nothing is asked of Codex.
pub proof fn law_other_commands(set: CommandSet, options: Seq<CommandOption>)
    ensures
        options.len() == 0 ==> action_of(set, options) == Ok::<
            CommandAction<Seq<char>>,
            CommandError<Seq<char>>,
        >(CommandAction::Respond("Missing subcommand"@)),
        options.len() > 0 && ({
            let name = options[0].name@;
            &&& name != "ask"@
            &&& name != "steer"@
            &&& name != "queue"@
            &&& name != "model"@
            &&& name != "effort"@
            &&& name != "models"@
            &&& name != "status"@
            &&& name != "goal"@
            &&& name != "pause"@
            &&& name != "resume"@
            &&& name != "goal-clear"@
            &&& name != "session"@
            &&& name != "interrupt"@
            &&& set == CommandSet::SessionCommands ==> name != "new"@ && name != "clear"@ && name
                != "sessions"@
        }) ==> action_of(set, options) == Ok::<CommandAction<Seq<char>>, CommandError<Seq<char>>>(
            CommandAction::Respond("Unknown subcommand"@),
        ),
{
    if options.len() > 0 {
        lemma_subcommand_named(subcommands_of(set), options[0].name@);
    }
}

/// The objective of a goal depends on nothing but what was given as the objective, and
/// its budget on nothing but what was given as the budget.
pub proof fn law_goal_options_are_apart(
    set_a: CommandSet,
    a: Seq<CommandOption>,
    set_b: CommandSet,
    b: Seq<CommandOption>,
)
    ensures
        (call_of(set_a, Subcommand::Goal, a) matches Ok(GatewayCall::Goal {
            objective: objective_a,
            token_budget: budget_a,
        }) && call_of(set_b, Subcommand::Goal, b) matches Ok(GatewayCall::Goal {
            objective: objective_b,
            token_budget: budget_b,
        }) && (text_option(a, "objective"@) == text_option(b, "objective"@) ==> objective_a
            == objective_b) && (integer_option(a, "token_budget"@) == integer_option(
            b,
            "token_budget"@,
        ) ==> budget_a == budget_b)),
{
}

/// What `option_named` finds is the first option of the name.
proof fn lemma_option_named(options: Seq<CommandOption>, name: Seq<char>, j: int)
    requires
        0 <= j <= options.len(),
        j < options.len() ==> options[j].name@ == name,
        forall|i: int| 0 <= i < j ==> (#[trigger] options[i]).name@ != name,
    ensures
        j < options.len() ==> option_named(options, name) == Some(options[j]),
        j == options.len() ==> option_named(options, name) is None,
    decreases j,
{
    if j > 0 {
        assert(options[0].name@ != name);
        let rest = options.drop_first();
        assert forall|i: int| 0 <= i < j - 1 implies (#[trigger] rest[i]).name@ != name by {
            assert(rest[i] == options[i + 1]);
        }
        lemma_option_named(rest, name, j - 1);
    }
}

/// An option is read from the first option of its name that the subcommand was given: a
/// text from a text, finished or not, and a number from a number. A value of another
/// kind is not read.
pub proof fn law_given_options(
    options: Seq<CommandOption>,
    inner: Vec<CommandOption>,
    name: Seq<char>,
    j: int,
)
    requires
        options.len() > 0,
        options[0].value == OptionValue::SubCommand(inner),
        0 <= j < inner@.len(),
        inner@[j].name@ == name,
        forall|i: int| 0 <= i < j ==> (#[trigger] inner@[i]).name@ != name,
    ensures
        match inner@[j].value {
            OptionValue::Text(t) => text_option(options, name) == Some(t@),
            OptionValue::Autocomplete(t) => text_option(options, name) == Some(t@),
            _ => text_option(options, name) is None,
        },
        match inner@[j].value {
            OptionValue::Integer(n) => integer_option(options, name) == Some(n),
            _ => integer_option(options, name) is None,
        },
{
    lemma_option_named(inner@, name, j);
}

/// Nothing is read of an option that the subcommand was not given, or where the command
/// does not start with a subcommand.
pub proof fn law_omitted_options(options: Seq<CommandOption>, name: Seq<char>)
    requires
        options.len() > 0 ==> (match options[0].value {
            OptionValue::SubCommand(inner) => forall|i: int|
                0 <= i < inner@.len() ==> (#[trigger] inner@[i]).name@ != name,
            _ => true,
        }),
    ensures
        text_option(options, name) is None,
        integer_option(options, name) is None,
{
    let inner = sub_options(options);
    lemma_option_named(inner, name, inner.len() as int);
}

/// How each error is told to the user.
pub proof fn law_error_messages(set: CommandSet, t: Seq<char>)
    ensures
        error_message(CommandError::MissingOption(t)) == "missing required option `"@ + t + "`"@,
        error_message(CommandError::UnknownEffort(set, t)) == "unknown effort `"@ + t + (if set
            == CommandSet::SessionActions {
            "`; use default, minimal, low, medium, or high"@
        } else {
            "`; use default, minimal, low, medium, high, or xhigh"@
        }),
        error_message(CommandError::UnknownSessionAction(t)) == "unknown session action `"@ + t
            + "`"@,
{
}

/// The names of the subcommands of both sets, in order.
pub proof fn law_names_of_subcommands()
    ensures
        subcommands_of(CommandSet::SessionActions).map_values(
            |sub: Subcommand| subcommand_name(sub),
        ) =~= seq![
            "ask"@,
            "steer"@,
            "queue"@,
            "model"@,
            "effort"@,
            "models"@,
            "status"@,
            "goal"@,
            "pause"@,
            "resume"@,
            "goal-clear"@,
            "session"@,
            "interrupt"@,
        ],
        subcommands_of(CommandSet::SessionCommands).map_values(
            |sub: Subcommand| subcommand_name(sub),
        ) =~= seq![
            "ask"@,
            "steer"@,
            "queue"@,
            "model"@,
            "effort"@,
            "models"@,
            "status"@,
            "goal"@,
            "pause"@,
            "resume"@,
            "goal-clear"@,
            "session"@,
            "new"@,
            "clear"@,
            "sessions"@,
            "interrupt"@,
        ],
{
}

/// The view of a call shows all of it.
pub proof fn law_call_view(call: GatewayCall)
    ensures
        match call {
            GatewayCall::EnqueueTurn { text, steer } => call@ == (GatewayCall::EnqueueTurn {
                text: text@,
                steer,
            }),
            GatewayCall::QueueStatus => call@ is QueueStatus,
            GatewayCall::SetModel(model) => call@ == GatewayCall::SetModel(model@),
            GatewayCall::ModelStatus => call@ is ModelStatus,
            GatewayCall::SetEffort(effort) => call@ == GatewayCall::<Seq<char>>::SetEffort(effort),
            GatewayCall::EffortStatus => call@ is EffortStatus,
            GatewayCall::ListModels => call@ is ListModels,
            GatewayCall::Status => call@ is Status,
            GatewayCall::Goal { objective, token_budget } => call@ == (GatewayCall::Goal {
                objective: objective.deep_view(),
                token_budget,
            }),
            GatewayCall::SetGoalStatus(status) => call@ == GatewayCall::<Seq<char>>::SetGoalStatus(
                status,
            ),
            GatewayCall::ClearGoal => call@ is ClearGoal,
            GatewayCall::Session { action, thread_id } => call@ == (GatewayCall::Session {
                action,
                thread_id: thread_id.deep_view(),
            }),
            GatewayCall::Interrupt => call@ is Interrupt,
        },
{
}

/// The view of an action shows all of it.
pub proof fn law_action_view(action: CommandAction)
    ensures
        match action {
            CommandAction::Respond(content) => action@ == CommandAction::Respond(content@),
            CommandAction::Call(call) => action@ == CommandAction::Call(call@),
        },
{
}

/// The view of an error shows all of it.
pub proof fn law_error_view(error: CommandError)
    ensures
        match error {
            CommandError::MissingOption(name) => error@ == CommandError::MissingOption(name@),
            CommandError::UnknownEffort(set, level) => error@ == CommandError::UnknownEffort(
                set,
                level@,
            ),
            CommandError::UnknownSessionAction(action) => error@
                == CommandError::UnknownSessionAction(action@),
        },
{
}

/// What each level that a user can give means, in upper or lower case, and that any other
/// is refused and handed back in lower case.
pub proof fn law_levels(set: CommandSet, value: Seq<char>)
    ensures
        ({
            let level = text::lowercase(value);
            match effort_of(set, value) {
                Ok(None) => level == "default"@ || level == "clear"@ || level == "none"@,
                Ok(Some(ReasoningEffort::Minimal)) => level == "minimal"@,
                Ok(Some(ReasoningEffort::Low)) => level == "low"@,
                Ok(Some(ReasoningEffort::Medium)) => level == "medium"@,
                Ok(Some(ReasoningEffort::High)) => level == "high"@,
                Ok(Some(ReasoningEffort::XHigh)) => level == "xhigh"@ && set
                    == CommandSet::SessionCommands,
                Err(error) => {
                    &&& error == CommandError::UnknownEffort(set, level)
                    &&& level != "default"@ && level != "clear"@ && level != "none"@
                    &&& level != "minimal"@ && level != "low"@
                    &&& level != "medium"@ && level != "high"@
                    &&& level == "xhigh"@ ==> set == CommandSet::SessionActions
                },
            }
        }),
{
    lemma_levels_differ();
}

/// What each session action that a user can give means, in upper or lower case, and that
/// any other is refused and handed back in lower case.
pub proof fn law_session_actions(value: Seq<char>)
    ensures
        ({
            let action = text::lowercase(value);
            match session_action_of(value) {
                Ok(SessionAction::Show) => action == "show"@,
                Ok(SessionAction::New) => action == "new"@,
                Ok(SessionAction::List) => action == "list"@,
                Ok(SessionAction::Switch) => action == "switch"@,
                Err(error) => {
                    &&& error == CommandError::UnknownSessionAction(action)
                    &&& action != "show"@ && action != "new"@
                    &&& action != "list"@ && action != "switch"@
                },
            }
        }),
{
    lemma_actions_differ();
}

/// No two levels are the same text.
proof fn lemma_levels_differ()
    ensures
        "default"@ != "clear"@,
        "default"@ != "none"@,
        "default"@ != "minimal"@,
        "default"@ != "low"@,
        "default"@ != "medium"@,
        "default"@ != "high"@,
        "default"@ != "xhigh"@,
        "clear"@ != "none"@,
        "clear"@ != "minimal"@,
        "clear"@ != "low"@,
        "clear"@ != "medium"@,
        "clear"@ != "high"@,
        "clear"@ != "xhigh"@,
        "none"@ != "minimal"@,
        "none"@ != "low"@,
        "none"@ != "medium"@,
        "none"@ != "high"@,
        "none"@ != "xhigh"@,
        "minimal"@ != "low"@,
        "minimal"@ != "medium"@,
        "minimal"@ != "high"@,
        "minimal"@ != "xhigh"@,
        "low"@ != "medium"@ && "low"@ != "high"@ && "low"@ != "xhigh"@,
        "medium"@ != "high"@ && "medium"@ != "xhigh"@,
        "high"@ != "xhigh"@,
{
    reveal_strlit("default");
    reveal_strlit("clear");
    reveal_strlit("none");
    reveal_strlit("minimal");
    reveal_strlit("low");
    reveal_strlit("medium");
    reveal_strlit("high");
    reveal_strlit("xhigh");
    assert("default"@.len() == 7 && "default"@[0] == 'd');
    assert("clear"@.len() == 5 && "clear"@[0] == 'c');
    assert("none"@.len() == 4 && "none"@[0] == 'n');
    assert("minimal"@.len() == 7 && "minimal"@[0] == 'm');
    assert("low"@.len() == 3 && "low"@[0] == 'l');
    assert("medium"@.len() == 6 && "medium"@[0] == 'm');
    assert("high"@.len() == 4 && "high"@[0] == 'h');
    assert("xhigh"@.len() == 5 && "xhigh"@[0] == 'x');
}

/// No two session actions are the same text, and `show` is in lower case.
proof fn lemma_actions_differ()
    ensures
        "show"@ != "new"@ && "show"@ != "list"@ && "show"@ != "switch"@,
        "new"@ != "list"@ && "new"@ != "switch"@ && "list"@ != "switch"@,
        text::lowercase("show"@) == "show"@,
{
    reveal_strlit("show");
    reveal_strlit("new");
    reveal_strlit("list");
    reveal_strlit("switch");
    assert("show"@.len() == 4 && "show"@[0] == 's');
    assert("new"@.len() == 3 && "new"@[0] == 'n');
    assert("list"@.len() == 4 && "list"@[0] == 'l');
    assert("switch"@.len() == 6 && "switch"@[0] == 's');
    assert(text::lowercase("show"@) =~= "show"@);
}

} // verus!
