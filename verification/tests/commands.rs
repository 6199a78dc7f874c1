use codex_discord_gateway::commands::{
    find_subcommand, handle_codex_command, parse_effort, parse_session_action, sub_i64_opt,
    sub_string, sub_string_opt, subcommand_call, subcommands, CommandAction, CommandError,
    CommandOption, CommandSet, GatewayCall, GoalStatus, OptionValue, ReasoningEffort,
    SessionAction, Subcommand,
};

const ACTIONS: CommandSet = CommandSet::SessionActions;
const COMMANDS: CommandSet = CommandSet::SessionCommands;

fn option(name: &str, value: OptionValue) -> CommandOption {
    CommandOption {
        name: name.to_string(),
        value,
    }
}

fn text(name: &str, value: &str) -> CommandOption {
    option(name, OptionValue::Text(value.to_string()))
}

fn called(sub: &str, inner: Vec<CommandOption>) -> Vec<CommandOption> {
    vec![option(sub, OptionValue::SubCommand(inner))]
}

fn call(set: CommandSet, sub: &str, inner: Vec<CommandOption>) -> GatewayCall {
    match handle_codex_command(set, &called(sub, inner)) {
        Ok(CommandAction::Call(call)) => call,
        other => panic!("{other:?}"),
    }
}

fn failure(set: CommandSet, sub: &str, inner: Vec<CommandOption>) -> String {
    match handle_codex_command(set, &called(sub, inner)) {
        Err(error) => error.message(),
        other => panic!("{other:?}"),
    }
}

fn answer(set: CommandSet, options: Vec<CommandOption>) -> String {
    match handle_codex_command(set, &options) {
        Ok(CommandAction::Respond(content)) => content,
        other => panic!("{other:?}"),
    }
}

fn session(action: SessionAction, thread_id: Option<&str>) -> GatewayCall {
    GatewayCall::Session {
        action,
        thread_id: thread_id.map(|id| id.to_string()),
    }
}

#[test]
fn a_command_needs_a_subcommand() {
    assert_eq!(answer(ACTIONS, vec![]), "Missing subcommand");
    assert_eq!(answer(COMMANDS, vec![]), "Missing subcommand");
}

#[test]
fn unknown_subcommands_are_answered() {
    assert_eq!(answer(ACTIONS, called("dance", vec![])), "Unknown subcommand");
    assert_eq!(answer(ACTIONS, called("new", vec![])), "Unknown subcommand");
    assert_eq!(answer(ACTIONS, called("clear", vec![])), "Unknown subcommand");
    assert_eq!(answer(ACTIONS, called("sessions", vec![])), "Unknown subcommand");
    assert_eq!(answer(COMMANDS, called("Ask", vec![])), "Unknown subcommand");
}

#[test]
fn turns_are_queued_or_steered() {
    for set in [ACTIONS, COMMANDS] {
        assert_eq!(
            call(set, "ask", vec![text("prompt", "go")]),
            GatewayCall::EnqueueTurn { text: "go".to_string(), steer: false }
        );
        assert_eq!(
            call(set, "steer", vec![text("message", "left")]),
            GatewayCall::EnqueueTurn { text: "left".to_string(), steer: true }
        );
    }
}

#[test]
fn required_options_are_missed() {
    assert_eq!(failure(ACTIONS, "ask", vec![]), "missing required option `prompt`");
    assert_eq!(
        failure(COMMANDS, "steer", vec![option("message", OptionValue::Integer(3))]),
        "missing required option `message`"
    );
}

#[test]
fn the_plain_subcommands() {
    for set in [ACTIONS, COMMANDS] {
        assert_eq!(call(set, "queue", vec![]), GatewayCall::QueueStatus);
        assert_eq!(call(set, "models", vec![]), GatewayCall::ListModels);
        assert_eq!(call(set, "status", vec![]), GatewayCall::Status);
        assert_eq!(call(set, "pause", vec![]), GatewayCall::SetGoalStatus(GoalStatus::Paused));
        assert_eq!(call(set, "resume", vec![]), GatewayCall::SetGoalStatus(GoalStatus::Active));
        assert_eq!(call(set, "goal-clear", vec![]), GatewayCall::ClearGoal);
        assert_eq!(call(set, "interrupt", vec![]), GatewayCall::Interrupt);
    }
}

#[test]
fn the_model_is_shown_or_set() {
    assert_eq!(call(ACTIONS, "model", vec![]), GatewayCall::ModelStatus);
    assert_eq!(
        call(ACTIONS, "model", vec![text("name", "gpt")]),
        GatewayCall::SetModel("gpt".to_string())
    );
}

#[test]
fn the_effort_is_shown_or_set() {
    assert_eq!(call(ACTIONS, "effort", vec![]), GatewayCall::EffortStatus);
    assert_eq!(
        call(ACTIONS, "effort", vec![text("level", "High")]),
        GatewayCall::SetEffort(Some(ReasoningEffort::High))
    );
    assert_eq!(
        call(ACTIONS, "effort", vec![text("level", "default")]),
        GatewayCall::SetEffort(None)
    );
    assert_eq!(
        failure(ACTIONS, "effort", vec![text("level", "XHigh")]),
        "unknown effort `xhigh`; use default, minimal, low, medium, or high"
    );
    assert_eq!(
        failure(COMMANDS, "effort", vec![text("level", "Most")]),
        "unknown effort `most`; use default, minimal, low, medium, high, or xhigh"
    );
}

#[test]
fn the_goal_is_shown_or_set() {
    assert_eq!(
        call(ACTIONS, "goal", vec![]),
        GatewayCall::Goal { objective: None, token_budget: None }
    );
    assert_eq!(
        call(
            COMMANDS,
            "goal",
            vec![text("objective", "win"), option("token_budget", OptionValue::Integer(-5))]
        ),
        GatewayCall::Goal { objective: Some("win".to_string()), token_budget: Some(-5) }
    );
}

#[test]
fn sessions_by_action() {
    assert_eq!(call(ACTIONS, "session", vec![]), session(SessionAction::Show, None));
    assert_eq!(
        call(ACTIONS, "session", vec![text("action", "LIST")]),
        session(SessionAction::List, None)
    );
    assert_eq!(
        call(ACTIONS, "session", vec![text("action", "switch"), text("thread_id", "t1")]),
        session(SessionAction::Switch, Some("t1"))
    );
    assert_eq!(
        failure(ACTIONS, "session", vec![text("action", "Drop")]),
        "unknown session action `drop`"
    );
    assert_eq!(
        call(ACTIONS, "resume", vec![text("thread_id", "t1")]),
        GatewayCall::SetGoalStatus(GoalStatus::Active)
    );
}

#[test]
fn sessions_by_subcommand() {
    assert_eq!(
        call(COMMANDS, "session", vec![text("action", "list")]),
        session(SessionAction::Show, None)
    );
    assert_eq!(call(COMMANDS, "new", vec![]), session(SessionAction::New, None));
    assert_eq!(call(COMMANDS, "clear", vec![]), session(SessionAction::New, None));
    assert_eq!(call(COMMANDS, "sessions", vec![]), session(SessionAction::List, None));
    assert_eq!(
        call(COMMANDS, "resume", vec![text("thread_id", "t1")]),
        session(SessionAction::Switch, Some("t1"))
    );
}

#[test]
fn efforts() {
    let level = |set, value: &str| parse_effort(set, value);
    for set in [ACTIONS, COMMANDS] {
        assert_eq!(level(set, "default"), Ok(None));
        assert_eq!(level(set, "CLEAR"), Ok(None));
        assert_eq!(level(set, "None"), Ok(None));
        assert_eq!(level(set, "minimal"), Ok(Some(ReasoningEffort::Minimal)));
        assert_eq!(level(set, "low"), Ok(Some(ReasoningEffort::Low)));
        assert_eq!(level(set, "mEdIuM"), Ok(Some(ReasoningEffort::Medium)));
        assert_eq!(level(set, "high"), Ok(Some(ReasoningEffort::High)));
        assert_eq!(
            level(set, " high"),
            Err(CommandError::UnknownEffort(set, " high".to_string()))
        );
        assert_eq!(
            level(set, "\u{c9}"),
            Err(CommandError::UnknownEffort(set, "\u{c9}".to_string()))
        );
    }
    assert_eq!(level(COMMANDS, "xHIGH"), Ok(Some(ReasoningEffort::XHigh)));
    assert_eq!(
        level(ACTIONS, "xHIGH"),
        Err(CommandError::UnknownEffort(ACTIONS, "xhigh".to_string()))
    );
}

#[test]
fn session_actions() {
    assert_eq!(parse_session_action("Show"), Ok(SessionAction::Show));
    assert_eq!(parse_session_action("new"), Ok(SessionAction::New));
    assert_eq!(parse_session_action("list"), Ok(SessionAction::List));
    assert_eq!(parse_session_action("SWITCH"), Ok(SessionAction::Switch));
    assert_eq!(
        parse_session_action("Quit"),
        Err(CommandError::UnknownSessionAction("quit".to_string()))
    );
}

#[test]
fn options_are_found_by_name() {
    let options = called(
        "goal",
        vec![
            option("a", OptionValue::Integer(7)),
            text("a", "later"),
            option("b", OptionValue::Autocomplete("typed".to_string())),
            option("c", OptionValue::Other),
        ],
    );
    assert_eq!(sub_string_opt(&options, "a"), None);
    assert_eq!(sub_i64_opt(&options, "a"), Some(7));
    assert_eq!(sub_string_opt(&options, "b"), Some("typed".to_string()));
    assert_eq!(sub_i64_opt(&options, "b"), None);
    assert_eq!(sub_string(&options, "b"), Ok("typed".to_string()));
    assert_eq!(
        sub_string(&options, "c"),
        Err(CommandError::MissingOption("c".to_string()))
    );
    assert_eq!(sub_string_opt(&vec![], "a"), None);
    assert_eq!(sub_string_opt(&vec![text("a", "top")], "a"), None);
}

#[test]
fn every_subcommand_is_found_by_its_name() {
    assert_eq!(subcommands(ACTIONS).len(), 13);
    assert_eq!(subcommands(COMMANDS).len(), 16);
    for set in [ACTIONS, COMMANDS] {
        for sub in subcommands(set) {
            assert_eq!(find_subcommand(set, sub.name()), Some(sub));
        }
    }
    assert_eq!(find_subcommand(ACTIONS, "new"), None);
    assert_eq!(
        subcommand_call(ACTIONS, Subcommand::Sessions, &vec![]),
        Ok(session(SessionAction::List, None))
    );
}
