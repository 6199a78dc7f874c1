use codex_discord_gateway::commands::CommandSet;
use codex_discord_gateway::registration::commands;
use serde_json::Value;

fn registered(set: CommandSet) -> Value {
    let list = commands(set);
    assert_eq!(list.len(), 1);
    serde_json::to_value(&list[0]).unwrap()
}

fn names(options: &Value) -> Vec<String> {
    options
        .as_array()
        .unwrap()
        .iter()
        .map(|o| o["name"].as_str().unwrap().to_string())
        .collect()
}

fn sub(command: &Value, name: &str) -> Value {
    command["options"]
        .as_array()
        .unwrap()
        .iter()
        .find(|o| o["name"] == name)
        .unwrap()
        .clone()
}

#[test]
fn one_command_is_registered() {
    for set in [CommandSet::SessionActions, CommandSet::SessionCommands] {
        let command = registered(set);
        assert_eq!(command["name"], "codex");
        assert_eq!(command["description"], "Use Codex through Discord");
        for option in command["options"].as_array().unwrap() {
            assert_eq!(option["type"], 1);
            assert_eq!(option["required"], false);
        }
    }
}

#[test]
fn subcommands_in_order() {
    let common = [
        "ask", "steer", "queue", "model", "effort", "models", "status", "goal", "pause", "resume",
        "goal-clear", "session",
    ];
    let mut actions: Vec<&str> = common.to_vec();
    actions.push("interrupt");
    assert_eq!(names(&registered(CommandSet::SessionActions)["options"]), actions);
    let mut split: Vec<&str> = common.to_vec();
    split.extend(["new", "clear", "sessions", "interrupt"]);
    assert_eq!(names(&registered(CommandSet::SessionCommands)["options"]), split);
}

#[test]
fn ask_needs_a_prompt() {
    let ask = sub(&registered(CommandSet::SessionActions), "ask");
    assert_eq!(ask["description"], "Queue a user turn");
    let prompt = &ask["options"][0];
    assert_eq!(prompt["name"], "prompt");
    assert_eq!(prompt["description"], "Prompt text");
    assert_eq!(prompt["type"], 3);
    assert_eq!(prompt["required"], true);
}

#[test]
fn goal_takes_a_number() {
    let goal = sub(&registered(CommandSet::SessionCommands), "goal");
    assert_eq!(names(&goal["options"]), ["objective", "token_budget"]);
    assert_eq!(goal["options"][0]["type"], 3);
    assert_eq!(goal["options"][1]["type"], 4);
    assert_eq!(goal["options"][1]["required"], false);
    assert_eq!(goal["options"][1]["description"], "Optional token budget");
}

#[test]
fn the_sets_differ_in_sessions_and_efforts() {
    let actions = registered(CommandSet::SessionActions);
    let split = registered(CommandSet::SessionCommands);
    assert_eq!(names(&sub(&actions, "session")["options"]), ["action", "thread_id"]);
    assert!(names(&sub(&split, "session")["options"]).is_empty());
    assert!(names(&sub(&actions, "resume")["options"]).is_empty());
    assert_eq!(names(&sub(&split, "resume")["options"]), ["thread_id"]);
    assert_eq!(
        sub(&actions, "effort")["options"][0]["description"],
        "minimal, low, medium, high"
    );
    assert_eq!(
        sub(&split, "effort")["options"][0]["description"],
        "minimal, low, medium, high, xhigh"
    );
    assert_eq!(sub(&split, "new")["description"], "Start a new Codex session");
}
