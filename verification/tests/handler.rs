use codex_discord_gateway::commands::{CommandOption, CommandSet, GatewayCall, OptionValue};
use codex_discord_gateway::handler::{
    call_finished, interaction_create, message, reply_finished, Interaction, Stage, Step, Turn,
};
use codex_discord_gateway::visibility::{Message, VisibilityConfig};

const SET: CommandSet = CommandSet::SessionActions;

fn command(name: &str, sub: &str) -> Interaction {
    Interaction::Command {
        channel_id: 77,
        name: name.to_string(),
        options: vec![CommandOption {
            name: sub.to_string(),
            value: OptionValue::SubCommand(vec![]),
        }],
    }
}

fn outcome(content: &str) -> Step {
    Step::Reply { stage: Stage::Outcome, content: content.to_string(), ephemeral: true }
}

fn failure(content: &str) -> Step {
    Step::Reply { stage: Stage::Failure, content: content.to_string(), ephemeral: true }
}

#[test]
fn only_codex_is_handled() {
    assert_eq!(interaction_create(SET, &Interaction::Other), Step::Done);
    assert_eq!(interaction_create(SET, &command("other", "queue")), Step::Done);
    assert_eq!(
        interaction_create(SET, &command("codex", "queue")),
        Step::Call { channel_id: 77, call: GatewayCall::QueueStatus }
    );
}

#[test]
fn mistakes_are_answered_at_once() {
    assert_eq!(interaction_create(SET, &command("codex", "fly")), outcome("Unknown subcommand"));
    assert_eq!(
        interaction_create(SET, &command("codex", "ask")),
        failure("Codex error: missing required option `prompt`")
    );
    let empty =
        Interaction::Command { channel_id: 77, name: "codex".to_string(), options: vec![] };
    assert_eq!(interaction_create(SET, &empty), outcome("Missing subcommand"));
}

#[test]
fn answers_are_passed_on() {
    assert_eq!(call_finished(Ok("queued".to_string())), outcome("queued"));
    assert_eq!(call_finished(Err("offline".to_string())), failure("Codex error: offline"));
}

#[test]
fn long_answers_are_cut() {
    let cut = format!("{}\n...[truncated]", "y".repeat(1900));
    assert_eq!(call_finished(Ok("y".repeat(3000))), outcome(&cut));
    let shorter = "y".repeat(1898);
    assert_eq!(
        call_finished(Ok(format!("{shorter}\u{1f600}"))),
        outcome(&format!("{shorter}\n...[truncated]"))
    );
    assert_eq!(
        call_finished(Err("\u{1f600}".repeat(600))),
        failure(&format!("Codex error: {}\n...[truncated]", "\u{1f600}".repeat(471)))
    );
}

#[test]
fn a_failed_reply_is_told_once() {
    assert_eq!(reply_finished(Stage::Outcome, Ok(())), Step::Done);
    assert_eq!(
        reply_finished(Stage::Outcome, Err("gone".to_string())),
        failure("Codex error: gone")
    );
    assert_eq!(reply_finished(Stage::Failure, Ok(())), Step::Done);
    assert_eq!(reply_finished(Stage::Failure, Err("gone".to_string())), Step::Done);
}

#[test]
fn a_whole_command() {
    let first = interaction_create(SET, &command("codex", "models"));
    assert_eq!(first, Step::Call { channel_id: 77, call: GatewayCall::ListModels });
    assert_eq!(call_finished(Ok("a, b".to_string())), outcome("a, b"));
    assert_eq!(reply_finished(Stage::Outcome, Ok(())), Step::Done);
}

fn direct(content: &str, author_is_bot: bool) -> Message {
    Message {
        author_id: 1,
        author_is_bot,
        guild_id: None,
        channel_id: 2,
        mentions: vec![],
        content: content.to_string(),
    }
}

#[test]
fn messages_steer() {
    let visibility = VisibilityConfig { dm_allow_users: vec![1], channels: vec![] };
    assert_eq!(
        message(&visibility, &direct(" hello ", false), 9),
        Some(Turn {
            channel_id: 2,
            call: GatewayCall::EnqueueTurn { text: "hello".to_string(), steer: true },
        })
    );
    assert_eq!(message(&visibility, &direct("hello", true), 9), None);
    assert_eq!(message(&visibility, &direct(" \n ", false), 9), None);
    assert_eq!(message(&VisibilityConfig::default(), &direct("hello", false), 9), None);
}
