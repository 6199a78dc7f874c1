//! What the gateway does for what happens on Discord: a message, or a command
//! with the calls and replies that follow from it.
use vstd::prelude::*;
use vstd::utf8::*;
use crate::commands::{self, CommandAction, CommandOption, CommandSet, GatewayCall};
use crate::output;
use crate::text;
use crate::visibility::{Message, VisibilityConfig};

verus! {

/// Something that a user does with the bot.
#[derive(Debug, PartialEq, Eq)]
pub enum Interaction {
    /// A command in a channel, with the options that the user gave.
    Command { channel_id: u64, name: String, options: Vec<CommandOption> },
    /// Anything else.
    Other,
}

/// What a reply tells.
#[derive(Debug, Clone, Copy, PartialEq, Eq, Structural)]
pub enum Stage {
    /// The outcome of the command.
    Outcome,
    /// That the command failed.
    Failure,
}

/// What is done next for an interaction.
#[derive(Debug, PartialEq, Eq)]
pub enum Step<T = String> {
    /// Asks Codex on behalf of a channel; `call_finished` says what follows.
    Call { channel_id: u64, call: GatewayCall<T> },
    /// Replies, visibly to the user alone if it is ephemeral; `reply_finished` says
    /// what follows.
    Reply { stage: Stage, content: T, ephemeral: bool },
    /// Nothing is left to do.
    Done,
}

impl View for Step {
    type V = Step<Seq<char>>;

    open spec fn view(&self) -> Step<Seq<char>> {
        match *self {
            Step::Call { channel_id, call } => Step::Call { channel_id, call: call@ },
            Step::Reply { stage, content, ephemeral } => Step::Reply {
                stage,
                content: content@,
                ephemeral,
            },
            Step::Done => Step::Done,
        }
    }
}

/// Replies to the user alone, with what is left of `content` after a cut at the
/// limit.
pub open spec fn reply_step(stage: Stage, content: Seq<char>) -> Step<Seq<char>> {
    Step::Reply {
        stage,
        content: output::truncated(content, output::DISCORD_LIMIT as nat),
        ephemeral: true,
    }
}

/// Replies that the command failed, and why.
pub open spec fn failure_step(error: Seq<char>) -> Step<Seq<char>> {
    reply_step(Stage::Failure, "Codex error: "@ + error)
}

/// What is done first for an interaction.
pub open spec fn first_step(set: CommandSet, interaction: Interaction) -> Step<Seq<char>> {
    match interaction {
        Interaction::Command { channel_id, name, options } => if name@ == "codex"@ {
            match commands::action_of(set, options@) {
                Ok(CommandAction::Call(call)) => Step::Call { channel_id, call },
                Ok(CommandAction::Respond(content)) => reply_step(Stage::Outcome, content),
                Err(error) => failure_step(commands::error_message(error)),
            }
        } else {
            Step::Done
        },
        Interaction::Other => Step::Done,
    }
}

/// What is done when Codex has answered or failed to.
pub open spec fn step_after_call(result: Result<Seq<char>, Seq<char>>) -> Step<Seq<char>> {
    match result {
        Ok(content) => reply_step(Stage::Outcome, content),
        Err(error) => failure_step(error),
    }
}

/// What is done when a reply was sent, or why it could not be: a failed reply is
/// told once.
pub open spec fn step_after_reply(stage: Stage, result: Result<(), Seq<char>>) -> Step<Seq<char>> {
    match (stage, result) {
        (Stage::Outcome, Err(error)) => failure_step(error),
        _ => Step::Done,
    }
}

/// Replies to the user alone, with what is left of `content` after a cut at the
/// limit.
fn reply(stage: Stage, content: String) -> (step: Step)
    ensures
        step@ == reply_step(stage, content@),
{
    Step::Reply { stage, content: output::reply_content(content), ephemeral: true }
}

/// Replies that the command failed, and why.
fn report_failure(error: &str) -> (step: Step)
    ensures
        step@ == failure_step(error@),
{
    let mut content = "Codex error: ".to_owned();
    content.append(error);
    reply(Stage::Failure, content)
}

/// Decides what is done first for an interaction: only `/codex` is handled.
pub fn interaction_create(set: CommandSet, interaction: &Interaction) -> (step: Step)
    ensures
        step@ == first_step(set, *interaction),
{
    match interaction {
        Interaction::Command { channel_id, name, options } => {
            if !text::same_text(name.as_str(), "codex") {
                return Step::Done;
            }
            match commands::handle_codex_command(set, options) {
                Ok(CommandAction::Call(call)) => Step::Call { channel_id: *channel_id, call },
                Ok(CommandAction::Respond(content)) => reply(Stage::Outcome, content),
                Err(error) => report_failure(error.message().as_str()),
            }
        },
        Interaction::Other => Step::Done,
    }
}

/// Decides what is done with the answer of Codex, or with its error.
pub fn call_finished(result: Result<String, String>) -> (step: Step)
    ensures
        step@ == step_after_call(commands::result_view(result)),
{
    match result {
        Ok(content) => reply(Stage::Outcome, content),
        Err(error) => report_failure(error.as_str()),
    }
}

/// Decides what is done after a reply, or after the error that kept it from being
/// sent.
pub fn reply_finished(stage: Stage, result: Result<(), String>) -> (step: Step)
    ensures
        step@ == step_after_reply(
            stage,
            match result {
                Ok(()) => Ok(()),
                Err(error) => Err(error@),
            },
        ),
{
    match result {
        Ok(()) => Step::Done,
        Err(error) => match stage {
            Stage::Outcome => report_failure(error.as_str()),
            Stage::Failure => Step::Done,
        },
    }
}

/// What is asked of Codex on behalf of a channel for a message in it.
#[derive(Debug, PartialEq, Eq)]
pub struct Turn<T = String> {
    pub channel_id: u64,
    pub call: GatewayCall<T>,
}

impl View for Turn {
    type V = Turn<Seq<char>>;

    open spec fn view(&self) -> Turn<Seq<char>> {
        Turn { channel_id: self.channel_id, call: self.call@ }
    }
}

/// The turn that a message starts, if it starts one: the prompt in it, in its
/// channel, where it is visible, not blank, and not from a bot.
pub open spec fn message_turn(
    visibility: VisibilityConfig,
    msg: Message,
    bot_user_id: u64,
) -> Option<Turn<Seq<char>>> {
    match visibility.prompt(msg, bot_user_id) {
        Some(prompt) => if !msg.author_is_bot && text::trim(prompt).len() > 0 {
            Some(
                Turn {
                    channel_id: msg.channel_id,
                    call: GatewayCall::EnqueueTurn { text: prompt, steer: true },
                },
            )
        } else {
            None
        },
        None => None,
    }
}

/// Decides whether a message starts or steers a turn, and with which prompt.
pub fn message(visibility: &VisibilityConfig, msg: &Message, bot_user_id: u64) -> (turn: Option<
    Turn,
>)
    ensures
        match turn {
            Some(turn) => message_turn(*visibility, *msg, bot_user_id) == Some(turn@),
            None => message_turn(*visibility, *msg, bot_user_id) is None,
        },
{
    if msg.author_is_bot {
        return None;
    }
    match visibility.visible_prompt(msg, bot_user_id) {
        Some(prompt) => {
            if prompt.as_str().trim().is_empty() {
                None
            } else {
                Some(
                    Turn {
                        channel_id: msg.channel_id,
                        call: GatewayCall::EnqueueTurn { text: prompt, steer: true },
                    },
                )
            }
        },
        None => None,
    }
}

/// How many steps can follow, this one included.
pub open spec fn steps_left(step: Step<Seq<char>>) -> nat {
    match step {
        Step::Call { .. } => 3,
        Step::Reply { stage: Stage::Outcome, .. } => 2,
        Step::Reply { stage: Stage::Failure, .. } => 1,
        Step::Done => 0,
    }
}

/// All that is done from a step on, where `answer` comes back from Codex, and
/// `outcome_sent` and `failure_sent` from the replies with the outcome and with a
/// failure.
pub open spec fn steps_from(
    step: Step<Seq<char>>,
    answer: Result<Seq<char>, Seq<char>>,
    outcome_sent: Result<(), Seq<char>>,
    failure_sent: Result<(), Seq<char>>,
) -> Seq<Step<Seq<char>>>
    decreases steps_left(step),
{
    match step {
        Step::Call { .. } => seq![step] + steps_from(
            step_after_call(answer),
            answer,
            outcome_sent,
            failure_sent,
        ),
        Step::Reply { stage: Stage::Outcome, .. } => seq![step] + steps_from(
            step_after_reply(Stage::Outcome, outcome_sent),
            answer,
            outcome_sent,
            failure_sent,
        ),
        Step::Reply { stage: Stage::Failure, .. } => seq![step] + steps_from(
            step_after_reply(Stage::Failure, failure_sent),
            answer,
            outcome_sent,
            failure_sent,
        ),
        Step::Done => seq![],
    }
}

/// What a command ends in if nothing fails: its reply, or else `None`.
pub open spec fn outcome_of(
    set: CommandSet,
    options: Seq<CommandOption>,
    answer: Result<Seq<char>, Seq<char>>,
) -> Option<Seq<char>> {
    match (commands::action_of(set, options), answer) {
        (Ok(CommandAction::Respond(content)), _) => Some(content),
        (Ok(CommandAction::Call(_)), Ok(content)) => Some(content),
        _ => None,
    }
}

/// Whatever comes back from Codex and Discord, for a `/codex` command:
/// - Codex is asked at most once, first of all, and for the command's channel;
/// - every reply is for the user alone, and the last step is one;
/// - if the command has an outcome and the reply with it is sent, that reply is the
///   only one;
/// - else the last reply, and no other, tells of a failure, and at most one other
///   was tried.
pub proof fn law_command_run(
    set: CommandSet,
    channel_id: u64,
    name: String,
    options: Vec<CommandOption>,
    answer: Result<Seq<char>, Seq<char>>,
    outcome_sent: Result<(), Seq<char>>,
    failure_sent: Result<(), Seq<char>>,
)
    requires
        name@ == "codex"@,
    ensures
        ({
            let run = steps_from(
                first_step(set, Interaction::Command { channel_id, name, options }),
                answer,
                outcome_sent,
                failure_sent,
            );
            let outcome = outcome_of(set, options@, answer);
            &&& 1 <= run.len() <= 3
            &&& forall|i: int|
                0 <= i < run.len() ==> (#[trigger] run[i] matches Step::Call { channel_id: c, .. }
                    ==> i == 0 && c == channel_id)
            &&& forall|i: int|
                0 <= i < run.len() ==> (#[trigger] run[i] matches Step::Reply { ephemeral, .. }
                    ==> ephemeral)
            &&& forall|i: int| 1 <= i < run.len() ==> #[trigger] run[i] is Reply
            &&& run.last() is Reply
            &&& outcome is Some && outcome_sent is Ok ==> {
                &&& run.last() == reply_step(Stage::Outcome, outcome->0)
                &&& run.last() == (Step::Reply {
                    stage: Stage::Outcome,
                    content: output::truncated(outcome->0, 1900),
                    ephemeral: true,
                })
                &&& forall|i: int| 0 <= i < run.len() - 1 ==> #[trigger] run[i] is Call
            }
            &&& outcome is None || outcome_sent is Err ==> {
                &&& run.last() matches Step::Reply { stage: Stage::Failure, .. }
                &&& forall|i: int|
                    0 <= i < run.len() - 1 ==> (#[trigger] run[i] is Call || (outcome is Some && i
                        == run.len() - 2 && run[i] == reply_step(Stage::Outcome, outcome->0)))
            }
        }),
{
    reveal_with_fuel(steps_from, 4);
}

/// A call for an interaction is on the channel of the interaction.
pub proof fn law_calls_stay_in_their_channel(set: CommandSet, interaction: Interaction)
    ensures
        first_step(set, interaction) matches Step::Call { channel_id, .. } ==> (
        interaction matches Interaction::Command { channel_id: c, .. } && c == channel_id),
{
}

/// A turn for a message is on the channel of the message.
pub proof fn law_turns_stay_in_their_channel(
    visibility: VisibilityConfig,
    msg: Message,
    bot_user_id: u64,
)
    requires
        message_turn(visibility, msg, bot_user_id) is Some,
    ensures
        (message_turn(visibility, msg, bot_user_id)->0).channel_id == msg.channel_id,
{
}

/// An interaction ends: after a call a reply follows; after the reply with the
/// outcome only the one that tells of a failure can follow; after that one nothing
/// does.
pub proof fn law_interactions_end(
    answer: Result<Seq<char>, Seq<char>>,
    stage: Stage,
    sent: Result<(), Seq<char>>,
)
    ensures
        step_after_call(answer) is Reply,
        step_after_reply(stage, sent) is Reply || step_after_reply(stage, sent) is Done,
        step_after_reply(stage, sent) matches Step::Reply { stage: next, .. } ==> stage
            == Stage::Outcome && next == Stage::Failure,
{
}

/// Only `/codex` is handled.
pub proof fn law_other_interactions_are_ignored(set: CommandSet, interaction: Interaction)
    requires
        interaction matches Interaction::Command { name, .. } ==> name@ != "codex"@,
    ensures
        first_step(set, interaction) == Step::<Seq<char>>::Done,
{
}

/// A command without a subcommand, with an unknown one, or without an option that
/// the subcommand needs is answered at once, in full.
pub proof fn law_mistakes_are_answered(
    set: CommandSet,
    channel_id: u64,
    name: String,
    options: Vec<CommandOption>,
)
    requires
        name@ == "codex"@,
    ensures
        options@.len() == 0 ==> first_step(set, Interaction::Command { channel_id, name, options })
            == (Step::Reply {
            stage: Stage::Outcome,
            content: "Missing subcommand"@,
            ephemeral: true,
        }),
        options@.len() > 0 && commands::subcommand_named(
            commands::subcommands_of(set),
            options@[0].name@,
        ) is None ==> first_step(set, Interaction::Command { channel_id, name, options }) == (Step::Reply {
            stage: Stage::Outcome,
            content: "Unknown subcommand"@,
            ephemeral: true,
        }),
        options@.len() > 0 && commands::subcommand_named(
            commands::subcommands_of(set),
            options@[0].name@,
        ) == Some(commands::Subcommand::Ask) && commands::text_option(options@, "prompt"@) is None
            ==> first_step(set, Interaction::Command { channel_id, name, options }) == (Step::Reply {
            stage: Stage::Failure,
            content: "Codex error: missing required option `prompt`"@,
            ephemeral: true,
        }),
        options@.len() > 0 && commands::subcommand_named(
            commands::subcommands_of(set),
            options@[0].name@,
        ) == Some(commands::Subcommand::Steer) && commands::text_option(options@, "message"@)
            is None ==> first_step(set, Interaction::Command { channel_id, name, options }) == (Step::Reply {
            stage: Stage::Failure,
            content: "Codex error: missing required option `message`"@,
            ephemeral: true,
        }),
{
    reveal_strlit("Missing subcommand");
    reveal_strlit("Unknown subcommand");
    reveal_strlit("Codex error: ");
    reveal_strlit("missing required option `");
    reveal_strlit("`");
    reveal_strlit("prompt");
    reveal_strlit("message");
    reveal_strlit("Codex error: missing required option `prompt`");
    reveal_strlit("Codex error: missing required option `message`");
    is_ascii_chars_encode_utf8("Missing subcommand"@);
    is_ascii_chars_encode_utf8("Unknown subcommand"@);
    is_ascii_chars_encode_utf8("Codex error: missing required option `prompt`"@);
    is_ascii_chars_encode_utf8("Codex error: missing required option `message`"@);
    assert("Codex error: "@ + ("missing required option `"@ + "prompt"@ + "`"@)
        =~= "Codex error: missing required option `prompt`"@);
    assert("Codex error: "@ + ("missing required option `"@ + "message"@ + "`"@)
        =~= "Codex error: missing required option `message`"@);
}

/// No reply takes more bytes than the limit and the mark of a cut.
pub proof fn law_replies_fit(
    set: CommandSet,
    interaction: Interaction,
    answer: Result<Seq<char>, Seq<char>>,
    stage: Stage,
    sent: Result<(), Seq<char>>,
)
    ensures
        first_step(set, interaction) matches Step::Reply { content, .. } ==> text::byte_len(content)
            <= output::DISCORD_LIMIT + 15,
        step_after_call(answer) matches Step::Reply { content, .. } ==> text::byte_len(content)
            <= output::DISCORD_LIMIT + 15,
        step_after_reply(stage, sent) matches Step::Reply { content, .. } ==> text::byte_len(
            content,
        ) <= output::DISCORD_LIMIT + 15,
{
    assert forall|stage: Stage, s: Seq<char>|
        #[trigger] reply_step(stage, s) matches Step::Reply { content, .. } ==> text::byte_len(
            content,
        ) <= output::DISCORD_LIMIT + 15 by {
        output::law_truncated(s, output::DISCORD_LIMIT as nat);
    }
}

/// A failed command is reported to the user with its error, cut to the limit.
pub proof fn law_failures_are_told(error: Seq<char>)
    ensures
        step_after_call(Err(error)) == (Step::Reply {
            stage: Stage::Failure,
            content: output::truncated("Codex error: "@ + error, output::DISCORD_LIMIT as nat),
            ephemeral: true,
        }),
        step_after_reply(Stage::Outcome, Err(error)) == step_after_call(Err(error)),
{
}

/// A message by a bot starts no turn.
pub proof fn law_bots_are_ignored(visibility: VisibilityConfig, msg: Message, bot_user_id: u64)
    requires
        msg.author_is_bot,
    ensures
        message_turn(visibility, msg, bot_user_id) is None,
{
}

/// A turn that a message starts steers, and its prompt is neither blank nor
/// padded with whitespace.
pub proof fn law_prompts_are_not_blank(
    visibility: VisibilityConfig,
    msg: Message,
    bot_user_id: u64,
)
    requires
        message_turn(visibility, msg, bot_user_id) is Some,
    ensures
        (message_turn(visibility, msg, bot_user_id)->0).call matches GatewayCall::EnqueueTurn {
            text: prompt,
            steer: true,
        } && prompt.len() > 0 && text::is_trimmed(prompt),
{
    let content = msg.content@;
    text::lemma_trim(content);
    text::lemma_trim(
        text::without(
            text::without(content, crate::visibility::mention(bot_user_id)),
            crate::visibility::nick_mention(bot_user_id),
        ),
    );
    let prompt = visibility.prompt(msg, bot_user_id)->0;
    text::lemma_trim(prompt);
}

/// An answer of Codex is replied to the user alone: all of it where it takes at most
/// 1900 bytes, else as much as fits, marked as cut.
pub proof fn law_answers_are_told(content: Seq<char>)
    ensures
        step_after_call(Ok(content)) == (Step::Reply {
            stage: Stage::Outcome,
            content: output::truncated(content, 1900),
            ephemeral: true,
        }),
        text::byte_len(content) <= 1900 ==> step_after_call(Ok(content)) == (Step::Reply {
            stage: Stage::Outcome,
            content,
            ephemeral: true,
        }),
        text::byte_len(content) > 1900 ==> exists|k: int|
            0 <= k < content.len() && text::byte_len(#[trigger] content.take(k)) <= 1900
                < text::byte_len(content.take(k + 1)) && step_after_call(Ok(content))
                == (Step::Reply {
                stage: Stage::Outcome,
                content: content.take(k) + "\n...[truncated]"@,
                ephemeral: true,
            }),
{
    output::law_truncated(content, 1900);
    if text::byte_len(content) > 1900 {
        let k = choose|k: int|
            0 <= k < content.len() && text::byte_len(#[trigger] content.take(k)) <= 1900
                < text::byte_len(content.take(k + 1)) && output::truncated(content, 1900)
                == content.take(k) + "\n...[truncated]"@;
        assert(text::byte_len(content.take(k)) <= 1900);
    }
}

/// An error of Codex, or one that kept the outcome from being sent, is replied to the
/// user alone, behind `Codex error: `, and cut in the same way.
pub proof fn law_errors_are_told(error: Seq<char>)
    ensures
        step_after_call(Err(error)) == (Step::Reply {
            stage: Stage::Failure,
            content: output::truncated("Codex error: "@ + error, 1900),
            ephemeral: true,
        }),
        step_after_reply(Stage::Outcome, Err(error)) == (Step::Reply {
            stage: Stage::Failure,
            content: output::truncated("Codex error: "@ + error, 1900),
            ephemeral: true,
        }),
        text::byte_len("Codex error: "@ + error) <= 1900 ==> step_after_call(Err(error)) == (
        Step::Reply { stage: Stage::Failure, content: "Codex error: "@ + error, ephemeral: true }),
{
    output::law_truncated("Codex error: "@ + error, 1900);
}

/// Nothing follows a reply that was sent, or a failed reply about a failure.
pub proof fn law_nothing_follows(error: Seq<char>, stage: Stage)
    ensures
        step_after_reply(stage, Ok(())) == Step::<Seq<char>>::Done,
        step_after_reply(Stage::Failure, Err(error)) == Step::<Seq<char>>::Done,
{
}

/// What follows from a `/codex` command: what it asks of Codex is asked for its channel;
/// what it answers by itself is replied; and why it is refused is replied as an error.
pub proof fn law_first_step(
    set: CommandSet,
    channel_id: u64,
    name: String,
    options: Vec<CommandOption>,
)
    requires
        name@ == "codex"@,
    ensures
        ({
            let step = first_step(set, Interaction::Command { channel_id, name, options });
            match commands::action_of(set, options@) {
                Ok(CommandAction::Call(call)) => step == (Step::Call { channel_id, call }),
                Ok(CommandAction::Respond(content)) => step == (Step::Reply {
                    stage: Stage::Outcome,
                    content: output::truncated(content, 1900),
                    ephemeral: true,
                }),
                Err(error) => step == (Step::Reply {
                    stage: Stage::Failure,
                    content: output::truncated(
                        "Codex error: "@ + commands::error_message(error),
                        1900,
                    ),
                    ephemeral: true,
                }),
            }
        }),
{
}

/// A message that is not from a bot and of which a prompt is read that is not blank
/// starts a turn: that prompt, steering, in the channel of the message. No other message
/// does.
pub proof fn law_visible_prompts_start_turns(
    visibility: VisibilityConfig,
    msg: Message,
    bot_user_id: u64,
)
    ensures
        match visibility.prompt(msg, bot_user_id) {
            Some(prompt) => if msg.author_is_bot || (forall|i: int|
                0 <= i < prompt.len() ==> text::is_white_space(#[trigger] prompt[i])) {
                message_turn(visibility, msg, bot_user_id) is None
            } else {
                message_turn(visibility, msg, bot_user_id) == Some(
                    Turn {
                        channel_id: msg.channel_id,
                        call: GatewayCall::EnqueueTurn { text: prompt, steer: true },
                    },
                )
            },
            None => message_turn(visibility, msg, bot_user_id) is None,
        },
{
    if let Some(prompt) = visibility.prompt(msg, bot_user_id) {
        let (a, b) = text::lemma_trim(prompt);
        if text::trim(prompt).len() > 0 {
            assert(text::trim(prompt)[0] == prompt[a]);
        } else {
            assert forall|i: int| 0 <= i < prompt.len() implies text::is_white_space(
                #[trigger] prompt[i],
            ) by {
            }
        }
    }
}

/// A listed user's direct message that is not blank starts a turn with its text; so does,
/// without the mentions, one in a channel that reads the user always.
pub proof fn law_listed_users_start_turns(
    visibility: VisibilityConfig,
    i: int,
    msg: Message,
    bot_user_id: u64,
)
    requires
        !msg.author_is_bot,
        text::trim(msg.content@).len() > 0,
    ensures
        msg.guild_id is None && visibility.dm_allow_users@.contains(msg.author_id) ==> message_turn(
            visibility,
            msg,
            bot_user_id,
        ) == Some(
            Turn {
                channel_id: msg.channel_id,
                call: GatewayCall::EnqueueTurn { text: text::trim(msg.content@), steer: true },
            },
        ),
        ({
            let plain = seq!['<', '@'] + text::decimal(bot_user_id as nat) + seq!['>'];
            let nick = seq!['<', '@', '!'] + text::decimal(bot_user_id as nat) + seq!['>'];
            &&& msg.guild_id is Some
            &&& 0 <= i < visibility.channels@.len()
            &&& visibility.channels@[i].id == msg.channel_id
            &&& forall|j: int|
                0 <= j < i ==> (#[trigger] visibility.channels@[j]).id != msg.channel_id
            &&& visibility.channels@[i].users@.contains(msg.author_id)
            &&& visibility.channels@[i].mode == crate::visibility::ChannelMode::Always
            &&& !text::occurs_in(plain, msg.content@)
            &&& !text::occurs_in(nick, msg.content@)
        }) ==> message_turn(visibility, msg, bot_user_id) == Some(
            Turn {
                channel_id: msg.channel_id,
                call: GatewayCall::EnqueueTurn { text: text::trim(msg.content@), steer: true },
            },
        ),
{
    let content = msg.content@;
    text::lemma_trim(content);
    text::lemma_trim(text::trim(content));
    let plain = seq!['<', '@'] + text::decimal(bot_user_id as nat) + seq!['>'];
    let nick = seq!['<', '@', '!'] + text::decimal(bot_user_id as nat) + seq!['>'];
    if msg.guild_id is Some && 0 <= i < visibility.channels@.len() && visibility.channels@[i].id
        == msg.channel_id && (forall|j: int|
        0 <= j < i ==> (#[trigger] visibility.channels@[j]).id != msg.channel_id) {
        crate::visibility::law_channel_prompt(visibility, i, msg, bot_user_id);
        if !text::occurs_in(plain, content) && !text::occurs_in(nick, content) {
            text::lemma_without_absent(content, plain);
            text::lemma_without_absent(content, nick);
        }
    }
}

/// The view of a step shows all of it.
pub proof fn law_step_view(step: Step)
    ensures
        match step {
            Step::Call { channel_id, call } => step@ == (Step::Call { channel_id, call: call@ }),
            Step::Reply { stage, content, ephemeral } => step@ == (Step::Reply {
                stage,
                content: content@,
                ephemeral,
            }),
            Step::Done => step@ == Step::<Seq<char>>::Done,
        },
{
}

/// The view of a turn shows all of it.
pub proof fn law_turn_view(turn: Turn)
    ensures
        turn@.channel_id == turn.channel_id,
        turn@.call == turn.call@,
{
}

} // verus!
