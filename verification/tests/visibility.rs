use codex_discord_gateway::visibility::{
    default_channel_mode, mentions_bot, strip_bot_mention, ChannelMode, ChannelVisibilityRule,
    Message, VisibilityConfig,
};

const ALICE: u64 = 111111111111111111;
const BOB: u64 = 222222222222222222;
const CAROL: u64 = 333333333333333333;
const DAVID: u64 = 444444444444444444;
const MENTION_CHANNEL: u64 = 555555555555555555;
const ALWAYS_CHANNEL: u64 = 666666666666666666;
const BOT: u64 = 42;

fn config() -> VisibilityConfig {
    VisibilityConfig {
        dm_allow_users: vec![ALICE, DAVID],
        channels: vec![
            ChannelVisibilityRule {
                id: MENTION_CHANNEL,
                mode: ChannelMode::Mention,
                users: vec![ALICE, BOB],
            },
            ChannelVisibilityRule {
                id: ALWAYS_CHANNEL,
                mode: ChannelMode::Always,
                users: vec![BOB, DAVID],
            },
        ],
    }
}

fn direct(author_id: u64, content: &str) -> Message {
    Message {
        author_id,
        author_is_bot: false,
        guild_id: None,
        channel_id: 7,
        mentions: vec![],
        content: content.to_string(),
    }
}

fn posted(author_id: u64, channel_id: u64, content: &str) -> Message {
    Message {
        guild_id: Some(1),
        channel_id,
        ..direct(author_id, content)
    }
}

#[test]
fn the_default_mode_is_mention() {
    assert_eq!(default_channel_mode(), ChannelMode::Mention);
    assert_eq!(ChannelMode::default(), ChannelMode::Mention);
}

#[test]
fn nothing_is_read_by_default() {
    let none = VisibilityConfig::default();
    assert_eq!(none.visible_prompt(&direct(ALICE, "hi"), BOT), None);
    assert_eq!(none.visible_prompt(&posted(BOB, ALWAYS_CHANNEL, "<@42> hi"), BOT), None);
}

#[test]
fn allowed_direct_messages_need_no_mention() {
    let prompt = |msg: Message| config().visible_prompt(&msg, BOT);
    assert_eq!(prompt(direct(ALICE, "  hi \n")), Some("hi".to_string()));
    assert_eq!(prompt(direct(DAVID, "hi <@42>")), Some("hi <@42>".to_string()));
    assert_eq!(prompt(direct(BOB, "hi")), None);
}

#[test]
fn mention_mode_needs_a_mention() {
    let prompt = |msg: Message| config().visible_prompt(&msg, BOT);
    assert_eq!(prompt(posted(ALICE, MENTION_CHANNEL, "hi")), None);
    assert_eq!(
        prompt(posted(ALICE, MENTION_CHANNEL, "<@42> hi")),
        Some("hi".to_string())
    );
    assert_eq!(
        prompt(posted(BOB, MENTION_CHANNEL, "hi <@!42>")),
        Some("hi".to_string())
    );
    let listed = Message {
        mentions: vec![9, BOT],
        ..posted(BOB, MENTION_CHANNEL, "hi there")
    };
    assert_eq!(prompt(listed), Some("hi there".to_string()));
    assert_eq!(prompt(posted(DAVID, MENTION_CHANNEL, "<@42> hi")), None);
}

#[test]
fn always_mode_needs_no_mention() {
    let prompt = |msg: Message| config().visible_prompt(&msg, BOT);
    assert_eq!(prompt(posted(BOB, ALWAYS_CHANNEL, " hi ")), Some("hi".to_string()));
    assert_eq!(
        prompt(posted(DAVID, ALWAYS_CHANNEL, "<@42>")),
        Some(String::new())
    );
    assert_eq!(prompt(posted(CAROL, ALWAYS_CHANNEL, "hi")), None);
}

#[test]
fn other_channels_are_not_read() {
    assert_eq!(config().visible_prompt(&posted(BOB, 8, "<@42> hi"), BOT), None);
}

#[test]
fn the_first_rule_for_a_channel_decides() {
    let mut config = config();
    config.channels.push(ChannelVisibilityRule {
        id: MENTION_CHANNEL,
        mode: ChannelMode::Always,
        users: vec![ALICE, CAROL],
    });
    assert_eq!(config.visible_prompt(&posted(ALICE, MENTION_CHANNEL, "hi"), BOT), None);
    assert_eq!(config.visible_prompt(&posted(CAROL, MENTION_CHANNEL, "hi"), BOT), None);
}

#[test]
fn mentions_are_recognised() {
    assert!(mentions_bot(&direct(ALICE, "a <@42> b"), BOT));
    assert!(mentions_bot(&direct(ALICE, "a <@!42> b"), BOT));
    assert!(!mentions_bot(&direct(ALICE, "a <@421> 42"), BOT));
    assert!(!mentions_bot(&direct(ALICE, ""), BOT));
    assert!(mentions_bot(&direct(ALICE, "<@18446744073709551615>"), u64::MAX));
    assert!(mentions_bot(&direct(ALICE, "<@0>"), 0));
}

#[test]
fn mentions_are_stripped() {
    assert_eq!(strip_bot_mention(" <@42> hi <@!42> there <@42>", BOT), "hi  there");
    assert_eq!(strip_bot_mention("<3 <@42>\u{a0}", BOT), "<3");
    assert_eq!(strip_bot_mention("<@43> hi", BOT), "<@43> hi");
    assert_eq!(strip_bot_mention("<@42><@!42>", BOT), "");
}

#[test]
fn a_mention_that_appears_by_stripping_stays_or_goes() {
    assert_eq!(strip_bot_mention("<@<@!42>42>", BOT), "<@42>");
    assert_eq!(strip_bot_mention("<@!<@42>42> x", BOT), "x");
}
