//! Which messages the gateway reads, and what it reads of them.
use vstd::prelude::*;
use crate::text;

verus! {

/// When the messages of an allowed user in a channel are read.
#[derive(Debug, Clone, Copy, PartialEq, Eq, Structural)]
pub enum ChannelMode {
    /// Only when they mention the bot.
    Mention,
    /// Always.
    Always,
}

impl Default for ChannelMode {
    fn default() -> (mode: ChannelMode)
        ensures
            mode == ChannelMode::Mention,
    {
        ChannelMode::Mention
    }
}

/// The mode of a channel for which none is given.
pub fn default_channel_mode() -> (mode: ChannelMode)
    ensures
        mode == ChannelMode::Mention,
{
    ChannelMode::Mention
}

/// Whose messages are read in one channel, and when.
#[derive(Debug, Clone)]
pub struct ChannelVisibilityRule {
    pub id: u64,
    pub mode: ChannelMode,
    pub users: Vec<u64>,
}

/// Whose messages are read.
#[derive(Debug, Clone)]
pub struct VisibilityConfig {
    pub dm_allow_users: Vec<u64>,
    pub channels: Vec<ChannelVisibilityRule>,
}

impl Default for VisibilityConfig {
    fn default() -> (config: VisibilityConfig)
        ensures
            config.dm_allow_users@ == Seq::<u64>::empty(),
            config.channels@ == Seq::<ChannelVisibilityRule>::empty(),
    {
        VisibilityConfig { dm_allow_users: Vec::new(), channels: Vec::new() }
    }
}

/// What the gateway knows of a message. A direct message has no guild.
#[derive(Debug)]
pub struct Message {
    pub author_id: u64,
    pub author_is_bot: bool,
    pub guild_id: Option<u64>,
    pub channel_id: u64,
    pub mentions: Vec<u64>,
    pub content: String,
}

/// How a text mentions a user: `<@id>`.
pub open spec fn mention(user_id: u64) -> Seq<char> {
    "<@"@ + text::decimal(user_id as nat) + ">"@
}

/// How a text mentions a user by nickname: `<@!id>`.
pub open spec fn nick_mention(user_id: u64) -> Seq<char> {
    "<@!"@ + text::decimal(user_id as nat) + ">"@
}

/// The message mentions the user, in the list of mentions or in the text.
pub open spec fn is_mentioned(msg: Message, user_id: u64) -> bool {
    ||| msg.mentions@.contains(user_id)
    ||| text::occurs_in(mention(user_id), msg.content@)
    ||| text::occurs_in(nick_mention(user_id), msg.content@)
}

/// A text without the mentions of the user, trimmed.
pub open spec fn stripped(content: Seq<char>, user_id: u64) -> Seq<char> {
    text::trim(text::without(text::without(content, mention(user_id)), nick_mention(user_id)))
}

/// The first rule for a channel.
pub open spec fn rule_for(
    rules: Seq<ChannelVisibilityRule>,
    channel_id: u64,
) -> Option<ChannelVisibilityRule>
    decreases rules.len(),
{
    if rules.len() == 0 {
        None
    } else if rules[0].id == channel_id {
        Some(rules[0])
    } else {
        rule_for(rules.drop_first(), channel_id)
    }
}

impl VisibilityConfig {
    /// What is read of a message, if it is read.
    pub open spec fn prompt(self, msg: Message, bot_user_id: u64) -> Option<Seq<char>> {
        if msg.guild_id is None {
            if self.dm_allow_users@.contains(msg.author_id) {
                Some(text::trim(msg.content@))
            } else {
                None
            }
        } else {
            match rule_for(self.channels@, msg.channel_id) {
                None => None,
                Some(rule) => if rule.users@.contains(msg.author_id) && (rule.mode
                    == ChannelMode::Always || is_mentioned(msg, bot_user_id)) {
                    Some(stripped(msg.content@, bot_user_id))
                } else {
                    None
                },
            }
        }
    }

    /// What the gateway reads of a message, if it reads it.
    pub fn visible_prompt(&self, msg: &Message, bot_user_id: u64) -> (prompt: Option<String>)
        ensures
            prompt.deep_view() == self.prompt(*msg, bot_user_id),
    {
        let user_id = msg.author_id;
        if msg.guild_id.is_none() {
            if contains_id(&self.dm_allow_users, user_id) {
                return Some(msg.content.as_str().trim().to_owned());
            }
            return None;
        }
        let rule = match find_rule(&self.channels, msg.channel_id) {
            Some(rule) => rule,
            None => {
                return None;
            },
        };
        if !contains_id(&rule.users, user_id) {
            return None;
        }
        match rule.mode {
            ChannelMode::Always => Some(strip_bot_mention(msg.content.as_str(), bot_user_id)),
            ChannelMode::Mention => {
                if mentions_bot(msg, bot_user_id) {
                    Some(strip_bot_mention(msg.content.as_str(), bot_user_id))
                } else {
                    None
                }
            },
        }
    }
}

/// Whether `id` is in the list.
fn contains_id(ids: &Vec<u64>, id: u64) -> (found: bool)
    ensures
        found == ids@.contains(id),
{
    for i in 0..ids.len()
        invariant
            forall|j: int| 0 <= j < i ==> ids@[j] != id,
    {
        if ids[i] == id {
            return true;
        }
    }
    false
}

/// The first rule for a channel.
fn find_rule(rules: &Vec<ChannelVisibilityRule>, channel_id: u64) -> (rule: Option<
    &ChannelVisibilityRule,
>)
    ensures
        match rule_for(rules@, channel_id) {
            Some(r) => rule == Some(&r),
            None => rule is None,
        },
{
    assert(rules@.skip(0) =~= rules@);
    for i in 0..rules.len()
        invariant
            rule_for(rules@.skip(i as int), channel_id) == rule_for(rules@, channel_id),
    {
        assert(rules@.skip(i as int).drop_first() =~= rules@.skip(i + 1));
        if rules[i].id == channel_id {
            return Some(&rules[i]);
        }
    }
    None
}

/// The text that mentions a user, with `open` before the number.
fn mention_text(open: &str, user_id: u64) -> (r: String)
    ensures
        r@ == open@ + text::decimal(user_id as nat) + ">"@,
{
    text::concat3(open, text::u64_to_string(user_id).as_str(), ">")
}

/// Whether a message mentions the bot.
pub fn mentions_bot(msg: &Message, bot_user_id: u64) -> (r: bool)
    ensures
        r == is_mentioned(*msg, bot_user_id),
{
    contains_id(&msg.mentions, bot_user_id) || text::contains(
        msg.content.as_str(),
        mention_text("<@", bot_user_id).as_str(),
    ) || text::contains(msg.content.as_str(), mention_text("<@!", bot_user_id).as_str())
}

/// Takes the mentions of the bot out of a text, and the whitespace around it.
pub fn strip_bot_mention(content: &str, bot_user_id: u64) -> (r: String)
    ensures
        r@ == stripped(content@, bot_user_id),
{
    proof {
        lemma_mentions(bot_user_id);
    }
    let plain = text::remove_all(content, mention_text("<@", bot_user_id).as_str());
    let bare = text::remove_all(plain.as_str(), mention_text("<@!", bot_user_id).as_str());
    bare.as_str().trim().to_owned()
}

/// Both ways to mention a user start with their only `<`, and neither starts
/// like the other.
proof fn lemma_mentions(user_id: u64)
    ensures
        mention(user_id).len() > 3,
        mention(user_id)[0] == '<',
        mention(user_id)[2] != '!',
        nick_mention(user_id).len() > 3,
        nick_mention(user_id)[0] == '<',
        nick_mention(user_id)[2] == '!',
        !mention(user_id).drop_first().contains('<'),
        !nick_mention(user_id).drop_first().contains('<'),
{
    reveal_strlit("<@");
    reveal_strlit("<@!");
    reveal_strlit(">");
    let digits = text::decimal(user_id as nat);
    text::lemma_decimal(user_id as nat);
    assert(mention(user_id)[2] == digits[0]);
    let tail = mention(user_id).drop_first();
    assert forall|i: int| 0 <= i < tail.len() implies tail[i] != '<' by {
        if 1 <= i < 1 + digits.len() {
            assert(tail[i] == digits[i - 1]);
        }
    }
    let tail = nick_mention(user_id).drop_first();
    assert forall|i: int| 0 <= i < tail.len() implies tail[i] != '<' by {
        if 2 <= i < 2 + digits.len() {
            assert(tail[i] == digits[i - 2]);
        }
    }
}

/// A text with mentions in it: `first`, then each mention, by nickname or not,
/// with the text behind it.
pub open spec fn with_mentions(
    first: Seq<char>,
    rest: Seq<(bool, Seq<char>)>,
    user_id: u64,
) -> Seq<char>
    decreases rest.len(),
{
    if rest.len() == 0 {
        first
    } else {
        first + ((if rest[0].0 {
            nick_mention(user_id)
        } else {
            mention(user_id)
        }) + with_mentions(rest[0].1, rest.drop_first(), user_id))
    }
}

/// The same text with the mentions by nickname only.
spec fn with_nick_mentions(
    first: Seq<char>,
    rest: Seq<(bool, Seq<char>)>,
    user_id: u64,
) -> Seq<char>
    decreases rest.len(),
{
    if rest.len() == 0 {
        first
    } else if rest[0].0 {
        first + (nick_mention(user_id) + with_nick_mentions(
            rest[0].1,
            rest.drop_first(),
            user_id,
        ))
    } else {
        first + with_nick_mentions(rest[0].1, rest.drop_first(), user_id)
    }
}

/// The same text without the mentions.
pub open spec fn with_no_mentions(first: Seq<char>, rest: Seq<(bool, Seq<char>)>) -> Seq<char>
    decreases rest.len(),
{
    if rest.len() == 0 {
        first
    } else {
        first + with_no_mentions(rest[0].1, rest.drop_first())
    }
}

/// No part of the text holds a plain mention.
pub open spec fn parts_are_plain(
    first: Seq<char>,
    rest: Seq<(bool, Seq<char>)>,
    user_id: u64,
) -> bool {
    &&& !text::occurs_in(mention(user_id), first)
    &&& forall|i: int|
        0 <= i < rest.len() ==> !text::occurs_in(mention(user_id), (#[trigger] rest[i]).1)
}

/// No text between two mentions by nickname holds another one once the plain
/// mentions in it are gone.
pub open spec fn runs_are_plain(
    first: Seq<char>,
    rest: Seq<(bool, Seq<char>)>,
    user_id: u64,
) -> bool
    decreases rest.len(),
{
    if rest.len() == 0 {
        !text::occurs_in(nick_mention(user_id), first)
    } else if rest[0].0 {
        !text::occurs_in(nick_mention(user_id), first) && runs_are_plain(
            rest[0].1,
            rest.drop_first(),
            user_id,
        )
    } else {
        runs_are_plain(first + rest[0].1, rest.drop_first(), user_id)
    }
}

/// Taking out an occurrence at the start leaves what is taken out of the rest.
proof fn lemma_without_start(pattern: Seq<char>, b: Seq<char>)
    requires
        pattern.len() > 0,
    ensures
        text::without(pattern + b, pattern) == text::without(b, pattern),
{
    let s = pattern + b;
    assert(pattern.is_prefix_of(s));
    assert(s.skip(pattern.len() as int) =~= b);
}

/// What starts with its only `<` occurs neither across the start of a text that
/// starts with `<`, nor where it does not occur before it.
proof fn lemma_without_before(a: Seq<char>, b: Seq<char>, pattern: Seq<char>)
    requires
        pattern.len() > 0,
        pattern[0] == '<',
        !pattern.drop_first().contains('<'),
        !text::occurs_in(pattern, a),
        b.len() > 0,
        b[0] == '<',
    ensures
        text::without(a + b, pattern) == a + text::without(b, pattern),
{
    let s = a + b;
    assert forall|i: int| 0 <= i < a.len() implies !pattern.is_prefix_of(#[trigger] s.skip(i)) by {
        if pattern.is_prefix_of(s.skip(i)) {
            if i + pattern.len() <= a.len() {
                assert(a.subrange(i, i + pattern.len()) =~= pattern);
            } else {
                let j = a.len() - i;
                assert(pattern[j] == s.skip(i)[j]);
                assert(pattern.drop_first()[j - 1] == '<');
            }
        }
    }
    text::lemma_without_after(a, b, pattern);
}

proof fn lemma_strip_plain_mentions(
    first: Seq<char>,
    rest: Seq<(bool, Seq<char>)>,
    user_id: u64,
)
    requires
        parts_are_plain(first, rest, user_id),
    ensures
        text::without(with_mentions(first, rest, user_id), mention(user_id)) == with_nick_mentions(
            first,
            rest,
            user_id,
        ),
    decreases rest.len(),
{
    let m = mention(user_id);
    let n = nick_mention(user_id);
    lemma_mentions(user_id);
    if rest.len() == 0 {
        text::lemma_without_absent(first, m);
    } else {
        let tail = with_mentions(rest[0].1, rest.drop_first(), user_id);
        assert forall|i: int| 0 <= i < rest.drop_first().len() implies !text::occurs_in(
            m,
            (#[trigger] rest.drop_first()[i]).1,
        ) by {
            assert(rest.drop_first()[i] == rest[i + 1]);
        }
        lemma_strip_plain_mentions(rest[0].1, rest.drop_first(), user_id);
        if rest[0].0 {
            lemma_without_before(first, n + tail, m);
            let s = n + tail;
            assert forall|i: int| 0 <= i < n.len() implies !m.is_prefix_of(
                #[trigger] s.skip(i),
            ) by {
                if m.is_prefix_of(s.skip(i)) {
                    assert(m[0] == s.skip(i)[0]);
                    if i == 0 {
                        assert(m[2] == s.skip(i)[2]);
                    } else {
                        assert(n.drop_first()[i - 1] == '<');
                    }
                }
            }
            text::lemma_without_after(n, tail, m);
        } else {
            lemma_without_before(first, m + tail, m);
            lemma_without_start(m, tail);
        }
    }
}

proof fn lemma_strip_nick_mentions(first: Seq<char>, rest: Seq<(bool, Seq<char>)>, user_id: u64)
    requires
        runs_are_plain(first, rest, user_id),
    ensures
        text::without(with_nick_mentions(first, rest, user_id), nick_mention(user_id))
            == with_no_mentions(first, rest),
    decreases rest.len(),
{
    let n = nick_mention(user_id);
    lemma_mentions(user_id);
    if rest.len() == 0 {
        text::lemma_without_absent(first, n);
    } else {
        let next = rest[0].1;
        let after = rest.drop_first();
        let tail = with_nick_mentions(next, after, user_id);
        if rest[0].0 {
            lemma_strip_nick_mentions(next, after, user_id);
            lemma_without_before(first, n + tail, n);
            lemma_without_start(n, tail);
        } else {
            lemma_strip_nick_mentions(first + next, after, user_id);
            assert(first + tail =~= with_nick_mentions(first + next, after, user_id));
            assert(first + with_no_mentions(next, after) =~= with_no_mentions(
                first + next,
                after,
            ));
        }
    }
}

/// Of a text with mentions of the bot in it all but the mentions is kept, and
/// the whitespace at the ends dropped. The text is one that does not turn into a
/// mention by nickname when the plain mentions inside it are taken out.
pub proof fn law_strip_removes_mentions(
    first: Seq<char>,
    rest: Seq<(bool, Seq<char>)>,
    user_id: u64,
)
    requires
        parts_are_plain(first, rest, user_id),
        runs_are_plain(first, rest, user_id),
    ensures
        stripped(with_mentions(first, rest, user_id), user_id) == text::trim(
            with_no_mentions(first, rest),
        ),
{
    lemma_strip_plain_mentions(first, rest, user_id);
    lemma_strip_nick_mentions(first, rest, user_id);
}

/// A text that does not mention the bot is only trimmed.
pub proof fn law_strip_keeps_other_text(content: Seq<char>, user_id: u64)
    requires
        !text::occurs_in(mention(user_id), content),
        !text::occurs_in(nick_mention(user_id), content),
    ensures
        stripped(content, user_id) == text::trim(content),
{
    text::lemma_without_absent(content, mention(user_id));
    text::lemma_without_absent(content, nick_mention(user_id));
}

/// Reading messages is opt-in: a configuration that lists nobody reads nothing.
pub proof fn law_visibility_is_opt_in(config: VisibilityConfig, msg: Message, bot_user_id: u64)
    requires
        config.dm_allow_users@.len() == 0,
        config.channels@.len() == 0,
    ensures
        config.prompt(msg, bot_user_id) is None,
{
}

/// Only listed users are read: in direct messages those that are allowed there,
/// in a channel those that a rule for that channel lists.
pub proof fn law_only_listed_users_are_read(
    config: VisibilityConfig,
    msg: Message,
    bot_user_id: u64,
)
    requires
        config.prompt(msg, bot_user_id) is Some,
    ensures
        msg.guild_id is None ==> config.dm_allow_users@.contains(msg.author_id),
        msg.guild_id is Some ==> exists|i: int|
            0 <= i < config.channels@.len() && (#[trigger] config.channels@[i]).id == msg.channel_id
                && config.channels@[i].users@.contains(msg.author_id),
{
    if msg.guild_id is Some {
        lemma_rule_for(config.channels@, msg.channel_id);
    }
}

/// An allowed user's direct message is read whether or not it mentions the bot.
pub proof fn law_direct_messages_need_no_mention(
    config: VisibilityConfig,
    msg: Message,
    bot_user_id: u64,
)
    requires
        msg.guild_id is None,
        config.dm_allow_users@.contains(msg.author_id),
    ensures
        config.prompt(msg, bot_user_id) == Some(text::trim(msg.content@)),
{
}

/// In a channel, an allowed user's message is read if the mode is `Always` or
/// the message mentions the bot, and only then.
pub proof fn law_mode_decides(
    config: VisibilityConfig,
    rule: ChannelVisibilityRule,
    msg: Message,
    bot_user_id: u64,
)
    requires
        msg.guild_id is Some,
        rule_for(config.channels@, msg.channel_id) == Some(rule),
        rule.users@.contains(msg.author_id),
    ensures
        rule.mode == ChannelMode::Always ==> config.prompt(msg, bot_user_id) == Some(
            stripped(msg.content@, bot_user_id),
        ),
        rule.mode == ChannelMode::Mention ==> (config.prompt(msg, bot_user_id) is Some
            <==> is_mentioned(msg, bot_user_id)),
        rule.mode == ChannelMode::Mention && is_mentioned(msg, bot_user_id) ==> config.prompt(
            msg,
            bot_user_id,
        ) == Some(stripped(msg.content@, bot_user_id)),
{
}

/// Of several rules for one channel the first one decides.
pub proof fn law_first_rule_decides(
    config: VisibilityConfig,
    longer: VisibilityConfig,
    rule: ChannelVisibilityRule,
    msg: Message,
    bot_user_id: u64,
)
    requires
        longer.dm_allow_users@ == config.dm_allow_users@,
        longer.channels@ == config.channels@.push(rule),
        rule_for(config.channels@, rule.id) is Some,
    ensures
        longer.prompt(msg, bot_user_id) == config.prompt(msg, bot_user_id),
{
    lemma_rule_for_push(config.channels@, rule, msg.channel_id);
}

/// The rule for a channel is the first that names it.
pub proof fn lemma_rule_for(rules: Seq<ChannelVisibilityRule>, channel_id: u64)
    ensures
        match rule_for(rules, channel_id) {
            Some(rule) => exists|i: int|
                0 <= i < rules.len() && #[trigger] rules[i] == rule && rule.id == channel_id && (
                forall|j: int| 0 <= j < i ==> (#[trigger] rules[j]).id != channel_id),
            None => forall|j: int| 0 <= j < rules.len() ==> (#[trigger] rules[j]).id != channel_id,
        },
    decreases rules.len(),
{
    if rules.len() > 0 {
        if rules[0].id == channel_id {
            assert(rules[0] == rule_for(rules, channel_id)->0);
        } else {
            let rest = rules.drop_first();
            lemma_rule_for(rest, channel_id);
            match rule_for(rest, channel_id) {
                Some(rule) => {
                    let i = choose|i: int|
                        0 <= i < rest.len() && #[trigger] rest[i] == rule && rule.id == channel_id
                            && (forall|j: int|
                            0 <= j < i ==> (#[trigger] rest[j]).id != channel_id);
                    assert(rules[i + 1] == rule);
                    assert forall|j: int| 0 <= j < i + 1 implies (#[trigger] rules[j]).id
                        != channel_id by {
                        if j > 0 {
                            assert(rest[j - 1] == rules[j]);
                        }
                    }
                },
                None => {
                    assert forall|j: int| 0 <= j < rules.len() implies (#[trigger] rules[j]).id
                        != channel_id by {
                        if j > 0 {
                            assert(rest[j - 1] == rules[j]);
                        }
                    }
                },
            }
        }
    }
}

proof fn lemma_rule_for_push(
    rules: Seq<ChannelVisibilityRule>,
    rule: ChannelVisibilityRule,
    channel_id: u64,
)
    ensures
        rule_for(rules, channel_id) is Some || rule.id != channel_id ==> rule_for(
            rules.push(rule),
            channel_id,
        ) == rule_for(rules, channel_id),
    decreases rules.len(),
{
    if rules.len() > 0 {
        assert(rules.push(rule).drop_first() =~= rules.drop_first().push(rule));
        lemma_rule_for_push(rules.drop_first(), rule, channel_id);
    } else {
        assert(rules.push(rule).drop_first() =~= rules);
    }
}

/// The text with `<@id>` and then `<@!id>` taken out of it and the whitespace at its
/// ends dropped is what is read in a channel, in either mode.
pub proof fn law_channel_prompt(
    config: VisibilityConfig,
    i: int,
    msg: Message,
    bot_user_id: u64,
)
    requires
        msg.guild_id is Some,
        0 <= i < config.channels@.len(),
        config.channels@[i].id == msg.channel_id,
        forall|j: int| 0 <= j < i ==> (#[trigger] config.channels@[j]).id != msg.channel_id,
    ensures
        ({
            let rule = config.channels@[i];
            let plain = seq!['<', '@'] + text::decimal(bot_user_id as nat) + seq!['>'];
            let nick = seq!['<', '@', '!'] + text::decimal(bot_user_id as nat) + seq!['>'];
            let content = msg.content@;
            let mentioned = msg.mentions@.contains(bot_user_id) || text::occurs_in(plain, content)
                || text::occurs_in(nick, content);
            let read = rule.users@.contains(msg.author_id) && (rule.mode == ChannelMode::Always
                || mentioned);
            &&& read ==> config.prompt(msg, bot_user_id) == Some(
                text::trim(text::without(text::without(content, plain), nick)),
            )
            &&& !read ==> config.prompt(msg, bot_user_id) is None
        }),
{
    lemma_mention_forms(bot_user_id);
    lemma_rule_for(config.channels@, msg.channel_id);
    match rule_for(config.channels@, msg.channel_id) {
        Some(rule) => {
            let k = choose|k: int|
                0 <= k < config.channels@.len() && #[trigger] config.channels@[k] == rule && rule.id
                    == msg.channel_id && (forall|j: int|
                    0 <= j < k ==> (#[trigger] config.channels@[j]).id != msg.channel_id);
            assert(k == i) by {
                if k < i {
                    assert(config.channels@[k].id != msg.channel_id);
                }
                if i < k {
                    assert(config.channels@[i].id != msg.channel_id);
                }
            }
        },
        None => {
            assert(config.channels@[i].id != msg.channel_id);
        },
    }
}

/// Nothing is read in a channel for which there is no rule.
pub proof fn law_channels_without_a_rule(config: VisibilityConfig, msg: Message, bot_user_id: u64)
    requires
        msg.guild_id is Some,
        forall|j: int|
            0 <= j < config.channels@.len() ==> (#[trigger] config.channels@[j]).id
                != msg.channel_id,
    ensures
        config.prompt(msg, bot_user_id) is None,
{
    lemma_rule_for(config.channels@, msg.channel_id);
}

/// A direct message is read, trimmed and otherwise as it is, if its author is listed
/// for direct messages, and only then.
pub proof fn law_direct_messages(config: VisibilityConfig, msg: Message, bot_user_id: u64)
    requires
        msg.guild_id is None,
    ensures
        config.dm_allow_users@.contains(msg.author_id) ==> config.prompt(msg, bot_user_id) == Some(
            text::trim(msg.content@),
        ),
        !config.dm_allow_users@.contains(msg.author_id) ==> config.prompt(msg, bot_user_id) is None,
{
}

/// What is read of two messages in channels depends on their text alone: not on who
/// wrote them, where, under which rules, or on the list of mentions.
pub proof fn law_prompt_depends_on_the_text(
    config_a: VisibilityConfig,
    a: Message,
    config_b: VisibilityConfig,
    b: Message,
    bot_user_id: u64,
)
    requires
        a.guild_id is Some,
        b.guild_id is Some,
        a.content@ == b.content@,
        config_a.prompt(a, bot_user_id) is Some,
        config_b.prompt(b, bot_user_id) is Some,
    ensures
        config_a.prompt(a, bot_user_id) == config_b.prompt(b, bot_user_id),
{
}

/// What is read never starts or ends with whitespace.
pub proof fn law_prompt_is_trimmed(config: VisibilityConfig, msg: Message, bot_user_id: u64)
    requires
        config.prompt(msg, bot_user_id) is Some,
    ensures
        text::is_trimmed(config.prompt(msg, bot_user_id)->0),
{
    let content = msg.content@;
    text::lemma_trim(content);
    text::lemma_trim(
        text::without(text::without(content, mention(bot_user_id)), nick_mention(bot_user_id)),
    );
}

/// A message mentions a user if the list of mentions holds the user, or if `<@id>` or
/// `<@!id>` stands somewhere in the text, and only then.
pub proof fn law_when_mentioned(msg: Message, user_id: u64)
    ensures
        is_mentioned(msg, user_id) <==> msg.mentions@.contains(user_id) || text::occurs_in(
            seq!['<', '@'] + text::decimal(user_id as nat) + seq!['>'],
            msg.content@,
        ) || text::occurs_in(
            seq!['<', '@', '!'] + text::decimal(user_id as nat) + seq!['>'],
            msg.content@,
        ),
{
    lemma_mention_forms(user_id);
}

/// The mentions that are taken out of a text are `<@id>` and then `<@!id>`.
pub proof fn law_what_is_stripped(content: Seq<char>, user_id: u64)
    ensures
        stripped(content, user_id) == text::trim(
            text::without(
                text::without(
                    content,
                    seq!['<', '@'] + text::decimal(user_id as nat) + seq!['>'],
                ),
                seq!['<', '@', '!'] + text::decimal(user_id as nat) + seq!['>'],
            ),
        ),
{
    lemma_mention_forms(user_id);
}

proof fn lemma_mention_forms(user_id: u64)
    ensures
        mention(user_id) == seq!['<', '@'] + text::decimal(user_id as nat) + seq!['>'],
        nick_mention(user_id) == seq!['<', '@', '!'] + text::decimal(user_id as nat) + seq!['>'],
{
    reveal_strlit("<@");
    reveal_strlit("<@!");
    reveal_strlit(">");
    assert("<@"@ =~= seq!['<', '@']);
    assert("<@!"@ =~= seq!['<', '@', '!']);
    assert(">"@ =~= seq!['>']);
}

} // verus!
