# Codex Discord Gateway

A Discord bot for Codex. The library under `src/` makes the bot's decisions and
is verified with Verus; the program under `app/` talks to Discord and to Codex
and carries the decisions out.

## The library

- `text`: whitespace, trimming and UTF-8 lengths of texts, and the string
  functions of the standard library that the rest calls.
- `output`: cuts a text into messages of Discord's size, and a reply to size.
- `visibility`: which messages are read, and what is read of them.
- `commands`: the subcommands of `/codex` and what each asks of Codex.
- `registration`: how `/codex` is registered with Discord.
- `handler`: what follows from a message or a command, step by step.
- `config`: where the configuration is, and what follows from it and from the
  environment.
- `typing`: in which channels the bot shows that it is typing.

## Configuration

The bot reads `$CODEX_HOME/config.discord-gateway.toml`, or
`~/.codex/config.discord-gateway.toml` when `CODEX_HOME` is not set:

```toml
discord_token = "your-discord-bot-token"
default_model = "gpt-5.4-mini"

[visibility]
dm_allow_users = [111111111111111111]

[[visibility.channels]]
id = 555555555555555555
mode = "mention"
users = [111111111111111111, 222222222222222222]
```

`DISCORD_TOKEN`, `CODEX_DEFAULT_MODEL`, `CODEX_BIN`, `CODEX_CWD` and
`CODEX_INHERIT_STDERR` override the file.

Reading messages is opt-in. In a channel with the mode `mention` a message must
mention the bot; with `always` any message of a listed user is read. Direct
messages of listed users need no mention.

## Commands

The bot registers `/codex` with one of two sets of subcommands. Both have `ask`,
`steer`, `queue`, `model`, `effort`, `models`, `status`, `goal`, `pause`,
`resume`, `goal-clear`, `session` and `interrupt`.

- `SessionActions`, which the bot uses: `session` takes an action (`show`, `new`,
  `list`, `switch`) and a thread id.
- `SessionCommands`: `session`, `new`, `clear` and `sessions` do one thing each,
  `resume` can name a thread, and the effort can be `xhigh`.

With either set the bot shows that it is typing while Codex writes a message, and
tells the channel when a turn fails.
