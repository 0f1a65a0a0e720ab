# Mattermost agents for Modular Agent

Agents that connect a Modular Agent workflow to a Mattermost server, with their
logic proved in [Verus](https://github.com/verus-lang/verus).

- **Post** posts texts, threaded replies and images to a channel.
- **History** gives out the recent posts of a channel, most recent first.
- **Channels** lists the channels of a team that the bot user belongs to.
- **Listener** gives out posts as they come, over a WebSocket. It connects again
  after a wait of one second that doubles up to thirty, and stops where the server
  does not accept the token.
- **ToMessage** turns Mattermost messages into chat messages.

The token and the server's address are the global settings `mattermost_token` and
`server_url`, or the environment variables `MATTERMOST_TOKEN` and `MATTERMOST_URL`.

## Layout

`src/` is the verified library. It decides; it neither reads nor sends.

| Module | What it holds |
| ------ | ------------- |
| `client` | The client: the requests, what becomes of replies, WebSocket addresses |
| `connect` | How a WebSocket is opened, step by step |
| `reconnect` | When the listener connects, waits and stops |
| `listener` | Which messages the listener passes on, and as what |
| `image_search` | The search for the first image of a post |
| `post` | What a value says as a post, and its way into a channel |
| `history`, `channels`, `to_message` | The other agents |
| `config` | Settings, and the clients made from them |
| `api`, `value`, `json`, `image`, `error` | The data |
| `text`, `text_map`, `sequences` | Strings, maps and sequences |

Proof functions whose names begin with `law_` state what holds of several
functions together. Functions marked `external_body` call outside crates; the
comment above each says what is trusted of the call.

`app/` is the ordinary Rust around the library: the agents as the framework sees
them, HTTP and WebSocket traffic, JSON, and the framework's values.
