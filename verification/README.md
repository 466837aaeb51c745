# kucoin_websocket

The logic of a KuCoin websocket client, verified with Verus.

- `src/` is the library: subscription requests (`topic`), the course of a
  subscription (`subscription`), the open streams and their topics (`websocket`,
  `topic_map`, `streams`), the routing of incoming messages (`message`, `json`),
  the heartbeat (`heartbeat`), token requests and socket endpoints (`client`),
  and text and time helpers (`text`, `clock`). `laws` holds the theorems that
  relate several of these.
- `app/` connects it to the outside: sockets, HTTP and JSON decoding.
- `tests/` runs the library on concrete values.
