# bilibili_tui

The verified core of a terminal Bilibili client, written in Verus.

- `src/` is the library. Every function in it carries a contract; Verus
  proves each one except those of three trusted wrappers (std's
  `String::push` and `String::from_utf8_lossy`, and the url crate's host
  lookup), whose contracts state what their documentation or source shows.
  It covers the playback queue (`playback`), how search results and hot words
  are shown (`search`), the play-address streams, CDN candidates and the CDN
  reliability history (`cdn`), the CDN host catalog and regions (`catalog`),
  the player's arguments, playlists and restart rules (`player`), the local
  media proxy's CDN rotation, request parsing and response heads (`proxy`),
  navigation rules (`navigation`), the application's state machine: pages,
  user actions and the requests they send (`application`), and exact string
  helpers (`text`).
- `tests/` runs the library on concrete values.
- `app/` is the I/O around it: the serde forms of the service's data, HTTP
  probing with floating-point scores, the on-disk caches, the proxy server
  and the mpv processes, and the channel that carries the state machine's
  numbered commands to whatever performs them; the client for the video
  service's API is not part of this repository.
