# spotify_player

The playback state and the event handling of a Spotify player, as a library
whose behaviour is stated in contracts and proved by Verus.

- `src/time.rs`: readings of the clock and durations
- `src/ids.rs`: Spotify IDs and URIs
- `src/model.rs`: what the player knows of the playback
- `src/player.rs`: the player's state: volume, progress, playing context
- `src/request.rs`: the requests that the client works on
- `src/handlers.rs`: looking at the page and at the playback
- `src/run_loop.rs`: the decisions of the event loop
- `src/laws.rs`: what holds of all of these together

Functions that read the clock come in pairs: one that reads it, and one that
takes the readings as arguments and has an exact contract.

`app/` holds the client around the library: the shared state, the channels, the
timers and the conversions to and from the types of the playback API.
