# erika

The core of a media player: what decides how a medium is opened, read, decoded, scheduled, sought
and reported on. The library is written in Verus: what its functions do is stated in contracts, and
the code is proved to meet them. Three have none: two that send or receive a single message, which
rests on other threads, and a default that others may replace.

- `src/` is the library. It touches no file, codec or clock. Where the player needs one of these
  or another thread, the library says what is to be done next, takes what came of it, and goes on.
  Time is whole nanoseconds, and a rate is kept by the bits of its number.
- `app/` is the program around it: files and addresses, FFmpeg, the threads and the clock. It runs
  the steps of the library and hands it what came of them.
- `tests/` runs the library on made-up media, decoders and listeners.

The modules of `src/`, from the bottom up:

| Modules | What they hold |
| --- | --- |
| `time`, `rate`, `text`, `color`, `error` | the plain values that everything else uses |
| `media`, `surface`, `events`, `renderer` | what a player is asked for and what it tells |
| `packet`, `frame`, `pcm`, `subtitle`, `fonts` | the data of a medium |
| `probe`, `demuxer`, `demux`, `channel` | reading a medium, and doing so on a thread of its own |
| `decoder`, `ladder`, `video`, `route`, `audio` | opening decoders, feeding them, replacing them |
| `playback`, `session`, `seek`, `tracks`, `external`, `opening` | one open medium |
| `clock`, `schedule`, `engine`, `control`, `buffering` | playing it in time |
| `shared`, `player`, `worker` | the player, its commands and its worker |

A proof function whose name begins with `law_` states something that holds of several functions
together: what a seek does to the clock, that nothing before the target of a seek is shown, that the
number of a timeline never goes back.

The calls into other crates stand in `channel` (crossbeam-channel), `error` (libc), `events`
(serde_json) and `fonts` (fontdb). What the proofs rest on there is said at each of them.
