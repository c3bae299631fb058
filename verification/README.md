# MumbleACRE

An unofficial ACRE2 backend for Mumble: a Mumble plugin that speaks ACRE2's
private pipe protocol, so that Arma's radio simulation decides who is heard and
how. The plugin has no radio simulation of its own.

## Layout

- `src/` is the library, verified with Verus: every rule of the plugin, with a
  contract. Nothing in it waits, does I/O or calls Mumble.
- `tests/` runs the library on concrete values.
- `app/` is the plugin around it: the Mumble API, the named pipes, the threads,
  the log file, JSON, and the floating-point signal processing.

The library, from the wire inwards:

| Modules | What they decide |
| --- | --- |
| `codec`, `procedure`, `pipe` | ACRE's messages and what came of a pipe operation |
| `speaking`, `sound`, `base64` | audibility decisions and sound transfers |
| `session`, `transmission`, `words` | the conversation with the game |
| `peer`, `peer_state`, `peer_dispatch`, `control` | the conversation with the other plugins |
| `ptt`, `capture` | push-to-talk and the microphone's permit |
| `adapter`, `adapter_worker`, `round` | the pipe worker's rounds |
| `runtime`, `channel`, `context` | the control ticks and the channel of the game |
| `audio_snapshot`, `render` | what the audio callback may render |
| `sound_cache` | prepared sounds and playback files |
| `logging`, `plugin` | log lines, rotation, and what the plugin says of itself |
| `text`, `decimal`, `binary32`, `order`, `model` | the common ground |

Each module states its promises over all inputs as proof functions named
`law_...`.

## Conventions

Times are nanoseconds of one monotonic clock, in `capture` milliseconds. A
number of single precision is its bit pattern; where a text is read as such a
number, the reading is handed in beside the text.

Trusted are three calls into outside crates and two functions of the standard
library: SHA-256 of `sha2`, the WAV reader of `hound` for headers and for
samples, `String::push`, and how a text is written as a literal.
