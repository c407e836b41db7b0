# glyphic

A verified library for the glyph client, server and dispatcher, with the
programs around it.

- `src/` is the library, verified with Verus: the glyphic command language
  (`interpreter`), the plugin trait (`glyph`), the counter glyph
  (`counter_glyph`), the operator loop's decisions (`operator`), the message
  bus (`client`), completion requests (`dispatch`) and the wiring of channel
  interfaces (`channel_interface`).
- `app/` holds the programs: terminal, network and file I/O, tokio tasks and
  channels, and the serde and clap types.
- `tests/` runs the library, including a comparison of the command language
  with clap's own parsing.
