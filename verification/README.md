# synctell

Messages between processes over FIFO special files. A reader creates a FIFO, takes messages
from whoever writes to it, and removes it when it is done; a writer delivers one message to a
FIFO that is there; a relay reads one FIFO and hands every message on, to all of its outputs
(`broadcast`) or to each of them in turn (`roundrobin`). An MCP server offers the same as tools.

## Layout

- `src/` is the library, verified with Verus. Each way of using a FIFO is a state machine:
  `step` is told what happened and answers with what to do next, and its contract is a function
  of the state and the event. The modules named `runs`, `laws` and `session` prove what holds over
  all sequences of events: what is printed and delivered, when a limit ends a wait, that a FIFO is
  removed on every way out, and only by the one who made it.
- `tests/` runs the machines on a made-up file system and clock.
- `app/` is the program: it opens, reads, writes, waits and signals as the machines ask, parses
  the command line, and speaks MCP.

| Module | What it decides |
|--------|-----------------|
| `create` | whether a FIFO is made or refused |
| `input`, `reader` | the read command and its wait for a message |
| `writer` | the write command and the write tool |
| `relay`, `fanout`, `feed` | relays, their handles, and their reader thread |
| `oneshot`, `linger` | the reading tools |
| `server`, `registry`, `paths` | what runs in the background, found by path |
| `frame`, `delivery` | line framing, and a text from one end to the other |
| `deadline`, `close`, `cli`, `text`, `request` | limits, stopping a blocked thread, exits, texts, requests |

Verus takes one thing on trust: that `String::from_utf8_lossy` decodes valid UTF-8 to the text
that it encodes, and is a function of its bytes otherwise (`frame::decode_lossy`).
