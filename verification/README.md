# yon

A remote terminal from peer to peer: `yon host` offers the user's shell once, under a
connection code, and `yon connect` takes it up, through a relay or on a direct path.

`src/` is the library. It holds what the program decides and computes, with contracts that
Verus proves: the connection rosters and the choice of a path (`network`, `connecting`,
`reaching`, `backoff`), the exchanges with the relay (`protocol`), the host's advertisement, session,
terminal, bridge and file substreams (`host`, `host_*`), the password-authenticated key
exchange (`pake`), the local escape sequences (`local_control`), and what the command line
shows and returns (`cli`, `progress`). Public proof functions named `law_..` state what holds
of several operations together. Times are in nanoseconds, and peers, connections and
listeners are numbers that the program hands out.

`app/` is the program around it: input and output, timers, the network and the terminals. It
performs the actions that the library's machines ask for and hands back what happened.
`app/ports.rs` lists what it needs of the system, and `app/installation.rs` has it from the
workspace's other crates.

`tests/` runs the library on concrete values.
