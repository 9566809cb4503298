# harness_bridge

The commands of a desktop shell around the Harness service, verified with Verus.

The front end of the shell calls commands. Each one alternates between work that only the
shell can do (files, the network, the settings store, windows) and decisions. The library
under `src/` holds the decisions: a command is a function from a stage and a reply to the
next stage, and every stage knows the one request that it asks. `app/` carries the requests
out and offers the commands to the front end through Tauri.

- `src/host.rs`: the requests, the replies and how a command goes on
- `src/dialogue.rs`: conversations, the state of a host, and what it means to carry a
  request out
- `src/settings.rs`, `src/text.rs`: the settings and the operations on text
- `src/install.rs`, `src/update_check.rs`, `src/configure.rs`, `src/preinstall.rs`,
  `src/service.rs`, `src/desktop.rs`, `src/logs.rs`: the commands
- `src/laws/`: what is proved of whole conversations, alone and one after another
- `tests/`: the commands against a host that keeps its state in memory

The contracts of the commands hold whatever the host answers; beyond what vstd states of the
standard library they rest on nothing unproved. The laws speak of more: of conversations
with a host that does what it is asked and tells the truth (`carried_out` in
`src/dialogue.rs`), and some of them of a host that nothing else disturbs meanwhile
(`undisturbed`). That `app/` is such a host is not proved.
