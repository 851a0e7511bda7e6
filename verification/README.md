# ssh_sync

Synchronisation of a shell history store with another machine, over the standard
input and output of a remote command (`ssh`, or any command that connects to a
server).

- `src/` is the library, verified with Verus. It performs no I/O.
  - `ssh_protocol`: the messages and their framing.
  - `ssh_client`: how a client starts a remote, what it asks, and what it makes of
    the answers.
  - `ssh_server`: what a server does for each request, and what it answers.
  - `ssh_sync`: the sessions behind the two commands.
  - `laws`: what holds of whole exchanges and sessions.
  - `record`, `error`, `text`: the data, the errors and their words.
- `app/` is the program around it: JSON, streams, the remote command, and the loops
  that perform what the library asks for. Its `machine` module names what it needs of
  the stores, the database and the settings of the machine.
- `tests/` runs the library.
