# ssh-local-exec

Run a command on the SSH local host from the remote host: a server listens
on the local host, a client on the remote host (reached through a reverse
port forward) asks it to run a command, and relays stdin, stdout, stderr,
signals and the exit status.

Layout:

- `src/` — the verified library: the protocol messages (`protocol`), the
  addresses given on the command line (`args`, `socket`), the client's and
  the server's decisions as state machines with exact contracts (`client`,
  `server`), the output pumps (`pump`), the git credential helper's request
  (`credential`), and the properties that span them (`laws`).
- `app/` — the executable around it: argument parsing, sockets, the async
  runtime, threads, process spawning, CBOR framing and logging. It runs the
  library's state machines and performs the I/O they ask for.
- `tests/` — tests of the library on concrete values.
