# quilkin

The test kit of a UDP proxy, with its decisions proved in Verus.

- `src/` is the library. It holds no socket and never waits.
  - `net`, `endpoint`, `metadata`, `table`: addresses, endpoints and the values
    that travel with them.
  - `filters`, `config`: packet filters, the registry and chain of filters, and
    the proxy's configuration.
  - `server`: what the server logs when it starts.
  - `test`: the utilities. `filter` is a filter that leaves a trace of every
    packet, `fixtures` are endpoints, configurations and packets to test with,
    `address` picks and maps addresses, `traffic` says what the tasks behind a
    socket do, `helper` starts them and shuts them down, and `channels` holds
    what is taken on trust of tokio's channels.
- `tests/` runs the library on concrete values.
- `app/` is ordinary Rust around it: sockets, tasks and loggers.

The functions named `law_..` state what holds across several calls.

A filter sees the addresses of a packet in their text form. What opens a channel
or draws a random bit is trusted, and each such item says what is claimed of it.
