# Buzz transports

The transport rules of a Buzz deployment, verified with Verus: relay
connections over WebSockets and tunnels, the NIP-17 gateway and its clients,
FIPS streams, relay discovery, use-limited invites, remote configuration, and
the speech pipelines of a huddle.

## Layout

- `src/` is the library. It decides: what a frame asks of its connection, which
  session an envelope leads to, what a claim writes, when a pipeline is started.
  Every function states what it does in its contract. Cryptography, URLs, UUIDs,
  JSON text and queues come from outside crates, each behind a small function
  whose doc comment says what is taken on trust.
- `tests/` runs the library with the real crates.
- `app/` performs: sockets, timers, tasks, the database, files, audio samples.
  It hands the library plain values and carries out the actions that come back.

## Reading the contracts

A type has a view, such as `FrameView` for `RelayFrame`; contracts speak of
views. Loops that wait for the outside are step functions: an event goes in, an
action comes out, and the state is a value. What holds over a whole run, or
across functions, is stated in public proof functions next to the steps, for
example `send_loop::frames_are_sent_once_in_order`,
`relay_invite::runs_of_claims_are_counted` and
`native_websocket::gateway_reads_what_the_client_wraps`.
