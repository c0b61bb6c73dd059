# lorri (verified protocol core)

`src/` is the verified library: the results of command-line operations
(`ops`), and the protocol between the lorri daemon and its clients
(`communicate`): timeouts, how failed transfers are told apart, and the
handshakes of the daemon (`communicate::daemon`) and of a client
(`communicate::client`) as step functions from phase and event to next phase
and action.

`app/` holds what performs the steps: Unix sockets, bincode and serde, the
handler thread, and the `ping` operation.
