# ppaass agent

The client side of ppaass: a local SOCKS5 and HTTP proxy that relays each
client connection to a ppaass proxy.

- `src/` is the verified library: the SOCKS5 wire formats (addresses,
  method selection, requests and replies, UDP packets), the choice of
  protocol from a connection's first byte, the first HTTP request decoded
  from the client's bytes and its destination, the handshake of each
  connection as a state machine (with the UDP association of SOCKS5),
  socket addresses as plain values, the end of a relay, the configurations with their defaults and what a
  sequence of setter calls leaves in them, and the command loop and
  menu decisions of the desktop agent.
- `app/` is the program around it: configuration files, logging, sockets,
  the proxy protocol and the relay loops.
- `tests/` runs the library on concrete values.
