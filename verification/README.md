# shadowquic

The client side of a QUIC proxy tunnel with JLS authentication, written in Rust
and verified with Verus.

The library in `src/` decides; it does no I/O. It turns a user's settings into
TLS and QUIC configuration, and it holds the procedures of a client as values
that say what to do next and are told what came of it:

| module     | what it holds                                                    |
|------------|------------------------------------------------------------------|
| `config`   | the settings of a client                                         |
| `error`    | errors                                                           |
| `quic`     | the configuration objects of `quinn` and `rustls`; trusted       |
| `tuning`   | from settings to configuration                                   |
| `endpoint` | bringing up a socket and an endpoint                             |
| `link`     | bringing up a connection and judging its peer                    |
| `msgs`     | requests                                                         |
| `stream`   | the life of one stream                                           |
| `session`  | serving one proxy request                                        |
| `outbound` | the client                                                       |
| `basic`    | a plainer client                                                 |

Each procedure has a law that ties it to a direct account of what is done, in
which order, and how it ends, for all that the outside may answer. The one that
matters most is about the check of the peer before a new connection is handed
out: where it finds that the peer is not authentic, the connection is closed and
the request that needed it is not sent (`outbound::refused_peer_is_shut_out`,
`outbound::no_request_to_refused_peer`). With 0-RTT the finding can come after
that check; the connection is then closed when it comes, and what was sent before
is not covered.

`app/` runs the library on sockets, QUIC connections and tokio tasks. The wire
form of requests and the relaying of UDP packets are a trait there.
