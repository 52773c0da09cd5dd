# gstrtmpx

The rules behind two GStreamer elements, `rtmpxsrc` and `rtmpxsink`, proved in
Verus. The source plays from an RTMP server or listens for publishers; the sink
publishes to an RTMP server or listens for players. Both speak `rtmp://` and
`rtmps://`.

`src/` decides, `app/` performs. The library holds no socket and no clock: it
takes in what happened as plain values and says what to do next. A decision that
takes several calls comes as a script (`script.rs`), which hands out one call at a
time, takes in how it went, and knows what each failure means.

| Module | What it holds |
| --- | --- |
| `flv` | FLV tags, and the incremental demuxer |
| `headers` | sequence headers and their cache |
| `text`, `endpoint` | RTMP URIs and what they name |
| `worker`, `script`, `link` | outputs, failures, scripts, socket trouble |
| `handshake`, `session`, `client` | the handshake, session results, opening a connection |
| `source_listen`, `source_play` | the source's workers and connections |
| `sink_publish`, `sink_listen` | the sink's workers and connections |
| `source`, `sink`, `property`, `start` | the elements: settings, data flow, start-up |
| `tls` | TLS configurations from PEM files |
| `passage` | what holds from one end of a stream to the other |

Every executable function says in its `ensures` exactly what it returns; where
that rests on the process, as with the cryptography provider it has installed,
the function says what holds on every provider, and a second one that takes the
provider says what comes of the default one. What holds across functions stands as a public proof function whose name begins with
`law_`.

`tests/` runs the library on concrete values. `app/` is the plugin: sockets, TLS
streams, protocol sessions, threads and the GStreamer elements.
