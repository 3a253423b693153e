# aperture_grpc_client

Client for Aperture's lightweight decoded transaction gRPC stream, with its
decision logic verified by Verus.

- `src/` is the verified library: reconnect backoff (`reconnect.rs`) and the
  machine that decides, event by event, what a reconnecting stream does;
  client configuration and its defaults, and HTTPS scheme detection
  (`config.rs`); subscription filters and the request they make
  (`filters.rs`); the endpoint plan, with the URI and user agent checked by
  tonic and TLS exactly for `https` endpoints (`endpoint.rs`); the client handle, its errors and the `x-token` metadata
  (`client.rs`); duration arithmetic stated in nanoseconds (`duration.rs`).
- `app/` is the network side: it turns the endpoint plan into a tonic endpoint, connects,
  subscribes, and runs the reconnecting streams by feeding events to
  `ReconnectConfig::on_event` and carrying out the actions it returns.
- `tests/` exercises the library on concrete values.
