# web_service

The logic of a small HTTPS web service (a status API and embedded static web
files) and of its command-line client, verified with Verus.

- `src/` is the verified library: `shared` (the type error, request
  identifiers, timestamps, text helpers, host name and random values),
  `server_api` (the API error and the status messages), `client` (the client
  error, the settings it resolves from arguments and environment, the server
  URL and request URLs, the server certificates and client identity read from
  PEM files, the steps of an exchange with the server), `server` (static files, JSON request handling,
  the status handler, TLS setup decisions and self-signed certificates), `tracer` (log file names) and
  `text` (decimal numerals, joined lists).
- `app/` holds the programs around it: argument parsing, file, network and
  environment access, logging, and the copies of the library's types that
  carry serde, thiserror and axum impls.
- `tests/` runs the library on concrete values.
