# transmission_rpc

A client library for the [Transmission](https://transmissionbt.com/) rpc protocol, in its
older form and in the JSON-RPC 2.0 form that Transmission 4.1.0 (rpc semver 6.0.0) speaks.
The library is written in Verus: each function states what it does in its contract, and
Verus proves it.

## Layout

- `src/json.rs`: the JSON text of strings, numbers, arrays and objects, with the escaping
  rules of JSON strings.
- `src/types.rs`, `src/types/request.rs`, `src/types/request/`: the value types and the
  arguments of every method, and the exact JSON text of each request in both protocols.
- `src/types/response.rs`: the response envelope and the arguments of the answers; how a
  JSON-RPC answer becomes a response.
- `src/json_rpc.rs`: JSON-RPC requests, responses and ids.
- `src/session.rs`: the decisions of one call: how often a request may be sent, when it is
  sent in JSON-RPC, what a refused request (HTTP 409) teaches the client, and how a JSON-RPC
  answer is taken.
- `tests/`: the request texts for every argument and field, and the behaviour of responses
  and calls on concrete values.
- `app/`: the HTTP client (`TransClient`, `SharableTransClient`) around the library: it sends
  what the library builds, reads the server's answers with serde, and hands them back.

The contracts that rest on outside crates are stated on three small trusted functions:
`String::push`, `url::Url::parse` and `semver::Version::parse`.
