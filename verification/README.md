# quic_gateway

An HTTP gateway for container management: `POST` requests under `/container`
are turned into broker protocol messages and relayed over QUIC; the broker's
answer is returned as JSON.

- `src/` is the verified library (Verus):
  - `routes`: how a request path is cut into segments, which endpoints a
    request may reach and in which order, and the status of a refused request;
  - `dispatch`: which endpoint serves a request, taking its body at most
    once, and the status of a request none serves;
  - `exchange`: one request/response exchange with the broker as a state
    machine, with its laws (progress, termination, rebinding only on request,
    a single final answer, payloads passed through unchanged);
  - `handler`: what a handler answers, and the exit status;
  - `security`: which certificate is trusted, installing it as the client's
    certificate authority, and what a failed read gives;
  - `options`: the options as plain values.
- `app/` is the program: command line, HTTP serving, QUIC I/O, file reading
  and logging, driving the library's decisions.
- `tests/` runs the library on concrete values.
