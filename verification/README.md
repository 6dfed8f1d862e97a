# rho-ui

A desktop front end for the `rho` coding agent, which it runs as a child
process and talks to over JSON-RPC 2.0 on standard input and output.

- `src/` is the verified library (Verus): the chat scrollback and its
  streaming rules (`chat`), the decoding of agent messages (`json`,
  `protocol`) and the request-id bookkeeping (`rpc`), what each scrollback
  block and picker row shows (`render`, `entries`, `formatting`, `stats`),
  and the window's decisions (`controller`, `actions`): each UI event or
  agent message is a function from the state to the next state and a list
  of effects. `chat::laws` and `turns` hold the laws proved of them.
- `app/` is the Makepad window and the `rho` subprocess: it parses and
  writes JSON with `serde_json`, carries out the effects, and draws.
- `tests/` run the library on concrete values.
