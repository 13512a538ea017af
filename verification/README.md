# plc_node

A node that deploys a program to an OpenPLC runtime over its REST API.

- `src/` is the verified library (Verus): the node's settings and their
  defaults (`config`), the PLC states the runtime reports (`state`), the client
  state and its URL and header building (`client`), what each answer of the API
  means (`responses`, `error`), the deployment sequence as a state machine
  (`deploy`), and text helpers with decimal parsing (`text`).
- `app/` is the program around it: reading the environment, the HTTP requests
  (reqwest, tokio), JSON bodies (serde), logging, and the loop that performs
  each deployment step the library asks for.
- `tests/` runs the library on concrete values.
