# qefro-backend-sdk

A backend SDK for business tools behind one signed webhook. The runtime sends
`ping`, `capabilities.list` (or its short form `tools.list`), `tool.invoke` and
`tool.resume`; the SDK checks signatures, keeps the registry of tools, has
customers authorized, relays challenges, calls the Customer Hub and registers
marketing metadata. No business flows are registered, so `capabilities.list`
names none.

The logic is a verified library; input and output are in a host around it.

- `src/` is the library.
  - `qefro` is the state of a webhook: tools, hooks, calls that wait, customers
    that are authorized.
  - `webhook` handles requests, raw and parsed.
  - `invoke` is the course of a tool call, step by step.
  - `customer` looks customers up and has them authorized.
  - `auth` holds credentials, challenges and outcomes.
  - `signature` signs requests and checks signatures.
  - `protocol` holds requests, responses, headers and the setup.
  - `tools` holds the metadata of tools and their lookups.
  - `customer_hub` decides the calls of the Customer Hub.
  - `marketing` validates marketing definitions.
  - `json`, `text` and `source` hold values, text helpers, the clock and fresh ids.
- `app/` is the host: asynchronous providers, hooks and handlers, the HTTP server
  and the client of the Customer Hub.
- `tests/` runs the library on concrete values.

A step of a call names what the host runs next. The host runs it, and hands back
what came of it:

```text
handle / handle_raw -> Lookup    -> invoke_looked_up
                       Authorize -> invoke_authorized
                       Before    -> invoke_before_done
                       Handle    -> invoke_handled
                       After     -> invoke_after_done
                       Respond
```
