# morphz-web

The rules of the Morphz dashboard server, as a verified Verus library.

The server is the HTTP and WebSocket surface of a Morphz runtime: the embedded dashboard, the
operator API, the sessions of end users, edge nodes, and the coordination between runtimes. What it
decides about a request is decided in the library, and Verus proves the contract of every function
there. Sockets, files and the environment are left to the application around it.

## Layout

`src/` is the library.

| Modules | What they settle |
| --- | --- |
| `auth`, `headers`, `endpoint`, `server` | who is let in, as whom, on which route, and with which credentials the server starts |
| `error`, `reply`, `dashboard` | what is answered, and what of a failure is kept back |
| `event`, `mirror`, `recent` | how events reach the dashboard: routes of sessions, the durable tail, duplicates, sockets |
| `session_io`, `stream`, `follow` | the typed channel of a session: cursors, what a client sees, drafts |
| `session`, `mount`, `message`, `context`, `search` | sessions and contexts: how they are made, changed, searched and written to |
| `inference`, `provider`, `oauth`, `login` | models, provider accounts, secrets and logins |
| `control`, `approval`, `artifact` | objectives, threads, schedules, approvals, and artifacts of edge nodes |
| `coordination`, `evaluation` | evaluations on behalf of another runtime |
| `text`, `json`, `ident`, `digest`, `model` | texts, JSON values, identifiers, digests and shared records |

A function that alternates with work outside the library is a step: it takes what came back and gives
the next task. Properties that span functions are public proof functions named `law_...`.

A few functions of other crates are called behind declared contracts: `serde_json` and `base64` for
cursors and attachments, `sha2` for digests, `chrono` for times, and `axum`'s HTTP types for reason
phrases and origins. Each of these contracts is stated beside the call.

`tests/` runs the library, with those crates, on concrete values.

`app/` is the server: the router, the handlers, the sockets and the streams, over a `Backend` that
stands for the runtime.
