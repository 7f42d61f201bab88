# cc_switch_web

The request layer of the CC Switch web server, verified with Verus.

The web front end calls `POST /api/rpc/<command>` with JSON arguments. The
library (`src/`) decides everything about such a request that does not need a
service: which arguments it carries and which are missing, whether it is
refused, answered at once, or which service operation it runs with which
arguments; how account answers are shaped; which part of a body holds the
arguments; the bodies of the error and health answers; and how the
`CC_SWITCH_WEB_BIND` list of addresses is read and served.

- `src/json.rs` – the JSON values the handlers read, with member lookup and
  an exact copy.
- `src/text.rs` – string equality, Unicode white space, trimming, and the
  splitting of the bind-address list.
- `src/args.rs` – reading arguments; the errors of a refused request.
- `src/plan.rs` – `plan_rpc_command`, the command table, with its full
  specification.
- `src/auth.rs` – accounts, device codes and status of the account services.
- `src/steps.rs` – the order of the steps of the operations that take more
  than one service call, and what a failed step ends.
- `src/answer.rs` – how the result of a service call answers the request,
  and in which order the errors found by the host are reported.
- `src/server.rs` – request bodies, answer bodies, reading the bind-address
  list (`parse_bind_addrs`, given the address parser) and serving on it.

`app/` holds the axum server and the `Backend` trait through which the
application's services are reached; it runs the plans the library makes.
