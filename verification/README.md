# org_portal

The request decisions of an organisation portal, verified with Verus.

- `src/` is the library. `gate` runs the checks a request goes through
  (claims, payload validation, name uniqueness, permissions) and decides the
  refusal when one fails; `sections`, `members` and `projects` say which
  checks each request kind goes through and how the outcome of its database
  write is answered; `store` reads lookups and deletions back and extends role
  expiries; `upload` checks uploaded files and decides their stored name and
  path; `reply` holds the answers themselves; `models` the stored enums.
- `app/` is the HTTP server: routes, database access with diesel, JSON bodies,
  files on disk. It runs each request through the library's gatekeeper and
  sends the library's reply.
- `tests/` exercises the library on concrete requests.
