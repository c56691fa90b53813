# rest_server

The verified core of a small authentication REST server (password login and
signup against an authentication service, and OAuth sign-in with Google or
Facebook).

- `src/` — the library, verified with Verus:
  - `json` — response envelopes (`ok`, `no_content`, `error`) and the request
    and reply documents, with their validation rules (garde's `email` and
    `length`);
  - `session` — the session's key/value store;
  - `oauth` — provider configuration, provider selection and authorization
    URLs (built with the `oauth2` crate);
  - `creds` — credentials sent to the authentication service and its replies;
  - `api::v1` — the decisions of the handlers: login, signup, logout, OAuth
    start and callback, with their laws (CSRF state checked and used once,
    PKCE verifier released only to a matching callback, pending OAuth signup).
- `app/` — the program around it: axum routes, the cookie session, the
  providers' token and user-info endpoints, the authentication service.
- `tests/` — tests of the library.
