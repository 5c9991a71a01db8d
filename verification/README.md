# lowboy

A small web framework for building server-rendered applications: local
registration and login, OAuth logins with GitHub and Discord, sessions,
roles and permissions, e-mail verification tokens and a layout context for
rendered pages.

The crate is written in Verus. Its library, under `src/`, holds the
framework's decisions and data rules, each with a contract that Verus proves:

- `auth`: the register and login forms and their validation rules, the
  identity providers and their configuration, password hashing and checking,
  and the plan that decides how a set of credentials is authenticated.
- `controller`: the replies of the registration, login, OAuth callback and
  logout pages (redirect targets, status codes, flash messages).
- `model`: users, roles, permissions, e-mail addresses and verification
  tokens, and the records they are stored as.
- `view`: the layout context, a map from names to texts with the page's own
  entries winning over the framework's defaults.
- `error`, `validation`, `signing`, `session_store`, `cli`, `text`: error
  pages, field errors, the session signing key, the session store's steps,
  the command line and text helpers.

Calls into outside crates (password hashing, URL parsing, e-mail
validation, base64, Gravatar URLs, constant-time comparison) go through small
trusted wrappers whose contracts say what those crates do.

`app/` is ordinary Rust around the library: the axum server, the database
queries, the OAuth HTTP exchange, configuration loading and the templates'
plumbing. It hands the library plain values and acts on what comes back.

`tests/` runs the library on concrete values.
