# iam_service

An identity and access service with verified logic: accounts, sessions, groups,
applications, API tokens, tokens for a Docker registry and SSH certificates.

## How it works

A request is a value that is moved on by replies. It asks one thing at a time: of
the database, the cache, the environment or the mail service (a `Query`), or of
another crate (a `Task`). Each reply takes it to its next question or to its
answer. What it asks and where each reply takes it is stated exactly and proved of
the code.

- `src/error.rs`: the one shape of a failure, `<handler>: <what failed>`
- `src/models.rs`: what is stored, asked and answered
- `src/protocol.rs`: questions, replies, and how a request is carried to its end
- `src/routes/`: the requests
- `src/tokens.rs`, `src/text.rs`, `src/splitting.rs`: tokens and texts
- `src/outside/`: the calls into other crates, each with what is relied on
- `src/world.rs`: the services as mathematics
- `src/laws/`: what holds of the requests together, such as that who registers and
  confirms can sign in, or that who logs out cannot refresh
- `app/`: the service over HTTP, with its database, cache and mail
- `tests/`: scenarios against services in memory

## What is not proved

The contracts in `src/outside/` are relied on. So is that the services tell the
truth where a law says so: `src/world.rs` states what that means. Services may fail
at any time; only the laws that say otherwise leave that out.
