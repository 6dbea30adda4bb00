# api

The core of a Hacker-News-style REST API, written in Verus: every payload
check, authentication decision, vote and favorite rule, response builder and
text transformation is an executable function with a proved contract.

## Layout

- `src/` — the verified library.
  - `fields.rs`: the validated string fields (username, password, email, about
    text, titles, texts, tokens) and timestamps.
  - `model.rs`: users, items, comments, votes, favorites, pages, the edit
    window and token lifetimes.
  - `error.rs`: the API error type, its messages and HTTP statuses.
  - `auth.rs`: session checks, the password login decision, redirects.
  - `password.rs`: argon2 hashing and verification.
  - `users.rs`, `items.rs`, `comments.rs`: payloads, responses and the
    decisions of each route.
  - `text.rs`: Unicode whitespace trimming and text sanitization (regex and
    ammonia).
  - `token.rs`: random session tokens.
- `tests/` — tests of the library on concrete values.
- `app/` — the HTTP service (axum, axum-login, tower-sessions): routing,
  sessions, JSON bodies and the storage interface. It holds no rule of its
  own; each route asks the library what to do.

## Rules chosen by this library

Field limits, in ASCII characters: usernames 3–16, passwords 8–64, about
texts at most 400, titles 1–80, item texts at most 4000, comment texts
1–4000, reset tokens 1–128, links 1–2048; emails are checked with garde's
email rule. Items and comments can
be edited for an hour after creation (items only while they have no comments);
editing or deleting past that is refused with 403 (`ForbiddenNotEditable`);
session tokens are 40 random hexadecimal digits and live a week; ranked
listings reach back 48 hours.

## Trust

Outside calls (argon2, regex, ammonia, garde, rand, uuid, chrono) sit behind
small `#[verifier::external_body]` wrappers whose doc comments say what their
contracts assume.
