# notes_api

A notes service over MongoDB with user sessions, written as a verified
library (`src/`) and a thin web layer (`app/`, actix-web
and the MongoDB driver).

The library holds the decisions the handlers make: the listing window and
filter, the notes created, patched and deleted and the replies for each
database outcome, the canonical form of note ids, the account writes of
register, login and logout, the session tokens issued at login and the
two-step token validation, and the request guard. Each
handler in `app/` reads the request, calls these functions, performs the
database calls between them, and renders the reply.

Layout of `src/`:

- `models`, `note_models`: the records.
- `controller::notes`, `controllers`: the note handlers' decisions.
- `controller::users`, `handler`: accounts and token issuing.
- `middleware::{jwt, auth, middleware}`: token validation and the guard.
- `uuid_text`, `token`, `clock`, `text`: UUID texts, JSON Web Tokens, UTC
  instants and string routines, with the calls into `uuid`, `jsonwebtoken`,
  `chrono` and `bson` behind small trusted functions. Token validation
  decodes in the library (`validate_token_decode`: signature check and
  the claims as JSON text); `app/` reads that text into the claims type
  with serde and hands the outcome to the next verified step.
- `reply`: the reply values; `routes`: the service description.
- `laws`: properties that relate several operations.
