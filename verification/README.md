# server

The back end of a service where brawlers form crews for missions, befriend
each other, invite friends into missions, chat and rate missions.

The rules of the service are a Verus library, `src/`, verified against its
contracts:

- `domain/` — entities, the models that clients see, the statuses of a
  mission, the events pushed to connected brawlers, and the repository traits
  through which the use cases reach storage. Every storage write and every
  announced event is appended to an `EffectLog` that the caller hands in,
  so the use cases' contracts say which writes and announcements each call
  makes, in order, on every path.
- `application/use_cases/` — the use cases: signing up and logging in,
  profiles and search, creating and changing missions, starting, completing
  and failing them, friendships and invitations, ratings and chats. Each
  decision is a function over plain values with an exact contract
  (`check_start`, `response_step`, `check_friend_request`, ...), and the
  properties that span them are proof functions (`lemma_mission_lifecycle`,
  `lemma_invitation_response`, `lemma_event_delivery`, ...).
- `infrastructure/` — password hashing (Argon2), random identifiers, the
  clock, the event hub, access-token claims and passports, and the parts of
  HTTP handling that are logic: reading the token of a request and building
  the LINE login addresses.
- `config/` — the settings and their defaults, read from the environment's
  values.
- `text.rs`, `decimal.rs` — trimming text and reading decimal numbers, as the
  rules above need them.

`app/` is the program around the library: the PostgreSQL repositories
(diesel), the HTTP routes (axum), token signing (jsonwebtoken), the LINE
login calls (reqwest) and the reading of the environment.

`tests/` runs the library on concrete values, with in-memory repositories.
