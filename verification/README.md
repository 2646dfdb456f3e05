# social_service

The Decentraland social service: it stores friendships between users, decides which
friendship events (request, cancel, accept, reject, delete) are allowed, and keeps
Synapse rooms, a Postgres database and a Redis users cache in step with them.

## Layout

- `src/` — the library, verified with Verus. It holds the friendship rules (event
  transitions, statuses, who may act), Synapse identifiers, room aliases and request
  paths, the request guards, the users-cache keys, and the decisions of the longer
  handlers written as state machines (`room_event_flow`, the token resolution in
  `users_cache`, the room resolution in `synapse_handler`): each step takes what the
  last call returned and says what to do next. Laws that relate several functions are
  public proof functions next to them.
- `app/` — the HTTP server (actix-web), the Synapse client (reqwest), the database
  (sqlx) and the cache (deadpool-redis). It performs the calls the library asks for and
  converts between the library's types and their JSON forms.
- `tests/` — tests of the library.
