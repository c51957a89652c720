# Shiki

The backend of a chat application: a gateway that keeps channels and sessions,
an HTTP API, and a relay for the packets of calls.

- `src/` is the library: the rules of the server, verified with Verus. It does
  no I/O. Functions take what was read and say what to write, send or answer.
  - `ws` is the chat server and its events; `ws::laws` states what holds of it
    whatever it is asked.
  - `routes::api` has the endpoints: `messages`, `channels`, `attachments`,
    `users`.
  - `redis` plans how records are fetched from the cache and the database, and
    how they are stored; `redis_laws` states what holds of that.
  - `message_fields` writes messages as fields of JSON and reads them back.
  - `rtc` relays packets.
  - `models`, `events`, `ids`, `token`, `clock`, `json`, `images`, `filenames`,
    `validation`, `text` and `lists` are what these rest on.
- `app/` is the program: configuration, web server, actor, cache and database.
  It also does what is computed in floating point, and decodes the pictures whose
  decoders may panic.
- `tests/` runs the library with the crates it calls.

The program reads `MONGODB_URI`, `REDIS_URL`, `SESSION_KEY`, `SERVER_URL`,
`CLIENT_URL`, `RTC_PUBLIC_ADDR`, `CLOUDINARY_CLOUD_NAME`, `CLOUDINARY_API_KEY`
and `CLOUDINARY_API_SECRET` from the environment or from a `.env` file.
