# pixivarchive

The decision logic of PixivArchive, a self-hosted archive of Pixiv works,
written in Verus and proved against its contracts.

- `src/` is the verified library. Settings validation, retry and queue-quota
  policies, cookie normalisation and encryption, password hashing rules,
  session tokens and CSRF checks, and the Pixiv import and subscription
  arithmetic are plain functions. Their contracts state the result exactly;
  where the operating system's random source takes part (new salts,
  nonces and tokens), they state what holds of every outcome, and a
  function one call down takes the drawn bytes as an argument and states
  exactly what comes back for each value (`hash_password_with_salt`,
  `PixivCookieCipher::seal_cookie`, `token_from_bytes`). Work that alternates
  storage or network calls with decisions (login, account validation, work
  processing, media download, derivative generation, trash purges, the
  ranking, following and bookmark subscription units, the worker's run loop
  and schedulers) is written as state machines: a step
  function from a phase and the event that the last call reported to the
  next phase and the next call, with laws over the steps as proof functions.
- `src/crypto.rs`, `text::push_char` and `collection::sort_by_work_id` hold the trusted wrappers around
  base64, SHA-256, XChaCha20-Poly1305, the OS random source, constant-time
  comparison, version 7 UUIDs, Argon2id, calendar days, and the std sort of
  bookmark entries.
- `tests/` runs the library on concrete values.
- `app/` is the worker's shell: environment, key file and media directory
  I/O, filesystem capacity, blocking password hashing on a thread pool, and
  JSON copies of the settings types.
