# audiocrab

A headless background music player. A first invocation starts a player process
that listens on a local socket; later invocations send it commands (play, pause,
next, shuffle, sort, like, ...). Tracks are downloaded with yt-dlp into a
catalogue kept in SQLite.

## Layout

- `src/` is the verified library (Verus). It holds the playback queue and its
  wrap-around laws, the player's controller as a state machine from events to
  actions, the start-up plan that resumes the saved session, the configuration's
  get/set interface, the catalogue queries built from
  a filter, the socket framing, the downloader's command lines and its reading of
  yt-dlp's JSON output, and the bookkeeping of a download job.
- `app/` is the program around it: argument parsing, the configuration file, the
  database, the socket, the audio output, the worker threads, and the weighted
  shuffle, whose keys are floating-point numbers.
- `tests/` exercises the library on concrete values.
