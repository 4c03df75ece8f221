# rust_download_subtitles

The logic of a client for the OpenSubtitles.com REST API that downloads the subtitles of a TV
show, verified with Verus.

- `src/` holds the decisions: which episodes and files to download, what to ask of the service and
  through which account, what to do with each reply, how files are named, and what every failure
  says. Each function states in its contract what it returns.
- `src/episode.rs`, and the proof functions at the end of the other modules, state what holds of
  the whole: a task has at most one request on the way and saves every file once and in order, a
  refused request is tried once through every account, a busy server is waited out, a file that
  already holds something is not written to.
- `app/` does the input and output: it reads `config.ron`, talks to the service with `reqwest` and
  `tokio`, and writes the files.
- `tests/` runs the library on examples.

The `config.ron` file specifies the TV show, the season and the episodes. It also holds an API key
and the accounts.
