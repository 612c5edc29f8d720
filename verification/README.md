# tgdyk

A tiny local Telegram daemon. It keeps one Telegram user session open through TDLib and streams
the raw live updates to local tools as newline-delimited JSON.

- `src/` is the library, verified with Verus: paths and configuration, the authorization dialogue,
  the requests to TDLib, the stream framing, the rules for sockets and permissions, the doctor.
- `app/` is the program around it: the command line, the file system, sockets, and the calls into
  `libtdjson`.
- `tests/` runs the library.

## Commands

| Command | What it does |
| --- | --- |
| `setup` | Saves Telegram API credentials and creates the local TDLib session. |
| `daemon` | Runs TDLib and publishes live updates over a local Unix socket. |
| `stream` | Prints live raw TDLib updates, one JSON document a line. |
| `doctor` | Checks TDLib, config, paths, socket, and daemon connectivity. |

## Config

`${XDG_CONFIG_HOME:-~/.config}/tgdyk/config.toml`, or the file that `TGDYK_CONFIG` names:

```toml
api_id = 12345
api_hash = "your_api_hash"
database_dir = "/path/to/database"
files_dir = "/path/to/files"
socket_path = "/path/to/tgdyk.sock"
```

The environment overrides the paths for a run: `TDJSON_PATH`, `TDLIB_DATABASE_DIR`,
`TDLIB_FILES_DIR`, `TGDYK_SOCKET_PATH`. Without either, they are

```text
database: ${XDG_DATA_HOME:-~/.local/share}/tgdyk/tdlib/database
files:    ${XDG_DATA_HOME:-~/.local/share}/tgdyk/tdlib/files
socket:   $XDG_RUNTIME_DIR/tgdyk/tgdyk.sock
          ${XDG_CACHE_HOME:-~/.cache}/tgdyk/run/tgdyk.sock  without XDG_RUNTIME_DIR
```
