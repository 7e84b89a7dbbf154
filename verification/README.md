# drivogram

A command-line client for Drivogram, a cloud drive kept on Telegram: sign up, log in with an
account key, list, upload, download, delete and share files.

- `src/` is the verified library (Verus): where the client keeps its key and which server it
  uses (`config`), how file sizes are read and shown (`text`, `sizes`), what the server's JSON
  replies mean (`reply`), how uploads and downloads are prepared and tracked (`upload`,
  `download`), which subcommand a name selects (`command`), and what signup and login do about a saved key (`account`). The records the server sends
  are in `types`.
- `app/` is the program around it: argument parsing, HTTP requests, files on disk, progress
  bars and coloured output.
- `tests/` runs the library on concrete values.
