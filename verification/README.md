# vidsave_core

VidSave downloads YouTube playlists, channels and single videos through
yt-dlp, from a terminal UI or a desktop window, and ships with a small
installer. This repository holds its logic as a library verified with Verus,
and a thin program around it.

## Layout

- `src/` — the verified library. Every function states what it returns in
  `requires`/`ensures` over mathematical models (`Seq`, `Map`, `nat`, views
  of the library's types), and Verus proves it.
  - `models`, `config`, `settings_fields`: the download options and the
    settings, with the Settings screen's fields.
  - `ytdlp`, `json`: yt-dlp's command lines, the filename template, the
    playlist JSON and the progress lines it prints.
  - `downloader`, `session`: the queue's per-item decisions (retries,
    pause, what each output line means) and the selection/batch logic.
  - `history`: the download history and its UTC timestamps.
  - `update_check`: release parsing and version comparison.
  - `installer`: the installer's sequence, archive handling, `PATH` edits,
    launcher files and wizard.
  - `gui`, `tui`: the two front ends as state machines: a message or key
    in, the new state and the outside work to start out.
  - `screens`: what each screen shows for a given state.
  - `text`, `paths`: character-level helpers with exact specifications.
- `app/` — the terminal program and the outside work: files, processes,
  the network, archives and the event loop. It decides nothing itself.
- `tests/` — tests of the library on concrete values.

Laws that relate several functions (for example, that pressing Invert twice
restores a selection, that the history stays newest first and capped, or
that day numbers map to consecutive calendar dates) are public proof
functions named `lemma_*` next to the functions they are about.
