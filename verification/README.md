# ncm_tui

The core of a terminal client for a music streaming service, written in Verus: the verified
library under `src/` holds the player's settings and audio qualities, the naming and
recognition of downloaded files, the reading of the API's JSON replies, the command-line parser, the lyrics decoder, the daily
recommendation window, the ordering and pinning of songlists, the panels and screens as state
machines, the key map and the command-line completion. `app/` is the program around it: the
HTTP client of the API, the files on disk, the terminal loop and the drawing. `tests/` runs the
library on concrete cases.
