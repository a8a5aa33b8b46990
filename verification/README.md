# riot_switcher

A Riot Client account switcher: it saves the client's session file under a
name, switches the client back to a saved session, and shares sessions as
password-protected `.riotacc` files (PBKDF2-SHA256 key, AES-256-GCM).

The library under `src/` is verified with Verus:

- `text` — character-sequence helpers (trimming, splitting, `lines`, prefix
  search) with their specifications.
- `riot` — reading session and settings text: Riot ID, login name, region,
  YAML sections, the device section carried across a switch, the region
  rewrite, the credentials to delete, and the client's user-info request
  and reply.
- `crypto` — key derivation, sealing and opening of account files, and the
  export file name; opening a sealed file with its password gives the
  plaintext back.
- `client` — the switch and logout procedures, step by step, with the
  outside work named as actions.
- `db` — the saved account record.
- `ui` — the screen state: key bindings, input modes, the selection, and the
  status shown after each piece of work.

`app/` is the Windows program around it: the terminal (crossterm, ratatui),
the SQLite account store (rusqlite), the file dialog (rfd), the client's
files, processes and local HTTPS API (ureq, native-tls), and the JSON form of
account files (serde).
