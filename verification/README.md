# stassh

A local-first SSH command deck for the terminal: keep your hosts in one
place, see which endpoints answer, check host-key fingerprints before you
trust a server, and run SSH sessions in tabs.

The decisions of the program live in a library verified with Verus; the
terminal, the network, the files and the SSH connections are handled by a
thin program around it.

## Layout

- `src/` — the verified library (`stassh`):
  - records and their storage format: `model`, `store`, `migrations`,
    `db_crypto` (Argon2 key stretching and AES-256-GCM sealing of the
    database document);
  - the host dialog: `form`, `endpoints`, `host_modal`, `picker` (the key
    file picker), `paths` (where typed and partial paths point), `input`,
    `text`, `order`;
  - the dashboard: `home`, `home_page`, `home_layout`, `host_groups`,
    `quick_switch`, `settings`, `backup`, `reachability`, `ssh_keys`,
    `ssh_tabs`, `host_keys`, `routing`, `widgets`, `navigation`, `screen`,
    `views` (the wording of hints, rows, cards and dialogs);
  - start-up and updates: `startup`, `update`, `version`, `install`,
    `checksum`.
- `app/` — the program: terminal set-up and event loop, drawing, SQLite
  storage, the SSH client, the update download and the usage report.
- `tests/` — tests of the library on concrete values.

Each public function of the library states what it returns in its
contract; the properties that span several functions (reading back what
was written, round trips of the dialogs, the grid showing every host once)
are proof functions next to them.
