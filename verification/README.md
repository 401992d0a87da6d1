# WinProfile

WinProfile finds damaged Windows user profiles, repairs them behind registry snapshots,
copies a profile to a new place, and keeps an audit journal of all it did.

## Layout

- `src/` is the verified library. Every decision stands there: what a scan makes of what
  it read, which repair is admitted and in which order it mutates the registry, how a copy
  is verified and undone, how the protected storage is checked, recovered and locked, and
  what the window shows. Work that alternates with the system is written as a run: `step`
  takes what happened and says what is to be done next.
- `app/` is the program around the library. It makes the Windows calls, reads and writes
  files, carries the types that are written as JSON, and shows the window on a terminal.
- `tests/` runs the library, its runs against machines held in memory.

## Modules

| Modules | Subject |
| --- | --- |
| `models`, `scanner`, `scan_run` | profiles and their anomalies |
| `repair`, `repair_run`, `snapshot`, `rollback` | repairs, and what undoes them |
| `migration`, `migration_run`, `migration_progress`, `copying` | copying a profile |
| `storage`, `legacy`, `legacy_run`, `journal` | the protected storage and the journal |
| `secure_fs`, `secure_dir`, `paths` | directories that are opened by handle |
| `registry`, `security`, `restart_manager`, `ui_languages`, `shell` | what Windows calls return |
| `tokens`, `token_run`, `command_line`, `console_launch` | the elevated console |
| `broker` | the privileged service behind its pipe |
| `startup`, `controller`, `operation`, `status`, `window`, `view_model`, `rendering`, `migration_view` | the window |
| `i18n`, `locale` | languages |
| `clock`, `hashing`, `text`, `constants` | shared pieces |

## Running

The texts of the window are read from `locales/en.json` and `locales/fr.json` beside the
program. `--broker` runs the privileged service, `--ping` asks whether it answers, and
`--snapshots` lists the registry snapshots.
