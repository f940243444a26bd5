# Cargo

A dual-pane FTP, FTPS and SFTP client for GNOME, in two parts:

- `src/` — the library `cargo_app`, verified with Verus. It holds what the
  application decides and computes: parsing FTP `LIST` output and converting
  SFTP listings, remote paths and synchronized browsing, the site store and
  the site editor's form, permission bits, conflict handling, transfer
  planning, the transfer queue and its progress reports, file icons and the
  order of the file lists. Every public function states its result in its
  `ensures`; the `law_*` proof functions state what holds across calls.
- `app/` — the GTK 4 / libadwaita program around it: windows and dialogs,
  the FTP (suppaftp) and SFTP (russh, russh-sftp) connections on a tokio
  runtime, the system keyring (libsecret) and `sites.json` on disk.
- `tests/` — tests of the library on concrete values.
