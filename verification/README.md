# iroh_transfer

Verified core of a desktop application that sends and receives files peer to peer
with iroh. `src/` is the library, proved with Verus; `app/` is the desktop shell
(Tauri commands, the iroh node, dialogs, timers) that performs the input and output
and hands the library plain values.

- `src/download.rs`: the progress tracker of a download, a state machine from what
  the shell observed (progress events, stream errors, quiet periods, the clock, the
  export outcome) to the reports it publishes and what it does next.
- `src/session.rs`: node, client, node id and download flag, and what each command
  may use or release.
- `src/save_path.rs`: the path a received file is written to, never one that the
  existence check reported as taken.
- `src/ticket.rs`: reading a shared ticket (plain or inside an `iroh://` link).
- `src/deps.rs`: locating the iroh tool and the dependency report.
- `src/send.rs`: the receipt of a shared file.
- `src/text.rs`, `src/paths.rs`: text helpers and the calls into `std::path`.
