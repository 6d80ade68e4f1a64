# ram_ui

The logic of RM, a desktop manager for Roblox accounts, written in Verus: what
the window does with clicks, timers and answers, and what the backend asks for
next. Every function of the library has a contract. Verus proves each of them but
those of the few calls that leave the verified code, which are listed below.

## Layout

- `src/app/` holds the state of the window. A method takes one thing that
  happened, changes the state and leaves in `out` what is to be done outside.
- `src/backend/` takes a command to its end, one question at a time. `begin` and
  `resume` say what to ask next, and the caller brings the answer.
- `src/browser_login.rs` is the same for the login window: which program to
  start, what to send to it and which cookie to keep.
- `src/asset_manager.rs`, `asset_rows.rs` and `asset_panes.rs` decide what the
  asset tab shows.
- `src/logging.rs`, `entry.rs`, `changelog.rs`, `settings.rs`, `toast.rs`,
  `theme.rs`, `labels.rs` and `cookies.rs` are smaller parts of the window.
- `src/text.rs`, `json.rs`, `lists.rs` and `order.rs` are what the others are
  built on.
- `tests/` runs the library on values.
- `app/` is the program around it: drawing, files, processes and the network.

Public proof functions state what holds of several functions together.

## What is trusted

A few calls leave the verified code: reading and quoting JSON (`json.rs`),
lower case, lossy decoding and one more character on a string (`text.rs`), a
fresh row identifier (`app/staging.rs`) and a date in words (`app/notice.rs`).
Each stands in a function of its own, whose comment says what is claimed of it.
These contracts are believed, not proved.
