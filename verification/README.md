# rustixos

The logic of the RustixOS kernel as a Verus library, verified by Verus
against `requires`/`ensures` contracts. Where a result rests on state
kept by an outside crate (the `pc_keyboard` decoder), the contract says
what is fed to it and what holds of every answer.

- `src/filesystem.rs` — the in-memory filesystem, viewed as a map from
  absolute path to entry, with laws such as read-after-write.
- `src/process.rs` — the process table and the round-robin scheduler,
  viewed as a `SchedState`.
- `src/syscalls.rs` — system call decoding and results, and the file
  descriptor table.
- `src/arch/` — descriptor and page-table code for AArch64, ARM, x86 and
  x86_64; the AArch64 mapper is stated over a table walk.
- `src/keyboard.rs`, `src/shell/`, `src/memory.rs`, `src/boot/`,
  `src/bootloader/` — the key buffer, the shell and its commands, frame
  allocation and early boot.

Register reads and writes, port I/O, global state behind locks and the
boot sequence live in `app/`, which calls the library. `tests/` runs the
library on concrete values.
