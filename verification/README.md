# mumu_cli

A verified library for driving the MuMu Player emulator's `MuMuManager`
command line, and a thin async layer around it.

- `src/` (verified with Verus): typed slot indices (`Idx`, `SlotIndex`,
  `VmIndex`), settings (`Setting` and its modes), the argument list of every
  `MuMuManager` and `adb` invocation (`cli`, `adb`), the chunked base64 file
  writer (`write_file`), the slot map of `mumu info` (`info`), the decisions
  of the adb readiness loop (`adb::AdbReadiness`), and decimal, trimming and
  search helpers (`text`).
- `app/`: the Tokio process runner (`MumuCliExt`), JSON decoding of
  `mumu info` with serde, the error type with `Display`, and the search for
  the bundled `adb.exe` on disk.
- `tests/`: scenario tests of the library.
