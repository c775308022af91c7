# microsandbox-core: block storage

Block devices for the root filesystems of microVMs, as a Verus library.

- `src/vm` makes block images (a sparse file on a loop device with a filesystem), fills them from
  the layers of an image, restores the permissions that the layers carry in extended attributes,
  and detaches and removes them.
- `src/oci` recognises OverlayBD and TurboOCI images from their manifests, lays out their
  directories and makes the `config.v1.json` that overlaybd-tcmu serves them from.
- `src/host.rs`, `src/path.rs`, `src/text.rs` and `src/error.rs` hold what both share.
- `app` runs the commands, touches the files and reads and writes JSON.
- `tests` runs the library against a host that is played by the test.

The library does no I/O. An operation hands out the next action; the caller carries it out and
gives the answer back, until the operation is over. What each step asks for is stated in its
`ensures`, and what holds of whole operations in the proof functions named `law_*`.

`str::trim`, `String::from_utf8_lossy`, `str::parse::<i64>` and `sha2::Sha256::digest` are trusted
to do what the contracts in `src/text.rs` and `src/oci/layout.rs` say of them.
