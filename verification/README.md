# moonshine

The decision-making core of a game-streaming host, verified with Verus.

- `src/application`: the environment an application runs in, where its output
  goes, and the order in which it and the commands around it are run and ended.
- `src/stream`: how a stream's socket is made, how captured audio is cut into
  frames, and how the audio clock is drained.
- `src/gamepad`: the client's gamepad packets, and what they make of a virtual
  device on FreeBSD, on Linux, and where there is none.
- `src/session.rs`: why a session ends.
- `src/sequence.rs`: steps that are taken one after another until one fails.
- `src/ioctl.rs`, `src/le.rs`, `src/float.rs`, `src/text.rs`, `src/errno.rs`:
  request numbers, little-endian integers, single-precision bit patterns, text
  and error numbers.

The library works on plain values. `app/` opens the devices, runs the processes
and moves the bytes, and hands the library what the system answered.

Two functions of the standard library are trusted rather than verified: hashing
a string, and finding the parent of a path. Both stand in
`src/application/mod.rs` with what is claimed of them.
