# popol

Minimal non-blocking I/O around `poll(2)`, with its logic verified by Verus.

- `src/` is the verified library: the registry of event sources (`Sources`,
  `Source`, `Event`), interest flags, timeouts, and the decisions made around
  the `poll`, `read`, `write` and `fcntl` system calls.
- `app/` makes those system calls (through `libc` and `std::os`) and hands
  their results to the library: `Poll::poll`/`wait`/`wait_timeout`, `Waker`
  and `set_nonblocking`.
- `tests/` runs the library on concrete values.
