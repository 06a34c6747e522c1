# dial9 telemetry

Telemetry recording for asynchronous runtimes, and the CPU sampler that feeds
it, written in Verus.

- `src/recorder/` is the recording session: thread-local event buffers, the
  shared core that drains them (`shared_state.rs`), when it does so
  (`drain_schedule.rs`), what holds of any sequence of its operations
  (`laws.rs`), the runtimes of a session and the metadata that names them
  (`runtime_context.rs`), the callbacks of a runtime (`hooks.rs`), the
  owner of a session and its shutdown (`guard.rs`), the start of a session
  (`session.rs`), the segment pipeline (`pipeline.rs`) and the builder of traced
  runtimes (`builder.rs`).
- `src/fp_profiler/` and `src/fp_profiler.rs` are the userspace profiler: the
  frame-pointer unwinder, the SIGSEGV handler that makes its loads safe, and the
  per-thread CPU timers.
- `src/ctimer_sampler.rs` and `src/sampler.rs` are the samplers: timers, kernel
  performance events, and the choice between the two.
- `src/os.rs` holds the numbers of the operating system interface.
- `app/` is ordinary Rust around the library: signal handlers, timers, threads
  and tokio runtimes. Where the library needs something of the system, it says
  what to ask for and is told the answer.
- `tests/` runs the library.
