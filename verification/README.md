# actix-interop

Allows using async/await syntax to implement actix actors, and provides a
convenient way to control access to an actor's state.

- `src/` is the library. Its functions carry contracts that Verus proves.
  - `transfer`: the one-shot channel between the two halves of a future.
  - `local_handle`: a future split into the part that runs it and the part that
    yields its output.
  - `context`: borrowing the actor in scope, and critical sections.
  - `interop`: adapters that poll a future or a stream with an actor in scope.
  - `schedule`: what exclusive access means for the order of polls.
- `app/` connects the library to actix: it keeps the actor in scope in
  thread-local storage and implements actix's traits.
- `tests/` runs the library, with actors on a small executor.

The library makes no system calls of its own. Where the running system has to do
something (poll a future, put an actor in scope, register a future with an
actor's context), a function takes a closure, and its contract says on which
values the closure was called and what became of its result.
