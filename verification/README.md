# tomayto

A timer service. Each timer counts down a span of time: it starts, runs,
pauses, resumes, completes once it has run for its whole span, and (in the
service) can be reset after that. The service keeps timers by id and answers
requests to list, read, update and replace them over HTTP.

Layout:

- `src/` — the verified library (Verus).
  - `clock.rs` — spans and wall-clock stamps as plain integers, and the calls
    that read the monotonic and wall clocks and render RFC 3339 text.
  - `text.rs` — decimal numerals for names and messages.
  - `timer.rs` — a countdown timer over a given span; once complete it stays so.
  - `service/timer.rs` — the service's timers: id, name, a 25-minute default
    span, elapsed time never above the span, reset after completion.
  - `service/message.rs` — timer summaries and the messages between the HTTP
    interface and the timer task.
  - `service/tomayto.rs` — the set of timers and the answer to each request.
  - `service/reply.rs` — the HTTP status and body of each reply.
- `tests/` — tests of the library.
- `app/` — the program: the tokio runtime, the warp routes and handlers, and
  the JSON forms of the messages.

Every operation that reads a clock has a twin that takes the reading as an
argument (`tick_with`, `set_state_with`, `get_timer_with`, ...); the twin's
contract states the result exactly, and the reading operation states that its
result is the twin's on some reading.
