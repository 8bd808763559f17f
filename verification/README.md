# miranda

The verified core of the Miranda face-animation engine.

- `src/` is the library, verified with Verus: the ARKit-52 channel table,
  the single-producer/single-consumer ring and the three-ring bus, the
  `MRD1` data-plane packet codec, the broadcast and telemetry hubs with
  their circuit breaker, the turn-taking state machine, the dispatcher's
  audio drain, pacing decision, counters and seeds, and the frame-timestamp
  observer. Each public function states its result in `ensures`; the
  `law_*` proof functions state what holds across calls.
- `tests/` exercises the library on concrete values.
- `app/` is the executable around it: the floating-point animation
  generators and compositor, the 60 FPS dispatcher thread, the real-time
  verification harness, the speech-recogniser binding, the
  cognitive-core client, and the HTTP/WebSocket server.
