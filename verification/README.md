# rustvncserver-android (verified core)

Android JNI bindings for the `rustvncserver` VNC server, with the bridge's
decision logic written in Verus and proved against its contracts.

Layout:

- `src/params.rs` — checks on what Java hands over: framebuffer sizes
  (1..=8192), the listening port (`-1` disables inbound connections),
  optional texts, cropped updates (`width * height * 4` bytes), copy
  rectangles, and the integer conversions of ports and client ids.
- `src/callbacks.rs` — which static Java method reports each server event,
  with its JNI signature and arguments; a proof that every signature
  describes its argument list.
- `src/clients.rs` — lookups of a client's host, port and repeater id, and
  which clients a disconnect removes.
- `src/session.rs` — the bridge's state (server slot, event task, the
  single in-flight framebuffer update, Java references) and the decision
  every native method takes on it, with laws on start, stop and updates.
- `src/natives.rs` — the table of native methods, required and optional.
- `src/registration.rs` — the registration sequence as a state machine
  (which JNI operation comes next, what a failure reports), the load-time
  plan read from the `rustvnc.*` system properties, and laws on termination,
  skipped optional methods and class references kept once.
- `app/lib.rs` — the JNI entry points (`JNI_OnLoad`,
  `register_vnc_natives`, the `native_vnc_*` functions), the Tokio runtime,
  the server object and the Java calls; it performs what the library
  decides.
- `tests/` — scenarios and concrete instances of the laws.

Java side: set `rustvnc.main_service_class`, `rustvnc.input_service_class`
and optionally `rustvnc.log_tag` (default `RustVNC`) before
`System.loadLibrary`, or call `register_vnc_natives` yourself.
