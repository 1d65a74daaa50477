# secops_endpoint_ui

The end-user side of a remote-support session: a consent dialog that asks
whether a technician may take over the screen, and a chat overlay shown while
the session runs.

- `src/` is the verified library (Verus): launch-argument parsing, the
  consent dialog's decisions and its single JSON result line, the session
  overlay's chat history, notices and closing schedule, the chat line
  framing, countdown and clock arithmetic, and the text functions these rest
  on (trimming, ASCII case folding, JSON escaping, number parsing).
- `app/` is the program around it: the egui/eframe windows and drawing, the
  TCP connection and its threads, JSON (de)serialisation with serde, and
  reading the command line and environment.
- `tests/` exercises the library on concrete values.
