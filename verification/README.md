# hypr-overlay-wl

A Wayland layer-shell overlay that shows who is in your Discord voice channel,
who is speaking, and offers mute/deafen buttons.

## Layout

- `src/` — the verified library (Verus). It holds the overlay's state machine
  and every decision the overlay makes:
  - `discord/` — the IPC frame format (`ipc`), the JSON commands sent to
    Discord and the replies' interpretation (`client`, `auth`, `parser`),
    and the event handlers that turn Discord frames into overlay events
    (`handlers`, `types`);
  - `state/` — the overlay state (`App`), its well-formedness invariant,
    event handling, timer ticks, draw preparation and the laws it keeps;
  - `handlers` — pointer input: button hits, dragging, double-click,
    scrolling;
  - `text`, `avatar`, `config`, `json`, `latency`, `render_error` — labels,
    avatar URLs and decoding, configuration paths, the JSON model, the latency
    probe interface and render errors.
- `tests/` — tests of the library on concrete values.
- `app/` — the program around the library: the Wayland connection, the
  EGL/GLES2 renderer, animations, the Discord socket and HTTP exchange,
  configuration loading and hot reload. It performs the effects the library
  queues and hands the library plain values.
