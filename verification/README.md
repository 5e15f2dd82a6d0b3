# Liminal launcher

The decision logic of the Liminal launcher, verified with Verus, and the
programs that carry its decisions out.

- `src/` is the library. It holds no I/O: it is handed what was read, received
  or measured, and says what to do next.
  - `text`, `geometry`: decimal numbers, substring search, UTF-16 titles,
    rectangles.
  - `fade`, `progress`, `paint`, `overlay`: the overlay window, from its fade to
    its frame, its commands and its messages.
  - `discovery`: finding a window by its title, waiting for one to come or go.
  - `token`, `handshake`, `wire`, `frames`: authentication and the JSON text of
    messages.
  - `jvm_ipc`: the conversation with a single child process.
  - `transition`, `swap`: the instances of the test swap, and its course.
  - `mc_swap`: the course of the swap of two Minecraft instances.
- `app/` runs it: `liminal_launcher overlay`, `jvm-ipc`, `transition` or
  `mc-transition`. The overlay needs Windows.
- `tests/` runs the library on concrete values.
