# MoonLit

The decisions of a local-first game clip recorder, verified with Verus.

A replay buffer keeps the last seconds of encoded video and of two audio stems
in memory; a hotkey turns them into a clip. The library says what the recorder
does. It performs no input or output itself.

- `src/` is the verified library.
  - `settings`, `plan`, `options`, `status`: how settings are read, at which
    height and rate the buffer runs, what the settings page shows.
  - `screen`, `pump`, `encoder`: which frames reach the encoder, how they are
    paced, with which command line it runs.
  - `ring`, `ts`, `stem`, `audio`: how memory forgets, how a video window is cut,
    how samples come to the common grid.
  - `engine`: how a recorder starts, what a save takes out of it, how it stops.
  - `names`, `wav`, `mux`, `save`, `clips`, `hotkey`: how a clip is named,
    joined, indexed and announced.
  - `text`, `decimal`: what the others need of texts and numbers.
- `tests/` runs the library on concrete values.
- `app/` is the desktop program around it: processes, files, devices, the user
  interface, and the arithmetic on floating-point samples.

Where the recorder works with the outside world in turns, the library holds a
state machine: `FramePump`, `WindowsCaptureEngine` and `SavePipeline` take what
happened and say what to do next. Laws that relate several functions are the
`law_*` proof functions of each module.
