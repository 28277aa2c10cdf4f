# metronomo

A command-line metronome with a terminal interface. The logic is a Verus
library under `src/`; `app/` holds the program around it (command line,
terminal drawing, audio output).

- `config`: the settings, their limits, the changes the keys make, and the
  packing of a configuration into the `u64` shared with the audio thread.
- `timestamp`: the packed announcement of the next beat.
- `shared`: the state shared by the interface and the audio callback.
- `metronome`: following the announced beats and choosing how long to wait
  for input.
- `runner`: the frame-by-frame schedule of ticks and clicks.
- `cmd`: the command-line settings and the checked reading of numbers.
- `controls`: what each key does.
- `widgets`: what the volume gauge and the row of beats show.
