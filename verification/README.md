# piano_tabs

A falling-notes piano player for the browser. The verified library (`src/`)
takes its decisions:

- `songs`: the songs of the menu, their labels and tempos, and which song a
  menu label selects;
- `playback`: the player of a loaded song, frame by frame: a countdown of
  whole seconds, then each beat in order when the previous one has lasted its
  time, then the countdown again, with the notes each beat releases;
- `model`: how the player reacts to each message (full screen, log, song
  choice, slider, window size, frames) and which outside work it asks for.

`app/` is the yew component around it: it measures the window, draws the
keyboard and the falling notes on the canvas (floating point), parses the
sheets, talks to the browser, and performs the effects that `model` returns.
