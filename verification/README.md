# baby_rocs

A baby monitor: it captures sound from a microphone, suppresses noise,
measures the signal-to-noise ratio of each frame and streams the audio to a
roc-toolkit receiver while the child is heard. A terminal interface shows the
levels and lets the threshold, the silence timeout, a bypass and the noise
suppression be adjusted live.

## Layout

- `src/` — the verified library (Verus):
  - `ui/app.rs`: focus order, tab switching, what Up/Down/Space ask of the
    controls, and the bounded history of log lines;
  - `ui/input.rs`: what each key does;
  - `ui/view.rs`, `ui/mod.rs`: check marks, log scrolling, log line text;
  - `sender.rs`: the transmit gate (open on a loud frame, close after the
    silence timeout) and the endpoints a sender connects;
  - `common.rs`: interleaving and de-interleaving of multi-channel frames,
    and filling a frame from a stream that runs dry;
  - `devices.rs`: choosing the first audio device whose name matches a
    regular expression.
- `app/` — the program around it: audio I/O (PortAudio, WAV files), the
  WebRTC and DeepFilterNet processing, the streaming sender, the shared
  atomics between threads, and the terminal drawing.
- `tests/` — tests of the library.
