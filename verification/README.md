# program

A terminal player that sends one sine wave to the left channel and the same
wave, phase-shifted, to the right channel of one audio stream. Frequency and
phase shift change with the arrow keys while the sound plays.

- `src/` is the verified library:
  - `delay` — the delay line that caches the samples making up the phase
    shift; feeding it a stream gives the stream back delayed by exactly the
    number of cached samples.
  - `frames` — the layout of samples in a device buffer (frames, channel
    slots, little-endian bytes).
  - `control` — what each key does, what the menu tells the audio thread and
    what the audio thread does with it; while playback runs, the audio
    thread plays the tuning the menu shows.
- `app/` is the program around it: the terminal (crossterm), the WASAPI
  output device, the floating-point sine generators and the WAV writer
  (hound).
- `tests/` runs the library on concrete values.
