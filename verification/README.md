# audiopc

The playback and sample-processing logic of the audiopc audio engine, written
in Verus with its contracts and laws proved.

- `src/` is the verified library: the bounded sample queue and ring of the
  renderer, the playback state machine, the processor parameter tables, the
  integer-indexed delay and reverse buffers, the hold logic of the noise gate,
  mute/solo and phase switches, the frequency-band tables of the visualizer,
  seek planning, channel mapping of the resampler, and the helpers of the C
  interface (status codes, error-message copying, queue sizing).
- `tests/` runs the library on concrete values.
- `app/` holds what stays outside the verifier: device output through `cpal`,
  decoding through `symphonia`, HTTP and temporary files, the FFT of the
  visualizer, the floating-point effects, and the exported C functions.
