# rtlsdr

A library for RTL-SDR devices, verified with Verus: choosing and opening a device, setting it up,
reading its sensors, and streaming samples from it.

- `src/` is the library. Nothing in it waits, starts threads or touches the hardware: the loops of a
  stream (`reader`, `multi`, `engine`) say what is to be done next and are told how it went, and
  `sdr::RtlSdr` works through whatever implements `driver::Driver`. Beside the contracts of the
  functions, the proof functions whose names start with `law_` state what holds of whole streams.
  With one reading thread, nothing that was read gets lost; with several, a chunk that finds the
  queue full is dropped and counted. Commands are carried out in order. A stream that is stopped or
  dropped ends. Transfers are freed only when none is in flight any more, unless the last
  completions are still missing after the 50 turns of the event loop that the shutdown waits.
- `app/` runs the streams on threads, looks for devices with rusb, and runs the bulk transfers
  through libusb.
- `tests/` exercises the library with a driver that records what it is asked for.
