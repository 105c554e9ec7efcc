# ac_ffmpeg

The verified core of a Rust binding to FFmpeg.

- `src/` is the library, written in Verus: timestamps and time bases with
  FFmpeg's rescaling rule, durations, packet and frame metadata, codec flags
  and tags, codec errors, the configuration checks of audio and video
  encoders and decoders, of the audio resampler (its configuration, frame
  checks and time bases), of video filters, frame scalers, bitstream filters
  and subtitle transcoders, the audio transcoder's configuration, output
  queue and step function (which stage an item goes to next, and the order
  of flushing), the meaning of the status codes that the native layer
  reports, the IO callback decisions, demuxer seek requests, and the rules
  that locate an FFmpeg installation and choose how it is linked.
  Every function carries a contract that Verus proves, with one exception:
  the wrapper around `str::to_uppercase` in `locate.rs`, whose result is
  only named, is trusted. The laws that tie the functions together
  (rescaling round trips and exactness, adding and subtracting durations,
  the ordering of timestamps, first-in-first-out output queues, the
  accumulation of writes, disjoint codec flag bits) are proof functions
  beside them.
- `app/` holds what Verus does not see: the calls into the native FFmpeg
  wrapper (and the loops that drive them, such as the transcoder's run
  loop), the environment and pkg-config/vcpkg lookups, the log callback,
  `std::io` adapters and floating point views of timestamps.
- `tests/` runs the library on concrete values.
