# HipoCast engine

HipoCast captures a window, a monitor or a web page on Windows, encodes it
with FFmpeg and publishes it as HLS on a local HTTP server
(`http://localhost:<port>/streams/<id>/<id>.m3u8`).

This crate holds the part of HipoCast that decides things, verified with
Verus:

- `src/encoder.rs`, `src/ffmpeg.rs`, `src/output.rs`: the FFmpeg command
  lines (audio inputs and mixing graph, stream mapping, video and audio
  encoding, HLS muxer and output arguments) and hardware encoder detection
  as a step function.
- `src/hls.rs`: MPEG-2 CRC, PAT/PMT packets, PES packetization into 188-byte
  transport packets, the sliding window of published segments and its
  playlist.
- `src/stream_config.rs`: audio effect presets and the filter chains built
  from them, per-stream audio configuration and its defaults.
- `src/db.rs`: stored settings and streams, and the schema migrations.
- `src/capture.rs`, `src/state.rs`, `src/devices.rs`: capture identifiers,
  frame packing and scaling, stream status, and the DirectShow device
  listing.
- `src/audio_capture.rs`: packet sizes, silence and session naming of the
  audio capture threads.
- `src/pacing.rs`: when the encoding loop writes a frame to keep a constant
  frame rate, and when it gives up catching up.
- `src/text.rs`: decimal renderings and integer parsing shared by the above.

`app/` is the program around it: SQLite, the FFmpeg processes, the Windows
screen and audio capture, the HTTP server, logging and the commands of the
user interface. `tests/` runs the
library on concrete values.
