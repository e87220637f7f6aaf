//! HipoCast's capture-to-HLS engine: the FFmpeg command lines that encode a
//! captured window or monitor with its audio, the MPEG transport stream
//! packets and sliding window of HLS segments, the audio effect presets, the
//! stored settings and streams, and the parsing of capture identifiers and
//! device listings. Its functions carry contracts that Verus proves; the few
//! calls into std and outside crates sit behind small trusted wrappers whose
//! doc comments say what their contracts claim.
pub mod audio_capture;
pub mod capture;
pub mod db;
pub mod devices;
pub mod encoder;
pub mod ffmpeg;
pub mod hls;
pub mod output;
pub mod pacing;
pub mod state;
pub mod stream_config;
pub mod text;
