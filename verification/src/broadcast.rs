//! Internet radio: the Icecast profile, the FFmpeg command lines, PCM mixing and
//! the decisions of the broadcast worker.
pub mod audio;
pub mod devices;
pub mod ffmpeg;
pub mod preflight;
pub mod profile;
pub mod queue;
pub mod status;
pub mod worker;
