//! Verified decision logic of the Voice Everywhere dictation app: overlay
//! placement on a monitor, focused-text-target handling, Ogg Opus stream
//! bookkeeping and the checks that guard file transcription.
pub mod audio_file;
pub mod input;
pub mod overlay;
pub mod scale;
pub mod text;
pub mod transcription;
