//! VoxForge's decisions, verified: dictation is captured, transcribed live or
//! offline, optionally polished by a language model, and pasted back into the
//! application the user works in. The modules decide; the application performs
//! the audio, network, clipboard and window work they ask for.

pub mod audio;
pub mod deepgram;
pub mod focus;
pub mod groq;
pub mod paste;
pub mod pipeline;
pub mod settings;
pub mod streaming;
pub mod text;
pub mod whisper;
