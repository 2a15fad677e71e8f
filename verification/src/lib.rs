use vstd::prelude::*;

pub mod adapters;
pub mod asr;
pub mod asr_models;
pub mod audio;
pub mod devices;
pub mod error;
pub mod governance;
pub mod loci_runtime;
pub mod loci_text;
pub mod loci_translator;
pub mod misc;
pub mod models;
pub mod order;
pub mod pipeline;
pub mod powershell;
pub mod profiles;
pub mod session;
pub mod system;
pub mod system_tts;
pub mod text;
pub mod transcription;
pub mod translation_service;
pub mod user_path;
pub mod voice;
pub mod wer;
pub mod worker;

verus! {

} // verus!
