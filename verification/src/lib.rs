//! The logic of the VoxType dictation client, with its contracts and laws proved.

pub mod audio;
pub mod dictation;
pub mod hotkey;
pub mod integrity;
pub mod model_download;
pub mod paths;
pub mod runtime_process;
pub mod settings;
pub mod text;
pub mod voice_ws;
