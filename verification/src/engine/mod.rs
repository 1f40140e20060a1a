pub mod ffmpeg_private;
pub mod fluttersink;
pub mod input;
pub mod output;
pub mod platform;
pub mod session;
pub mod software_decoder;
pub mod texture;
pub mod tsdp;
pub mod types;
pub mod urls;
