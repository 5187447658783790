pub mod activation;
pub mod audio;
pub mod commands;
pub mod config;
pub mod errors;
pub mod input;
pub mod llm;
pub mod models;
pub mod paths;
pub mod pipeline;
pub mod shared;
pub mod stt;
pub mod text;
