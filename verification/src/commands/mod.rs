pub mod llm;
pub mod models;
