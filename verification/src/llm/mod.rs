pub mod client;
pub mod prompt_text;
pub mod template;
