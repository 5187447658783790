pub mod hotkey;
pub mod permissions;
pub mod single_key;
