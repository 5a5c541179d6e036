pub mod config;
pub mod event;
pub mod input;
pub mod key;
pub mod logger;
pub mod meta;
pub mod player;
pub mod providers;
pub mod state;
pub mod text;
pub mod view;
