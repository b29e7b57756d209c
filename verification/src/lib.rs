pub mod action;
pub mod audio;
pub mod cli;
pub mod config;
pub mod config_toml;
pub mod elapsed_format;
pub mod event;
pub mod elapsed_timer;
pub mod favorites;
pub mod favorites_set;
pub mod input_mode;
pub mod keybindings;
pub mod library_filter;
pub mod library_sort;
pub mod mtime_debounce;
pub mod number_jump;
pub mod persistence;
pub mod playlist;
pub mod radio;
pub mod sort;
pub mod text;
pub mod time;
