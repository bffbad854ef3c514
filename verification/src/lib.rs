//! Plain-value models and verified logic for the CLAP plugin-API extensions.

pub mod common;
pub mod utils;
pub mod flags;
pub mod clap_wrapper;
pub mod context_menu;
pub mod log;
pub mod audio_ports;
pub mod audio_ports_config;
pub mod ambisonic;
pub mod note_name;
pub mod note_ports;
pub mod params;
pub mod gui;
pub mod audio_ports_activation;
pub mod param_indication;
pub mod posix_fd;
pub mod configurable_audio_ports;
pub mod event_registry;
pub mod latency;
