pub mod app_state;
pub mod desktop;
pub mod device;
pub mod echo;
pub mod error;
pub mod frame;
pub mod lab_cli;
pub mod labels;
pub mod number;
pub mod paths;
pub mod pipeline;
pub mod sample_buffer;
pub mod settings;
pub mod setup_cli;
pub mod suppressor;
pub mod text;
pub mod tray;
pub mod update;
pub mod virtual_mic;
pub mod windows_settings;
pub mod worker_metrics;

pub use error::ClearLineError;
