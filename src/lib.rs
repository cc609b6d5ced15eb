//! Backend process supervision and the command surface of a desktop shell.
//!
//! The library holds the decisions: the application state store, the
//! commands, the reduction of a health probe to a boolean, and the setup
//! sequence that finds the runtime, checks the backend directory, launches
//! the backend and hands it to a reaper. The host performs the probes,
//! the spawn and the network request, and feeds their outcomes back in.
mod commands;
mod health;
mod launch;
mod state;
mod supervisor;

pub use commands::{export_data, get_app_info, greet, import_data, AppInfo};
pub use health::{backend_url, check_backend_status, is_success, BACKEND_PORT};
pub use launch::{backend_directory, backend_launch_command, runtime_probe_command, LaunchCommand};
pub use state::{get_theme, set_theme, AppState, AppStateView};
pub use supervisor::{
    advance, BackendState, BackendSupervisor, LaunchOutcome, SetupAction, SetupEvent, SetupPhase,
};
