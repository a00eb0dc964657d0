//! An interactive terminal shell: command parsing, line editing, screen
//! rendering and result navigation, with the terminal, network and storage
//! collaborators reached through narrow interfaces.
pub mod qvault_cmd;
pub mod qvault_history;
pub mod qvault_log;
pub mod qvault_tui;
pub mod session;
pub mod text;
