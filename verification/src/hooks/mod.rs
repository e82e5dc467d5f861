//! Shell-integration hooks: the template repositories they keep and the
//! themes those provide.
pub mod utils;
pub mod base16_shell;
pub mod base16_shell_manager;
pub mod base16_tmux;
