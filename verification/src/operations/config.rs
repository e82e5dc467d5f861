//! `tinty config`: what it prints.
use crate::config::{config_toml, Config};
use vstd::prelude::*;

verus! {

/// Why `tinty config` refused its flags.
pub enum ConfigCommandError {
    /// Both `--config-path` and `--data-dir-path` were given.
    ConflictingFlags,
}

impl ConfigCommandError {
    /// The message this error is reported with.
    pub fn message(&self) -> (res: String)
        ensures
            res@ == "the argument '--data-dir-path' cannot be used with '--config-path'"@,
    {
        "the argument '--data-dir-path' cannot be used with '--config-path'".to_string()
    }
}

/// What `tinty config` prints: the config file's path (`--config-path`),
/// the data dir's path (`--data-dir-path`), or else the configuration as
/// TOML; both flags together are refused.
pub fn config(current: &Config, config_path: &str, data_path: &str, config_path_flag: bool, data_dir_path_flag: bool) -> (res: Result<String, ConfigCommandError>)
    ensures
        config_path_flag && data_dir_path_flag ==> res matches Err(ConfigCommandError::ConflictingFlags),
        config_path_flag && !data_dir_path_flag ==> (res matches Ok(s) && s@ == config_path@),
        !config_path_flag && data_dir_path_flag ==> (res matches Ok(s) && s@ == data_path@),
        !config_path_flag && !data_dir_path_flag ==> (res matches Ok(s) && s@ == config_toml(*current)),
{
    if config_path_flag && data_dir_path_flag {
        Err(ConfigCommandError::ConflictingFlags)
    } else if config_path_flag {
        Ok(config_path.to_string())
    } else if data_dir_path_flag {
        Ok(data_path.to_string())
    } else {
        Ok(current.to_toml())
    }
}

} // verus!
