//! `tinty init`: which scheme is applied when a shell starts.
use crate::text::cat;
use vstd::prelude::*;

verus! {

/// Why `tinty init` has nothing to apply.
pub enum InitError {
    /// Neither an applied scheme nor a default scheme is known.
    NoScheme,
}

impl InitError {
    /// The message this error is reported with.
    pub fn message(&self) -> (res: String)
        ensures
            res@ == "Failed to initialize, config files seem to be missing. Try applying a theme first with `tinty apply <SCHEME_NAME>`."@,
    {
        "Failed to initialize, config files seem to be missing. Try applying a theme first with `tinty apply <SCHEME_NAME>`.".to_string()
    }
}

/// The scheme `tinty init` applies: the recorded current scheme when its
/// file could be read (`recorded`), else the configured default scheme;
/// none when that is empty.
pub fn init_scheme_name(recorded: Option<String>, default_scheme: &Option<String>) -> (res: Result<String, InitError>)
    ensures
        ({
            let name = match recorded {
                Some(r) => r@,
                None => match *default_scheme {
                    Some(d) => d@,
                    None => Seq::<char>::empty(),
                },
            };
            if name.len() == 0 {
                res matches Err(InitError::NoScheme)
            } else {
                res matches Ok(n) && n@ == name
            }
        }),
{
    let name = match recorded {
        Some(r) => r,
        None => match default_scheme {
            Some(d) => d.clone(),
            None => String::new(),
        },
    };
    if name.as_str().is_empty() {
        Err(InitError::NoScheme)
    } else {
        Ok(name)
    }
}

/// The context added when applying the scheme at start-up fails.
pub fn init_failure_context() -> (res: String)
    ensures
        res@ == "Failed to initialize tinty, config files are missing. Try applying a theme first with `tinty apply <SCHEME_NAME>`."@,
{
    "Failed to initialize tinty, config files are missing. Try applying a theme first with `tinty apply <SCHEME_NAME>`.".to_string()
}

} // verus!
