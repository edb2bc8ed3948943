//! Runtime configuration: the mode the process runs in and the arguments
//! it was started with.

use vstd::prelude::*;
use crate::errors::ApiError;

verus! {

/// The mode the application runs in: against the production store, or the
/// test instance.
#[derive(Clone, Copy, Debug, PartialEq, Eq, Structural)]
pub enum AppMode {
    Prod,
    Dev,
}

/// The mode a flag's text denotes: `prod` or `dev`, nothing else.
pub open spec fn mode_of_text(s: Seq<u8>) -> Option<AppMode> {
    if s == seq![112u8, 114u8, 111u8, 100u8] {
        Some(AppMode::Prod)
    } else if s == seq![100u8, 101u8, 118u8] {
        Some(AppMode::Dev)
    } else {
        None
    }
}

impl AppMode {
    /// Parse a mode flag. Unrecognized text is rejected loudly with a
    /// validation error rather than falling back to a default mode.
    pub fn parse(s: &Vec<u8>) -> (r: Result<AppMode, ApiError>)
        ensures
            mode_of_text(s@) matches Some(m) ==> r == Ok::<AppMode, ApiError>(m),
            mode_of_text(s@) is None ==> r == Err::<AppMode, ApiError>(ApiError::Validation),
    {
        if s.len() == 4 && s[0] == 112 && s[1] == 114 && s[2] == 111 && s[3] == 100 {
            proof {
                assert(s@ =~= seq![112u8, 114u8, 111u8, 100u8]);
            }
            Ok(AppMode::Prod)
        } else if s.len() == 3 && s[0] == 100 && s[1] == 101 && s[2] == 118 {
            proof {
                assert(s@ =~= seq![100u8, 101u8, 118u8]);
            }
            Ok(AppMode::Dev)
        } else {
            Err(ApiError::Validation)
        }
    }
}

/// Arguments the process was started with.
#[derive(Clone, Copy, Debug)]
pub struct AppArgs {
    pub mode: AppMode,
}

/// The application's configuration.
#[derive(Clone, Copy, Debug)]
pub struct AppConfig {
    pub args: AppArgs,
}

impl AppConfig {
    pub fn new(args: AppArgs) -> (r: Self)
        ensures
            r.args == args,
    {
        AppConfig { args }
    }
}

} // verus!
