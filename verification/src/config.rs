//! Run configuration: the query, the file path, and the case-sensitivity
//! flag, built once from a plain argument list. The caller passes in whether
//! the case-insensitivity environment variable is defined, so the builder
//! itself reads no ambient state.

use vstd::prelude::*;

verus! {

/// Why a configuration could not be built.
#[derive(Debug, Clone, Copy, PartialEq, Eq, Structural)]
pub enum ConfigError {
    /// No query argument was supplied.
    MissingQuery,
    /// No file-path argument was supplied.
    MissingFilePath,
}

impl ConfigError {
    /// A descriptive message for the error.
    pub fn message(&self) -> (r: &'static str)
        ensures
            *self is MissingQuery ==> r@ == "Didn't get any query string"@,
            *self is MissingFilePath ==> r@ == "Didn't get any file path"@,
    {
        match self {
            ConfigError::MissingQuery => "Didn't get any query string",
            ConfigError::MissingFilePath => "Didn't get any file path",
        }
    }
}

/// The parameters of one run, immutable once built.
#[derive(Debug)]
pub struct Config {
    /// The substring to search for.
    pub query: String,
    /// The path of the file whose contents are searched.
    pub file_path: String,
    /// Whether the search folds case before comparing.
    pub ignore_case: bool,
}

impl Config {
    /// Builds a configuration from an argument list (whose first element is
    /// the program name and is skipped) and from whether the
    /// case-insensitivity environment variable is defined. The query is the
    /// first real argument and the file path the second; a third argument,
    /// whatever its value, forces `ignore_case`, and in its absence the
    /// environment flag decides.
    pub fn build(args: &Vec<String>, env_ignore_case: bool) -> (r: Result<Config, ConfigError>)
        ensures
            args@.len() < 2 ==> r == Err::<Config, ConfigError>(ConfigError::MissingQuery),
            args@.len() == 2 ==> r == Err::<Config, ConfigError>(ConfigError::MissingFilePath),
            args@.len() >= 3 ==> {
                &&& r is Ok
                &&& r->Ok_0.query@ == args@[1]@
                &&& r->Ok_0.file_path@ == args@[2]@
                &&& r->Ok_0.ignore_case == (args@.len() > 3 || env_ignore_case)
            },
    {
        if args.len() < 2 {
            return Err(ConfigError::MissingQuery);
        }
        if args.len() < 3 {
            return Err(ConfigError::MissingFilePath);
        }
        let query = args[1].clone();
        let file_path = args[2].clone();
        let ignore_case = if args.len() > 3 {
            true
        } else {
            env_ignore_case
        };
        Ok(Config { query, file_path, ignore_case })
    }
}

} // verus!
