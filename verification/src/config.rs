//! The persisted configuration and the `config` subcommand's options.
//!
//! The configuration is a small key-value document, `config.toml` in the
//! per-app config directory, with one recognized key: an optional account
//! token. A missing file means "no token configured", not an error. The
//! application reads and parses the file and hands the token in; the
//! credential decisions over it live in [`crate::upload`].

use vstd::prelude::*;

verus! {

/// The loaded configuration.
#[derive(Debug, Clone)]
pub struct Config {
    /// The account API token, when one is configured.
    pub token: Option<String>,
}

impl Config {
    /// An empty configuration: no token, as when the file is missing.
    pub fn empty() -> (r: Self)
        ensures
            r.token is None,
    {
        Config { token: None }
    }

    /// The configured token, moved out of the configuration.
    pub fn into_token(self) -> (r: Option<String>)
        ensures
            r == self.token,
    {
        self.token
    }
}

/// What the `config` subcommand can do.
#[derive(Debug)]
pub enum Subcommand {
    /// Create the config file if it is missing and open it in the editor.
    Edit(EditOptions),
}

/// Options of `config edit`; it takes none.
#[derive(Debug)]
pub struct EditOptions {}

} // verus!
