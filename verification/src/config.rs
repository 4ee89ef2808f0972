use vstd::prelude::*;
use vstd::string::StringExecFns;

verus! {

/// Credentials for the notification sink, supplied by configuration.
#[derive(Debug, Clone)]
pub struct Config {
    pub token: String,
    pub user_key: String,
}

pub open spec fn placeholder_token_text() -> Seq<char> {
    "add_your_token_here"@
}

pub open spec fn placeholder_user_key_text() -> Seq<char> {
    "add_your_user_key_here"@
}

/// A configuration the monitor may start with: neither credential still
/// holds its placeholder value.
pub open spec fn config_ready(c: Config) -> bool {
    c.token@ != placeholder_token_text() && c.user_key@ != placeholder_user_key_text()
}

impl Config {
    /// The template written to a freshly created credentials file.
    pub fn placeholder() -> (c: Config)
        ensures
            c.token@ == placeholder_token_text(),
            c.user_key@ == placeholder_user_key_text(),
            !config_ready(c),
    {
        Config {
            token: String::from_str("add_your_token_here"),
            user_key: String::from_str("add_your_user_key_here"),
        }
    }

    /// Whether the monitor loop may start with these credentials. When
    /// this is false the system must refuse to start and defer to the
    /// configuration setup flow.
    pub fn is_ready(&self) -> (b: bool)
        ensures
            b == config_ready(*self),
    {
        let placeholder_token = String::from_str("add_your_token_here");
        let placeholder_user_key = String::from_str("add_your_user_key_here");
        !(self.token == placeholder_token) && !(self.user_key == placeholder_user_key)
    }
}

} // verus!
