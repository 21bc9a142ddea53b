//! The environment a process runs in, by name.

use vstd::prelude::*;
use crate::text::same_text;

verus! {

/// The environments that a configuration file may describe.
#[derive(Clone, Copy, Debug, PartialEq, Eq, Structural)]
pub enum Env {
    Development,
    Test,
    Staging,
    Production,
}

/// Why a name is not that of an environment.
#[derive(Clone, Copy, Debug, PartialEq, Eq, Structural)]
pub enum ParseEnvError {
    UnknownEnv,
}

impl ParseEnvError {
    /// The message shown for this error.
    pub fn to_string(&self) -> (r: String)
        ensures
            r@ == "Unknown environment"@,
    {
        "Unknown environment".to_owned()
    }
}

/// The environment that `name` stands for, if any.
pub open spec fn env_named(name: Seq<char>) -> Option<Env> {
    if name == "development"@ {
        Some(Env::Development)
    } else if name == "test"@ {
        Some(Env::Test)
    } else if name == "staging"@ {
        Some(Env::Staging)
    } else if name == "production"@ {
        Some(Env::Production)
    } else {
        None
    }
}

impl Env {
    /// The name of the environment, as configuration files spell it.
    pub open spec fn name(self) -> Seq<char> {
        match self {
            Env::Development => "development"@,
            Env::Test => "test"@,
            Env::Staging => "staging"@,
            Env::Production => "production"@,
        }
    }

    /// Reads an environment from its name. Any other text is an unknown
    /// environment.
    pub fn from_str(s: &str) -> (r: Result<Env, ParseEnvError>)
        ensures
            r == match env_named(s@) {
                Some(env) => Ok::<Env, ParseEnvError>(env),
                None => Err(ParseEnvError::UnknownEnv),
            },
    {
        if same_text(s, "development") {
            Ok(Env::Development)
        } else if same_text(s, "test") {
            Ok(Env::Test)
        } else if same_text(s, "staging") {
            Ok(Env::Staging)
        } else if same_text(s, "production") {
            Ok(Env::Production)
        } else {
            Err(ParseEnvError::UnknownEnv)
        }
    }

    /// The name of the environment.
    pub fn to_string(&self) -> (r: String)
        ensures
            r@ == self.name(),
    {
        match self {
            Env::Development => "development".to_owned(),
            Env::Test => "test".to_owned(),
            Env::Staging => "staging".to_owned(),
            Env::Production => "production".to_owned(),
        }
    }
}

impl Default for Env {
    fn default() -> (r: Env)
        ensures
            r == Env::Development,
    {
        Env::Development
    }
}

/// Reading the name of an environment gives that environment back, and a
/// text that reads as an environment is that environment's name.
pub proof fn law_env_name_round_trip(env: Env, text: Seq<char>)
    ensures
        env_named(env.name()) == Some(env),
        env_named(text) == Some(env) ==> text == env.name(),
{
    reveal_strlit("development");
    reveal_strlit("test");
    reveal_strlit("staging");
    reveal_strlit("production");
    assert("test"@.len() == 4);
    assert("staging"@.len() == 7);
    assert("production"@.len() == 10);
}

} // verus!
