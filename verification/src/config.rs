//! Credentials for the relay session: a sender address and a secret token,
//! both taken from the process environment by the caller and validated here.

use vstd::prelude::*;

use crate::errors::FatalError;

verus! {

/// The two credentials a run needs. A value of this type witnesses that both
/// were present and non-empty when the run started.
pub struct Config {
    /// The from-address used for every outbound message, and the relay login name.
    pub sender: String,
    /// The opaque authentication secret for the relay.
    pub token: String,
}

impl Config {
    /// Whether the given environment values are acceptable: both present and
    /// non-empty.
    pub open spec fn values_ok(sender: Option<String>, token: Option<String>) -> bool {
        &&& sender is Some
        &&& sender->0@.len() > 0
        &&& token is Some
        &&& token->0@.len() > 0
    }

    /// Validates the raw environment values. Fails with a configuration
    /// error, and otherwise keeps both values unchanged.
    pub fn load(sender: Option<String>, token: Option<String>) -> (r: Result<Config, FatalError>)
        ensures
            r is Ok <==> Self::values_ok(sender, token),
            r is Ok ==> r->Ok_0.sender@ == sender->0@ && r->Ok_0.token@ == token->0@,
            r is Err ==> r->Err_0 is Configuration,
    {
        let sender = match sender {
            Some(s) => s,
            None => {
                return Err(
                    FatalError::Configuration("environment variable SENDER not found".to_owned()),
                );
            },
        };
        let token = match token {
            Some(t) => t,
            None => {
                return Err(
                    FatalError::Configuration(
                        "environment variable APP_PASSWORD not found".to_owned(),
                    ),
                );
            },
        };
        if sender.as_str().is_empty() {
            return Err(FatalError::Configuration("environment variable SENDER is empty".to_owned()));
        }
        if token.as_str().is_empty() {
            return Err(
                FatalError::Configuration("environment variable APP_PASSWORD is empty".to_owned()),
            );
        }
        Ok(Config { sender, token })
    }
}

} // verus!
