//! Building the single relay session. The session is constructed here; the
//! caller performs the connectivity check and every send over it, and the
//! batch never reconnects per message.

use vstd::prelude::*;

use crate::config::Config;
use crate::errors::FatalError;

verus! {

/// The fixed relay hostname every run connects to.
pub const RELAY_HOST: &'static str = "smtp.gmail.com";

/// Relies on `lettre::SmtpTransport::starttls_relay`, `.credentials` and
/// `.build`: pure construction of the session object (STARTTLS on the
/// submission port, authenticated with the given credentials); no network
/// traffic happens here, and failure means the TLS parameters for the host
/// could not be built.
#[verifier::external_body]
fn build_relay(host: &str, user: String, token: String) -> (r: Result<
    lettre::SmtpTransport,
    String,
>) {
    match lettre::SmtpTransport::starttls_relay(host) {
        Ok(builder) => Ok(
            builder.credentials(
                lettre::transport::smtp::authentication::Credentials::new(user, token),
            ).build(),
        ),
        Err(e) => Err(format!("{}", e)),
    }
}

/// Builds the authenticated session to the fixed relay host. Fails with a
/// transport error exactly when the session object cannot be built.
pub fn open_relay(config: &Config) -> (r: Result<lettre::SmtpTransport, FatalError>)
    ensures
        r is Err ==> r->Err_0 is Transport,
{
    match build_relay(RELAY_HOST, config.sender.clone(), config.token.clone()) {
        Ok(transport) => Ok(transport),
        Err(detail) => Err(FatalError::Transport(detail)),
    }
}

} // verus!
