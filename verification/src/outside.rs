//! Declarations of the outside crates' types that flow through the library.
//! Each is opaque: the library carries such values, it never looks inside.

use vstd::prelude::*;

verus! {

/// One recipient record: an arbitrary JSON value, interpreted only through
/// the integrator-supplied extraction capability.
#[verifier::external_type_specification]
#[verifier::external_body]
pub struct ExValue(serde_json::Value);

/// A syntactically valid email address, obtained only by parsing.
#[verifier::external_type_specification]
#[verifier::external_body]
pub struct ExAddress(lettre::Address);

/// One assembled outbound message, ready for submission over the transport.
#[verifier::external_type_specification]
#[verifier::external_body]
pub struct ExMessage(lettre::Message);

/// The relay session object; the caller performs the connectivity check and
/// the sends over it.
#[verifier::external_type_specification]
#[verifier::external_body]
pub struct ExSmtpTransport(lettre::SmtpTransport);

} // verus!
