//! Per-recipient message preparation: extracting an address and a body from
//! an opaque record, validating the address, and assembling the outbound
//! message — or recording why this recipient must be skipped.

use vstd::prelude::*;

use crate::errors::{FailureKind, RecipientFailure};
use vstd::string::StringExecFns;

verus! {

/// The fixed subject line of every outbound message.
pub const SUBJECT: &'static str = "This is a test email";

/// Whether `lettre::Address::from_str` accepts a string as a syntactically
/// valid email address. The outcome depends on the characters alone.
pub uninterp spec fn address_ok(s: Seq<char>) -> bool;

/// The integrator-supplied capability: how to read a destination address and
/// a body out of one opaque recipient record. The core assumes nothing about
/// the record's shape, nor about what these return.
pub trait RecordExtractor {
    /// The destination address for this record, as a string.
    fn extract_address(&self, record: &serde_json::Value) -> String;

    /// The message body for this record.
    fn extract_body(&self, record: &serde_json::Value) -> String;
}

/// Relies on `lettre::Address::from_str` (through `str::parse`): a pure
/// syntax check of the string, with no other effect.
#[verifier::external_body]
fn parse_address(s: &str) -> (r: Result<lettre::Address, String>)
    ensures
        r is Ok <==> address_ok(s@),
{
    match s.parse::<lettre::Address>() {
        Ok(addr) => Ok(addr),
        Err(e) => Err(format!("{}", e)),
    }
}

/// Relies on `lettre::message::MessageBuilder` (`to`, `from`, `subject`,
/// `singlepart`): with exactly one originator and one destination mailbox
/// set, assembly checks only for missing or duplicated envelope headers, so
/// it always succeeds here.
#[verifier::external_body]
fn build_message(from: lettre::Address, to: lettre::Address, subject: &str, body: String) -> (r:
    Result<lettre::Message, String>)
    ensures
        r is Ok,
{
    let built = lettre::Message::builder()
        .to(lettre::message::Mailbox::new(None, to))
        .from(lettre::message::Mailbox::new(None, from))
        .subject(subject)
        .singlepart(
            lettre::message::SinglePart::builder()
                .header(lettre::message::header::ContentType::TEXT_PLAIN)
                .body(body),
        );
    match built {
        Ok(message) => Ok(message),
        Err(e) => Err(format!("{}", e)),
    }
}

/// What the batch does with one recipient: submit a message, or skip with a
/// recorded failure.
/// The address step of one recipient: the extracted destination and the
/// sender pass exactly when both are syntactically valid addresses;
/// otherwise the recipient gets an address failure attributed to `index`,
/// and nothing further — in particular no body extraction — happens for it.
pub fn check_addresses(index: usize, recipient: &str, sender: &str) -> (r: Result<
    (lettre::Address, lettre::Address),
    RecipientFailure,
>)
    ensures
        r is Ok <==> address_ok(recipient@) && address_ok(sender@),
        r matches Err(f) ==> f.index == index && f.kind is Address,
{
    let to = match parse_address(recipient) {
        Ok(addr) => addr,
        Err(e) => {
            let detail = "Invalid recipient email address: ".to_owned().concat(e.as_str());
            return Err(RecipientFailure { index, kind: FailureKind::Address, detail });
        },
    };
    let from = match parse_address(sender) {
        Ok(addr) => addr,
        Err(e) => {
            let detail = "Invalid sender email address: ".to_owned().concat(e.as_str());
            return Err(RecipientFailure { index, kind: FailureKind::Address, detail });
        },
    };
    Ok((to, from))
}

/// The build step of one recipient, run only after its address step passed:
/// assembles the outbound message (fixed subject, plaintext body) for the
/// already-validated pair of addresses. Assembly always succeeds here; a
/// failure would be recorded as a message-build failure under `index`.
pub fn assemble_message(index: usize, to: lettre::Address, from: lettre::Address, body: String) -> (r:
    Result<lettre::Message, RecipientFailure>)
    ensures
        r is Ok,
        r matches Err(f) ==> f.index == index && f.kind is MessageBuild,
{
    match build_message(from, to, SUBJECT, body) {
        Ok(message) => Ok(message),
        Err(e) => {
            let detail = "Failed to build email message: ".to_owned().concat(e.as_str());
            Err(RecipientFailure { index, kind: FailureKind::MessageBuild, detail })
        },
    }
}

} // verus!
