//! The error taxonomy of a run: fatal errors that abort before any send, and
//! per-recipient failures that are collected while the batch continues.

use vstd::prelude::*;

verus! {

/// A fatal error: the run stops at once, before any (further) network work.
#[derive(Debug)]
pub enum FatalError {
    /// A required credential is absent or empty.
    Configuration(String),
    /// The recipient document is not valid JSON, or its top value is not an array.
    DataFormat(String),
    /// The relay session object could not be built.
    Transport(String),
    /// The initial connectivity check against the relay failed.
    Connection(String),
}

impl FatalError {
    /// The diagnostic text carried by the error.
    pub open spec fn spec_detail(&self) -> Seq<char> {
        match self {
            FatalError::Configuration(d) => d@,
            FatalError::DataFormat(d) => d@,
            FatalError::Transport(d) => d@,
            FatalError::Connection(d) => d@,
        }
    }

    pub fn detail(&self) -> (r: &String)
        ensures
            r@ == self.spec_detail(),
    {
        match self {
            FatalError::Configuration(d) => d,
            FatalError::DataFormat(d) => d,
            FatalError::Transport(d) => d,
            FatalError::Connection(d) => d,
        }
    }
}

/// What went wrong for one recipient.
#[derive(Debug, Clone, Copy, PartialEq, Eq, Structural)]
pub enum FailureKind {
    /// An address did not parse as a syntactically valid email address,
    /// so no send was attempted for this recipient.
    Address,
    /// The outbound message could not be assembled, so no send was attempted.
    MessageBuild,
    /// The transport rejected the submitted message.
    Send,
}

/// One recorded failure, attributable to the recipient at `index`.
#[derive(Debug)]
pub struct RecipientFailure {
    /// The position of the recipient in the loaded array.
    pub index: usize,
    /// The stage at which this recipient failed.
    pub kind: FailureKind,
    /// Human-readable diagnostic text.
    pub detail: String,
}

/// How many failures in `s` were recorded before a send was attempted
/// (invalid address or failed message assembly). A recipient with such a
/// failure was skipped; one with a `Send` failure was attempted.
pub open spec fn pre_send_count(s: Seq<RecipientFailure>) -> nat
    decreases s.len(),
{
    if s.len() == 0 {
        0
    } else {
        pre_send_count(s.drop_last()) + if s.last().kind is Send {
            0nat
        } else {
            1nat
        }
    }
}

/// Appending one failure raises the pre-send count by one exactly when the
/// new failure is not a `Send` failure.
pub proof fn lemma_pre_send_count_push(s: Seq<RecipientFailure>, f: RecipientFailure)
    ensures
        pre_send_count(s.push(f)) == pre_send_count(s) + if f.kind is Send {
            0nat
        } else {
            1nat
        },
{
    assert(s.push(f).drop_last() =~= s);
    assert(s.push(f).last() == f);
}

} // verus!
