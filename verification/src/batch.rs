//! The batch run: a state machine over the loaded recipient list. Each step
//! decides one recipient in array order — hand a message out for submission,
//! or record a failure and move on — and one recipient's failure never
//! aborts the batch. The caller performs the actual submissions and reports
//! each outcome back.

use vstd::prelude::*;

use crate::config::Config;
use crate::errors::{pre_send_count, FailureKind, FatalError, RecipientFailure};
use crate::errors::lemma_pre_send_count_push;
use crate::message::{address_ok, assemble_message, check_addresses, RecordExtractor};
use crate::recipients::RecipientList;

verus! {

/// What the caller must do after one step of the run.
pub enum Action {
    /// Submit this message over the shared transport, then report the
    /// outcome with `report_send`.
    Send(lettre::Message),
    /// The recipient was skipped and its failure recorded; no send happens.
    Skipped,
    /// Every recipient has been processed.
    Finished,
}

/// One batch run. A value of this type witnesses that configuration, the
/// recipient document and the connectivity check were all accepted, in that
/// order, before any message was handed out.
pub struct Batch {
    config: Config,
    records: Vec<serde_json::Value>,
    next: usize,
    awaiting: bool,
    attempted: usize,
    failures: Vec<RecipientFailure>,
    sent: Ghost<Seq<int>>,
}

/// Each element is strictly below every later one.
pub open spec fn strictly_increasing(s: Seq<int>) -> bool {
    forall|i: int, j: int|
        #![trigger s[i], s[j]]
        0 <= i < j < s.len() ==> s[i] < s[j]
}

impl Batch {
    /// How many recipients the run has in all.
    pub closed spec fn total(&self) -> nat {
        self.records@.len()
    }

    /// How many recipients have been decided so far; recipients are decided
    /// in array order, so these are exactly the indices below this count.
    pub closed spec fn next_index(&self) -> nat {
        self.next as nat
    }

    /// How many sends have been handed out for submission so far.
    pub closed spec fn attempted_count(&self) -> nat {
        self.attempted as nat
    }

    /// Whether a handed-out message still awaits its `report_send`.
    pub closed spec fn awaiting_report(&self) -> bool {
        self.awaiting
    }

    /// The failures recorded so far, in the order they happened.
    pub closed spec fn failures_seq(&self) -> Seq<RecipientFailure> {
        self.failures@
    }

    /// The sender address every message is built with.
    pub closed spec fn sender_view(&self) -> Seq<char> {
        self.config.sender@
    }

    /// The indices of the recipients whose sends were handed out, in the
    /// order they were handed out.
    pub closed spec fn sent_seq(&self) -> Seq<int> {
        self.sent@
    }

    /// Every recipient has been decided.
    pub open spec fn done(&self) -> bool {
        self.next_index() == self.total()
    }

    /// No failure may yet be recorded for the recipient whose send is still
    /// awaiting its report.
    spec fn fail_bound(&self) -> int {
        if self.awaiting {
            self.next as int - 1
        } else {
            self.next as int
        }
    }

    /// The well-formedness of a run: decided recipients split exactly into
    /// attempted sends and pre-send failures; failures are recorded at most
    /// once per recipient, in strictly increasing index order, only for
    /// recipients already decided; and sends were handed out in strictly
    /// increasing index order, never for a recipient skipped before its send.
    pub closed spec fn wf(&self) -> bool {
        &&& self.next <= self.records@.len()
        &&& self.attempted as int + pre_send_count(self.failures@) as int == self.next as int
        &&& (self.awaiting ==> self.next >= 1)
        &&& forall|i: int|
            0 <= i < self.failures@.len() ==> #[trigger] self.failures@[i].index < self.fail_bound()
        &&& forall|i: int, j: int|
            #![trigger self.failures@[i].index, self.failures@[j].index]
            0 <= i < j < self.failures@.len() ==> self.failures@[i].index < self.failures@[j].index
        &&& self.sent@.len() == self.attempted
        &&& strictly_increasing(self.sent@)
        &&& forall|i: int| 0 <= i < self.sent@.len() ==> 0 <= #[trigger] self.sent@[i] < self.next
        &&& forall|i: int, j: int|
            #![trigger self.failures@[i].index, self.sent@[j]]
            0 <= i < self.failures@.len() && 0 <= j < self.sent@.len() && !(self.failures@[i].kind
                is Send) ==> self.failures@[i].index != self.sent@[j]
    }

    /// Starts the run, given the outcome of the transport's connectivity
    /// check (`None` when it passed). If the check failed, the run fails at
    /// once with a connection error and no batch exists, so zero sends are
    /// ever attempted; otherwise the run starts with nothing decided,
    /// nothing attempted and no failure recorded.
    pub fn begin(config: Config, list: RecipientList, connectivity_error: Option<String>) -> (r:
        Result<Batch, FatalError>)
        ensures
            r is Ok <==> connectivity_error is None,
            r is Err ==> r->Err_0 is Connection,
            connectivity_error matches Some(d) ==> r->Err_0->Connection_0@ == d@,
            r matches Ok(b) ==> {
                &&& b.wf()
                &&& !b.awaiting_report()
                &&& b.next_index() == 0
                &&& b.attempted_count() == 0
                &&& b.failures_seq().len() == 0
                &&& b.total() == list.spec_len()
                &&& b.sender_view() == config.sender@
                &&& b.sent_seq().len() == 0
            },
    {
        match connectivity_error {
            Some(detail) => Err(FatalError::Connection(detail)),
            None => Ok(
                Batch {
                    config,
                    records: list.into_records(),
                    next: 0,
                    awaiting: false,
                    attempted: 0,
                    failures: Vec::new(),
                    sent: Ghost(Seq::empty()),
                },
            ),
        }
    }

    /// Decides the next recipient, in array order. Its address is read
    /// through the extraction capability and validated first, together with
    /// the sender's; only when both pass is the body extracted and a message
    /// handed out for submission — a recipient skipped for an invalid
    /// address never has its body read. Otherwise the recipient is skipped
    /// with an address failure recorded under its index, and the run always
    /// moves on to the next recipient.
    pub fn advance<E: RecordExtractor>(&mut self, ext: &E) -> (a: Action)
        requires
            old(self).wf(),
            !old(self).awaiting_report(),
        ensures
            final(self).wf(),
            final(self).total() == old(self).total(),
            final(self).sender_view() == old(self).sender_view(),
            a is Finished <==> old(self).done(),
            old(self).done() ==> *final(self) == *old(self),
            !old(self).done() ==> final(self).next_index() == old(self).next_index() + 1,
            a is Send ==> {
                &&& final(self).attempted_count() == old(self).attempted_count() + 1
                &&& final(self).awaiting_report()
                &&& final(self).failures_seq() == old(self).failures_seq()
                &&& final(self).sent_seq() == old(self).sent_seq().push(
                    old(self).next_index() as int,
                )
                &&& address_ok(old(self).sender_view())
            },
            a is Skipped ==> {
                &&& final(self).attempted_count() == old(self).attempted_count()
                &&& !final(self).awaiting_report()
                &&& final(self).sent_seq() == old(self).sent_seq()
                &&& final(self).failures_seq().len() == old(self).failures_seq().len() + 1
                &&& final(self).failures_seq().drop_last() == old(self).failures_seq()
                &&& final(self).failures_seq().last().index == old(self).next_index()
                &&& final(self).failures_seq().last().kind is Address
            },
    {
        if self.next == self.records.len() {
            return Action::Finished;
        }
        let record = &self.records[self.next];
        let address = ext.extract_address(record);
        let step = check_addresses(self.next, address.as_str(), self.config.sender.as_str());
        self.next = self.next + 1;
        match step {
            Ok((to, from)) => {
                let body = ext.extract_body(record);
                match assemble_message(self.next - 1, to, from, body) {
                    Ok(message) => {
                        self.attempted = self.attempted + 1;
                        self.awaiting = true;
                        self.sent = Ghost(self.sent@.push(self.next as int - 1));
                        Action::Send(message)
                    },
                    Err(failure) => {
                        let ghost before = self.failures@;
                        self.failures.push(failure);
                        proof {
                            lemma_pre_send_count_push(before, failure);
                            assert(self.failures@.drop_last() =~= before);
                        }
                        Action::Skipped
                    },
                }
            },
            Err(failure) => {
                let ghost before = self.failures@;
                self.failures.push(failure);
                proof {
                    lemma_pre_send_count_push(before, failure);
                    assert(self.failures@.drop_last() =~= before);
                }
                Action::Skipped
            },
        }
    }

    /// Records the outcome of the send that was just handed out (`None` for
    /// success). A failed submission is recorded under the recipient's index
    /// with the transport's diagnostic text, and the batch continues either
    /// way.
    pub fn report_send(&mut self, send_error: Option<String>)
        requires
            old(self).wf(),
            old(self).awaiting_report(),
        ensures
            final(self).wf(),
            !final(self).awaiting_report(),
            final(self).total() == old(self).total(),
            final(self).sender_view() == old(self).sender_view(),
            final(self).next_index() == old(self).next_index(),
            final(self).attempted_count() == old(self).attempted_count(),
            final(self).sent_seq() == old(self).sent_seq(),
            send_error is None ==> final(self).failures_seq() == old(self).failures_seq(),
            send_error matches Some(d) ==> {
                &&& final(self).failures_seq().len() == old(self).failures_seq().len() + 1
                &&& final(self).failures_seq().drop_last() == old(self).failures_seq()
                &&& final(self).failures_seq().last().index == old(self).next_index() - 1
                &&& final(self).failures_seq().last().kind is Send
                &&& final(self).failures_seq().last().detail@ == d@
            },
    {
        self.awaiting = false;
        if let Some(detail) = send_error {
            let failure = RecipientFailure {
                index: self.next - 1,
                kind: FailureKind::Send,
                detail,
            };
            let ghost before = self.failures@;
            self.failures.push(failure);
            proof {
                lemma_pre_send_count_push(before, failure);
                assert(self.failures@.drop_last() =~= before);
            }
        }
    }

    /// Ends the run: it succeeds, reporting how many sends were attempted,
    /// exactly when no failure was recorded; otherwise it surfaces the full
    /// failure list, in the order the failures happened.
    pub fn into_outcome(self) -> (r: Result<usize, Vec<RecipientFailure>>)
        requires
            self.wf(),
            self.done(),
            !self.awaiting_report(),
        ensures
            r is Ok <==> self.failures_seq().len() == 0,
            r matches Ok(n) ==> n == self.attempted_count() && n == self.total(),
            r matches Err(v) ==> v@ == self.failures_seq(),
    {
        if self.failures.len() == 0 {
            Ok(self.attempted)
        } else {
            Err(self.failures)
        }
    }

    pub fn total_len(&self) -> (n: usize)
        ensures
            n == self.total(),
    {
        self.records.len()
    }

    pub fn processed(&self) -> (n: usize)
        ensures
            n == self.next_index(),
    {
        self.next
    }

    pub fn attempted(&self) -> (n: usize)
        ensures
            n == self.attempted_count(),
    {
        self.attempted
    }

    pub fn is_done(&self) -> (b: bool)
        ensures
            b == self.done(),
    {
        self.next == self.records.len()
    }

    pub fn is_awaiting_report(&self) -> (b: bool)
        ensures
            b == self.awaiting_report(),
    {
        self.awaiting
    }

    pub fn failures(&self) -> (v: &Vec<RecipientFailure>)
        ensures
            v@ == self.failures_seq(),
    {
        &self.failures
    }
}

/// The decided recipients of a well-formed run split exactly into attempted
/// sends and pre-send failures: every recipient is attempted or skipped,
/// never both and never neither.
pub proof fn lemma_send_accounting(b: &Batch)
    requires
        b.wf(),
    ensures
        b.attempted_count() + pre_send_count(b.failures_seq()) == b.next_index(),
{
}

/// Sends are handed out in strictly increasing array order, at most one per
/// recipient, and only for recipients the run has already reached.
pub proof fn lemma_sends_in_order(b: &Batch)
    requires
        b.wf(),
    ensures
        b.sent_seq().len() == b.attempted_count(),
        strictly_increasing(b.sent_seq()),
        forall|i: int| 0 <= i < b.sent_seq().len() ==> 0 <= #[trigger] b.sent_seq()[i] < b.total(),
{
}

/// A recipient that was skipped before its send — an invalid address or a
/// failed message assembly — is never among the attempted sends.
pub proof fn lemma_skipped_never_attempted(b: &Batch)
    requires
        b.wf(),
    ensures
        forall|i: int, j: int|
            #![trigger b.failures_seq()[i].index, b.sent_seq()[j]]
            0 <= i < b.failures_seq().len() && 0 <= j < b.sent_seq().len() && !(b.failures_seq()[i].kind
                is Send) ==> b.failures_seq()[i].index != b.sent_seq()[j],
{
}

/// In a strictly increasing sequence of naturals, each element is at least
/// its position.
proof fn lemma_increasing_lower_bound(s: Seq<int>, i: int)
    requires
        strictly_increasing(s),
        forall|k: int| 0 <= k < s.len() ==> 0 <= #[trigger] s[k],
        0 <= i < s.len(),
    ensures
        s[i] >= i,
    decreases i,
{
    if i > 0 {
        lemma_increasing_lower_bound(s, i - 1);
    }
}

/// In a strictly increasing sequence bounded above, each element leaves room
/// for all the elements after it.
proof fn lemma_increasing_upper_bound(s: Seq<int>, i: int, bound: int)
    requires
        strictly_increasing(s),
        forall|k: int| 0 <= k < s.len() ==> #[trigger] s[k] < bound,
        0 <= i < s.len(),
    ensures
        s[i] <= bound - (s.len() - i),
    decreases s.len() - i,
{
    if i + 1 < s.len() {
        lemma_increasing_upper_bound(s, i + 1, bound);
    }
}

/// A finished run that recorded no pre-send failure attempted exactly one
/// send per recipient: the i-th message handed out was for recipient i, so
/// an N-element list gets exactly N sends, in array order.
pub proof fn lemma_all_valid_all_attempted(b: &Batch)
    requires
        b.wf(),
        b.done(),
        pre_send_count(b.failures_seq()) == 0,
    ensures
        b.attempted_count() == b.total(),
        b.sent_seq().len() == b.total(),
        forall|i: int| 0 <= i < b.sent_seq().len() ==> b.sent_seq()[i] == i,
{
    assert forall|i: int| 0 <= i < b.sent_seq().len() implies b.sent_seq()[i] == i by {
        lemma_increasing_lower_bound(b.sent_seq(), i);
        lemma_increasing_upper_bound(b.sent_seq(), i, b.total() as int);
    }
}

/// Every recorded failure is attributable: failures carry strictly
/// increasing recipient indices — at most one failure per recipient — and
/// each index belongs to a recipient that has already been decided.
pub proof fn lemma_failures_attributable(b: &Batch)
    requires
        b.wf(),
    ensures
        forall|i: int|
            0 <= i < b.failures_seq().len() ==> #[trigger] b.failures_seq()[i].index
                < b.next_index(),
        forall|i: int, j: int|
            #![trigger b.failures_seq()[i].index, b.failures_seq()[j].index]
            0 <= i < j < b.failures_seq().len() ==> b.failures_seq()[i].index
                < b.failures_seq()[j].index,
{
}

} // verus!
