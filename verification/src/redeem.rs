//! Reading the server's answers, and the retry rules: every kind of request
//! is sent at most `MAX_ATTEMPTS` times (the first try and its retries
//! together), the way the redeem workers count their attempts.

use vstd::prelude::*;
use vstd::string::*;
use crate::text::same_text;

verus! {

/// The HTTP status of a successful request.
pub const STATUS_OK: u16 = 200;

/// The most times one request is sent: the validation and the catalog lookup
/// in a run, and the redeem request by each worker.
pub const MAX_ATTEMPTS: u32 = 3;

/// The fewest redeem workers that are started.
pub const MIN_WORKERS: usize = 4;

/// The message with which the server confirms a claimed coupon.
pub const CLAIMED_MESSAGE: &'static str = "Kupon berhasil diklaim";

/// Whether an answer to the validation request settles it: status 200.
pub fn validation_done(status: u16) -> (r: bool)
    ensures
        r == (status == STATUS_OK),
{
    status == STATUS_OK
}

/// What an answer to the catalog lookup means.
#[derive(Clone, Copy, Debug, PartialEq, Eq, Structural)]
pub enum CatalogAnswer {
    /// The answer holds the catalog id.
    Found(i64),
    /// Status 200, but no catalog id in the answer.
    IdMissing,
    /// Another status.
    Refused(u16),
}

/// What the catalog lookup answered with `status` and the catalog id read
/// from its body means.
pub fn judge_catalog_answer(status: u16, id: Option<i64>) -> (r: CatalogAnswer)
    ensures
        status != STATUS_OK ==> r == CatalogAnswer::Refused(status),
        status == STATUS_OK ==> r == match id {
            Some(n) => CatalogAnswer::Found(n),
            None => CatalogAnswer::IdMissing,
        },
{
    if status == STATUS_OK {
        match id {
            Some(n) => CatalogAnswer::Found(n),
            None => CatalogAnswer::IdMissing,
        }
    } else {
        CatalogAnswer::Refused(status)
    }
}

/// Whether an answer to the catalog lookup settles it: it holds the id.
pub fn catalog_settled(answer: CatalogAnswer) -> (r: bool)
    ensures
        r == (answer is Found),
{
    match answer {
        CatalogAnswer::Found(_) => true,
        _ => false,
    }
}

/// What to do after an answer to the validation or the catalog lookup.
#[derive(Clone, Copy, Debug, PartialEq, Eq, Structural)]
pub enum RetryStep {
    /// The answer settles the request.
    Done,
    /// Send the request again.
    SendAgain,
    /// The request was sent `MAX_ATTEMPTS` times without success: give up.
    GiveUp,
}

/// How often a request has been sent.
#[derive(Clone, Copy, Debug, PartialEq, Eq, Structural)]
pub struct RetryBudget {
    pub sent: u32,
}

/// The decision after the answer to the request sent for the `sent`-th time:
/// done when the answer settles it, else again while fewer than
/// `MAX_ATTEMPTS` were sent, else give up.
pub open spec fn retry_decision(sent: int, settled: bool) -> RetryStep {
    if settled {
        RetryStep::Done
    } else if sent < MAX_ATTEMPTS {
        RetryStep::SendAgain
    } else {
        RetryStep::GiveUp
    }
}

/// The budget after one more answer (the count stops at `u32::MAX`), and the
/// decision it leads to.
pub open spec fn budget_step(b: RetryBudget, settled: bool) -> (RetryBudget, RetryStep) {
    let sent: u32 = if b.sent < u32::MAX {
        (b.sent + 1) as u32
    } else {
        b.sent
    };
    (RetryBudget { sent }, retry_decision(sent as int, settled))
}

impl RetryBudget {
    /// A request not sent yet.
    pub fn new() -> (r: RetryBudget)
        ensures
            r == (RetryBudget { sent: 0 }),
    {
        RetryBudget { sent: 0 }
    }

    /// Counts the request just answered, and decides what comes next given
    /// whether the answer settles the request.
    pub fn after_answer(&mut self, settled: bool) -> (r: RetryStep)
        ensures
            (*final(self), r) == budget_step(*old(self), settled),
    {
        if self.sent < u32::MAX {
            self.sent = self.sent + 1;
        }
        if settled {
            RetryStep::Done
        } else if self.sent < MAX_ATTEMPTS {
            RetryStep::SendAgain
        } else {
            RetryStep::GiveUp
        }
    }
}

/// The number of times a request is sent when its answers, one after the
/// other, settle it or not as `settled` says.
pub open spec fn requests_sent(b: RetryBudget, settled: Seq<bool>) -> nat
    decreases settled.len(),
{
    if settled.len() == 0 {
        0
    } else {
        let (next, step) = budget_step(b, settled[0]);
        1 + if step is SendAgain {
            requests_sent(next, settled.drop_first())
        } else {
            0
        }
    }
}

proof fn lemma_requests_bounded(b: RetryBudget, settled: Seq<bool>)
    requires
        b.sent < MAX_ATTEMPTS,
    ensures
        b.sent + requests_sent(b, settled) <= MAX_ATTEMPTS,
    decreases settled.len(),
{
    if settled.len() > 0 {
        let (next, step) = budget_step(b, settled[0]);
        if step is SendAgain {
            lemma_requests_bounded(next, settled.drop_first());
        }
    }
}

/// The validation and the catalog lookup are each sent at most
/// `MAX_ATTEMPTS` times, whatever the server answers.
pub proof fn lemma_request_sent_at_most_max_attempts(settled: Seq<bool>)
    ensures
        requests_sent(RetryBudget { sent: 0 }, settled) <= MAX_ATTEMPTS,
{
    lemma_requests_bounded(RetryBudget { sent: 0 }, settled);
}

/// A request is given up only after `MAX_ATTEMPTS` unsettled answers, and
/// sent again after any earlier one.
pub proof fn lemma_give_up_only_when_spent(b: RetryBudget, settled: bool)
    requires
        b.sent < u32::MAX,
    ensures
        budget_step(b, settled).1 == (if settled {
            RetryStep::Done
        } else if b.sent + 1 < MAX_ATTEMPTS {
            RetryStep::SendAgain
        } else {
            RetryStep::GiveUp
        }),
{
}

/// What an answer to a redeem request means.
pub enum RedeemVerdict {
    /// The coupon is claimed: every worker stops.
    Claimed,
    /// Status 200 with another message.
    Unexpected(String),
    /// Status 200 without a message.
    MessageMissing,
    /// Another status.
    NotAccepted,
}

/// What a redeem answer with `status` and the message read from its body means.
pub open spec fn redeem_verdict_of(status: u16, message: Option<Seq<char>>) -> RedeemVerdictKind {
    if status != STATUS_OK {
        RedeemVerdictKind::NotAccepted
    } else {
        match message {
            Some(m) => if m == CLAIMED_MESSAGE@ {
                RedeemVerdictKind::Claimed
            } else {
                RedeemVerdictKind::Unexpected(m)
            },
            None => RedeemVerdictKind::MessageMissing,
        }
    }
}

/// A redeem answer counts as a claim exactly when its status is 200 and its
/// message is the confirmation `Kupon berhasil diklaim`, character for
/// character; any other message with status 200 is reported back as it came.
pub proof fn lemma_claimed_only_on_confirmation(status: u16, message: Option<Seq<char>>)
    ensures
        (redeem_verdict_of(status, message) is Claimed) <==> (status == 200 && message == Some(
            "Kupon berhasil diklaim"@,
        )),
        status == 200 && message is Some && message->0 != "Kupon berhasil diklaim"@
            ==> redeem_verdict_of(status, message) == RedeemVerdictKind::Unexpected(message->0),
        status != 200 ==> redeem_verdict_of(status, message) is NotAccepted,
        status == 200 && message is None ==> redeem_verdict_of(status, message) is MessageMissing,
{
}

/// A redeem verdict with its message as text.
pub enum RedeemVerdictKind {
    Claimed,
    Unexpected(Seq<char>),
    MessageMissing,
    NotAccepted,
}

impl RedeemVerdict {
    /// The verdict with its message as text.
    pub open spec fn kind(&self) -> RedeemVerdictKind {
        match self {
            RedeemVerdict::Claimed => RedeemVerdictKind::Claimed,
            RedeemVerdict::Unexpected(m) => RedeemVerdictKind::Unexpected(m@),
            RedeemVerdict::MessageMissing => RedeemVerdictKind::MessageMissing,
            RedeemVerdict::NotAccepted => RedeemVerdictKind::NotAccepted,
        }
    }
}

/// What the redeem answer with `status` and `message` means: claimed exactly
/// when the status is 200 and the message is the confirmation.
pub fn judge_redeem_answer(status: u16, message: Option<String>) -> (r: RedeemVerdict)
    ensures
        r.kind() == redeem_verdict_of(
            status,
            match message {
                Some(m) => Some(m@),
                None => None,
            },
        ),
        (r is Claimed) <==> (status == STATUS_OK && message is Some && message->0@
            == CLAIMED_MESSAGE@),
        status == STATUS_OK && message is Some && message->0@ != CLAIMED_MESSAGE@ ==> (r is Unexpected
            && r->Unexpected_0@ == message->0@),
        status == STATUS_OK && message is None ==> r is MessageMissing,
        status != STATUS_OK ==> r is NotAccepted,
{
    if status != STATUS_OK {
        return RedeemVerdict::NotAccepted;
    }
    match message {
        Some(m) => {
            if same_text(m.as_str(), CLAIMED_MESSAGE) {
                RedeemVerdict::Claimed
            } else {
                RedeemVerdict::Unexpected(m)
            }
        },
        None => RedeemVerdict::MessageMissing,
    }
}

/// How a worker ends.
#[derive(Clone, Copy, Debug, PartialEq, Eq, Structural)]
pub enum WorkerEnd {
    /// This worker claimed the coupon; all workers are told to stop.
    Claimed,
    /// Another worker asked all to stop.
    Stopped,
    /// This worker has sent all its attempts.
    Exhausted,
}

/// What a worker does next.
#[derive(Clone, Copy, Debug, PartialEq, Eq, Structural)]
pub enum WorkerStep {
    /// Send redeem request number `n` (counted from 1).
    Send(u32),
    /// Stop working.
    Finish(WorkerEnd),
}

/// One redeem worker: how many requests it has sent, and whether one of them
/// claimed the coupon.
#[derive(Clone, Copy, Debug, PartialEq, Eq, Structural)]
pub struct RedeemWorker {
    pub attempts: u32,
    pub claimed: bool,
}

/// The next step of worker `w` when the shared stop request is `stop`, and the
/// worker afterwards.
pub open spec fn worker_step(w: RedeemWorker, stop: bool) -> (RedeemWorker, WorkerStep) {
    if w.claimed {
        (w, WorkerStep::Finish(WorkerEnd::Claimed))
    } else if stop {
        (w, WorkerStep::Finish(WorkerEnd::Stopped))
    } else if w.attempts >= MAX_ATTEMPTS {
        (w, WorkerStep::Finish(WorkerEnd::Exhausted))
    } else {
        (
            RedeemWorker { attempts: (w.attempts + 1) as u32, claimed: w.claimed },
            WorkerStep::Send((w.attempts + 1) as u32),
        )
    }
}

impl RedeemWorker {
    /// A worker that has sent nothing yet.
    pub fn new() -> (r: RedeemWorker)
        ensures
            r == (RedeemWorker { attempts: 0, claimed: false }),
    {
        RedeemWorker { attempts: 0, claimed: false }
    }

    /// Decides the next step, given whether all workers were asked to stop.
    pub fn next_step(&mut self, stop_requested: bool) -> (r: WorkerStep)
        ensures
            (*final(self), r) == worker_step(*old(self), stop_requested),
    {
        if self.claimed {
            WorkerStep::Finish(WorkerEnd::Claimed)
        } else if stop_requested {
            WorkerStep::Finish(WorkerEnd::Stopped)
        } else if self.attempts >= MAX_ATTEMPTS {
            WorkerStep::Finish(WorkerEnd::Exhausted)
        } else {
            self.attempts = self.attempts + 1;
            WorkerStep::Send(self.attempts)
        }
    }

    /// Takes note of the verdict on the request just sent.
    pub fn record(&mut self, verdict: &RedeemVerdict)
        ensures
            final(self).attempts == old(self).attempts,
            final(self).claimed == (old(self).claimed || verdict.kind() is Claimed),
    {
        if let RedeemVerdict::Claimed = verdict {
            self.claimed = true;
        }
    }
}

/// The number of redeem requests worker `w` sends when, round after round,
/// it sees the stop requests `stops[i]` and its request of that round claims
/// the coupon when `claims[i]` holds.
pub open spec fn sends_in_run(w: RedeemWorker, stops: Seq<bool>, claims: Seq<bool>) -> nat
    decreases stops.len(),
{
    if stops.len() == 0 || claims.len() == 0 {
        0
    } else {
        let (next, step) = worker_step(w, stops[0]);
        match step {
            WorkerStep::Send(_) => 1 + sends_in_run(
                RedeemWorker { attempts: next.attempts, claimed: next.claimed || claims[0] },
                stops.drop_first(),
                claims.drop_first(),
            ),
            WorkerStep::Finish(_) => 0,
        }
    }
}

proof fn lemma_sends_bounded(w: RedeemWorker, stops: Seq<bool>, claims: Seq<bool>)
    requires
        w.attempts <= MAX_ATTEMPTS,
    ensures
        sends_in_run(w, stops, claims) + w.attempts <= MAX_ATTEMPTS,
    decreases stops.len(),
{
    if stops.len() > 0 && claims.len() > 0 {
        let (next, step) = worker_step(w, stops[0]);
        if step is Send {
            lemma_sends_bounded(
                RedeemWorker { attempts: next.attempts, claimed: next.claimed || claims[0] },
                stops.drop_first(),
                claims.drop_first(),
            );
        }
    }
}

/// A worker sends at most `MAX_ATTEMPTS` redeem requests, whatever the stop
/// requests it sees and whatever the server answers.
pub proof fn lemma_worker_sends_at_most_max_attempts(stops: Seq<bool>, claims: Seq<bool>)
    ensures
        sends_in_run(RedeemWorker { attempts: 0, claimed: false }, stops, claims) <= MAX_ATTEMPTS,
{
    lemma_sends_bounded(RedeemWorker { attempts: 0, claimed: false }, stops, claims);
}

/// A worker that has claimed the coupon, or that is asked to stop, sends
/// nothing more.
pub proof fn lemma_no_send_after_claim_or_stop(w: RedeemWorker, stop: bool)
    requires
        w.claimed || stop,
    ensures
        worker_step(w, stop).1 is Finish,
        worker_step(w, stop).0 == w,
{
}

/// A request numbered `n` by a worker is never beyond `MAX_ATTEMPTS`, and the
/// numbers count up one by one.
pub proof fn lemma_attempt_numbers(w: RedeemWorker, stop: bool)
    ensures
        worker_step(w, stop).1 matches WorkerStep::Send(n) ==> n == w.attempts + 1 && 1 <= n
            <= MAX_ATTEMPTS && worker_step(w, stop).0.attempts == n,
{
}

/// Calls `num_cpus::get()`, the number of logical CPUs this process may use;
/// the contract claims only what the crate documents of every call: the
/// number is at least 1. Two calls may give different numbers.
#[verifier::external_body]
fn available_cpus() -> (r: usize)
    ensures
        r >= 1,
{
    num_cpus::get()
}

/// The number of redeem workers, from two readings of the CPU count: the
/// second reading when the first is above `MIN_WORKERS`, else `MIN_WORKERS`.
pub fn worker_count_from(first: usize, second: usize) -> (r: usize)
    ensures
        r == if first > MIN_WORKERS {
            second
        } else {
            MIN_WORKERS
        },
{
    if first > MIN_WORKERS {
        second
    } else {
        MIN_WORKERS
    }
}

/// The number of redeem workers for this machine, by `worker_count_from` from
/// two readings of the CPU count. The readings come from the machine and may
/// differ, so all that holds of every outcome is that there is at least one
/// worker.
pub fn redeem_worker_count() -> (r: usize)
    ensures
        r >= 1,
{
    let first = available_cpus();
    let second = available_cpus();
    worker_count_from(first, second)
}

} // verus!
