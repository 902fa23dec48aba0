//! Pacing and per-tick policy of the payment loop.
//!
//! The loop runs forever: each tick fetches the vault, builds and submits
//! one transaction, reports the outcome in one line, and sleeps for the
//! configured number of days. Every outcome — success or any per-tick
//! failure — leads to the same place: the sleep, then the next tick. A
//! duration of zero days means an immediate retry.

use vstd::prelude::*;
use vstd::string::StringExecFns;

verus! {

/// Milliseconds in one day.
pub const MILLIS_PER_DAY: u64 = 86400 * 1000;

/// The durability level a submission waits for.
pub enum Commitment {
    /// The transaction was processed by a node (the weakest level).
    Processed,
    /// The transaction was confirmed by the cluster.
    Confirmed,
    /// The transaction landed in a finalized block (the strongest level).
    Finalized,
}

/// The fixed send policy of the loop: wait at the lowest commitment level,
/// skip the preflight simulation, and override nothing else. A deliberate
/// throughput-over-assurance choice; raising the commitment to `Confirmed`
/// is an operator decision, not a default.
pub struct SendPolicy {
    /// The commitment level submission waits for.
    pub commitment: Commitment,
    /// Whether to skip the preflight simulation.
    pub skip_preflight: bool,
    /// A preflight commitment override; none is set.
    pub preflight_commitment: Option<Commitment>,
    /// A server-side retry override; none is set.
    pub max_retries: Option<u64>,
    /// A minimum context slot constraint; none is set.
    pub min_context_slot: Option<u64>,
}

/// The send policy every submission uses.
pub fn send_policy() -> (p: SendPolicy)
    ensures
        p.commitment is Processed,
        p.skip_preflight,
        p.preflight_commitment is None,
        p.max_retries is None,
        p.min_context_slot is None,
{
    SendPolicy {
        commitment: Commitment::Processed,
        skip_preflight: true,
        preflight_commitment: None,
        max_retries: None,
        min_context_slot: None,
    }
}

/// How a payment tick ended.
pub enum TickOutcome {
    /// The transaction was submitted; the cluster returned this signature.
    Submitted(String),
    /// The vault account or the blockhash could not be fetched.
    TransportFailed(String),
    /// The vault record could not be decoded.
    DecodeFailed(String),
    /// The cluster rejected the submission.
    SubmitFailed(String),
}

/// The one-line outcome record a tick emits.
pub fn outcome_line(outcome: &TickOutcome) -> (r: String)
    ensures
        outcome matches TickOutcome::Submitted(sig) ==> r@ == "Transaction sig: "@ + sig@,
        outcome matches TickOutcome::TransportFailed(msg) ==> r@ == "Transport error: "@ + msg@,
        outcome matches TickOutcome::DecodeFailed(msg) ==> r@ == "Decode error: "@ + msg@,
        outcome matches TickOutcome::SubmitFailed(msg) ==> r@ == "Transaction failed. Error: "@
            + msg@,
{
    match outcome {
        TickOutcome::Submitted(sig) => "Transaction sig: ".to_owned().concat(sig.as_str()),
        TickOutcome::TransportFailed(msg) => "Transport error: ".to_owned().concat(msg.as_str()),
        TickOutcome::DecodeFailed(msg) => "Decode error: ".to_owned().concat(msg.as_str()),
        TickOutcome::SubmitFailed(msg) => "Transaction failed. Error: ".to_owned().concat(
            msg.as_str(),
        ),
    }
}

/// The sleep between two ticks, in milliseconds: exactly the configured
/// days times the milliseconds of a day. Zero days sleeps not at all.
pub fn interval_millis(duration_days: u16) -> (r: u64)
    ensures
        r == duration_days as u64 * 86400 * 1000,
{
    duration_days as u64 * MILLIS_PER_DAY
}

/// What the loop does once a tick has ended, whatever its outcome.
pub struct TickPlan {
    /// The outcome record to print.
    pub line: String,
    /// How long to sleep before the next tick, in milliseconds.
    pub sleep_millis: u64,
}

/// Plans the rest of a tick from its outcome: print the one-line record,
/// sleep the full configured interval, then start the next tick. Every
/// outcome, success or failure, reaches the sleep — the loop never stops
/// from steady state, and a missed payment is not caught up early.
pub fn plan_after_tick(outcome: &TickOutcome, duration_days: u16) -> (plan: TickPlan)
    ensures
        plan.sleep_millis == duration_days as u64 * 86400 * 1000,
        outcome matches TickOutcome::Submitted(sig) ==> plan.line@ == "Transaction sig: "@ + sig@,
        outcome matches TickOutcome::TransportFailed(msg) ==> plan.line@ == "Transport error: "@
            + msg@,
        outcome matches TickOutcome::DecodeFailed(msg) ==> plan.line@ == "Decode error: "@ + msg@,
        outcome matches TickOutcome::SubmitFailed(msg) ==> plan.line@
            == "Transaction failed. Error: "@ + msg@,
{
    TickPlan { line: outcome_line(outcome), sleep_millis: interval_millis(duration_days) }
}

} // verus!
