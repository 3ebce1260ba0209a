//! What holds of the operations taken together.

use crate::contract::AnchorKitContract;
use crate::errors::Error;
use crate::storage::{Ledger, Storage};
use crate::types::{Address, Attestation, Digest, TransactionIntentBuilder};
use vstd::prelude::*;

verus! {

/// A submission with a payload hash that is marked used is turned down,
/// whoever issues it and whatever it is about; if its timestamp is not 0 and
/// its issuer is an attestor, the fault is the replay.
pub proof fn lemma_used_hash_rejected(
    ledger: Ledger,
    issuer: Address,
    timestamp: u64,
    payload_hash: Digest,
)
    requires
        ledger.is_hash_used(payload_hash),
    ensures
        AnchorKitContract::submission_fault(ledger, issuer, timestamp, payload_hash).is_some(),
        timestamp != 0 && ledger.is_attestor(issuer) ==> AnchorKitContract::submission_fault(
            ledger,
            issuer,
            timestamp,
            payload_hash,
        ) == Some(Error::ReplayAttack),
{
}

/// Recording an attestation marks its payload hash used and keeps every
/// hash that was used.
pub proof fn lemma_attested_marks_hash(ledger: Ledger, attestation: Attestation)
    ensures
        AnchorKitContract::attested(ledger, attestation).is_hash_used(attestation.payload_hash),
        AnchorKitContract::hashes_kept(ledger, AnchorKitContract::attested(ledger, attestation)),
{
}

/// Logging an operation keeps every hash that was used.
pub proof fn lemma_logged_keeps_hashes(
    before: Ledger,
    after: Ledger,
    session_id: u64,
    actor: Address,
    operation_type: Seq<char>,
    status: Seq<char>,
    result_data: u64,
)
    requires
        AnchorKitContract::logged(
            before,
            after,
            session_id,
            actor,
            operation_type,
            status,
            result_data,
        ),
    ensures
        AnchorKitContract::hashes_kept(before, after),
{
}

/// Used hashes are kept over any number of steps that each keep them.
pub proof fn lemma_hashes_kept_along(trace: Seq<Ledger>, n: int)
    requires
        0 <= n < trace.len(),
        forall|i: int|
            #![trigger trace[i]]
            0 <= i < n ==> AnchorKitContract::hashes_kept(trace[i], trace[i + 1]),
    ensures
        AnchorKitContract::hashes_kept(trace[0], trace[n]),
    decreases n,
{
    if n > 0 {
        lemma_hashes_kept_along(trace, n - 1);
        assert(AnchorKitContract::hashes_kept(trace[n - 1], trace[n - 1 + 1]));
    }
}

/// Replay uniqueness. Take a submission that is accepted on the first ledger
/// of a trace, let the second ledger be the first with that attestation
/// recorded, and let every later step keep the used hashes, as every
/// operation of the core does. Then on every later ledger a submission with
/// the same payload hash is turned down, whoever issues it; where its
/// timestamp is not 0 and its issuer is an attestor, as a replay.
pub proof fn law_replay_uniqueness(
    trace: Seq<Ledger>,
    first: Attestation,
    n: int,
    issuer: Address,
    timestamp: u64,
)
    requires
        1 <= n < trace.len(),
        AnchorKitContract::submission_fault(
            trace[0],
            first.issuer,
            first.timestamp,
            first.payload_hash,
        ).is_none(),
        trace[1] == AnchorKitContract::attested(trace[0], first),
        forall|i: int|
            #![trigger trace[i]]
            1 <= i < n ==> AnchorKitContract::hashes_kept(trace[i], trace[i + 1]),
    ensures
        AnchorKitContract::submission_fault(
            trace[n],
            issuer,
            timestamp,
            first.payload_hash,
        ).is_some(),
        timestamp != 0 && trace[n].is_attestor(issuer) ==> AnchorKitContract::submission_fault(
            trace[n],
            issuer,
            timestamp,
            first.payload_hash,
        ) == Some(Error::ReplayAttack),
{
    lemma_attested_marks_hash(trace[0], first);
    let rest = trace.subrange(1, trace.len() as int);
    assert forall|i: int| #![trigger rest[i]] 0 <= i < n - 1 implies AnchorKitContract::hashes_kept(
        rest[i],
        rest[i + 1],
    ) by {
        assert(rest[i] == trace[i + 1]);
        assert(rest[i + 1] == trace[i + 1 + 1]);
    }
    lemma_hashes_kept_along(rest, n - 1);
    assert(rest[0] == trace[1]);
    assert(rest[n - 1] == trace[n]);
    lemma_used_hash_rejected(trace[n], issuer, timestamp, first.payload_hash);
}

/// `after` is `before` with one more operation logged for the session, by
/// whom and of what kind soever.
pub open spec fn logs_once(before: Ledger, after: Ledger, session_id: u64) -> bool {
    exists|actor: Address, operation_type: Seq<char>, status: Seq<char>, result_data: u64|
        AnchorKitContract::logged(
            before,
            after,
            session_id,
            actor,
            operation_type,
            status,
            result_data,
        )
}

/// One logged operation: the entry gets the session's count as its index,
/// the session's count goes up by one, and no other session's count moves.
pub proof fn lemma_audit_step(before: Ledger, after: Ledger, session_id: u64)
    requires
        logs_once(before, after, session_id),
        before.operation_count(session_id) < u64::MAX,
    ensures
        after.audit_logs.contains_key(before.audit_counter),
        after.audit_logs[before.audit_counter].operation.operation_index
            == before.operation_count(session_id),
        after.operation_count(session_id) == before.operation_count(session_id) + 1,
        forall|other: u64|
            other != session_id ==> after.operation_count(other) == before.operation_count(other),
{
}

/// Audit monotonicity. Over `n` operations logged one after another for a
/// session, the session's count goes up by `n`, and the last of them has as
/// its index the count that the session started with plus `n - 1`: for a
/// session that starts at 0, the entry after `n` logged operations has
/// index `n`, and the count is the number of logged operations.
pub proof fn law_audit_monotonicity(trace: Seq<Ledger>, session_id: u64, n: int)
    requires
        0 <= n < trace.len(),
        forall|i: int|
            #![trigger trace[i]]
            0 <= i < n ==> logs_once(trace[i], trace[i + 1], session_id)
                && trace[i].operation_count(session_id) < u64::MAX,
    ensures
        trace[n].operation_count(session_id) == trace[0].operation_count(session_id) + n,
        n > 0 ==> trace[n].audit_logs[trace[n - 1].audit_counter].operation.operation_index
            == trace[0].operation_count(session_id) + n - 1,
    decreases n,
{
    if n > 0 {
        law_audit_monotonicity(trace, session_id, n - 1);
        assert(logs_once(trace[n - 1], trace[n - 1 + 1], session_id));
        lemma_audit_step(trace[n - 1], trace[n], session_id);
    }
}

/// Quote staleness and expiry tightening. For a request that names a stored
/// quote and passes every check before the quote is looked at: from the
/// quote's `valid_until` on, the request fails as stale; before it, a quote
/// that fits the request gives an intent with the quote's rate and fee that
/// lapses at `valid_until` or at the end of its time to live, whichever
/// comes first.
pub proof fn law_quote_staleness(ledger: Ledger, builder: TransactionIntentBuilder)
    requires
        builder.quote_id != 0,
        AnchorKitContract::request_fault(ledger, builder).is_none(),
        Storage::quote_in(ledger, builder.anchor, builder.quote_id).is_some(),
    ensures
        ({
            let quote = Storage::quote_in(ledger, builder.anchor, builder.quote_id).unwrap();
            let decision = AnchorKitContract::intent_for(ledger, builder);
            &&& ledger.timestamp >= quote.valid_until ==> decision == Err::<
                crate::types::TransactionIntent,
                Error,
            >(Error::StaleQuote)
            &&& ledger.timestamp < quote.valid_until && quote.fits(&builder.request) ==> {
                &&& decision.is_ok()
                &&& decision.unwrap().has_quote
                &&& decision.unwrap().rate == quote.rate
                &&& decision.unwrap().fee_percentage == quote.fee_percentage
                &&& decision.unwrap().expires_at <= quote.valid_until
                &&& decision.unwrap().expires_at <= ledger.timestamp + builder.ttl_seconds
                &&& decision.unwrap().expires_at == quote.valid_until
                    || decision.unwrap().expires_at == ledger.timestamp + builder.ttl_seconds
            }
        }),
{
}

/// Reads repeat. What `get_quote`, `get_session` and `get_audit_log` return
/// is a function of the stored quotes, sessions and audit entries: on two
/// ledgers that agree in these, each read returns the same, and logging an
/// operation changes neither a quote nor a session nor an earlier entry.
pub proof fn law_reads_repeat(
    before: Ledger,
    after: Ledger,
    anchor: Address,
    quote_id: u64,
    log_id: u64,
)
    ensures
        before.quotes == after.quotes ==> Storage::quote_in(before, anchor, quote_id)
            == Storage::quote_in(after, anchor, quote_id),
        before.audit_logs == after.audit_logs ==> Storage::audit_log_in(before, log_id)
            == Storage::audit_log_in(after, log_id),
        forall|session_id: u64|
            logs_once(before, after, session_id) ==> ({
                &&& after.quotes == before.quotes
                &&& after.sessions == before.sessions
                &&& log_id != before.audit_counter ==> Storage::audit_log_in(after, log_id)
                    == Storage::audit_log_in(before, log_id)
            }),
{
}

/// The sessions and the operation counts of `ledger` fit together: every
/// session has an id below the session counter, and operations are counted
/// for sessions only. The empty ledger has this, and opening a session and
/// logging an operation keep it, as does whatever leaves sessions, counts and
/// the session counter alone.
pub open spec fn coherent(ledger: Ledger) -> bool {
    &&& forall|id: u64| #[trigger]
        ledger.sessions.contains_key(id) ==> id < ledger.session_counter
    &&& forall|id: u64| #[trigger]
        ledger.operation_counts.contains_key(id) ==> ledger.sessions.contains_key(id)
}

/// The ledger of a fresh environment is coherent.
pub proof fn lemma_empty_ledger_coherent()
    ensures
        coherent(crate::storage::Env::empty_ledger()),
{
}

/// Coherence is a matter of the sessions, the operation counts and the
/// session counter alone: an operation that leaves the three alone keeps it.
pub proof fn lemma_coherent_frame(before: Ledger, after: Ledger)
    requires
        coherent(before),
        after.sessions == before.sessions,
        after.operation_counts == before.operation_counts,
        after.session_counter == before.session_counter,
    ensures
        coherent(after),
{
}

/// Opening a session keeps coherence, and the new session starts with no
/// operation counted.
pub proof fn lemma_fresh_session_counts_zero(ledger: Ledger, initiator: Address)
    requires
        coherent(ledger),
        ledger.session_counter < u64::MAX,
    ensures
        coherent(AnchorKitContract::session_opened(ledger, initiator)),
        AnchorKitContract::session_opened(ledger, initiator).operation_count(
            ledger.session_counter,
        ) == 0,
        AnchorKitContract::session_opened(ledger, initiator).sessions.contains_key(
            ledger.session_counter,
        ),
{
    let after = AnchorKitContract::session_opened(ledger, initiator);
    assert(!ledger.sessions.contains_key(ledger.session_counter));
    assert(!ledger.operation_counts.contains_key(ledger.session_counter));
    assert forall|id: u64| #[trigger] after.sessions.contains_key(id) implies id
        < after.session_counter by {
        if id != ledger.session_counter {
            assert(ledger.sessions.contains_key(id));
        }
    }
}

/// Logging an operation for a session that exists keeps coherence.
pub proof fn lemma_logged_keeps_coherence(before: Ledger, after: Ledger, session_id: u64)
    requires
        coherent(before),
        before.sessions.contains_key(session_id),
        logs_once(before, after, session_id),
    ensures
        coherent(after),
        after.sessions == before.sessions,
{
    assert forall|id: u64| #[trigger] after.operation_counts.contains_key(id) implies
        after.sessions.contains_key(id) by {
        if id != session_id {
            assert(before.operation_counts.contains_key(id));
        }
    }
}

/// Audit monotonicity from the opening of a session. On a coherent ledger a
/// session is opened, and then `n` operations are logged for it one after
/// another. Then the session's count is `n`, and the last of these entries
/// has index `n - 1`: the count is the number of operations logged, and each
/// entry's index is the number of operations logged before it.
pub proof fn law_audit_counts_from_opening(trace: Seq<Ledger>, initiator: Address, n: int)
    requires
        0 <= n,
        n + 1 < trace.len(),
        coherent(trace[0]),
        trace[0].session_counter < u64::MAX,
        trace[1] == AnchorKitContract::session_opened(trace[0], initiator),
        forall|i: int|
            #![trigger trace[i]]
            1 <= i < n + 1 ==> logs_once(trace[i], trace[i + 1], trace[0].session_counter)
                && trace[i].operation_count(trace[0].session_counter) < u64::MAX,
    ensures
        trace[n + 1].operation_count(trace[0].session_counter) == n,
        n > 0 ==> trace[n + 1].audit_logs[trace[n].audit_counter].operation.operation_index == n
            - 1,
{
    lemma_fresh_session_counts_zero(trace[0], initiator);
    let session_id = trace[0].session_counter;
    let rest = trace.subrange(1, trace.len() as int);
    assert forall|i: int| #![trigger rest[i]] 0 <= i < n implies logs_once(
        rest[i],
        rest[i + 1],
        session_id,
    ) && rest[i].operation_count(session_id) < u64::MAX by {
        assert(rest[i] == trace[i + 1]);
        assert(rest[i + 1] == trace[i + 1 + 1]);
    }
    law_audit_monotonicity(rest, session_id, n);
    assert(rest[0] == trace[1]);
    assert(rest[n] == trace[n + 1]);
    if n > 0 {
        assert(rest[n - 1] == trace[n]);
    }
}

} // verus!
