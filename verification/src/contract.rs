//! The entry points: attestation with replay protection, sessions and their
//! audit trail, the quote registry with best-rate selection, and the
//! building of transaction intents.

use crate::errors::Error;
use crate::storage::{Env, Ledger, Storage};
use crate::types::{
    copy_services, has_service, Address, AnchorServices, Attestation, AuditLog, Digest, Endpoint,
    Event, InteractionSession, OperationContext, QuoteData, QuoteKey, QuoteRequest, RateComparison,
    ServiceType, TransactionIntent, TransactionIntentBuilder,
};
use vstd::prelude::*;

verus! {

/// The operations of the authorization core.
pub struct AnchorKitContract;

impl AnchorKitContract {
    // ----- counters -----

    /// No counter that a call bound to `session_id` may advance stands at
    /// its greatest value.
    pub open spec fn room_for(ledger: Ledger, session_id: u64) -> bool {
        &&& ledger.attestation_counter < u64::MAX
        &&& ledger.quote_counter < u64::MAX
        &&& ledger.intent_counter < u64::MAX
        &&& ledger.session_counter < u64::MAX
        &&& ledger.audit_counter < u64::MAX
        &&& ledger.operation_count(session_id) < u64::MAX
    }

    /// Whether the next call bound to `session_id` can advance each counter
    /// that it may touch.
    pub fn has_room(env: &Env, session_id: u64) -> (r: bool)
        ensures
            r == Self::room_for(env@, session_id),
    {
        Storage::peek_attestation_counter(env) < u64::MAX && Storage::peek_quote_counter(env)
            < u64::MAX && Storage::peek_intent_counter(env) < u64::MAX
            && Storage::peek_session_counter(env) < u64::MAX && Storage::peek_audit_counter(env)
            < u64::MAX && Storage::get_session_operation_count(env, session_id) < u64::MAX
    }

    // ----- administration -----

    /// Sets the administrator, once.
    pub fn initialize(env: &mut Env, admin: Address) -> (r: Result<(), Error>)
        requires
            old(env)@.admin.is_none() ==> old(env)@.has_proof(admin),
        ensures
            Self::hashes_kept(old(env)@, final(env)@),
            old(env)@.admin.is_some() ==> r == Err::<(), Error>(Error::AlreadyInitialized)
                && final(env)@ == old(env)@,
            old(env)@.admin.is_none() ==> r == Ok::<(), Error>(()) && final(env)@ == (Ledger {
                admin: Some(admin),
                ..old(env)@
            }),
    {
        if Storage::has_admin(env) {
            return Err(Error::AlreadyInitialized);
        }
        Storage::set_admin(env, &admin);
        Ok(())
    }

    // ----- the audit trail -----

    /// `log` is the entry with these contents.
    pub open spec fn entry_reads(
        log: AuditLog,
        log_id: u64,
        session_id: u64,
        actor: Address,
        operation_index: u64,
        operation_type: Seq<char>,
        timestamp: u64,
        status: Seq<char>,
        result_data: u64,
    ) -> bool {
        &&& log.log_id == log_id
        &&& log.session_id == session_id
        &&& log.actor == actor
        &&& log.operation.session_id == session_id
        &&& log.operation.operation_index == operation_index
        &&& log.operation.operation_type@ == operation_type
        &&& log.operation.timestamp == timestamp
        &&& log.operation.status@ == status
        &&& log.operation.result_data == result_data
    }

    /// `event` is the notice of a logged operation with these contents.
    pub open spec fn logged_notice(
        event: Event,
        log_id: u64,
        session_id: u64,
        operation_index: u64,
        operation_type: Seq<char>,
        status: Seq<char>,
    ) -> bool {
        match event {
            Event::OperationLogged {
                log_id: l,
                session_id: s,
                operation_index: i,
                operation_type: t,
                status: st,
            } => l == log_id && s == session_id && i == operation_index && t@ == operation_type
                && st@ == status,
            _ => false,
        }
    }

    /// `after` is `before` with one more operation logged for the session:
    /// the entry's id is the audit counter of `before`, its index the number
    /// of operations that the session had logged, both counters have
    /// advanced by one, and a notice of the entry waits to be published.
    /// Nothing else differs.
    pub open spec fn logged(
        before: Ledger,
        after: Ledger,
        session_id: u64,
        actor: Address,
        operation_type: Seq<char>,
        status: Seq<char>,
        result_data: u64,
    ) -> bool {
        let log_id = before.audit_counter;
        let index = before.operation_count(session_id);
        &&& after == (Ledger {
            audit_counter: (log_id + 1) as u64,
            operation_counts: before.operation_counts.insert(session_id, (index + 1) as u64),
            audit_logs: before.audit_logs.insert(log_id, after.audit_logs[log_id]),
            events: before.events.push(after.events.last()),
            ..before
        })
        &&& Self::logged_notice(
            after.events.last(),
            log_id,
            session_id,
            index,
            operation_type,
            status,
        )
        &&& Self::entry_reads(
            after.audit_logs[log_id],
            log_id,
            session_id,
            actor,
            index,
            operation_type,
            before.timestamp,
            status,
            result_data,
        )
    }

    /// Appends one entry to the trail of an existing session and returns the
    /// entry's id. Without the session nothing is written.
    pub fn log_session_operation(
        env: &mut Env,
        session_id: u64,
        actor: &Address,
        operation_type: &str,
        status: &str,
        result_data: u64,
    ) -> (r: Result<u64, Error>)
        requires
            old(env)@.audit_counter < u64::MAX,
            old(env)@.operation_count(session_id) < u64::MAX,
        ensures
            Self::hashes_kept(old(env)@, final(env)@),
            (match r {
                Ok(log_id) => {
                    &&& old(env)@.sessions.contains_key(session_id)
                    &&& log_id == old(env)@.audit_counter
                    &&& Self::logged(
                        old(env)@,
                        final(env)@,
                        session_id,
                        *actor,
                        operation_type@,
                        status@,
                        result_data,
                    )
                },
                Err(e) => {
                    &&& !old(env)@.sessions.contains_key(session_id)
                    &&& e == Error::SessionNotFound
                    &&& final(env)@ == old(env)@
                },
            }),
    {
        if Storage::get_session(env, session_id).is_err() {
            return Err(Error::SessionNotFound);
        }
        let operation_index = Storage::increment_session_operation_count(env, session_id);
        let timestamp = env.timestamp();
        let operation = OperationContext {
            session_id,
            operation_index,
            operation_type: operation_type.to_owned(),
            timestamp,
            status: status.to_owned(),
            result_data,
        };
        let log_id = Storage::log_operation(env, session_id, actor, &operation);
        let notice = Event::OperationLogged {
            log_id,
            session_id,
            operation_index,
            operation_type: operation.operation_type,
            status: operation.status,
        };
        Storage::publish(env, notice);
        assert(env@.events.last() == notice);
        Ok(log_id)
    }

    /// Every hash that was used in `before` is used in `after`: the replay
    /// guard forgets nothing.
    pub open spec fn hashes_kept(before: Ledger, after: Ledger) -> bool {
        forall|h: Digest| before.is_hash_used(h) ==> after.is_hash_used(h)
    }

    // ----- sessions -----

    /// The ledger after a session was opened for `initiator`: the session's
    /// id is the session counter, its nonce the current sequence number, its
    /// operation count starts at 0, and a notice waits to be published.
    pub open spec fn session_opened(ledger: Ledger, initiator: Address) -> Ledger {
        let session_id = ledger.session_counter;
        Ledger {
            session_counter: (session_id + 1) as u64,
            sessions: ledger.sessions.insert(
                session_id,
                Storage::fresh_session(ledger, initiator),
            ),
            session_nonces: ledger.session_nonces.insert(session_id, ledger.sequence as u64),
            events: ledger.events.push(
                Event::SessionCreated { session_id, initiator, timestamp: ledger.timestamp },
            ),
            ..ledger
        }
    }

    /// Opens a session for `initiator` and returns its id.
    pub fn create_session(env: &mut Env, initiator: Address) -> (r: Result<u64, Error>)
        requires
            old(env)@.has_proof(initiator),
            old(env)@.session_counter < u64::MAX,
        ensures
            old(env)@.admin.is_none() ==> r == Err::<u64, Error>(Error::NotInitialized)
                && final(env)@ == old(env)@,
            old(env)@.admin.is_some() ==> r == Ok::<u64, Error>(old(env)@.session_counter)
                && final(env)@ == Self::session_opened(old(env)@, initiator),
            Self::hashes_kept(old(env)@, final(env)@),
    {
        if Storage::get_admin(env).is_err() {
            return Err(Error::NotInitialized);
        }
        let timestamp = env.timestamp();
        let session_id = Storage::create_session(env, &initiator);
        Storage::publish(env, Event::SessionCreated { session_id, initiator, timestamp });
        Ok(session_id)
    }

    /// The session with this id.
    pub fn get_session(env: &Env, session_id: u64) -> (r: Result<InteractionSession, Error>)
        ensures
            r == (if env@.sessions.contains_key(session_id) {
                Ok::<InteractionSession, Error>(env@.sessions[session_id])
            } else {
                Err(Error::SessionNotFound)
            }),
    {
        Storage::get_session(env, session_id)
    }

    /// The entry of the audit trail with this id.
    pub fn get_audit_log(env: &Env, log_id: u64) -> (r: Result<AuditLog, Error>)
        ensures
            r == Storage::audit_log_in(env@, log_id),
    {
        Storage::get_audit_log(env, log_id)
    }

    /// How many operations the session has logged.
    pub fn get_session_operation_count(env: &Env, session_id: u64) -> (r: Result<u64, Error>)
        ensures
            r == (if env@.sessions.contains_key(session_id) {
                Ok::<u64, Error>(env@.operation_count(session_id))
            } else {
                Err(Error::SessionNotFound)
            }),
    {
        if Storage::get_session(env, session_id).is_err() {
            return Err(Error::SessionNotFound);
        }
        Ok(Storage::get_session_operation_count(env, session_id))
    }

    // ----- attestors -----

    /// Registers `attestor`, leaves a notice of it, and logs the attempt,
    /// failed or not, under the session in the administrator's name.
    pub fn register_attestor_with_session(env: &mut Env, session_id: u64, attestor: Address) -> (r:
        Result<(), Error>)
        requires
            old(env)@.admin.is_some() ==> old(env)@.has_proof(old(env)@.admin.unwrap()),
            Self::room_for(old(env)@, session_id),
        ensures
            Self::hashes_kept(old(env)@, final(env)@),
            old(env)@.admin.is_none() ==> r == Err::<(), Error>(Error::NotInitialized)
                && final(env)@ == old(env)@,
            old(env)@.admin.is_some() && !old(env)@.sessions.contains_key(session_id) ==> r
                == Err::<(), Error>(Error::SessionNotFound) && final(env)@ == old(env)@,
            old(env)@.admin.is_some() && old(env)@.sessions.contains_key(session_id) && old(
                env,
            )@.is_attestor(attestor) ==> r == Err::<(), Error>(Error::AttestorAlreadyRegistered)
                && Self::logged(
                old(env)@,
                final(env)@,
                session_id,
                old(env)@.admin.unwrap(),
                "register"@,
                "failed"@,
                0,
            ),
            old(env)@.admin.is_some() && old(env)@.sessions.contains_key(session_id) && !old(
                env,
            )@.is_attestor(attestor) ==> r == Ok::<(), Error>(()) && Self::logged(
                (Ledger {
                    attestors: old(env)@.attestors.insert(attestor, true),
                    events: old(env)@.events.push((Event::AttestorAdded { attestor })),
                    ..old(env)@
                }),
                final(env)@,
                session_id,
                old(env)@.admin.unwrap(),
                "register"@,
                "success"@,
                0,
            ),
    {
        let admin = match Storage::get_admin(env) {
            Ok(a) => a,
            Err(e) => {
                return Err(e);
            },
        };
        if Storage::get_session(env, session_id).is_err() {
            return Err(Error::SessionNotFound);
        }
        if Storage::is_attestor(env, &attestor) {
            let _ = Self::log_session_operation(env, session_id, &admin, "register", "failed", 0);
            return Err(Error::AttestorAlreadyRegistered);
        }
        Storage::set_attestor(env, &attestor, true);
        Storage::publish(env, Event::AttestorAdded { attestor });
        let _ = Self::log_session_operation(env, session_id, &admin, "register", "success", 0);
        Ok(())
    }

    /// Revokes `attestor`, leaves a notice of it, and logs the attempt,
    /// failed or not, under the session in the administrator's name.
    pub fn revoke_attestor_with_session(env: &mut Env, session_id: u64, attestor: Address) -> (r:
        Result<(), Error>)
        requires
            old(env)@.admin.is_some() ==> old(env)@.has_proof(old(env)@.admin.unwrap()),
            Self::room_for(old(env)@, session_id),
        ensures
            Self::hashes_kept(old(env)@, final(env)@),
            old(env)@.admin.is_none() ==> r == Err::<(), Error>(Error::NotInitialized)
                && final(env)@ == old(env)@,
            old(env)@.admin.is_some() && !old(env)@.sessions.contains_key(session_id) ==> r
                == Err::<(), Error>(Error::SessionNotFound) && final(env)@ == old(env)@,
            old(env)@.admin.is_some() && old(env)@.sessions.contains_key(session_id) && !old(
                env,
            )@.is_attestor(attestor) ==> r == Err::<(), Error>(Error::AttestorNotRegistered)
                && Self::logged(
                old(env)@,
                final(env)@,
                session_id,
                old(env)@.admin.unwrap(),
                "revoke"@,
                "failed"@,
                0,
            ),
            old(env)@.admin.is_some() && old(env)@.sessions.contains_key(session_id) && old(
                env,
            )@.is_attestor(attestor) ==> r == Ok::<(), Error>(()) && Self::logged(
                (Ledger {
                    attestors: old(env)@.attestors.insert(attestor, false),
                    events: old(env)@.events.push((Event::AttestorRemoved { attestor })),
                    ..old(env)@
                }),
                final(env)@,
                session_id,
                old(env)@.admin.unwrap(),
                "revoke"@,
                "success"@,
                0,
            ),
    {
        let admin = match Storage::get_admin(env) {
            Ok(a) => a,
            Err(e) => {
                return Err(e);
            },
        };
        if Storage::get_session(env, session_id).is_err() {
            return Err(Error::SessionNotFound);
        }
        if !Storage::is_attestor(env, &attestor) {
            let _ = Self::log_session_operation(env, session_id, &admin, "revoke", "failed", 0);
            return Err(Error::AttestorNotRegistered);
        }
        Storage::set_attestor(env, &attestor, false);
        Storage::publish(env, Event::AttestorRemoved { attestor });
        let _ = Self::log_session_operation(env, session_id, &admin, "revoke", "success", 0);
        Ok(())
    }

    // ----- attestations -----

    /// The hook for checking a signature. It accepts every signature.
    pub fn verify_signature(
        _env: &Env,
        _issuer: &Address,
        _subject: &Address,
        _timestamp: u64,
        _payload_hash: &Digest,
        _signature: &Vec<u8>,
    ) -> (r: Result<(), Error>)
        ensures
            r == Ok::<(), Error>(()),
    {
        Ok(())
    }

    /// Why a submission is turned down on `ledger`, if it is: a zero
    /// timestamp, an issuer that is no attestor, a payload hash that was
    /// used, in this order.
    pub open spec fn submission_fault(
        ledger: Ledger,
        issuer: Address,
        timestamp: u64,
        payload_hash: Digest,
    ) -> Option<Error> {
        if timestamp == 0 {
            Some(Error::InvalidTimestamp)
        } else if !ledger.is_attestor(issuer) {
            Some(Error::UnauthorizedAttestor)
        } else if ledger.is_hash_used(payload_hash) {
            Some(Error::ReplayAttack)
        } else {
            None
        }
    }

    /// The ledger after `attestation` was recorded: it is stored under the
    /// attestation counter, which has advanced, its hash is marked used, and
    /// a notice waits to be published.
    pub open spec fn attested(ledger: Ledger, attestation: Attestation) -> Ledger {
        Ledger {
            attestation_counter: (ledger.attestation_counter + 1) as u64,
            attestations: ledger.attestations.insert(ledger.attestation_counter, attestation),
            used_hashes: ledger.used_hashes.insert(attestation.payload_hash, true),
            events: ledger.events.push(
                Event::AttestationRecorded {
                    id: attestation.id,
                    subject: attestation.subject,
                    timestamp: attestation.timestamp,
                    payload_hash: attestation.payload_hash,
                },
            ),
            ..ledger
        }
    }

    /// Records an attestation unless it is faulty, and returns its id. A
    /// faulty submission changes nothing.
    pub fn submit_attestation(
        env: &mut Env,
        issuer: Address,
        subject: Address,
        timestamp: u64,
        payload_hash: Digest,
        signature: Vec<u8>,
    ) -> (r: Result<u64, Error>)
        requires
            old(env)@.has_proof(issuer),
            old(env)@.attestation_counter < u64::MAX,
        ensures
            Self::hashes_kept(old(env)@, final(env)@),
            (match Self::submission_fault(old(env)@, issuer, timestamp, payload_hash) {
                Some(e) => r == Err::<u64, Error>(e) && final(env)@ == old(env)@,
                None => r == Ok::<u64, Error>(old(env)@.attestation_counter) && final(env)@
                    == Self::attested(
                    old(env)@,
                    (Attestation {
                        id: old(env)@.attestation_counter,
                        issuer,
                        subject,
                        timestamp,
                        payload_hash,
                        signature,
                    }),
                ),
            }),
    {
        if timestamp == 0 {
            return Err(Error::InvalidTimestamp);
        }
        if !Storage::is_attestor(env, &issuer) {
            return Err(Error::UnauthorizedAttestor);
        }
        if Storage::is_hash_used(env, &payload_hash) {
            return Err(Error::ReplayAttack);
        }
        let _ = Self::verify_signature(env, &issuer, &subject, timestamp, &payload_hash, &signature);
        let id = Storage::get_and_increment_counter(env);
        let attestation = Attestation { id, issuer, subject, timestamp, payload_hash, signature };
        Storage::set_attestation(env, id, attestation);
        Storage::mark_hash_used(env, &payload_hash);
        Storage::publish(env, Event::AttestationRecorded { id, subject, timestamp, payload_hash });
        Ok(id)
    }

    /// Records an attestation as `submit_attestation` does, and logs the
    /// attempt, failed or not, under the session in the issuer's name.
    /// Without the session nothing is written.
    pub fn submit_attestation_with_session(
        env: &mut Env,
        session_id: u64,
        issuer: Address,
        subject: Address,
        timestamp: u64,
        payload_hash: Digest,
        signature: Vec<u8>,
    ) -> (r: Result<u64, Error>)
        requires
            old(env)@.has_proof(issuer),
            Self::room_for(old(env)@, session_id),
        ensures
            Self::hashes_kept(old(env)@, final(env)@),
            !old(env)@.sessions.contains_key(session_id) ==> r == Err::<u64, Error>(
                Error::SessionNotFound,
            ) && final(env)@ == old(env)@,
            old(env)@.sessions.contains_key(session_id) ==> (match Self::submission_fault(
                old(env)@,
                issuer,
                timestamp,
                payload_hash,
            ) {
                Some(e) => r == Err::<u64, Error>(e) && Self::logged(
                    old(env)@,
                    final(env)@,
                    session_id,
                    issuer,
                    "attest"@,
                    "failed"@,
                    0,
                ),
                None => r == Ok::<u64, Error>(old(env)@.attestation_counter) && Self::logged(
                    Self::attested(
                        old(env)@,
                        (Attestation {
                            id: old(env)@.attestation_counter,
                            issuer,
                            subject,
                            timestamp,
                            payload_hash,
                            signature,
                        }),
                    ),
                    final(env)@,
                    session_id,
                    issuer,
                    "attest"@,
                    "success"@,
                    old(env)@.attestation_counter,
                ),
            }),
    {
        if Storage::get_session(env, session_id).is_err() {
            return Err(Error::SessionNotFound);
        }
        if timestamp == 0 {
            let _ = Self::log_session_operation(env, session_id, &issuer, "attest", "failed", 0);
            return Err(Error::InvalidTimestamp);
        }
        if !Storage::is_attestor(env, &issuer) {
            let _ = Self::log_session_operation(env, session_id, &issuer, "attest", "failed", 0);
            return Err(Error::UnauthorizedAttestor);
        }
        if Storage::is_hash_used(env, &payload_hash) {
            let _ = Self::log_session_operation(env, session_id, &issuer, "attest", "failed", 0);
            return Err(Error::ReplayAttack);
        }
        let _ = Self::verify_signature(env, &issuer, &subject, timestamp, &payload_hash, &signature);
        let id = Storage::get_and_increment_counter(env);
        let attestation = Attestation { id, issuer, subject, timestamp, payload_hash, signature };
        Storage::set_attestation(env, id, attestation);
        Storage::mark_hash_used(env, &payload_hash);
        Storage::publish(env, Event::AttestationRecorded { id, subject, timestamp, payload_hash });
        let _ = Self::log_session_operation(env, session_id, &issuer, "attest", "success", id);
        Ok(id)
    }

    // ----- services -----

    /// A declaration of services is acceptable: it names at least one
    /// service and none twice.
    pub open spec fn services_acceptable(services: Seq<ServiceType>) -> bool {
        services.len() > 0 && services.no_duplicates()
    }

    pub fn validate_services(services: &Vec<ServiceType>) -> (r: Result<(), Error>)
        ensures
            r == (if Self::services_acceptable(services@) {
                Ok::<(), Error>(())
            } else {
                Err(Error::InvalidServiceType)
            }),
    {
        if services.len() == 0 {
            return Err(Error::InvalidServiceType);
        }
        let mut i: usize = 0;
        while i < services.len()
            invariant
                i <= services@.len(),
                forall|a: int, b: int| 0 <= a < i && a < b < services@.len() ==> services@[a]
                    != services@[b],
            decreases services@.len() - i,
        {
            let current = services[i];
            let mut j: usize = i + 1;
            while j < services.len()
                invariant
                    i < services@.len(),
                    i < j <= services@.len(),
                    current == services@[i as int],
                    forall|b: int| i < b < j ==> services@[i as int] != services@[b],
                decreases services@.len() - j,
            {
                if current == services[j] {
                    return Err(Error::InvalidServiceType);
                }
                j += 1;
            }
            i += 1;
        }
        assert(services@.no_duplicates()) by {
            assert forall|a: int, b: int|
                0 <= a < services@.len() && 0 <= b < services@.len() && a != b implies services@[a]
                != services@[b] by {
                if a < b {
                } else {
                    assert(services@[b] != services@[a]);
                }
            }
        }
        Ok(())
    }

    /// Only deposits and withdrawals can be asked for on their own.
    pub fn validate_transaction_operation(operation_type: &ServiceType) -> (r: Result<(), Error>)
        ensures
            r == (if *operation_type == ServiceType::Deposits || *operation_type
                == ServiceType::Withdrawals {
                Ok::<(), Error>(())
            } else {
                Err(Error::InvalidServiceType)
            }),
    {
        match operation_type {
            ServiceType::Deposits | ServiceType::Withdrawals => Ok(()),
            _ => Err(Error::InvalidServiceType),
        }
    }

    /// Why a declaration of services is turned down on `ledger`, if it is.
    pub open spec fn configuration_fault(
        ledger: Ledger,
        anchor: Address,
        services: Seq<ServiceType>,
    ) -> Option<Error> {
        if ledger.admin.is_none() {
            Some(Error::NotInitialized)
        } else if !Self::services_acceptable(services) {
            Some(Error::InvalidServiceType)
        } else if !ledger.is_attestor(anchor) {
            Some(Error::AttestorNotRegistered)
        } else {
            None
        }
    }

    /// `event` is the notice that `anchor` has declared `services`.
    pub open spec fn services_notice(event: Event, anchor: Address, services: Seq<ServiceType>) -> bool {
        match event {
            Event::ServicesConfigured { anchor: a, services: s } => a == anchor && s@ == services,
            _ => false,
        }
    }

    /// Replaces what `anchor` declares by `services`, and leaves a notice of
    /// it.
    pub fn configure_services(env: &mut Env, anchor: Address, services: Vec<ServiceType>) -> (r:
        Result<(), Error>)
        requires
            old(env)@.admin.is_some() ==> old(env)@.has_proof(old(env)@.admin.unwrap())
                && old(env)@.has_proof(anchor),
        ensures
            Self::hashes_kept(old(env)@, final(env)@),
            (match Self::configuration_fault(old(env)@, anchor, services@) {
                Some(e) => r == Err::<(), Error>(e) && final(env)@ == old(env)@,
                None => r == Ok::<(), Error>(()) && final(env)@ == (Ledger {
                    services: old(env)@.services.insert(anchor, (AnchorServices { anchor, services })),
                    events: old(env)@.events.push(final(env)@.events.last()),
                    ..old(env)@
                }) && Self::services_notice(final(env)@.events.last(), anchor, services@),
            }),
    {
        if Storage::get_admin(env).is_err() {
            return Err(Error::NotInitialized);
        }
        if Self::validate_services(&services).is_err() {
            return Err(Error::InvalidServiceType);
        }
        if !Storage::is_attestor(env, &anchor) {
            return Err(Error::AttestorNotRegistered);
        }
        let announced = copy_services(&services);
        Storage::set_anchor_services(env, AnchorServices { anchor, services });
        let notice = Event::ServicesConfigured { anchor, services: announced };
        Storage::publish(env, notice);
        assert(env@.events.last() == notice);
        Ok(())
    }

    /// The services that `anchor` declares, in the order of the declaration.
    pub fn get_supported_services(env: &Env, anchor: Address) -> (r: Result<
        Vec<ServiceType>,
        Error,
    >)
        ensures
            (match r {
                Ok(v) => env@.services.contains_key(anchor) && v@
                    == env@.services[anchor].services@,
                Err(e) => !env@.services.contains_key(anchor) && e == Error::ServicesNotConfigured,
            }),
    {
        match Storage::get_anchor_services(env, &anchor) {
            Ok(s) => Ok(s.services),
            Err(e) => Err(e),
        }
    }

    /// Whether `anchor` has declared `service` on `ledger`.
    pub open spec fn declares(ledger: Ledger, anchor: Address, service: ServiceType) -> bool {
        ledger.services.contains_key(anchor) && ledger.services[anchor].services@.contains(service)
    }

    pub fn supports_service(env: &Env, anchor: Address, service: ServiceType) -> (r: bool)
        ensures
            r == Self::declares(env@, anchor, service),
    {
        match Storage::get_anchor_services(env, &anchor) {
            Ok(s) => has_service(&s.services, service),
            Err(_) => false,
        }
    }

    // ----- endpoints -----

    /// The endpoint of `attestor`.
    pub fn get_endpoint(env: &Env, attestor: Address) -> (r: Result<Endpoint, Error>)
        ensures
            (match r {
                Ok(e) => env@.endpoints.contains_key(attestor) && e.same_as(
                    &env@.endpoints[attestor],
                ),
                Err(e) => !env@.endpoints.contains_key(attestor) && e == Error::EndpointNotFound,
            }),
    {
        Storage::get_endpoint(env, &attestor)
    }

    /// A URL is acceptable with 8 to 256 bytes.
    pub fn validate_endpoint_url(url: &Vec<u8>) -> (r: Result<(), Error>)
        ensures
            r == (if 8 <= url@.len() <= 256 {
                Ok::<(), Error>(())
            } else {
                Err(Error::InvalidEndpointFormat)
            }),
    {
        let len = url.len();
        if len == 0 || len > 256 {
            return Err(Error::InvalidEndpointFormat);
        }
        if len < 8 {
            return Err(Error::InvalidEndpointFormat);
        }
        Ok(())
    }

    // ----- transfers -----

    /// Hands out the id of a new transfer, from the intent counter, and
    /// leaves a notice of the transfer.
    pub fn initiate_transfer(env: &mut Env, sender: Address, destination: Address, amount: i128) -> (r:
        Result<u64, Error>)
        requires
            old(env)@.has_proof(sender),
            old(env)@.intent_counter < u64::MAX,
        ensures
            Self::hashes_kept(old(env)@, final(env)@),
            r == Ok::<u64, Error>((old(env)@.intent_counter + 1) as u64),
            final(env)@ == (Ledger {
                intent_counter: (old(env)@.intent_counter + 1) as u64,
                events: old(env)@.events.push(
                    (Event::TransferInitiated {
                        transfer_id: (old(env)@.intent_counter + 1) as u64,
                        sender,
                        destination,
                        amount,
                    }),
                ),
                ..old(env)@
            }),
    {
        let transfer_id = Storage::get_next_intent_id(env);
        Storage::publish(env, Event::TransferInitiated { transfer_id, sender, destination, amount });
        Ok(transfer_id)
    }

    /// Confirms a settlement: this takes an administrator, leaves a notice
    /// and changes nothing else.
    pub fn confirm_settlement(env: &mut Env, transfer_id: u64, settlement_ref: Digest) -> (r:
        Result<(), Error>)
        requires
            old(env)@.admin.is_some() ==> old(env)@.has_proof(old(env)@.admin.unwrap()),
        ensures
            Self::hashes_kept(old(env)@, final(env)@),
            old(env)@.admin.is_none() ==> r == Err::<(), Error>(Error::NotInitialized)
                && final(env)@ == old(env)@,
            old(env)@.admin.is_some() ==> r == Ok::<(), Error>(()) && final(env)@ == (Ledger {
                events: old(env)@.events.push(
                    (Event::SettlementConfirmed {
                        transfer_id,
                        settlement_ref,
                        timestamp: old(env)@.timestamp,
                    }),
                ),
                ..old(env)@
            }),
    {
        if Storage::get_admin(env).is_err() {
            return Err(Error::NotInitialized);
        }
        let timestamp = env.timestamp();
        Storage::publish(env, Event::SettlementConfirmed { transfer_id, settlement_ref, timestamp });
        Ok(())
    }

    // ----- quotes -----

    /// Why a quote is turned down on `ledger`, if it is.
    pub open spec fn quote_fault(ledger: Ledger, anchor: Address, rate: u64, valid_until: u64) -> Option<
        Error,
    > {
        if !ledger.is_attestor(anchor) {
            Some(Error::UnauthorizedAttestor)
        } else if rate == 0 || valid_until <= ledger.timestamp {
            Some(Error::InvalidQuote)
        } else if !ledger.services.contains_key(anchor) {
            Some(Error::ServicesNotConfigured)
        } else if !Self::declares(ledger, anchor, ServiceType::Quotes) {
            Some(Error::InvalidServiceType)
        } else {
            None
        }
    }

    /// Stores a quote of `anchor` under the next quote id, leaves a notice of
    /// it and returns the id. A quote that is turned down changes nothing.
    pub fn submit_quote(
        env: &mut Env,
        anchor: Address,
        base_asset: String,
        quote_asset: String,
        rate: u64,
        fee_percentage: u32,
        minimum_amount: u64,
        maximum_amount: u64,
        valid_until: u64,
    ) -> (r: Result<u64, Error>)
        requires
            old(env)@.has_proof(anchor),
            old(env)@.quote_counter < u64::MAX,
        ensures
            Self::hashes_kept(old(env)@, final(env)@),
            (match Self::quote_fault(old(env)@, anchor, rate, valid_until) {
                Some(e) => r == Err::<u64, Error>(e) && final(env)@ == old(env)@,
                None => {
                    let quote_id = (old(env)@.quote_counter + 1) as u64;
                    &&& r == Ok::<u64, Error>(quote_id)
                    &&& final(env)@ == (Ledger {
                        quote_counter: quote_id,
                        quotes: old(env)@.quotes.insert(
                            (QuoteKey { anchor, quote_id }),
                            (QuoteData {
                                anchor,
                                base_asset,
                                quote_asset,
                                rate,
                                fee_percentage,
                                minimum_amount,
                                maximum_amount,
                                valid_until,
                                quote_id,
                            }),
                        ),
                        events: old(env)@.events.push(
                            (Event::QuoteSubmitted {
                                anchor,
                                quote_id,
                                base_asset,
                                quote_asset,
                                rate,
                                valid_until,
                            }),
                        ),
                        ..old(env)@
                    })
                },
            }),
    {
        if !Storage::is_attestor(env, &anchor) {
            return Err(Error::UnauthorizedAttestor);
        }
        if rate == 0 || valid_until <= env.timestamp() {
            return Err(Error::InvalidQuote);
        }
        match Storage::get_anchor_services(env, &anchor) {
            Ok(services) => {
                if !has_service(&services.services, ServiceType::Quotes) {
                    return Err(Error::InvalidServiceType);
                }
            },
            Err(_) => {
                return Err(Error::ServicesNotConfigured);
            },
        }
        let quote_id = Storage::get_next_quote_id(env);
        let notice = Event::QuoteSubmitted {
            anchor,
            quote_id,
            base_asset: base_asset.clone(),
            quote_asset: quote_asset.clone(),
            rate,
            valid_until,
        };
        let quote = QuoteData {
            anchor,
            base_asset,
            quote_asset,
            rate,
            fee_percentage,
            minimum_amount,
            maximum_amount,
            valid_until,
            quote_id,
        };
        Storage::set_quote(env, &quote);
        Storage::publish(env, notice);
        Ok(quote_id)
    }

    /// The quote that `anchor` issued under `quote_id`.
    pub fn get_quote(env: &Env, anchor: Address, quote_id: u64) -> (r: Result<QuoteData, Error>)
        ensures
            r == (match Storage::quote_in(env@, anchor, quote_id) {
                Some(q) => Ok::<QuoteData, Error>(q),
                None => Err(Error::QuoteNotFound),
            }),
    {
        match Storage::get_quote(env, &anchor, quote_id) {
            Some(q) => Ok(q),
            None => Err(Error::QuoteNotFound),
        }
    }

    /// Hands the quote that `anchor` issued under `quote_id` to `receiver`
    /// and leaves a notice of it. Without the quote nothing changes.
    pub fn receive_quote(env: &mut Env, receiver: Address, anchor: Address, quote_id: u64) -> (r:
        Result<QuoteData, Error>)
        requires
            old(env)@.has_proof(receiver),
        ensures
            Self::hashes_kept(old(env)@, final(env)@),
            (match Storage::quote_in(old(env)@, anchor, quote_id) {
                Some(q) => r == Ok::<QuoteData, Error>(q) && final(env)@ == (Ledger {
                    events: old(env)@.events.push(
                        (Event::QuoteReceived {
                            quote_id,
                            receiver,
                            timestamp: old(env)@.timestamp,
                        }),
                    ),
                    ..old(env)@
                }),
                None => r == Err::<QuoteData, Error>(Error::QuoteNotFound) && final(env)@ == old(
                    env,
                )@,
            }),
    {
        let quote = match Storage::get_quote(env, &anchor, quote_id) {
            Some(q) => q,
            None => {
                return Err(Error::QuoteNotFound);
            },
        };
        let timestamp = env.timestamp();
        Storage::publish(env, Event::QuoteReceived { quote_id, receiver, timestamp });
        Ok(quote)
    }

    /// The fee on `amount` at `fee_bps` basis points, rounded down.
    pub open spec fn fee_on(amount: u64, fee_bps: u32) -> int {
        (amount * fee_bps) / 10000
    }

    /// The rate of a quote adjusted for its fee at `amount`:
    /// `rate * (amount + fee) / amount`, rounded down. Lower is better.
    pub open spec fn effective_rate(rate: u64, fee_bps: u32, amount: u64) -> int
        recommends
            amount > 0,
    {
        (rate * (amount + Self::fee_on(amount, fee_bps))) / (amount as int)
    }

    /// The effective rate at `amount` can be computed in 64 bits: the amount
    /// is not 0 and no intermediate result is out of range.
    pub open spec fn computable(rate: u64, fee_bps: u32, amount: u64) -> bool {
        &&& amount > 0
        &&& amount * fee_bps <= u64::MAX
        &&& amount + Self::fee_on(amount, fee_bps) <= u64::MAX
        &&& rate * (amount + Self::fee_on(amount, fee_bps)) <= u64::MAX
    }

    /// Whether the effective rate of `quote` at `amount` can be computed.
    pub fn rate_computable(quote: &QuoteData, amount: u64) -> (r: bool)
        ensures
            r == Self::computable(quote.rate, quote.fee_percentage, amount),
    {
        if amount == 0 {
            return false;
        }
        let fee_bps: u64 = quote.fee_percentage as u64;
        match amount.checked_mul(fee_bps) {
            None => false,
            Some(scaled) => {
                let fee_amount: u64 = scaled / 10000;
                match amount.checked_add(fee_amount) {
                    None => false,
                    Some(effective_amount) => quote.rate.checked_mul(effective_amount).is_some(),
                }
            },
        }
    }

    pub fn calculate_effective_rate(quote: &QuoteData, amount: u64) -> (r: u64)
        requires
            Self::computable(quote.rate, quote.fee_percentage, amount),
        ensures
            r == Self::effective_rate(quote.rate, quote.fee_percentage, amount),
    {
        let base_rate = quote.rate;
        let fee_bps: u64 = quote.fee_percentage as u64;
        let fee_amount: u64 = (amount * fee_bps) / 10000;
        let effective_amount: u64 = amount + fee_amount;
        (base_rate * effective_amount) / amount
    }

    /// The latest quote of `anchor` for the asset pair of `request`.
    pub fn get_latest_quote_for_anchor(env: &Env, anchor: &Address, request: &QuoteRequest) -> (r:
        Option<QuoteData>)
        ensures
            r == Storage::latest_quote_in(env@, *anchor, request),
    {
        Storage::latest_quote(env, anchor, request)
    }

    /// What `anchor` offers for `request` on `ledger`: its latest quote for
    /// the asset pair, if that quote has not lapsed and admits the amount.
    pub open spec fn offer(ledger: Ledger, anchor: Address, request: QuoteRequest) -> Option<
        QuoteData,
    > {
        match Storage::latest_quote_in(ledger, anchor, &request) {
            Some(q) => if q.valid_until > ledger.timestamp && q.fits(&request) {
                Some(q)
            } else {
                None
            },
            None => None,
        }
    }

    /// The offers of `anchors` for `request`, in the order of the anchors.
    pub open spec fn offers(ledger: Ledger, anchors: Seq<Address>, request: QuoteRequest) -> Seq<
        QuoteData,
    >
        decreases anchors.len(),
    {
        if anchors.len() == 0 {
            Seq::empty()
        } else {
            let rest = Self::offers(ledger, anchors.drop_last(), request);
            match Self::offer(ledger, anchors.last(), request) {
                Some(q) => rest.push(q),
                None => rest,
            }
        }
    }

    /// The effective rate of `quote` at `amount`.
    pub open spec fn rate_of(quote: QuoteData, amount: u64) -> int {
        Self::effective_rate(quote.rate, quote.fee_percentage, amount)
    }

    /// The effective rate of every quote of `all` can be computed.
    pub open spec fn all_computable(all: Seq<QuoteData>, amount: u64) -> bool {
        forall|i: int|
            0 <= i < all.len() ==> Self::computable(
                (#[trigger] all[i]).rate,
                all[i].fee_percentage,
                amount,
            )
    }

    /// Quote `i` is the best of `all`: none has a lower effective rate, and
    /// every quote before it has a higher one.
    pub open spec fn is_best(all: Seq<QuoteData>, amount: u64, i: int) -> bool {
        &&& 0 <= i < all.len()
        &&& forall|j: int|
            0 <= j < all.len() ==> Self::rate_of(#[trigger] all[j], amount) >= Self::rate_of(
                all[i],
                amount,
            )
        &&& forall|j: int|
            0 <= j < i ==> Self::rate_of(#[trigger] all[j], amount) > Self::rate_of(all[i], amount)
    }

    /// Gathers the offers of `anchors` for `request`.
    pub fn collect_offers(env: &Env, request: &QuoteRequest, anchors: &Vec<Address>) -> (all: Vec<
        QuoteData,
    >)
        ensures
            all@ == Self::offers(env@, anchors@, *request),
    {
        let now = env.timestamp();
        let mut all: Vec<QuoteData> = Vec::new();
        let mut i: usize = 0;
        while i < anchors.len()
            invariant
                now == env@.timestamp,
                i <= anchors@.len(),
                all@ == Self::offers(env@, anchors@.subrange(0, i as int), *request),
            decreases anchors@.len() - i,
        {
            proof {
                let next = anchors@.subrange(0, i + 1);
                assert(next.drop_last() =~= anchors@.subrange(0, i as int));
                assert(next.last() == anchors@[i as int]);
            }
            match Self::get_latest_quote_for_anchor(env, &anchors[i], request) {
                Some(quote) => {
                    if quote.valid_until > now && quote.matches(request) {
                        all.push(quote);
                    }
                },
                None => {},
            }
            i += 1;
        }
        assert(anchors@.subrange(0, i as int) =~= anchors@);
        all
    }

    /// Whether the effective rate of every quote of `all` can be computed.
    pub fn rates_computable(all: &Vec<QuoteData>, amount: u64) -> (r: bool)
        ensures
            r == Self::all_computable(all@, amount),
    {
        let mut i: usize = 0;
        while i < all.len()
            invariant
                i <= all@.len(),
                forall|j: int|
                    0 <= j < i ==> Self::computable(
                        (#[trigger] all@[j]).rate,
                        all@[j].fee_percentage,
                        amount,
                    ),
            decreases all@.len() - i,
        {
            if !Self::rate_computable(&all[i], amount) {
                return false;
            }
            i += 1;
        }
        true
    }

    /// The place of the best quote of `all`: the first among those with the
    /// lowest effective rate.
    pub fn select_best(all: &Vec<QuoteData>, amount: u64) -> (best: usize)
        requires
            all@.len() > 0,
            Self::all_computable(all@, amount),
        ensures
            Self::is_best(all@, amount, best as int),
    {
        let mut best: usize = 0;
        let mut best_rate: u64 = Self::calculate_effective_rate(&all[0], amount);
        let mut i: usize = 1;
        while i < all.len()
            invariant
                1 <= i <= all@.len(),
                best < i,
                Self::all_computable(all@, amount),
                best_rate == Self::rate_of(all@[best as int], amount),
                forall|j: int|
                    0 <= j < i ==> Self::rate_of(#[trigger] all@[j], amount) >= best_rate,
                forall|j: int|
                    0 <= j < best ==> Self::rate_of(#[trigger] all@[j], amount) > best_rate,
            decreases all@.len() - i,
        {
            let rate = Self::calculate_effective_rate(&all[i], amount);
            if rate < best_rate {
                best = i;
                best_rate = rate;
            }
            i += 1;
        }
        best
    }

    /// Compares what `anchors` offer for `request` and picks the offer with
    /// the lowest effective rate; among equals, the first.
    pub fn compare_rates_for_anchors(env: &Env, request: QuoteRequest, anchors: Vec<Address>) -> (r:
        Result<RateComparison, Error>)
        requires
            Self::all_computable(Self::offers(env@, anchors@, request), request.amount),
        ensures
            (match r {
                Ok(c) => {
                    &&& c.all_quotes@ == Self::offers(env@, anchors@, request)
                    &&& c.comparison_timestamp == env@.timestamp
                    &&& exists|i: int|
                        Self::is_best(c.all_quotes@, request.amount, i) && c.best_quote
                            == c.all_quotes@[i]
                },
                Err(e) => e == Error::NoQuotesAvailable && Self::offers(
                    env@,
                    anchors@,
                    request,
                ).len() == 0,
            }),
    {
        let current_timestamp = env.timestamp();
        let valid_quotes = Self::collect_offers(env, &request, &anchors);
        if valid_quotes.len() == 0 {
            return Err(Error::NoQuotesAvailable);
        }
        let best = Self::select_best(&valid_quotes, request.amount);
        let best_quote = valid_quotes[best].duplicate();
        Ok(
            RateComparison {
                best_quote,
                all_quotes: valid_quotes,
                comparison_timestamp: current_timestamp,
            },
        )
    }

    // ----- transaction intents -----

    /// Why a request for an intent is turned down on `ledger` before its
    /// quote is looked at, if it is: the checks on the administrator, the
    /// anchor, the operation, the amount and the time to live, the declared
    /// services, KYC, the session and the expiry time, in this order.
    pub open spec fn request_fault(ledger: Ledger, builder: TransactionIntentBuilder) -> Option<
        Error,
    > {
        let operation = builder.request.operation_type;
        if ledger.admin.is_none() {
            Some(Error::NotInitialized)
        } else if !ledger.is_attestor(builder.anchor) {
            Some(Error::UnauthorizedAttestor)
        } else if operation != ServiceType::Deposits && operation != ServiceType::Withdrawals {
            Some(Error::InvalidServiceType)
        } else if builder.request.amount == 0 || builder.ttl_seconds == 0 {
            Some(Error::InvalidTransactionIntent)
        } else if !ledger.services.contains_key(builder.anchor) {
            Some(Error::ServicesNotConfigured)
        } else if !Self::declares(ledger, builder.anchor, operation) {
            Some(Error::InvalidServiceType)
        } else if builder.require_kyc && !Self::declares(ledger, builder.anchor, ServiceType::KYC) {
            Some(Error::ComplianceNotMet)
        } else if builder.session_id != 0 && !ledger.sessions.contains_key(builder.session_id) {
            Some(Error::SessionNotFound)
        } else if ledger.timestamp + builder.ttl_seconds > u64::MAX {
            Some(Error::InvalidTransactionIntent)
        } else {
            None
        }
    }

    /// Why the quote that a request names is turned down on `ledger`, if it
    /// is: it is not stored, it has lapsed (at `valid_until` it has), or it
    /// does not fit the request.
    pub open spec fn quote_use_fault(ledger: Ledger, builder: TransactionIntentBuilder) -> Option<
        Error,
    > {
        match Storage::quote_in(ledger, builder.anchor, builder.quote_id) {
            None => Some(Error::QuoteNotFound),
            Some(quote) => if quote.valid_until <= ledger.timestamp {
                Some(Error::StaleQuote)
            } else if !quote.fits(&builder.request) {
                Some(Error::InvalidQuote)
            } else {
                None
            },
        }
    }

    /// The decision on a request for an intent on `ledger`: the intent, or
    /// why there is none.
    pub open spec fn intent_for(ledger: Ledger, builder: TransactionIntentBuilder) -> Result<
        TransactionIntent,
        Error,
    > {
        let now = ledger.timestamp;
        let plain = TransactionIntent {
            intent_id: (ledger.intent_counter + 1) as u64,
            anchor: builder.anchor,
            request: builder.request,
            quote_id: builder.quote_id,
            has_quote: false,
            rate: 0,
            fee_percentage: 0,
            requires_kyc: builder.require_kyc,
            session_id: builder.session_id,
            created_at: now,
            expires_at: (now + builder.ttl_seconds) as u64,
        };
        match Self::request_fault(ledger, builder) {
            Some(e) => Err(e),
            None => if builder.quote_id == 0 {
                Ok(plain)
            } else {
                match Self::quote_use_fault(ledger, builder) {
                    Some(e) => Err(e),
                    None => {
                        let quote = Storage::quote_in(
                            ledger,
                            builder.anchor,
                            builder.quote_id,
                        ).unwrap();
                        Ok(
                            TransactionIntent {
                                has_quote: true,
                                rate: quote.rate,
                                fee_percentage: quote.fee_percentage,
                                expires_at: if quote.valid_until < plain.expires_at {
                                    quote.valid_until
                                } else {
                                    plain.expires_at
                                },
                                ..plain
                            },
                        )
                    },
                }
            },
        }
    }

    /// Decides on a request for an intent. A request that is turned down
    /// changes nothing; one that is granted takes the next intent id and,
    /// where it is bound to a session, is logged there in the anchor's name.
    pub fn build_transaction_intent(env: &mut Env, builder: TransactionIntentBuilder) -> (r: Result<
        TransactionIntent,
        Error,
    >)
        requires
            old(env)@.admin.is_some() ==> old(env)@.has_proof(old(env)@.admin.unwrap()),
            Self::room_for(old(env)@, builder.session_id),
        ensures
            Self::hashes_kept(old(env)@, final(env)@),
            r == Self::intent_for(old(env)@, builder),
            r.is_err() ==> final(env)@ == old(env)@,
            r.is_ok() && builder.session_id == 0 ==> final(env)@ == (Ledger {
                intent_counter: (old(env)@.intent_counter + 1) as u64,
                ..old(env)@
            }),
            r.is_ok() && builder.session_id != 0 ==> Self::logged(
                (Ledger { intent_counter: (old(env)@.intent_counter + 1) as u64, ..old(env)@ }),
                final(env)@,
                builder.session_id,
                builder.anchor,
                "intent"@,
                "success"@,
                (old(env)@.intent_counter + 1) as u64,
            ),
    {
        if Storage::get_admin(env).is_err() {
            return Err(Error::NotInitialized);
        }
        if !Storage::is_attestor(env, &builder.anchor) {
            return Err(Error::UnauthorizedAttestor);
        }
        if Self::validate_transaction_operation(&builder.request.operation_type).is_err() {
            return Err(Error::InvalidServiceType);
        }
        if builder.request.amount == 0 || builder.ttl_seconds == 0 {
            return Err(Error::InvalidTransactionIntent);
        }
        let anchor_services = match Storage::get_anchor_services(env, &builder.anchor) {
            Ok(s) => s,
            Err(e) => {
                return Err(e);
            },
        };
        if !has_service(&anchor_services.services, builder.request.operation_type) {
            return Err(Error::InvalidServiceType);
        }
        if builder.require_kyc && !has_service(&anchor_services.services, ServiceType::KYC) {
            return Err(Error::ComplianceNotMet);
        }
        if builder.session_id != 0 {
            if Storage::get_session(env, builder.session_id).is_err() {
                return Err(Error::SessionNotFound);
            }
        }
        let now = env.timestamp();
        let mut expires_at: u64 = match now.checked_add(builder.ttl_seconds) {
            Some(t) => t,
            None => {
                return Err(Error::InvalidTransactionIntent);
            },
        };
        let mut has_quote = false;
        let mut rate: u64 = 0;
        let mut fee_percentage: u32 = 0;
        if builder.quote_id != 0 {
            let quote = match Storage::get_quote(env, &builder.anchor, builder.quote_id) {
                Some(q) => q,
                None => {
                    return Err(Error::QuoteNotFound);
                },
            };
            if quote.valid_until <= now {
                return Err(Error::StaleQuote);
            }
            if !quote.matches(&builder.request) {
                return Err(Error::InvalidQuote);
            }
            has_quote = true;
            rate = quote.rate;
            fee_percentage = quote.fee_percentage;
            if quote.valid_until < expires_at {
                expires_at = quote.valid_until;
            }
        }
        let intent_id = Storage::get_next_intent_id(env);
        let intent = TransactionIntent {
            intent_id,
            anchor: builder.anchor,
            request: builder.request,
            quote_id: builder.quote_id,
            has_quote,
            rate,
            fee_percentage,
            requires_kyc: builder.require_kyc,
            session_id: builder.session_id,
            created_at: now,
            expires_at,
        };
        if intent.session_id != 0 {
            let _ = Self::log_session_operation(
                env,
                intent.session_id,
                &intent.anchor,
                "intent",
                "success",
                intent.intent_id,
            );
        }
        Ok(intent)
    }
}

} // verus!
