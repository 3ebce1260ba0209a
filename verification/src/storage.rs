//! The hosting environment and the typed access to its store.

use crate::errors::Error;
use crate::table::{StoreKey, Table};
use crate::types::{
    Address, AnchorMetadata, AnchorServices, Attestation, AuditLog, Digest, Endpoint,
    Event, InteractionSession, OperationContext, QuoteData, QuoteKey, QuoteRequest,
};
use vstd::prelude::*;

verus! {

/// What an [`Env`] holds, as mathematics: the view of the environment.
pub struct Ledger {
    pub timestamp: u64,
    pub sequence: u32,
    /// The principals whose proof of identity the environment holds for the
    /// call at hand.
    pub authorized: Seq<Address>,
    pub admin: Option<Address>,
    pub attestors: Map<Address, bool>,
    pub attestation_counter: u64,
    pub attestations: Map<u64, Attestation>,
    pub used_hashes: Map<Digest, bool>,
    pub endpoints: Map<Address, Endpoint>,
    pub services: Map<Address, AnchorServices>,
    pub quotes: Map<QuoteKey, QuoteData>,
    pub quote_counter: u64,
    pub intent_counter: u64,
    pub session_counter: u64,
    pub sessions: Map<u64, InteractionSession>,
    pub session_nonces: Map<u64, u64>,
    pub audit_counter: u64,
    pub audit_logs: Map<u64, AuditLog>,
    pub operation_counts: Map<u64, u64>,
    pub anchor_metadata: Map<Address, AnchorMetadata>,
    pub anchor_list: Seq<Address>,
    /// The notifications that wait to be published, oldest first.
    pub events: Seq<Event>,
}

impl Ledger {
    /// Whether the environment holds the proof of identity of `who`.
    pub open spec fn has_proof(&self, who: Address) -> bool {
        self.authorized.contains(who)
    }

    /// Whether `attestor` is registered: bound, and bound to `true`.
    pub open spec fn is_attestor(&self, attestor: Address) -> bool {
        self.attestors.contains_key(attestor) && self.attestors[attestor]
    }

    /// Whether `hash` was used: bound, and bound to `true`.
    pub open spec fn is_hash_used(&self, hash: Digest) -> bool {
        self.used_hashes.contains_key(hash) && self.used_hashes[hash]
    }

    /// How many operations the session has logged; 0 where none was.
    pub open spec fn operation_count(&self, session_id: u64) -> u64 {
        if self.operation_counts.contains_key(session_id) {
            self.operation_counts[session_id]
        } else {
            0
        }
    }
}

/// The hosting environment: the store, the current time, the current
/// sequence number, the proofs of identity held for the call at hand, and
/// the notices that wait to be published.
pub struct Env {
    timestamp: u64,
    sequence: u32,
    authorized: Vec<Address>,
    admin: Option<Address>,
    attestors: Table<Address, bool>,
    attestation_counter: u64,
    attestations: Table<u64, Attestation>,
    used_hashes: Table<Digest, bool>,
    endpoints: Table<Address, Endpoint>,
    services: Table<Address, AnchorServices>,
    quotes: Table<QuoteKey, QuoteData>,
    quote_counter: u64,
    intent_counter: u64,
    session_counter: u64,
    sessions: Table<u64, InteractionSession>,
    session_nonces: Table<u64, u64>,
    audit_counter: u64,
    audit_logs: Table<u64, AuditLog>,
    operation_counts: Table<u64, u64>,
    anchor_metadata: Table<Address, AnchorMetadata>,
    anchor_list: Vec<Address>,
    outbox: Vec<Event>,
}

impl Env {
    pub closed spec fn view(&self) -> Ledger {
        Ledger {
            timestamp: self.timestamp,
            sequence: self.sequence,
            authorized: self.authorized@,
            admin: self.admin,
            attestors: self.attestors@,
            attestation_counter: self.attestation_counter,
            attestations: self.attestations@,
            used_hashes: self.used_hashes@,
            endpoints: self.endpoints@,
            services: self.services@,
            quotes: self.quotes@,
            quote_counter: self.quote_counter,
            intent_counter: self.intent_counter,
            session_counter: self.session_counter,
            sessions: self.sessions@,
            session_nonces: self.session_nonces@,
            audit_counter: self.audit_counter,
            audit_logs: self.audit_logs@,
            operation_counts: self.operation_counts@,
            anchor_metadata: self.anchor_metadata@,
            anchor_list: self.anchor_list@,
            events: self.outbox@,
        }
    }

    /// The ledger of a fresh environment: nothing stored, every counter at 0.
    pub open spec fn empty_ledger() -> Ledger {
        Ledger {
            timestamp: 0,
            sequence: 0,
            authorized: Seq::empty(),
            admin: None,
            attestors: Map::empty(),
            attestation_counter: 0,
            attestations: Map::empty(),
            used_hashes: Map::empty(),
            endpoints: Map::empty(),
            services: Map::empty(),
            quotes: Map::empty(),
            quote_counter: 0,
            intent_counter: 0,
            session_counter: 0,
            sessions: Map::empty(),
            session_nonces: Map::empty(),
            audit_counter: 0,
            audit_logs: Map::empty(),
            operation_counts: Map::empty(),
            anchor_metadata: Map::empty(),
            anchor_list: Seq::empty(),
            events: Seq::empty(),
        }
    }

    /// A fresh environment, at time 0 and sequence 0.
    pub fn new() -> (env: Self)
        ensures
            env@ == Self::empty_ledger(),
    {
        Env {
            timestamp: 0,
            sequence: 0,
            authorized: Vec::new(),
            admin: None,
            attestors: Table::new(),
            attestation_counter: 0,
            attestations: Table::new(),
            used_hashes: Table::new(),
            endpoints: Table::new(),
            services: Table::new(),
            quotes: Table::new(),
            quote_counter: 0,
            intent_counter: 0,
            session_counter: 0,
            sessions: Table::new(),
            session_nonces: Table::new(),
            audit_counter: 0,
            audit_logs: Table::new(),
            operation_counts: Table::new(),
            anchor_metadata: Table::new(),
            anchor_list: Vec::new(),
            outbox: Vec::new(),
        }
    }

    /// The current time.
    pub fn timestamp(&self) -> (t: u64)
        ensures
            t == self@.timestamp,
    {
        self.timestamp
    }

    /// The current sequence number.
    pub fn sequence(&self) -> (s: u32)
        ensures
            s == self@.sequence,
    {
        self.sequence
    }

    /// Records that `who` has proved their identity for the call at hand.
    pub fn authorize(&mut self, who: Address)
        ensures
            final(self)@ == (Ledger { authorized: old(self)@.authorized.push(who), ..old(self)@ }),
            final(self)@.has_proof(who),
            forall|other: Address| old(self)@.has_proof(other) ==> final(self)@.has_proof(other),
    {
        self.authorized.push(who);
        assert(self.authorized@[self.authorized@.len() - 1] == who);
        assert forall|other: Address| old(self)@.has_proof(other) implies self@.has_proof(
            other,
        ) by {
            let i = choose|i: int|
                0 <= i < old(self).authorized@.len() && old(self).authorized@[i] == other;
            assert(self.authorized@[i] == other);
        }
    }

    /// Forgets every proof of identity: the call at hand is over.
    pub fn clear_authorizations(&mut self)
        ensures
            final(self)@ == (Ledger { authorized: Seq::empty(), ..old(self)@ }),
    {
        self.authorized = Vec::new();
    }

    /// Whether `who` has proved their identity for the call at hand.
    pub fn is_authorized(&self, who: &Address) -> (r: bool)
        ensures
            r == self@.has_proof(*who),
    {
        let mut i: usize = 0;
        while i < self.authorized.len()
            invariant
                i <= self.authorized@.len(),
                forall|j: int| 0 <= j < i ==> self.authorized@[j] != *who,
            decreases self.authorized@.len() - i,
        {
            if self.authorized[i].same(who) {
                return true;
            }
            i += 1;
        }
        false
    }

    /// Hands out the notifications that wait to be published, oldest first,
    /// and leaves none waiting.
    pub fn take_events(&mut self) -> (events: Vec<Event>)
        ensures
            events@ == old(self)@.events,
            final(self)@ == (Ledger { events: Seq::empty(), ..old(self)@ }),
    {
        let mut taken: Vec<Event> = Vec::new();
        std::mem::swap(&mut self.outbox, &mut taken);
        taken
    }

    /// Moves the clock to `timestamp`.
    pub fn set_timestamp(&mut self, timestamp: u64)
        ensures
            final(self)@ == (Ledger { timestamp, ..old(self)@ }),
    {
        self.timestamp = timestamp;
    }

    /// Moves the sequence number to `sequence`.
    pub fn set_sequence(&mut self, sequence: u32)
        ensures
            final(self)@ == (Ledger { sequence, ..old(self)@ }),
    {
        self.sequence = sequence;
    }
}

/// Typed access to the store of an [`Env`].
pub struct Storage;

impl Storage {
    /// Leaves `event` for the environment to publish.
    pub fn publish(env: &mut Env, event: Event)
        ensures
            final(env)@ == (Ledger { events: old(env)@.events.push(event), ..old(env)@ }),
    {
        env.outbox.push(event);
    }

    pub fn has_admin(env: &Env) -> (r: bool)
        ensures
            r == env@.admin.is_some(),
    {
        env.admin.is_some()
    }

    pub fn set_admin(env: &mut Env, admin: &Address)
        ensures
            final(env)@ == (Ledger { admin: Some(*admin), ..old(env)@ }),
    {
        env.admin = Some(*admin);
    }

    pub fn get_admin(env: &Env) -> (r: Result<Address, Error>)
        ensures
            r == (match env@.admin {
                Some(a) => Ok::<Address, Error>(a),
                None => Err(Error::NotInitialized),
            }),
    {
        match env.admin {
            Some(a) => Ok(a),
            None => Err(Error::NotInitialized),
        }
    }

    pub fn set_attestor(env: &mut Env, attestor: &Address, is_registered: bool)
        ensures
            final(env)@ == (Ledger {
                attestors: old(env)@.attestors.insert(*attestor, is_registered),
                ..old(env)@
            }),
    {
        env.attestors.insert(*attestor, is_registered);
    }

    pub fn is_attestor(env: &Env, attestor: &Address) -> (r: bool)
        ensures
            r == env@.is_attestor(*attestor),
    {
        match env.attestors.get(attestor) {
            Some(b) => *b,
            None => false,
        }
    }

    /// Sets the five global counters, as a host does that has read them from
    /// its own storage.
    pub fn restore_counters(
        env: &mut Env,
        attestation: u64,
        quote: u64,
        intent: u64,
        session: u64,
        audit: u64,
    )
        ensures
            final(env)@ == (Ledger {
                attestation_counter: attestation,
                quote_counter: quote,
                intent_counter: intent,
                session_counter: session,
                audit_counter: audit,
                ..old(env)@
            }),
    {
        env.attestation_counter = attestation;
        env.quote_counter = quote;
        env.intent_counter = intent;
        env.session_counter = session;
        env.audit_counter = audit;
    }

    /// Stores a session, and its nonce beside it, under the session's id.
    pub fn set_session(env: &mut Env, session: &InteractionSession)
        ensures
            final(env)@ == (Ledger {
                sessions: old(env)@.sessions.insert(session.session_id, *session),
                session_nonces: old(env)@.session_nonces.insert(session.session_id, session.nonce),
                ..old(env)@
            }),
    {
        env.sessions.insert(session.session_id, *session);
        env.session_nonces.insert(session.session_id, session.nonce);
    }

    /// Sets the number of operations counted for a session.
    pub fn set_session_operation_count(env: &mut Env, session_id: u64, count: u64)
        ensures
            final(env)@ == (Ledger {
                operation_counts: old(env)@.operation_counts.insert(session_id, count),
                ..old(env)@
            }),
    {
        env.operation_counts.insert(session_id, count);
    }

    /// Stores an entry of the audit trail under its id.
    pub fn set_audit_log(env: &mut Env, log: &AuditLog)
        ensures
            final(env)@ == (Ledger {
                audit_logs: old(env)@.audit_logs.insert(log.log_id, *log),
                ..old(env)@
            }),
    {
        env.audit_logs.insert(log.log_id, log.duplicate());
    }

    pub fn peek_attestation_counter(env: &Env) -> (c: u64)
        ensures
            c == env@.attestation_counter,
    {
        env.attestation_counter
    }

    pub fn peek_quote_counter(env: &Env) -> (c: u64)
        ensures
            c == env@.quote_counter,
    {
        env.quote_counter
    }

    pub fn peek_intent_counter(env: &Env) -> (c: u64)
        ensures
            c == env@.intent_counter,
    {
        env.intent_counter
    }

    pub fn peek_session_counter(env: &Env) -> (c: u64)
        ensures
            c == env@.session_counter,
    {
        env.session_counter
    }

    pub fn peek_audit_counter(env: &Env) -> (c: u64)
        ensures
            c == env@.audit_counter,
    {
        env.audit_counter
    }

    /// Hands out the next attestation id: the counter's value before the
    /// call. Ids start at 0.
    pub fn get_and_increment_counter(env: &mut Env) -> (id: u64)
        requires
            old(env)@.attestation_counter < u64::MAX,
        ensures
            id == old(env)@.attestation_counter,
            final(env)@ == (Ledger { attestation_counter: (id + 1) as u64, ..old(env)@ }),
    {
        let counter = env.attestation_counter;
        env.attestation_counter = counter + 1;
        counter
    }

    pub fn set_attestation(env: &mut Env, id: u64, attestation: Attestation)
        ensures
            final(env)@ == (Ledger {
                attestations: old(env)@.attestations.insert(id, attestation),
                ..old(env)@
            }),
    {
        env.attestations.insert(id, attestation);
    }

    pub fn get_attestation(env: &Env, id: u64) -> (r: Result<Attestation, Error>)
        ensures
            (match r {
                Ok(a) => env@.attestations.contains_key(id) && a.same_as(&env@.attestations[id]),
                Err(e) => !env@.attestations.contains_key(id) && e == Error::AttestationNotFound,
            }),
    {
        match env.attestations.get(&id) {
            Some(a) => Ok(a.duplicate()),
            None => Err(Error::AttestationNotFound),
        }
    }

    pub fn mark_hash_used(env: &mut Env, hash: &Digest)
        ensures
            final(env)@ == (Ledger {
                used_hashes: old(env)@.used_hashes.insert(*hash, true),
                ..old(env)@
            }),
    {
        env.used_hashes.insert(*hash, true);
    }

    pub fn is_hash_used(env: &Env, hash: &Digest) -> (r: bool)
        ensures
            r == env@.is_hash_used(*hash),
    {
        match env.used_hashes.get(hash) {
            Some(b) => *b,
            None => false,
        }
    }

    pub fn set_endpoint(env: &mut Env, endpoint: Endpoint)
        ensures
            final(env)@ == (Ledger {
                endpoints: old(env)@.endpoints.insert(endpoint.attestor, endpoint),
                ..old(env)@
            }),
    {
        env.endpoints.insert(endpoint.attestor, endpoint);
    }

    pub fn get_endpoint(env: &Env, attestor: &Address) -> (r: Result<Endpoint, Error>)
        ensures
            (match r {
                Ok(e) => env@.endpoints.contains_key(*attestor) && e.same_as(
                    &env@.endpoints[*attestor],
                ),
                Err(e) => !env@.endpoints.contains_key(*attestor) && e == Error::EndpointNotFound,
            }),
    {
        match env.endpoints.get(attestor) {
            Some(e) => Ok(e.duplicate()),
            None => Err(Error::EndpointNotFound),
        }
    }

    pub fn has_endpoint(env: &Env, attestor: &Address) -> (r: bool)
        ensures
            r == env@.endpoints.contains_key(*attestor),
    {
        env.endpoints.contains(attestor)
    }

    pub fn remove_endpoint(env: &mut Env, attestor: &Address)
        ensures
            final(env)@ == (Ledger {
                endpoints: old(env)@.endpoints.remove(*attestor),
                ..old(env)@
            }),
    {
        env.endpoints.remove(attestor);
    }

    pub fn set_anchor_services(env: &mut Env, services: AnchorServices)
        ensures
            final(env)@ == (Ledger {
                services: old(env)@.services.insert(services.anchor, services),
                ..old(env)@
            }),
    {
        env.services.insert(services.anchor, services);
    }

    pub fn get_anchor_services(env: &Env, anchor: &Address) -> (r: Result<AnchorServices, Error>)
        ensures
            (match r {
                Ok(s) => env@.services.contains_key(*anchor) && s.same_as(&env@.services[*anchor]),
                Err(e) => !env@.services.contains_key(*anchor) && e
                    == Error::ServicesNotConfigured,
            }),
    {
        match env.services.get(anchor) {
            Some(s) => Ok(s.duplicate()),
            None => Err(Error::ServicesNotConfigured),
        }
    }

    /// The key under which `quote` is stored.
    pub open spec fn key_of(quote: &QuoteData) -> QuoteKey {
        QuoteKey { anchor: quote.anchor, quote_id: quote.quote_id }
    }

    pub fn set_quote(env: &mut Env, quote: &QuoteData)
        ensures
            final(env)@ == (Ledger {
                quotes: old(env)@.quotes.insert(Self::key_of(quote), *quote),
                ..old(env)@
            }),
    {
        let key = QuoteKey { anchor: quote.anchor, quote_id: quote.quote_id };
        env.quotes.insert(key, quote.duplicate());
    }

    /// What `get_quote` returns on a ledger.
    pub open spec fn quote_in(ledger: Ledger, anchor: Address, quote_id: u64) -> Option<
        QuoteData,
    > {
        let key = QuoteKey { anchor, quote_id };
        if ledger.quotes.contains_key(key) {
            Some(ledger.quotes[key])
        } else {
            None
        }
    }

    pub fn get_quote(env: &Env, anchor: &Address, quote_id: u64) -> (r: Option<QuoteData>)
        ensures
            r == Self::quote_in(env@, *anchor, quote_id),
    {
        let key = QuoteKey { anchor: *anchor, quote_id };
        match env.quotes.get(&key) {
            Some(q) => Some(q.duplicate()),
            None => None,
        }
    }

    /// `key` is the key of a quote of `anchor` for the asset pair of
    /// `request`.
    pub open spec fn is_candidate(
        ledger: Ledger,
        anchor: Address,
        request: &QuoteRequest,
        key: QuoteKey,
    ) -> bool {
        &&& ledger.quotes.contains_key(key)
        &&& key.anchor == anchor
        &&& ledger.quotes[key].same_pair(request)
    }

    /// `key` is the candidate with the greatest quote id.
    pub open spec fn is_latest_key(
        ledger: Ledger,
        anchor: Address,
        request: &QuoteRequest,
        key: QuoteKey,
    ) -> bool {
        &&& Self::is_candidate(ledger, anchor, request, key)
        &&& forall|other: QuoteKey| #[trigger]
            Self::is_candidate(ledger, anchor, request, other) ==> other.quote_id
                <= key.quote_id
    }

    /// The latest quote of `anchor` for the asset pair of `request`: among
    /// the stored quotes of the anchor for that pair, the one with the
    /// greatest id.
    pub open spec fn latest_quote_in(ledger: Ledger, anchor: Address, request: &QuoteRequest) -> Option<
        QuoteData,
    > {
        if exists|key: QuoteKey| Self::is_latest_key(ledger, anchor, request, key) {
            Some(
                ledger.quotes[choose|key: QuoteKey|
                    Self::is_latest_key(ledger, anchor, request, key)],
            )
        } else {
            None
        }
    }

    /// Looks up the latest quote of `anchor` for the asset pair of
    /// `request`.
    pub fn latest_quote(env: &Env, anchor: &Address, request: &QuoteRequest) -> (r: Option<
        QuoteData,
    >)
        ensures
            r == Self::latest_quote_in(env@, *anchor, request),
    {
        let n = env.quotes.len();
        let mut best: Option<usize> = None;
        let mut i: usize = 0;
        while i < n
            invariant
                n == env.quotes.slots().len(),
                i <= n,
                match best {
                    Some(b) => {
                        &&& b < i
                        &&& Self::is_candidate(env@, *anchor, request, env.quotes.slots()[b as int])
                        &&& forall|j: int|
                            0 <= j < i && Self::is_candidate(
                                env@,
                                *anchor,
                                request,
                                #[trigger] env.quotes.slots()[j],
                            ) ==> env.quotes.slots()[j].quote_id <= env.quotes.slots()[b as int].quote_id
                    },
                    None => forall|j: int|
                        0 <= j < i ==> !Self::is_candidate(
                            env@,
                            *anchor,
                            request,
                            #[trigger] env.quotes.slots()[j],
                        ),
                },
            decreases n - i,
        {
            let (key, quote) = env.quotes.entry(i);
            if key.anchor.same(anchor) && quote.is_for_pair(request) {
                let better = match best {
                    None => true,
                    Some(b) => {
                        let (held, _) = env.quotes.entry(b);
                        held.quote_id < key.quote_id
                    },
                };
                if better {
                    best = Some(i);
                }
            }
            i += 1;
        }
        proof {
            env.quotes.lemma_slots();
        }
        match best {
            None => {
                assert forall|key: QuoteKey| !Self::is_latest_key(env@, *anchor, request, key) by {
                    if Self::is_candidate(env@, *anchor, request, key) {
                        let j = choose|j: int|
                            0 <= j < env.quotes.slots().len() && env.quotes.slots()[j] == key;
                        assert(!Self::is_candidate(env@, *anchor, request, env.quotes.slots()[j]));
                    }
                }
                None
            },
            Some(b) => {
                let (key, quote) = env.quotes.entry(b);
                assert forall|other: QuoteKey| #[trigger]
                    Self::is_candidate(env@, *anchor, request, other) implies other.quote_id
                    <= key.quote_id by {
                    let j = choose|j: int|
                        0 <= j < env.quotes.slots().len() && env.quotes.slots()[j] == other;
                    assert(Self::is_candidate(env@, *anchor, request, env.quotes.slots()[j]));
                }
                assert(Self::is_latest_key(env@, *anchor, request, key));
                let ghost chosen = choose|k: QuoteKey|
                    Self::is_latest_key(env@, *anchor, request, k);
                assert(Self::is_candidate(env@, *anchor, request, chosen));
                assert(Self::is_candidate(env@, *anchor, request, key));
                assert(chosen.quote_id == key.quote_id);
                assert(chosen == key);
                Some(quote.duplicate())
            },
        }
    }

    /// Hands out the next quote id: the counter's value after the call. Ids
    /// start at 1, and one counter serves every anchor.
    pub fn get_next_quote_id(env: &mut Env) -> (id: u64)
        requires
            old(env)@.quote_counter < u64::MAX,
        ensures
            id == old(env)@.quote_counter + 1,
            final(env)@ == (Ledger { quote_counter: id, ..old(env)@ }),
    {
        let next = env.quote_counter + 1;
        env.quote_counter = next;
        next
    }

    /// Hands out the next intent id: the counter's value after the call. Ids
    /// start at 1.
    pub fn get_next_intent_id(env: &mut Env) -> (id: u64)
        requires
            old(env)@.intent_counter < u64::MAX,
        ensures
            id == old(env)@.intent_counter + 1,
            final(env)@ == (Ledger { intent_counter: id, ..old(env)@ }),
    {
        let next = env.intent_counter + 1;
        env.intent_counter = next;
        next
    }

    /// The session that `create_session` stores on a ledger for `initiator`.
    pub open spec fn fresh_session(ledger: Ledger, initiator: Address) -> InteractionSession {
        InteractionSession {
            session_id: ledger.session_counter,
            initiator,
            created_at: ledger.timestamp,
            operation_count: 0,
            nonce: ledger.sequence as u64,
        }
    }

    /// Opens a session for `initiator`: its id is the session counter's value
    /// before the call, its nonce the current sequence number.
    pub fn create_session(env: &mut Env, initiator: &Address) -> (session_id: u64)
        requires
            old(env)@.session_counter < u64::MAX,
        ensures
            session_id == old(env)@.session_counter,
            final(env)@ == (Ledger {
                session_counter: (session_id + 1) as u64,
                sessions: old(env)@.sessions.insert(
                    session_id,
                    Self::fresh_session(old(env)@, *initiator),
                ),
                session_nonces: old(env)@.session_nonces.insert(
                    session_id,
                    old(env)@.sequence as u64,
                ),
                ..old(env)@
            }),
    {
        let session_id = Self::get_and_increment_session_counter(env);
        let nonce = env.sequence as u64;
        let session = InteractionSession {
            session_id,
            initiator: *initiator,
            created_at: env.timestamp,
            operation_count: 0,
            nonce,
        };
        env.sessions.insert(session_id, session);
        env.session_nonces.insert(session_id, nonce);
        session_id
    }

    pub fn get_session(env: &Env, session_id: u64) -> (r: Result<InteractionSession, Error>)
        ensures
            r == (if env@.sessions.contains_key(session_id) {
                Ok::<InteractionSession, Error>(env@.sessions[session_id])
            } else {
                Err(Error::SessionNotFound)
            }),
    {
        match env.sessions.get(&session_id) {
            Some(s) => Ok(*s),
            None => Err(Error::SessionNotFound),
        }
    }

    /// Counts one more operation for the session and returns the count
    /// before the call.
    pub fn increment_session_operation_count(env: &mut Env, session_id: u64) -> (count: u64)
        requires
            old(env)@.operation_count(session_id) < u64::MAX,
        ensures
            count == old(env)@.operation_count(session_id),
            final(env)@ == (Ledger {
                operation_counts: old(env)@.operation_counts.insert(
                    session_id,
                    (count + 1) as u64,
                ),
                ..old(env)@
            }),
    {
        let count = Self::get_session_operation_count(env, session_id);
        env.operation_counts.insert(session_id, count + 1);
        count
    }

    pub fn get_session_operation_count(env: &Env, session_id: u64) -> (count: u64)
        ensures
            count == env@.operation_count(session_id),
    {
        match env.operation_counts.get(&session_id) {
            Some(c) => *c,
            None => 0,
        }
    }

    pub fn verify_session_nonce(env: &Env, session_id: u64, nonce: u64) -> (r: Result<(), Error>)
        ensures
            r == (if !env@.session_nonces.contains_key(session_id) {
                Err::<(), Error>(Error::SessionNotFound)
            } else if env@.session_nonces[session_id] != nonce {
                Err(Error::SessionReplayAttack)
            } else {
                Ok(())
            }),
    {
        match env.session_nonces.get(&session_id) {
            None => Err(Error::SessionNotFound),
            Some(stored) => {
                if *stored != nonce {
                    Err(Error::SessionReplayAttack)
                } else {
                    Ok(())
                }
            },
        }
    }

    fn get_and_increment_session_counter(env: &mut Env) -> (id: u64)
        requires
            old(env)@.session_counter < u64::MAX,
        ensures
            id == old(env)@.session_counter,
            final(env)@ == (Ledger { session_counter: (id + 1) as u64, ..old(env)@ }),
    {
        let counter = env.session_counter;
        env.session_counter = counter + 1;
        counter
    }

    /// Appends an entry to the audit trail and returns its id: the audit
    /// counter's value before the call.
    pub fn log_operation(
        env: &mut Env,
        session_id: u64,
        actor: &Address,
        operation: &OperationContext,
    ) -> (log_id: u64)
        requires
            old(env)@.audit_counter < u64::MAX,
        ensures
            log_id == old(env)@.audit_counter,
            final(env)@ == (Ledger {
                audit_counter: (log_id + 1) as u64,
                audit_logs: old(env)@.audit_logs.insert(
                    log_id,
                    (AuditLog { log_id, session_id, operation: *operation, actor: *actor }),
                ),
                ..old(env)@
            }),
    {
        let log_id = Self::get_and_increment_audit_counter(env);
        let audit_log = AuditLog {
            log_id,
            session_id,
            operation: operation.duplicate(),
            actor: *actor,
        };
        env.audit_logs.insert(log_id, audit_log);
        log_id
    }

    /// What `get_audit_log` returns on a ledger.
    pub open spec fn audit_log_in(ledger: Ledger, log_id: u64) -> Result<AuditLog, Error> {
        if ledger.audit_logs.contains_key(log_id) {
            Ok(ledger.audit_logs[log_id])
        } else {
            Err(Error::SessionNotFound)
        }
    }

    pub fn get_audit_log(env: &Env, log_id: u64) -> (r: Result<AuditLog, Error>)
        ensures
            r == Self::audit_log_in(env@, log_id),
    {
        match env.audit_logs.get(&log_id) {
            Some(l) => Ok(l.duplicate()),
            None => Err(Error::SessionNotFound),
        }
    }

    fn get_and_increment_audit_counter(env: &mut Env) -> (id: u64)
        requires
            old(env)@.audit_counter < u64::MAX,
        ensures
            id == old(env)@.audit_counter,
            final(env)@ == (Ledger { audit_counter: (id + 1) as u64, ..old(env)@ }),
    {
        let counter = env.audit_counter;
        env.audit_counter = counter + 1;
        counter
    }

    pub fn set_anchor_metadata(env: &mut Env, metadata: &AnchorMetadata)
        ensures
            final(env)@ == (Ledger {
                anchor_metadata: old(env)@.anchor_metadata.insert(metadata.anchor, *metadata),
                ..old(env)@
            }),
    {
        env.anchor_metadata.insert(metadata.anchor, *metadata);
    }

    pub fn get_anchor_metadata(env: &Env, anchor: &Address) -> (r: Option<AnchorMetadata>)
        ensures
            r == (if env@.anchor_metadata.contains_key(*anchor) {
                Some(env@.anchor_metadata[*anchor])
            } else {
                None
            }),
    {
        match env.anchor_metadata.get(anchor) {
            Some(m) => Some(*m),
            None => None,
        }
    }

    pub fn set_anchor_list(env: &mut Env, anchors: &Vec<Address>)
        ensures
            final(env)@ == (Ledger { anchor_list: anchors@, ..old(env)@ }),
    {
        env.anchor_list = Self::copy_addresses(anchors);
    }

    pub fn get_anchor_list(env: &Env) -> (r: Vec<Address>)
        ensures
            r@ == env@.anchor_list,
    {
        Self::copy_addresses(&env.anchor_list)
    }

    fn copy_addresses(list: &Vec<Address>) -> (r: Vec<Address>)
        ensures
            r@ == list@,
    {
        let mut out: Vec<Address> = Vec::new();
        let mut i: usize = 0;
        while i < list.len()
            invariant
                i <= list@.len(),
                out@ == list@.subrange(0, i as int),
            decreases list@.len() - i,
        {
            out.push(list[i]);
            assert(out@ =~= list@.subrange(0, i + 1));
            i += 1;
        }
        assert(out@ =~= list@);
        out
    }

    /// Appends `anchor` to the list of anchors unless it is there already.
    pub fn add_to_anchor_list(env: &mut Env, anchor: &Address)
        ensures
            final(env)@ == (Ledger {
                anchor_list: if old(env)@.anchor_list.contains(*anchor) {
                    old(env)@.anchor_list
                } else {
                    old(env)@.anchor_list.push(*anchor)
                },
                ..old(env)@
            }),
    {
        let mut i: usize = 0;
        while i < env.anchor_list.len()
            invariant
                *env == *old(env),
                i <= env.anchor_list@.len(),
                forall|j: int| 0 <= j < i ==> env.anchor_list@[j] != *anchor,
            decreases env.anchor_list@.len() - i,
        {
            if env.anchor_list[i].same(anchor) {
                assert(env.anchor_list@[i as int] == *anchor);
                return ;
            }
            i += 1;
        }
        env.anchor_list.push(*anchor);
    }

    /// The list without `anchor`: what is left keeps its order.
    pub open spec fn without(list: Seq<Address>, anchor: Address) -> Seq<Address> {
        list.filter(|a: Address| a != anchor)
    }

    /// Takes every occurrence of `anchor` out of the list of anchors; the
    /// others keep their order.
    pub fn remove_from_anchor_list(env: &mut Env, anchor: &Address)
        ensures
            final(env)@ == (Ledger {
                anchor_list: Self::without(old(env)@.anchor_list, *anchor),
                ..old(env)@
            }),
    {
        let mut out: Vec<Address> = Vec::new();
        let mut i: usize = 0;
        while i < env.anchor_list.len()
            invariant
                *env == *old(env),
                i <= env.anchor_list@.len(),
                out@ == Self::without(env.anchor_list@.subrange(0, i as int), *anchor),
            decreases env.anchor_list@.len() - i,
        {
            let a = env.anchor_list[i];
            proof {
                let prefix = env.anchor_list@.subrange(0, i as int);
                let next = env.anchor_list@.subrange(0, i + 1);
                assert(next.drop_last() =~= prefix);
                assert(next.last() == a);
                reveal(Seq::filter);
            }
            if !a.same(anchor) {
                out.push(a);
            }
            i += 1;
        }
        assert(env.anchor_list@.subrange(0, i as int) =~= env.anchor_list@);
        env.anchor_list = out;
    }
}

} // verus!
