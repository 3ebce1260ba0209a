//! The records that the operations take, store and return.

use crate::storage::Env;
use crate::table::StoreKey;
use vstd::prelude::*;

verus! {

/// Whether two arrays of 32 bytes hold the same bytes.
pub fn bytes32_eq(a: &[u8; 32], b: &[u8; 32]) -> (r: bool)
    ensures
        r == (*a == *b),
{
    let mut i: usize = 0;
    while i < 32
        invariant
            i <= 32,
            forall|j: int| 0 <= j < i ==> a[j] == b[j],
        decreases 32 - i,
    {
        if a[i] != b[i] {
            return false;
        }
        i += 1;
    }
    assert(*a =~= *b);
    true
}

/// What an address names.
#[derive(Copy, Clone, Debug, PartialEq, Eq, Structural)]
pub enum AddressKind {
    Account,
    Contract,
}

/// The identity of a principal: an account or a contract, with the 32 bytes
/// that identify it.
#[derive(Copy, Clone, Debug, PartialEq, Eq)]
pub struct Address {
    pub kind: AddressKind,
    pub id: [u8; 32],
}

impl Address {
    pub fn new(kind: AddressKind, id: [u8; 32]) -> (a: Self)
        ensures
            a.kind == kind,
            a.id == id,
    {
        Address { kind, id }
    }
}

impl StoreKey for Address {
    fn same(&self, other: &Self) -> (r: bool) {
        self.kind == other.kind && bytes32_eq(&self.id, &other.id)
    }
}

/// A digest of 32 bytes.
#[derive(Copy, Clone, Debug, PartialEq, Eq)]
pub struct Digest {
    pub bytes: [u8; 32],
}

impl Digest {
    pub fn new(bytes: [u8; 32]) -> (d: Self)
        ensures
            d.bytes == bytes,
    {
        Digest { bytes }
    }
}

impl StoreKey for Digest {
    fn same(&self, other: &Self) -> (r: bool) {
        bytes32_eq(&self.bytes, &other.bytes)
    }
}

/// The key of a stored quote: the anchor that issued it and its id.
#[derive(Copy, Clone, Debug, PartialEq, Eq)]
pub struct QuoteKey {
    pub anchor: Address,
    pub quote_id: u64,
}

impl StoreKey for QuoteKey {
    fn same(&self, other: &Self) -> (r: bool) {
        self.quote_id == other.quote_id && self.anchor.same(&other.anchor)
    }
}

/// A service that an anchor can offer.
#[derive(Copy, Clone, Debug, PartialEq, Eq, Structural, PartialOrd, Ord)]
pub enum ServiceType {
    Deposits,
    Withdrawals,
    Quotes,
    KYC,
}

/// Whether `service` is among `services`.
pub fn has_service(services: &Vec<ServiceType>, service: ServiceType) -> (r: bool)
    ensures
        r == services@.contains(service),
{
    let mut i: usize = 0;
    while i < services.len()
        invariant
            i <= services@.len(),
            forall|j: int| 0 <= j < i ==> services@[j] != service,
        decreases services@.len() - i,
    {
        if services[i] == service {
            return true;
        }
        i += 1;
    }
    false
}

/// A copy of a list of services.
pub fn copy_services(services: &Vec<ServiceType>) -> (r: Vec<ServiceType>)
    ensures
        r@ == services@,
{
    let mut out: Vec<ServiceType> = Vec::new();
    let mut i: usize = 0;
    while i < services.len()
        invariant
            i <= services@.len(),
            out@ == services@.subrange(0, i as int),
        decreases services@.len() - i,
    {
        out.push(services[i]);
        assert(out@ =~= services@.subrange(0, i + 1));
        i += 1;
    }
    assert(out@ =~= services@);
    out
}

/// A copy of a byte string.
pub fn copy_bytes(bytes: &Vec<u8>) -> (r: Vec<u8>)
    ensures
        r@ == bytes@,
{
    let mut out: Vec<u8> = Vec::new();
    let mut i: usize = 0;
    while i < bytes.len()
        invariant
            i <= bytes@.len(),
            out@ == bytes@.subrange(0, i as int),
        decreases bytes@.len() - i,
    {
        out.push(bytes[i]);
        assert(out@ =~= bytes@.subrange(0, i + 1));
        i += 1;
    }
    assert(out@ =~= bytes@);
    out
}

/// A claim about a subject, signed by an issuer and addressed by the hash of
/// its payload.
#[derive(Clone, Debug, PartialEq, Eq)]
pub struct Attestation {
    pub id: u64,
    pub issuer: Address,
    pub subject: Address,
    pub timestamp: u64,
    pub payload_hash: Digest,
    pub signature: Vec<u8>,
}

impl Attestation {
    /// The two attestations agree in every field, the signatures byte for
    /// byte.
    pub open spec fn same_as(&self, other: &Attestation) -> bool {
        &&& self.id == other.id
        &&& self.issuer == other.issuer
        &&& self.subject == other.subject
        &&& self.timestamp == other.timestamp
        &&& self.payload_hash == other.payload_hash
        &&& self.signature@ == other.signature@
    }

    pub fn duplicate(&self) -> (r: Self)
        ensures
            r.same_as(self),
    {
        Attestation {
            id: self.id,
            issuer: self.issuer,
            subject: self.subject,
            timestamp: self.timestamp,
            payload_hash: self.payload_hash,
            signature: copy_bytes(&self.signature),
        }
    }
}

/// Where an attestor can be reached. The URL is a byte string.
#[derive(Clone, Debug, PartialEq, Eq)]
pub struct Endpoint {
    pub url: Vec<u8>,
    pub attestor: Address,
    pub is_active: bool,
}

impl Endpoint {
    /// The two endpoints agree in every field, the URLs byte for byte.
    pub open spec fn same_as(&self, other: &Endpoint) -> bool {
        &&& self.url@ == other.url@
        &&& self.attestor == other.attestor
        &&& self.is_active == other.is_active
    }

    pub fn duplicate(&self) -> (r: Self)
        ensures
            r.same_as(self),
    {
        Endpoint { url: copy_bytes(&self.url), attestor: self.attestor, is_active: self.is_active }
    }
}

/// The services that an anchor declares.
#[derive(Clone, Debug, PartialEq, Eq)]
pub struct AnchorServices {
    pub anchor: Address,
    pub services: Vec<ServiceType>,
}

impl AnchorServices {
    /// The two declarations name the same anchor and list the same services
    /// in the same order.
    pub open spec fn same_as(&self, other: &AnchorServices) -> bool {
        self.anchor == other.anchor && self.services@ == other.services@
    }

    pub fn duplicate(&self) -> (r: Self)
        ensures
            r.same_as(self),
    {
        AnchorServices { anchor: self.anchor, services: copy_services(&self.services) }
    }
}

/// An anchor's offer of a rate and a fee for an asset pair, good until
/// `valid_until`. A rate of 10000 stands for 1.0; the fee is in basis points.
#[derive(Clone, Debug, PartialEq, Eq)]
pub struct QuoteData {
    pub anchor: Address,
    pub base_asset: String,
    pub quote_asset: String,
    pub rate: u64,
    pub fee_percentage: u32,
    pub minimum_amount: u64,
    pub maximum_amount: u64,
    pub valid_until: u64,
    pub quote_id: u64,
}

impl QuoteData {
    pub fn duplicate(&self) -> (r: Self)
        ensures
            r == *self,
    {
        QuoteData {
            anchor: self.anchor,
            base_asset: self.base_asset.clone(),
            quote_asset: self.quote_asset.clone(),
            rate: self.rate,
            fee_percentage: self.fee_percentage,
            minimum_amount: self.minimum_amount,
            maximum_amount: self.maximum_amount,
            valid_until: self.valid_until,
            quote_id: self.quote_id,
        }
    }

    /// The quote is for the request's asset pair and admits its amount.
    pub open spec fn fits(&self, request: &QuoteRequest) -> bool {
        &&& self.base_asset@ == request.base_asset@
        &&& self.quote_asset@ == request.quote_asset@
        &&& self.minimum_amount <= request.amount <= self.maximum_amount
    }

    /// The quote is for the request's asset pair.
    pub open spec fn same_pair(&self, request: &QuoteRequest) -> bool {
        self.base_asset@ == request.base_asset@ && self.quote_asset@ == request.quote_asset@
    }

    pub fn is_for_pair(&self, request: &QuoteRequest) -> (r: bool)
        ensures
            r == self.same_pair(request),
    {
        self.base_asset == request.base_asset && self.quote_asset == request.quote_asset
    }

    pub fn matches(&self, request: &QuoteRequest) -> (r: bool)
        ensures
            r == self.fits(request),
    {
        self.is_for_pair(request) && self.minimum_amount <= request.amount && request.amount
            <= self.maximum_amount
    }
}

/// The outcome of a comparison of quotes: the best one, and all that were
/// compared.
#[derive(Clone, Debug, PartialEq, Eq)]
pub struct RateComparison {
    pub best_quote: QuoteData,
    pub all_quotes: Vec<QuoteData>,
    pub comparison_timestamp: u64,
}

/// What a caller asks a quote for.
#[derive(Clone, Debug, PartialEq, Eq)]
pub struct QuoteRequest {
    pub base_asset: String,
    pub quote_asset: String,
    pub amount: u64,
    pub operation_type: ServiceType,
}

impl QuoteRequest {
    pub fn duplicate(&self) -> (r: Self)
        ensures
            r == *self,
    {
        QuoteRequest {
            base_asset: self.base_asset.clone(),
            quote_asset: self.quote_asset.clone(),
            amount: self.amount,
            operation_type: self.operation_type,
        }
    }
}

/// The request from which a transaction intent is built.
#[derive(Clone, Debug, PartialEq, Eq)]
pub struct TransactionIntentBuilder {
    pub anchor: Address,
    pub request: QuoteRequest,
    pub quote_id: u64,
    pub require_kyc: bool,
    pub session_id: u64,
    pub ttl_seconds: u64,
}

impl TransactionIntentBuilder {
    /// A request with the defaults: no quote, no session, no KYC, and five
    /// minutes to live.
    pub fn new(_env: &Env, anchor: Address, request: QuoteRequest) -> (b: Self)
        ensures
            b == (TransactionIntentBuilder {
                anchor,
                request,
                quote_id: 0,
                require_kyc: false,
                session_id: 0,
                ttl_seconds: 300,
            }),
    {
        TransactionIntentBuilder {
            anchor,
            request,
            quote_id: 0,
            require_kyc: false,
            session_id: 0,
            ttl_seconds: 300,
        }
    }

    pub fn with_quote_id(self, quote_id: u64) -> (b: Self)
        ensures
            b == (TransactionIntentBuilder { quote_id, ..self }),
    {
        let mut b = self;
        b.quote_id = quote_id;
        b
    }

    pub fn require_kyc(self) -> (b: Self)
        ensures
            b == (TransactionIntentBuilder { require_kyc: true, ..self }),
    {
        let mut b = self;
        b.require_kyc = true;
        b
    }

    pub fn with_session(self, session_id: u64) -> (b: Self)
        ensures
            b == (TransactionIntentBuilder { session_id, ..self }),
    {
        let mut b = self;
        b.session_id = session_id;
        b
    }

    pub fn with_ttl(self, ttl_seconds: u64) -> (b: Self)
        ensures
            b == (TransactionIntentBuilder { ttl_seconds, ..self }),
    {
        let mut b = self;
        b.ttl_seconds = ttl_seconds;
        b
    }
}

/// One authorization decision: a request that passed every check, with the
/// rate it is locked to and the time at which it lapses.
#[derive(Clone, Debug, PartialEq, Eq)]
pub struct TransactionIntent {
    pub intent_id: u64,
    pub anchor: Address,
    pub request: QuoteRequest,
    pub quote_id: u64,
    pub has_quote: bool,
    pub rate: u64,
    pub fee_percentage: u32,
    pub requires_kyc: bool,
    pub session_id: u64,
    pub created_at: u64,
    pub expires_at: u64,
}

/// A context under which operations are logged.
#[derive(Copy, Clone, Debug, PartialEq, Eq)]
pub struct InteractionSession {
    pub session_id: u64,
    pub initiator: Address,
    pub created_at: u64,
    pub operation_count: u64,
    pub nonce: u64,
}

/// One operation of a session.
#[derive(Clone, Debug, PartialEq, Eq)]
pub struct OperationContext {
    pub session_id: u64,
    pub operation_index: u64,
    pub operation_type: String,
    pub timestamp: u64,
    pub status: String,
    pub result_data: u64,
}

impl OperationContext {
    pub fn duplicate(&self) -> (r: Self)
        ensures
            r == *self,
    {
        OperationContext {
            session_id: self.session_id,
            operation_index: self.operation_index,
            operation_type: self.operation_type.clone(),
            timestamp: self.timestamp,
            status: self.status.clone(),
            result_data: self.result_data,
        }
    }
}

/// An entry of the audit trail.
#[derive(Clone, Debug, PartialEq, Eq)]
pub struct AuditLog {
    pub log_id: u64,
    pub session_id: u64,
    pub operation: OperationContext,
    pub actor: Address,
}

impl AuditLog {
    pub fn duplicate(&self) -> (r: Self)
        ensures
            r == *self,
    {
        AuditLog {
            log_id: self.log_id,
            session_id: self.session_id,
            operation: self.operation.duplicate(),
            actor: self.actor,
        }
    }
}

/// By what an anchor is chosen among several.
#[derive(Copy, Clone, Debug, PartialEq, Eq, Structural)]
pub enum RoutingStrategy {
    BestRate,
    LowestFee,
    FastestSettlement,
    HighestLiquidity,
    Custom,
}

/// What is known of an anchor for routing. Scores and percentages run from 0
/// to 10000.
#[derive(Copy, Clone, Debug, PartialEq, Eq)]
pub struct AnchorMetadata {
    pub anchor: Address,
    pub reputation_score: u32,
    pub average_settlement_time: u64,
    pub liquidity_score: u32,
    pub uptime_percentage: u32,
    pub total_volume: u64,
    pub is_active: bool,
}

/// What the last health check found of an anchor.
#[derive(Copy, Clone, Debug, PartialEq, Eq)]
pub struct HealthStatus {
    pub anchor: Address,
    pub latency_ms: u64,
    pub failure_count: u32,
    pub availability_percent: u32,
    pub last_check: u64,
}

/// A request to choose an anchor for a quote request.
#[derive(Clone, Debug, PartialEq, Eq)]
pub struct RoutingRequest {
    pub request: QuoteRequest,
    pub strategy: RoutingStrategy,
    pub max_anchors: u32,
    pub require_kyc: bool,
    pub min_reputation: u32,
}

/// An anchor that could have been chosen, with its quote and score.
#[derive(Clone, Debug, PartialEq, Eq)]
pub struct AnchorOption {
    pub anchor: Address,
    pub quote: QuoteData,
    pub score: u64,
    pub metadata: AnchorMetadata,
}

/// The anchor that was chosen, and the others that were considered.
#[derive(Clone, Debug, PartialEq, Eq)]
pub struct RoutingResult {
    pub selected_anchor: Address,
    pub selected_quote: QuoteData,
    pub score: u64,
    pub alternatives: Vec<AnchorOption>,
    pub routing_timestamp: u64,
}

/// The network that a client talks to.
#[derive(Copy, Clone, Debug, PartialEq, Eq, Structural)]
pub enum NetworkType {
    Testnet,
    Mainnet,
}

/// A header that a client sends along. Key and value are byte strings.
#[derive(Clone, Debug, PartialEq, Eq)]
pub struct HttpHeader {
    pub key: Vec<u8>,
    pub value: Vec<u8>,
}

impl HttpHeader {
    /// The key has 1 to 64 bytes and the value at most 1024.
    pub open spec fn acceptable(&self) -> bool {
        1 <= self.key@.len() <= 64 && self.value@.len() <= 1024
    }
}

/// How a client reaches the anchors.
#[derive(Clone, Debug, PartialEq, Eq)]
pub struct SdkConfig {
    pub network: NetworkType,
    pub anchor_domain: Vec<u8>,
    pub timeout_seconds: u64,
    pub custom_headers: Vec<HttpHeader>,
}

impl SdkConfig {
    /// The domain has 3 to 253 bytes, the timeout is 1 to 300 seconds, and
    /// there are at most 20 headers, each acceptable.
    pub open spec fn acceptable(&self) -> bool {
        &&& 3 <= self.anchor_domain@.len() <= 253
        &&& 1 <= self.timeout_seconds <= 300
        &&& self.custom_headers@.len() <= 20
        &&& forall|i: int|
            0 <= i < self.custom_headers@.len() ==> (#[trigger] self.custom_headers@[i]).acceptable()
    }

    pub fn validate(&self) -> (r: bool)
        ensures
            r == self.acceptable(),
    {
        let domain_len = self.anchor_domain.len();
        if domain_len < 3 || domain_len > 253 {
            return false;
        }
        if self.timeout_seconds < 1 || self.timeout_seconds > 300 {
            return false;
        }
        if self.custom_headers.len() > 20 {
            return false;
        }
        let mut i: usize = 0;
        while i < self.custom_headers.len()
            invariant
                i <= self.custom_headers@.len(),
                forall|j: int| 0 <= j < i ==> (#[trigger] self.custom_headers@[j]).acceptable(),
            decreases self.custom_headers@.len() - i,
        {
            let header = &self.custom_headers[i];
            let key_len = header.key.len();
            let value_len = header.value.len();
            if key_len < 1 || key_len > 64 {
                return false;
            }
            if value_len > 1024 {
                return false;
            }
            i += 1;
        }
        true
    }
}

/// What a webhook reports.
#[derive(Copy, Clone, Debug, PartialEq, Eq, Structural)]
pub enum WebhookEventType {
    Deposit,
    Withdrawal,
    KycUpdate,
    QuoteReceived,
    TransferInitiated,
    SettlementConfirmed,
    SessionCreated,
    AttestationRecorded,
}

/// One report of a webhook, addressed by the hash of its payload.
#[derive(Copy, Clone, Debug, PartialEq, Eq)]
pub struct WebhookEvent {
    pub event_id: u64,
    pub event_type: WebhookEventType,
    pub timestamp: u64,
    pub payload_hash: Digest,
}

/// A notification that an operation leaves for the environment to publish.
/// Nothing is owed for its delivery.
#[derive(Clone, Debug, PartialEq, Eq)]
pub enum Event {
    AttestorAdded { attestor: Address },
    AttestorRemoved { attestor: Address },
    AttestationRecorded { id: u64, subject: Address, timestamp: u64, payload_hash: Digest },
    ServicesConfigured { anchor: Address, services: Vec<ServiceType> },
    QuoteSubmitted {
        anchor: Address,
        quote_id: u64,
        base_asset: String,
        quote_asset: String,
        rate: u64,
        valid_until: u64,
    },
    QuoteReceived { quote_id: u64, receiver: Address, timestamp: u64 },
    SessionCreated { session_id: u64, initiator: Address, timestamp: u64 },
    OperationLogged {
        log_id: u64,
        session_id: u64,
        operation_index: u64,
        operation_type: String,
        status: String,
    },
    TransferInitiated { transfer_id: u64, sender: Address, destination: Address, amount: i128 },
    SettlementConfirmed { transfer_id: u64, settlement_ref: Digest, timestamp: u64 },
}

} // verus!
