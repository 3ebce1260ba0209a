use anchorkit::types::{
    Address, AddressKind, Digest, Event, QuoteData, QuoteRequest, ServiceType,
    TransactionIntentBuilder,
};
use anchorkit::{AnchorKitContract, Env, Error, Storage};

fn addr(n: u8) -> Address {
    Address::new(AddressKind::Account, [n; 32])
}

fn hash(n: u8) -> Digest {
    Digest::new([n; 32])
}

fn admin() -> Address {
    addr(1)
}

/// An initialized environment at time 1000 with one session (id 0) and a
/// second one (id 1).
fn started() -> Env {
    let mut env = Env::new();
    env.set_timestamp(1000);
    env.set_sequence(77);
    env.authorize(admin());
    assert_eq!(AnchorKitContract::initialize(&mut env, admin()), Ok(()));
    assert_eq!(AnchorKitContract::create_session(&mut env, admin()), Ok(0));
    assert_eq!(AnchorKitContract::create_session(&mut env, admin()), Ok(1));
    env
}

fn with_anchor(env: &mut Env, anchor: Address, services: Vec<ServiceType>) {
    env.authorize(anchor);
    assert!(AnchorKitContract::has_room(env, 0));
    assert_eq!(AnchorKitContract::register_attestor_with_session(env, 0, anchor), Ok(()));
    assert_eq!(AnchorKitContract::configure_services(env, anchor, services), Ok(()));
}

fn request(amount: u64, operation_type: ServiceType) -> QuoteRequest {
    QuoteRequest {
        base_asset: "USD".to_string(),
        quote_asset: "EUR".to_string(),
        amount,
        operation_type,
    }
}

fn quote(env: &mut Env, anchor: Address, rate: u64, fee: u32, valid_until: u64) -> u64 {
    AnchorKitContract::submit_quote(
        env,
        anchor,
        "USD".to_string(),
        "EUR".to_string(),
        rate,
        fee,
        1,
        1_000_000,
        valid_until,
    )
    .unwrap()
}

fn all_services() -> Vec<ServiceType> {
    vec![ServiceType::Deposits, ServiceType::Withdrawals, ServiceType::Quotes, ServiceType::KYC]
}

#[test]
fn initialize_only_once() {
    let mut env = Env::new();
    env.authorize(admin());
    assert!(!Storage::has_admin(&env));
    assert_eq!(Storage::get_admin(&env), Err(Error::NotInitialized));
    assert_eq!(AnchorKitContract::initialize(&mut env, admin()), Ok(()));
    assert_eq!(Storage::get_admin(&env), Ok(admin()));
    assert_eq!(AnchorKitContract::initialize(&mut env, addr(2)), Err(Error::AlreadyInitialized));
    assert_eq!(Storage::get_admin(&env), Ok(admin()));
}

#[test]
fn session_records_time_and_nonce() {
    let env = started();
    let session = AnchorKitContract::get_session(&env, 1).unwrap();
    assert_eq!(session.session_id, 1);
    assert_eq!(session.initiator, admin());
    assert_eq!(session.created_at, 1000);
    assert_eq!(session.operation_count, 0);
    assert_eq!(session.nonce, 77);
    assert_eq!(AnchorKitContract::get_session(&env, 2), Err(Error::SessionNotFound));
    assert_eq!(Storage::verify_session_nonce(&env, 1, 77), Ok(()));
    assert_eq!(Storage::verify_session_nonce(&env, 1, 78), Err(Error::SessionReplayAttack));
    assert_eq!(Storage::verify_session_nonce(&env, 9, 77), Err(Error::SessionNotFound));
}

#[test]
fn create_session_needs_an_administrator() {
    let mut env = Env::new();
    env.authorize(addr(3));
    assert_eq!(AnchorKitContract::create_session(&mut env, addr(3)), Err(Error::NotInitialized));
}

#[test]
fn replay_is_rejected_whoever_submits() {
    let mut env = started();
    with_anchor(&mut env, addr(10), all_services());
    with_anchor(&mut env, addr(11), all_services());
    let first = AnchorKitContract::submit_attestation(
        &mut env,
        addr(10),
        addr(20),
        500,
        hash(9),
        vec![1, 2, 3],
    );
    assert_eq!(first, Ok(0));
    let again = AnchorKitContract::submit_attestation(
        &mut env,
        addr(11),
        addr(21),
        600,
        hash(9),
        vec![4],
    );
    assert_eq!(again, Err(Error::ReplayAttack));
    let other = AnchorKitContract::submit_attestation(
        &mut env,
        addr(11),
        addr(21),
        600,
        hash(8),
        vec![4],
    );
    assert_eq!(other, Ok(1));
    let stored = Storage::get_attestation(&env, 0).unwrap();
    assert_eq!(stored.issuer, addr(10));
    assert_eq!(stored.subject, addr(20));
    assert_eq!(stored.timestamp, 500);
    assert_eq!(stored.payload_hash, hash(9));
    assert_eq!(stored.signature, vec![1, 2, 3]);
    assert_eq!(Storage::get_attestation(&env, 2), Err(Error::AttestationNotFound));
}

#[test]
fn attestation_faults_in_order() {
    let mut env = started();
    with_anchor(&mut env, addr(10), all_services());
    env.authorize(addr(99));
    assert_eq!(
        AnchorKitContract::submit_attestation(&mut env, addr(99), addr(20), 0, hash(1), vec![]),
        Err(Error::InvalidTimestamp)
    );
    assert_eq!(
        AnchorKitContract::submit_attestation(&mut env, addr(99), addr(20), 5, hash(1), vec![]),
        Err(Error::UnauthorizedAttestor)
    );
    assert!(!Storage::is_hash_used(&env, &hash(1)));
    assert_eq!(
        AnchorKitContract::submit_attestation(&mut env, addr(10), addr(20), 5, hash(1), vec![]),
        Ok(0)
    );
    assert!(Storage::is_hash_used(&env, &hash(1)));
}

#[test]
fn audit_trail_counts_failed_attempts_too() {
    let mut env = started();
    with_anchor(&mut env, addr(10), all_services());
    // Session 0 holds the registration; session 1 is fresh.
    assert_eq!(AnchorKitContract::get_session_operation_count(&env, 0), Ok(1));
    assert_eq!(AnchorKitContract::get_session_operation_count(&env, 1), Ok(0));
    assert_eq!(
        AnchorKitContract::get_session_operation_count(&env, 5),
        Err(Error::SessionNotFound)
    );
    env.set_timestamp(1234);
    assert!(AnchorKitContract::has_room(&env, 1));
    let ok = AnchorKitContract::submit_attestation_with_session(
        &mut env,
        1,
        addr(10),
        addr(20),
        500,
        hash(3),
        vec![9],
    );
    assert_eq!(ok, Ok(0));
    let replay = AnchorKitContract::submit_attestation_with_session(
        &mut env,
        1,
        addr(10),
        addr(20),
        500,
        hash(3),
        vec![9],
    );
    assert_eq!(replay, Err(Error::ReplayAttack));
    let zero = AnchorKitContract::submit_attestation_with_session(
        &mut env,
        1,
        addr(10),
        addr(20),
        0,
        hash(4),
        vec![9],
    );
    assert_eq!(zero, Err(Error::InvalidTimestamp));
    assert_eq!(AnchorKitContract::get_session_operation_count(&env, 1), Ok(3));
    assert_eq!(AnchorKitContract::get_session_operation_count(&env, 0), Ok(1));

    // Entry 0 is the registration; entries 1 to 3 belong to session 1.
    let first = AnchorKitContract::get_audit_log(&env, 1).unwrap();
    assert_eq!(first.log_id, 1);
    assert_eq!(first.session_id, 1);
    assert_eq!(first.actor, addr(10));
    assert_eq!(first.operation.operation_index, 0);
    assert_eq!(first.operation.operation_type, "attest");
    assert_eq!(first.operation.status, "success");
    assert_eq!(first.operation.timestamp, 1234);
    assert_eq!(first.operation.result_data, 0);
    let second = AnchorKitContract::get_audit_log(&env, 2).unwrap();
    assert_eq!(second.operation.operation_index, 1);
    assert_eq!(second.operation.status, "failed");
    let third = AnchorKitContract::get_audit_log(&env, 3).unwrap();
    assert_eq!(third.operation.operation_index, 2);
    assert_eq!(third.operation.status, "failed");
    assert_eq!(AnchorKitContract::get_audit_log(&env, 4), Err(Error::SessionNotFound));
}

#[test]
fn missing_session_writes_nothing() {
    let mut env = started();
    let r = AnchorKitContract::register_attestor_with_session(&mut env, 9, addr(10));
    assert_eq!(r, Err(Error::SessionNotFound));
    assert!(!Storage::is_attestor(&env, &addr(10)));
    env.authorize(addr(10));
    let r = AnchorKitContract::submit_attestation_with_session(
        &mut env,
        9,
        addr(10),
        addr(20),
        5,
        hash(1),
        vec![],
    );
    assert_eq!(r, Err(Error::SessionNotFound));
    assert!(!Storage::is_hash_used(&env, &hash(1)));
    assert_eq!(
        AnchorKitContract::log_session_operation(&mut env, 9, &admin(), "x", "y", 0),
        Err(Error::SessionNotFound)
    );
    assert_eq!(AnchorKitContract::get_audit_log(&env, 0), Err(Error::SessionNotFound));
}

#[test]
fn register_and_revoke_are_logged() {
    let mut env = started();
    assert_eq!(AnchorKitContract::register_attestor_with_session(&mut env, 0, addr(10)), Ok(()));
    assert!(Storage::is_attestor(&env, &addr(10)));
    assert_eq!(
        AnchorKitContract::register_attestor_with_session(&mut env, 0, addr(10)),
        Err(Error::AttestorAlreadyRegistered)
    );
    assert_eq!(AnchorKitContract::revoke_attestor_with_session(&mut env, 0, addr(10)), Ok(()));
    assert!(!Storage::is_attestor(&env, &addr(10)));
    assert_eq!(
        AnchorKitContract::revoke_attestor_with_session(&mut env, 0, addr(10)),
        Err(Error::AttestorNotRegistered)
    );
    assert_eq!(AnchorKitContract::get_session_operation_count(&env, 0), Ok(4));
    let kinds = ["register", "register", "revoke", "revoke"];
    let states = ["success", "failed", "success", "failed"];
    for i in 0..4u64 {
        let log = AnchorKitContract::get_audit_log(&env, i).unwrap();
        assert_eq!(log.operation.operation_index, i);
        assert_eq!(log.operation.operation_type, kinds[i as usize]);
        assert_eq!(log.operation.status, states[i as usize]);
        assert_eq!(log.actor, admin());
    }
    let mut fresh = Env::new();
    assert_eq!(
        AnchorKitContract::register_attestor_with_session(&mut fresh, 0, addr(10)),
        Err(Error::NotInitialized)
    );
    assert_eq!(
        AnchorKitContract::revoke_attestor_with_session(&mut fresh, 0, addr(10)),
        Err(Error::NotInitialized)
    );
}

#[test]
fn services_are_validated_and_replaced() {
    let mut env = started();
    env.authorize(addr(10));
    assert_eq!(
        AnchorKitContract::configure_services(&mut env, addr(10), vec![ServiceType::Deposits]),
        Err(Error::AttestorNotRegistered)
    );
    with_anchor(&mut env, addr(10), vec![ServiceType::Deposits, ServiceType::KYC]);
    assert_eq!(
        AnchorKitContract::configure_services(&mut env, addr(10), vec![]),
        Err(Error::InvalidServiceType)
    );
    assert_eq!(
        AnchorKitContract::configure_services(
            &mut env,
            addr(10),
            vec![ServiceType::Quotes, ServiceType::Deposits, ServiceType::Quotes]
        ),
        Err(Error::InvalidServiceType)
    );
    assert_eq!(
        AnchorKitContract::get_supported_services(&env, addr(10)),
        Ok(vec![ServiceType::Deposits, ServiceType::KYC])
    );
    assert!(AnchorKitContract::supports_service(&env, addr(10), ServiceType::KYC));
    assert!(!AnchorKitContract::supports_service(&env, addr(10), ServiceType::Quotes));
    assert!(!AnchorKitContract::supports_service(&env, addr(11), ServiceType::KYC));
    assert_eq!(
        AnchorKitContract::get_supported_services(&env, addr(11)),
        Err(Error::ServicesNotConfigured)
    );
    assert_eq!(
        AnchorKitContract::configure_services(&mut env, addr(10), vec![ServiceType::Quotes]),
        Ok(())
    );
    assert_eq!(
        AnchorKitContract::get_supported_services(&env, addr(10)),
        Ok(vec![ServiceType::Quotes])
    );
    let mut fresh = Env::new();
    assert_eq!(
        AnchorKitContract::configure_services(&mut fresh, addr(10), vec![ServiceType::Quotes]),
        Err(Error::NotInitialized)
    );
}

#[test]
fn only_deposits_and_withdrawals_can_be_asked_for() {
    assert_eq!(AnchorKitContract::validate_transaction_operation(&ServiceType::Deposits), Ok(()));
    assert_eq!(
        AnchorKitContract::validate_transaction_operation(&ServiceType::Withdrawals),
        Ok(())
    );
    assert_eq!(
        AnchorKitContract::validate_transaction_operation(&ServiceType::Quotes),
        Err(Error::InvalidServiceType)
    );
    assert_eq!(
        AnchorKitContract::validate_transaction_operation(&ServiceType::KYC),
        Err(Error::InvalidServiceType)
    );
}

#[test]
fn quote_submission_faults() {
    let mut env = started();
    env.authorize(addr(10));
    assert_eq!(
        AnchorKitContract::submit_quote(
            &mut env,
            addr(10),
            "USD".to_string(),
            "EUR".to_string(),
            10000,
            0,
            1,
            10,
            2000
        ),
        Err(Error::UnauthorizedAttestor)
    );
    assert_eq!(AnchorKitContract::register_attestor_with_session(&mut env, 0, addr(10)), Ok(()));
    let submit = |env: &mut Env, rate: u64, valid_until: u64| {
        AnchorKitContract::submit_quote(
            env,
            addr(10),
            "USD".to_string(),
            "EUR".to_string(),
            rate,
            0,
            1,
            10,
            valid_until,
        )
    };
    assert_eq!(submit(&mut env, 0, 2000), Err(Error::InvalidQuote));
    assert_eq!(submit(&mut env, 10000, 1000), Err(Error::InvalidQuote));
    assert_eq!(submit(&mut env, 10000, 1001), Err(Error::ServicesNotConfigured));
    assert_eq!(
        AnchorKitContract::configure_services(&mut env, addr(10), vec![ServiceType::Deposits]),
        Ok(())
    );
    assert_eq!(submit(&mut env, 10000, 1001), Err(Error::InvalidServiceType));
    assert_eq!(
        AnchorKitContract::configure_services(&mut env, addr(10), vec![ServiceType::Quotes]),
        Ok(())
    );
    assert_eq!(submit(&mut env, 10000, 1001), Ok(1));
    assert_eq!(submit(&mut env, 10000, 1001), Ok(2));
    let stored = AnchorKitContract::get_quote(&env, addr(10), 2).unwrap();
    assert_eq!(
        stored,
        QuoteData {
            anchor: addr(10),
            base_asset: "USD".to_string(),
            quote_asset: "EUR".to_string(),
            rate: 10000,
            fee_percentage: 0,
            minimum_amount: 1,
            maximum_amount: 10,
            valid_until: 1001,
            quote_id: 2,
        }
    );
    assert_eq!(AnchorKitContract::get_quote(&env, addr(10), 3), Err(Error::QuoteNotFound));
    assert_eq!(AnchorKitContract::get_quote(&env, addr(11), 2), Err(Error::QuoteNotFound));
}

#[test]
fn quote_ids_are_shared_across_anchors() {
    let mut env = started();
    with_anchor(&mut env, addr(10), all_services());
    with_anchor(&mut env, addr(11), all_services());
    assert_eq!(quote(&mut env, addr(10), 10000, 0, 2000), 1);
    assert_eq!(quote(&mut env, addr(11), 10000, 0, 2000), 2);
    assert_eq!(quote(&mut env, addr(10), 10000, 0, 2000), 3);
}

#[test]
fn effective_rate_formula() {
    let a = QuoteData {
        anchor: addr(10),
        base_asset: "USD".to_string(),
        quote_asset: "EUR".to_string(),
        rate: 10000,
        fee_percentage: 0,
        minimum_amount: 1,
        maximum_amount: 1_000_000,
        valid_until: 2000,
        quote_id: 1,
    };
    let b = QuoteData { rate: 9900, fee_percentage: 50, quote_id: 2, ..a.clone() };
    assert!(AnchorKitContract::rate_computable(&a, 1000));
    assert!(AnchorKitContract::rate_computable(&b, 1000));
    assert_eq!(AnchorKitContract::calculate_effective_rate(&a, 1000), 10000);
    assert_eq!(AnchorKitContract::calculate_effective_rate(&b, 1000), 9949);
    assert!(!AnchorKitContract::rate_computable(&a, 0));
    let huge = QuoteData { rate: u64::MAX, ..a.clone() };
    assert!(!AnchorKitContract::rate_computable(&huge, 2));
    assert!(AnchorKitContract::rate_computable(&huge, 1) == false || huge.fee_percentage == 0);
    let fee = QuoteData { fee_percentage: u32::MAX, ..a.clone() };
    assert!(!AnchorKitContract::rate_computable(&fee, u64::MAX));
}

#[test]
fn best_rate_is_selected() {
    let mut env = started();
    with_anchor(&mut env, addr(10), all_services());
    with_anchor(&mut env, addr(11), all_services());
    let a = quote(&mut env, addr(10), 10000, 0, 2000);
    let b = quote(&mut env, addr(11), 9900, 50, 2000);
    let req = request(1000, ServiceType::Deposits);
    let anchors = vec![addr(10), addr(11)];
    let offers = AnchorKitContract::collect_offers(&env, &req, &anchors);
    assert!(AnchorKitContract::rates_computable(&offers, req.amount));
    let comparison =
        AnchorKitContract::compare_rates_for_anchors(&env, req.clone(), anchors).unwrap();
    assert_eq!(comparison.all_quotes.len(), 2);
    assert_eq!(comparison.all_quotes[0].quote_id, a);
    assert_eq!(comparison.all_quotes[1].quote_id, b);
    assert_eq!(comparison.best_quote.quote_id, b);
    assert_eq!(comparison.best_quote.anchor, addr(11));
    assert_eq!(comparison.comparison_timestamp, 1000);
}

#[test]
fn equal_rates_keep_the_first_anchor() {
    let mut env = started();
    with_anchor(&mut env, addr(10), all_services());
    with_anchor(&mut env, addr(11), all_services());
    quote(&mut env, addr(10), 10000, 10, 2000);
    quote(&mut env, addr(11), 10000, 10, 2000);
    let comparison = AnchorKitContract::compare_rates_for_anchors(
        &env,
        request(1000, ServiceType::Deposits),
        vec![addr(11), addr(10)],
    )
    .unwrap();
    assert_eq!(comparison.best_quote.anchor, addr(11));
}

#[test]
fn comparison_takes_the_latest_fitting_unexpired_quote() {
    let mut env = started();
    with_anchor(&mut env, addr(10), all_services());
    with_anchor(&mut env, addr(11), all_services());
    with_anchor(&mut env, addr(12), all_services());
    quote(&mut env, addr(10), 5000, 0, 2000);
    let latest = quote(&mut env, addr(10), 12000, 0, 2000);
    // Anchor 11 quotes another pair; anchor 12 quotes an amount range that
    // leaves the request out.
    AnchorKitContract::submit_quote(
        &mut env,
        addr(11),
        "USD".to_string(),
        "GBP".to_string(),
        1,
        0,
        1,
        1_000_000,
        2000,
    )
    .unwrap();
    AnchorKitContract::submit_quote(
        &mut env,
        addr(12),
        "USD".to_string(),
        "EUR".to_string(),
        1,
        0,
        5000,
        1_000_000,
        2000,
    )
    .unwrap();
    let req = request(1000, ServiceType::Deposits);
    let found = AnchorKitContract::get_latest_quote_for_anchor(&env, &addr(10), &req).unwrap();
    assert_eq!(found.quote_id, latest);
    assert_eq!(AnchorKitContract::get_latest_quote_for_anchor(&env, &addr(11), &req), None);
    let anchors = vec![addr(10), addr(11), addr(12), addr(13)];
    let comparison =
        AnchorKitContract::compare_rates_for_anchors(&env, req.clone(), anchors.clone()).unwrap();
    assert_eq!(comparison.all_quotes.len(), 1);
    assert_eq!(comparison.best_quote.quote_id, latest);
    assert_eq!(comparison.best_quote.rate, 12000);
    env.set_timestamp(2000);
    assert_eq!(
        AnchorKitContract::compare_rates_for_anchors(&env, req, anchors),
        Err(Error::NoQuotesAvailable)
    );
}

#[test]
fn comparison_without_quotes_fails() {
    let env = started();
    assert_eq!(
        AnchorKitContract::compare_rates_for_anchors(
            &env,
            request(1000, ServiceType::Deposits),
            vec![addr(10)]
        ),
        Err(Error::NoQuotesAvailable)
    );
    assert_eq!(
        AnchorKitContract::compare_rates_for_anchors(
            &env,
            request(1000, ServiceType::Deposits),
            vec![]
        ),
        Err(Error::NoQuotesAvailable)
    );
}

fn builder(env: &Env, anchor: Address, amount: u64) -> TransactionIntentBuilder {
    TransactionIntentBuilder::new(env, anchor, request(amount, ServiceType::Deposits))
}

#[test]
fn builder_defaults_and_overrides() {
    let env = Env::new();
    let b = builder(&env, addr(10), 5);
    assert_eq!(b.anchor, addr(10));
    assert_eq!(b.quote_id, 0);
    assert!(!b.require_kyc);
    assert_eq!(b.session_id, 0);
    assert_eq!(b.ttl_seconds, 300);
    let b = b.with_quote_id(4).require_kyc().with_session(2).with_ttl(60);
    assert_eq!(b.quote_id, 4);
    assert!(b.require_kyc);
    assert_eq!(b.session_id, 2);
    assert_eq!(b.ttl_seconds, 60);
    assert_eq!(b.request, request(5, ServiceType::Deposits));
}

#[test]
fn expiry_is_tightened_to_the_quote() {
    let mut env = started();
    with_anchor(&mut env, addr(10), all_services());
    let id = quote(&mut env, addr(10), 10000, 25, 1400);
    let b = builder(&env, addr(10), 1000).with_quote_id(id).with_ttl(600);
    let intent = AnchorKitContract::build_transaction_intent(&mut env, b).unwrap();
    assert_eq!(intent.expires_at, 1400);
    assert_eq!(intent.created_at, 1000);
    assert!(intent.has_quote);
    assert_eq!(intent.rate, 10000);
    assert_eq!(intent.fee_percentage, 25);
    assert_eq!(intent.intent_id, 1);
    assert_eq!(intent.quote_id, id);

    let b = builder(&env, addr(10), 1000).with_quote_id(id).with_ttl(100);
    let intent = AnchorKitContract::build_transaction_intent(&mut env, b).unwrap();
    assert_eq!(intent.expires_at, 1100);
    assert_eq!(intent.intent_id, 2);
}

#[test]
fn stale_quote_boundary() {
    let mut env = started();
    with_anchor(&mut env, addr(10), all_services());
    let id = quote(&mut env, addr(10), 10000, 0, 1400);
    env.set_timestamp(1399);
    let b = builder(&env, addr(10), 1000).with_quote_id(id);
    let intent = AnchorKitContract::build_transaction_intent(&mut env, b).unwrap();
    assert_eq!(intent.expires_at, 1400);
    env.set_timestamp(1400);
    let b = builder(&env, addr(10), 1000).with_quote_id(id);
    assert_eq!(AnchorKitContract::build_transaction_intent(&mut env, b), Err(Error::StaleQuote));
    env.set_timestamp(5000);
    let b = builder(&env, addr(10), 1000).with_quote_id(id);
    assert_eq!(AnchorKitContract::build_transaction_intent(&mut env, b), Err(Error::StaleQuote));
}

#[test]
fn intent_without_quote() {
    let mut env = started();
    with_anchor(&mut env, addr(10), vec![ServiceType::Deposits]);
    let b = builder(&env, addr(10), 1000);
    let intent = AnchorKitContract::build_transaction_intent(&mut env, b).unwrap();
    assert_eq!(intent.intent_id, 1);
    assert!(!intent.has_quote);
    assert_eq!(intent.rate, 0);
    assert_eq!(intent.fee_percentage, 0);
    assert_eq!(intent.quote_id, 0);
    assert_eq!(intent.session_id, 0);
    assert!(!intent.requires_kyc);
    assert_eq!(intent.expires_at, 1300);
    assert_eq!(intent.request, request(1000, ServiceType::Deposits));
    assert_eq!(intent.anchor, addr(10));
}

#[test]
fn intent_faults() {
    let mut fresh = Env::new();
    let b = builder(&fresh, addr(10), 1000);
    assert_eq!(
        AnchorKitContract::build_transaction_intent(&mut fresh, b),
        Err(Error::NotInitialized)
    );

    let mut env = started();
    let b = builder(&env, addr(10), 1000);
    assert_eq!(
        AnchorKitContract::build_transaction_intent(&mut env, b),
        Err(Error::UnauthorizedAttestor)
    );
    assert_eq!(AnchorKitContract::register_attestor_with_session(&mut env, 0, addr(10)), Ok(()));
    let b = TransactionIntentBuilder::new(&env, addr(10), request(1000, ServiceType::Quotes));
    assert_eq!(
        AnchorKitContract::build_transaction_intent(&mut env, b),
        Err(Error::InvalidServiceType)
    );
    let b = builder(&env, addr(10), 0);
    assert_eq!(
        AnchorKitContract::build_transaction_intent(&mut env, b),
        Err(Error::InvalidTransactionIntent)
    );
    let b = builder(&env, addr(10), 1000).with_ttl(0);
    assert_eq!(
        AnchorKitContract::build_transaction_intent(&mut env, b),
        Err(Error::InvalidTransactionIntent)
    );
    let b = builder(&env, addr(10), 1000);
    assert_eq!(
        AnchorKitContract::build_transaction_intent(&mut env, b),
        Err(Error::ServicesNotConfigured)
    );
    assert_eq!(
        AnchorKitContract::configure_services(
            &mut env,
            addr(10),
            vec![ServiceType::Withdrawals, ServiceType::Quotes]
        ),
        Ok(())
    );
    let b = builder(&env, addr(10), 1000);
    assert_eq!(
        AnchorKitContract::build_transaction_intent(&mut env, b),
        Err(Error::InvalidServiceType)
    );
    let w = TransactionIntentBuilder::new(&env, addr(10), request(1000, ServiceType::Withdrawals));
    assert_eq!(
        AnchorKitContract::build_transaction_intent(&mut env, w.clone().require_kyc()),
        Err(Error::ComplianceNotMet)
    );
    assert_eq!(
        AnchorKitContract::build_transaction_intent(&mut env, w.clone().with_session(9)),
        Err(Error::SessionNotFound)
    );
    assert_eq!(
        AnchorKitContract::build_transaction_intent(&mut env, w.clone().with_ttl(u64::MAX)),
        Err(Error::InvalidTransactionIntent)
    );
    assert_eq!(
        AnchorKitContract::build_transaction_intent(&mut env, w.clone().with_quote_id(5)),
        Err(Error::QuoteNotFound)
    );
    let id = AnchorKitContract::submit_quote(
        &mut env,
        addr(10),
        "USD".to_string(),
        "EUR".to_string(),
        10000,
        0,
        2000,
        3000,
        9000,
    )
    .unwrap();
    assert_eq!(
        AnchorKitContract::build_transaction_intent(&mut env, w.clone().with_quote_id(id)),
        Err(Error::InvalidQuote)
    );
    let other_pair = AnchorKitContract::submit_quote(
        &mut env,
        addr(10),
        "USD".to_string(),
        "GBP".to_string(),
        10000,
        0,
        1,
        3000,
        9000,
    )
    .unwrap();
    assert_eq!(
        AnchorKitContract::build_transaction_intent(&mut env, w.clone().with_quote_id(other_pair)),
        Err(Error::InvalidQuote)
    );
    // No failed request took an intent id.
    let intent = AnchorKitContract::build_transaction_intent(&mut env, w).unwrap();
    assert_eq!(intent.intent_id, 1);
}

#[test]
fn intent_bound_to_a_session_is_logged() {
    let mut env = started();
    with_anchor(&mut env, addr(10), all_services());
    let b = builder(&env, addr(10), 1000).with_session(1).require_kyc();
    assert!(AnchorKitContract::has_room(&env, 1));
    let intent = AnchorKitContract::build_transaction_intent(&mut env, b).unwrap();
    assert!(intent.requires_kyc);
    assert_eq!(intent.session_id, 1);
    assert_eq!(AnchorKitContract::get_session_operation_count(&env, 1), Ok(1));
    let log = AnchorKitContract::get_audit_log(&env, 1).unwrap();
    assert_eq!(log.session_id, 1);
    assert_eq!(log.actor, addr(10));
    assert_eq!(log.operation.operation_type, "intent");
    assert_eq!(log.operation.status, "success");
    assert_eq!(log.operation.operation_index, 0);
    assert_eq!(log.operation.result_data, intent.intent_id);
}

#[test]
fn reads_repeat() {
    let mut env = started();
    with_anchor(&mut env, addr(10), all_services());
    let id = quote(&mut env, addr(10), 10000, 0, 2000);
    assert_eq!(
        AnchorKitContract::get_quote(&env, addr(10), id),
        AnchorKitContract::get_quote(&env, addr(10), id)
    );
    assert_eq!(AnchorKitContract::get_session(&env, 0), AnchorKitContract::get_session(&env, 0));
    assert_eq!(
        AnchorKitContract::get_audit_log(&env, 0),
        AnchorKitContract::get_audit_log(&env, 0)
    );
    let session = AnchorKitContract::get_session(&env, 1);
    let before = AnchorKitContract::get_quote(&env, addr(10), id);
    AnchorKitContract::log_session_operation(&mut env, 1, &admin(), "note", "success", 0).unwrap();
    assert_eq!(AnchorKitContract::get_quote(&env, addr(10), id), before);
    assert_eq!(AnchorKitContract::get_session(&env, 1), session);
}

#[test]
fn transfers_take_intent_ids_and_settlement_needs_an_administrator() {
    let mut env = started();
    env.authorize(addr(2));
    env.take_events();
    assert_eq!(AnchorKitContract::initiate_transfer(&mut env, addr(2), addr(3), 50), Ok(1));
    assert_eq!(
        env.take_events(),
        vec![Event::TransferInitiated {
            transfer_id: 1,
            sender: addr(2),
            destination: addr(3),
            amount: 50
        }]
    );
    assert_eq!(AnchorKitContract::initiate_transfer(&mut env, addr(2), addr(3), -1), Ok(2));
    env.take_events();
    assert_eq!(AnchorKitContract::confirm_settlement(&mut env, 1, hash(1)), Ok(()));
    assert_eq!(
        env.take_events(),
        vec![Event::SettlementConfirmed { transfer_id: 1, settlement_ref: hash(1), timestamp: 1000 }]
    );
    let mut fresh = Env::new();
    assert_eq!(
        AnchorKitContract::confirm_settlement(&mut fresh, 1, hash(1)),
        Err(Error::NotInitialized)
    );
    assert_eq!(fresh.take_events(), vec![]);
}

#[test]
fn endpoint_urls() {
    assert_eq!(
        AnchorKitContract::validate_endpoint_url(&Vec::new()),
        Err(Error::InvalidEndpointFormat)
    );
    assert_eq!(
        AnchorKitContract::validate_endpoint_url(&vec![b'a'; 7]),
        Err(Error::InvalidEndpointFormat)
    );
    assert_eq!(AnchorKitContract::validate_endpoint_url(&vec![b'a'; 8]), Ok(()));
    assert_eq!(AnchorKitContract::validate_endpoint_url(&vec![b'a'; 256]), Ok(()));
    assert_eq!(
        AnchorKitContract::validate_endpoint_url(&vec![b'a'; 257]),
        Err(Error::InvalidEndpointFormat)
    );
}

#[test]
fn signature_hook_accepts() {
    let env = Env::new();
    assert_eq!(
        AnchorKitContract::verify_signature(&env, &addr(1), &addr(2), 5, &hash(1), &vec![]),
        Ok(())
    );
}

#[test]
fn proofs_of_identity_are_held_until_cleared() {
    let mut env = Env::new();
    assert!(!env.is_authorized(&addr(1)));
    env.authorize(addr(1));
    env.authorize(addr(2));
    assert!(env.is_authorized(&addr(1)));
    assert!(env.is_authorized(&addr(2)));
    assert!(!env.is_authorized(&addr(3)));
    env.clear_authorizations();
    assert!(!env.is_authorized(&addr(1)));
    assert!(!env.is_authorized(&addr(2)));
}

#[test]
fn room_is_told_before_a_counter_would_overflow() {
    let mut env = Env::new();
    assert!(AnchorKitContract::has_room(&env, 0));
    Storage::restore_counters(&mut env, 5, 6, u64::MAX, 8, 9);
    assert!(!AnchorKitContract::has_room(&env, 0));
    Storage::restore_counters(&mut env, 5, 6, 7, 8, 9);
    assert!(AnchorKitContract::has_room(&env, 0));
    assert_eq!(Storage::peek_intent_counter(&env), 7);
    Storage::set_session_operation_count(&mut env, 3, u64::MAX);
    assert!(!AnchorKitContract::has_room(&env, 3));
    assert!(AnchorKitContract::has_room(&env, 4));
}

#[test]
fn notices_wait_in_the_order_of_the_operations() {
    let mut env = started();
    assert_eq!(
        env.take_events(),
        vec![
            Event::SessionCreated { session_id: 0, initiator: admin(), timestamp: 1000 },
            Event::SessionCreated { session_id: 1, initiator: admin(), timestamp: 1000 },
        ]
    );
    assert_eq!(env.take_events(), vec![]);
    with_anchor(&mut env, addr(10), vec![ServiceType::Quotes, ServiceType::Deposits]);
    assert_eq!(
        env.take_events(),
        vec![
            Event::AttestorAdded { attestor: addr(10) },
            Event::OperationLogged {
                log_id: 0,
                session_id: 0,
                operation_index: 0,
                operation_type: "register".to_string(),
                status: "success".to_string(),
            },
            Event::ServicesConfigured {
                anchor: addr(10),
                services: vec![ServiceType::Quotes, ServiceType::Deposits],
            },
        ]
    );
    let id = quote(&mut env, addr(10), 10000, 0, 2000);
    assert_eq!(
        env.take_events(),
        vec![Event::QuoteSubmitted {
            anchor: addr(10),
            quote_id: id,
            base_asset: "USD".to_string(),
            quote_asset: "EUR".to_string(),
            rate: 10000,
            valid_until: 2000,
        }]
    );
    env.authorize(addr(30));
    let received = AnchorKitContract::receive_quote(&mut env, addr(30), addr(10), id).unwrap();
    assert_eq!(Ok(received), AnchorKitContract::get_quote(&env, addr(10), id));
    assert_eq!(
        AnchorKitContract::receive_quote(&mut env, addr(30), addr(10), id + 1),
        Err(Error::QuoteNotFound)
    );
    assert_eq!(
        env.take_events(),
        vec![Event::QuoteReceived { quote_id: id, receiver: addr(30), timestamp: 1000 }]
    );
    let r = AnchorKitContract::submit_attestation_with_session(
        &mut env,
        1,
        addr(10),
        addr(20),
        500,
        hash(3),
        vec![9],
    );
    assert_eq!(r, Ok(0));
    assert_eq!(
        env.take_events(),
        vec![
            Event::AttestationRecorded {
                id: 0,
                subject: addr(20),
                timestamp: 500,
                payload_hash: hash(3)
            },
            Event::OperationLogged {
                log_id: 1,
                session_id: 1,
                operation_index: 0,
                operation_type: "attest".to_string(),
                status: "success".to_string(),
            },
        ]
    );
    assert_eq!(AnchorKitContract::revoke_attestor_with_session(&mut env, 1, addr(10)), Ok(()));
    assert_eq!(
        env.take_events(),
        vec![
            Event::AttestorRemoved { attestor: addr(10) },
            Event::OperationLogged {
                log_id: 2,
                session_id: 1,
                operation_index: 1,
                operation_type: "revoke".to_string(),
                status: "success".to_string(),
            },
        ]
    );
    // A call that is turned down before anything is logged leaves no notice.
    assert_eq!(
        AnchorKitContract::submit_attestation(&mut env, addr(10), addr(20), 0, hash(4), vec![]),
        Err(Error::InvalidTimestamp)
    );
    assert_eq!(env.take_events(), vec![]);
}
