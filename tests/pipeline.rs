use sp_core::{sr25519, Pair};
use pallet_ocw::{
    dispatch_selector, offchain_unsigned_fetch, read_response, signed_payload_call,
    submission_outcome, validate_unsigned, Action, Call, Config, Error, FetchError, Input,
    InvalidTransaction, LockSlot, Origin, Pallet, Payload, Phase, Response, Worker,
    WORK_DONE_CAPACITY,
};

fn start(worker: &mut Worker, slot: &mut LockSlot, block: u64, now_ms: u64) -> Action {
    let action = worker.step(Input::Invoked { block });
    let (block_ttl, time_ttl) = match action {
        Action::AcquireLock { block_ttl, time_ttl } => (block_ttl, time_ttl),
        other => panic!("unexpected {:?}", other),
    };
    let granted = slot.try_lock(block, now_ms, block_ttl, time_ttl).is_ok();
    worker.step(Input::LockOutcome { granted, now_ms })
}

#[test]
fn standard_config() {
    let c = Config::standard();
    assert_eq!(c.endpoint, "http://localhost:8080/reward?validator_id=123");
    assert_eq!(c.fetch_timeout_ms, 3000);
    assert_eq!(c.lock_block_ttl, 3);
    assert_eq!(c.lock_time_ttl, 4000);
}

#[test]
fn selector_is_always_fetch() {
    assert_eq!(dispatch_selector(0), 0);
    assert_eq!(dispatch_selector(17), 0);
    assert_eq!(dispatch_selector(u64::MAX), 0);
}

#[test]
fn scenario_number_reaches_ledger() {
    let mut slot = LockSlot::new();
    let mut worker = Worker::new(Config::standard());
    let mut ledger = Pallet::new(WORK_DONE_CAPACITY);
    let action = start(&mut worker, &mut slot, 10, 1_000);
    assert!(matches!(action, Action::Fetch { deadline_ms: 4_000 }));
    assert_eq!(worker.phase, Phase::Fetching { deadline_ms: 4_000 });
    let action = worker.step(Input::FetchOutcome {
        result: Ok(Response { code: 200, body: b"42".to_vec() }),
    });
    let call = match action {
        Action::Submit { call } => call,
        other => panic!("unexpected {:?}", other),
    };
    assert!(matches!(call, Call::SubmitNumberUnsigned { number: 42 }));
    assert!(validate_unsigned(&call).is_ok());
    if let Call::SubmitNumberUnsigned { number } = call {
        assert_eq!(ledger.submit_number_unsigned(Origin::Unsigned, number), Ok(()));
    }
    assert_eq!(ledger.number(), vec![42]);
    assert!(matches!(ledger.events[0], pallet_ocw::Event::NewNumber(None, 42)));
    let action = worker.step(Input::SubmitOutcome { accepted: true });
    assert!(matches!(action, Action::Finish { release: true, outcome: Ok(()) }));
    assert_eq!(worker.phase, Phase::Idle);
}

#[test]
fn scenario_bad_status_submits_nothing() {
    let mut slot = LockSlot::new();
    let mut worker = Worker::new(Config::standard());
    let ledger = Pallet::new(WORK_DONE_CAPACITY);
    start(&mut worker, &mut slot, 10, 1_000);
    let action = worker.step(Input::FetchOutcome {
        result: Ok(Response { code: 503, body: b"42".to_vec() }),
    });
    assert!(matches!(
        action,
        Action::Finish { release: true, outcome: Err(Error::HttpFetchingError) }
    ));
    assert_eq!(worker.phase, Phase::Idle);
    assert!(ledger.number().is_empty());
}

#[test]
fn scenario_overlapping_runs() {
    let mut slot = LockSlot::new();
    let mut first = Worker::new(Config::standard());
    let mut second = Worker::new(Config::standard());
    let a = start(&mut first, &mut slot, 10, 1_000);
    let b = start(&mut second, &mut slot, 10, 1_200);
    assert!(matches!(a, Action::Fetch { .. }));
    assert!(matches!(b, Action::Finish { release: false, outcome: Ok(()) }));
    assert_eq!(second.phase, Phase::Idle);
    assert!(matches!(first.phase, Phase::Fetching { .. }));
}

#[test]
fn scenario_tampered_signature_rejected() {
    let pair = sr25519::Pair::from_seed(&[5u8; 32]);
    let payload = Payload::new(42, pair.public().0);
    let mut signature = pair.sign(&payload.encode()).0;
    signature[10] ^= 0xff;
    let call = signed_payload_call(payload, Some(signature)).unwrap();
    let ledger = Pallet::new(WORK_DONE_CAPACITY);
    assert_eq!(validate_unsigned(&call).unwrap_err(), InvalidTransaction::BadProof);
    assert!(ledger.number().is_empty());
}

#[test]
fn fetch_timeout_ends_run() {
    let mut slot = LockSlot::new();
    let mut worker = Worker::new(Config::standard());
    start(&mut worker, &mut slot, 1, 500);
    for e in [FetchError::FetchTimeout, FetchError::SendTimeout, FetchError::Transport] {
        let mut w = Worker { phase: worker.phase, config: Config::standard() };
        let action = w.step(Input::FetchOutcome { result: Err(e) });
        assert!(matches!(
            action,
            Action::Finish { release: true, outcome: Err(Error::HttpFetchingError) }
        ));
    }
}

#[test]
fn malformed_body_submits_zero() {
    let mut worker = Worker { phase: Phase::Fetching { deadline_ms: 9 }, config: Config::standard() };
    let action = worker.step(Input::FetchOutcome {
        result: Ok(Response { code: 200, body: b"not a number".to_vec() }),
    });
    assert!(matches!(action, Action::Submit { call: Call::SubmitNumberUnsigned { number: 0 } }));
    assert_eq!(worker.phase, Phase::Submitting { number: 0 });
}

#[test]
fn rejected_submission_reports_error() {
    let mut worker = Worker { phase: Phase::Submitting { number: 3 }, config: Config::standard() };
    let action = worker.step(Input::SubmitOutcome { accepted: false });
    assert!(matches!(
        action,
        Action::Finish { release: true, outcome: Err(Error::OffchainUnsignedTxError) }
    ));
}

#[test]
fn unexpected_input_is_ignored() {
    let mut worker = Worker::new(Config::standard());
    assert!(matches!(worker.step(Input::SubmitOutcome { accepted: true }), Action::Ignore));
    assert_eq!(worker.phase, Phase::Idle);
    let mut worker = Worker { phase: Phase::LockAttempt, config: Config::standard() };
    assert!(matches!(worker.step(Input::Invoked { block: 1 }), Action::Ignore));
    assert_eq!(worker.phase, Phase::LockAttempt);
}

#[test]
fn deadline_saturates() {
    let mut worker = Worker { phase: Phase::LockAttempt, config: Config::standard() };
    let action = worker.step(Input::LockOutcome { granted: true, now_ms: u64::MAX - 1 });
    assert!(matches!(action, Action::Fetch { deadline_ms: u64::MAX }));
}

#[test]
fn read_response_outcomes() {
    assert_eq!(read_response(Ok(Response { code: 200, body: b" 8 ".to_vec() })), Ok(8));
    assert_eq!(
        read_response(Ok(Response { code: 404, body: b"8".to_vec() })),
        Err(FetchError::BadStatus(404))
    );
    assert_eq!(read_response(Err(FetchError::Transport)), Err(FetchError::Transport));
}

#[test]
fn submission_outcomes_per_path() {
    let unsigned = offchain_unsigned_fetch(4);
    assert!(matches!(unsigned, Call::SubmitNumberUnsigned { number: 4 }));
    assert_eq!(submission_outcome(&unsigned, true), Ok(()));
    assert_eq!(submission_outcome(&unsigned, false), Err(Error::OffchainUnsignedTxError));
    let signed = signed_payload_call(Payload::new(4, [1u8; 32]), Some([2u8; 64])).unwrap();
    assert_eq!(
        submission_outcome(&signed, false),
        Err(Error::OffchainUnsignedTxSignedPayloadError)
    );
}

#[test]
fn signing_without_local_key() {
    let r = signed_payload_call(Payload::new(4, [1u8; 32]), None);
    assert!(matches!(r, Err(Error::NoLocalAcctForSigning)));
}
