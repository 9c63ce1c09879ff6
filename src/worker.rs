use vstd::prelude::*;
use crate::admission::{Call, Payload};
use crate::codec::{lossy_text, number_or_zero, parse_body, trim_spec};
use crate::lock::{
    saturating_sum, FETCH_TIMEOUT_PERIOD, LOCK_BLOCK_EXPIRATION, LOCK_TIMEOUT_EXPIRATION,
};

verus! {

/// How many kinds of work the worker picks from by block height.
pub const TX_TYPES: u32 = 1;

/// What a run of the worker reports when it ends in failure.
#[derive(Clone, Copy, Debug, PartialEq, Eq, Structural)]
pub enum Error {
    /// The block height selects no known kind of work.
    UnknownOffchainMux,
    /// No local key is available to sign a payload.
    NoLocalAcctForSigning,
    /// A signed transaction was not accepted by the pool.
    OffchainSignedTxError,
    /// An unsigned transaction was not accepted by the pool.
    OffchainUnsignedTxError,
    /// An unsigned transaction with a signed payload was not accepted by the pool.
    OffchainUnsignedTxSignedPayloadError,
    /// The fetch failed: transport, deadline, or a status other than 200.
    HttpFetchingError,
    /// The body could not be read as an object.
    DeserializeToObjError,
    /// The body could not be read as text.
    DeserializeToStrError,
}

/// Why a fetch failed.
#[derive(Clone, Copy, Debug, PartialEq, Eq, Structural)]
pub enum FetchError {
    /// The connection or the transport failed.
    Transport,
    /// The deadline passed while the request was being sent.
    SendTimeout,
    /// The deadline passed while waiting for the response.
    FetchTimeout,
    /// The endpoint answered with a status other than 200.
    BadStatus(u16),
}

/// A response of the endpoint.
#[derive(Clone, Debug)]
pub struct Response {
    pub code: u16,
    pub body: Vec<u8>,
}

/// The settings of the pipeline.
#[derive(Clone, Debug)]
pub struct Config {
    /// The endpoint that is asked for the number.
    pub endpoint: String,
    /// How long a fetch may take, in milliseconds.
    pub fetch_timeout_ms: u64,
    /// How many blocks a granted lock lasts.
    pub lock_block_ttl: u64,
    /// How long a granted lock lasts, in milliseconds.
    pub lock_time_ttl: u64,
}

impl Config {
    /// The pipeline's usual settings: a local endpoint, a fetch of at most
    /// three seconds, and a lock of three blocks or four seconds.
    pub fn standard() -> (r: Config)
        ensures
            r.endpoint@ == "http://localhost:8080/reward?validator_id=123"@,
            r.fetch_timeout_ms == FETCH_TIMEOUT_PERIOD,
            r.lock_block_ttl == LOCK_BLOCK_EXPIRATION,
            r.lock_time_ttl == LOCK_TIMEOUT_EXPIRATION,
    {
        Config {
            endpoint: String::from_str("http://localhost:8080/reward?validator_id=123"),
            fetch_timeout_ms: FETCH_TIMEOUT_PERIOD,
            lock_block_ttl: LOCK_BLOCK_EXPIRATION,
            lock_time_ttl: LOCK_TIMEOUT_EXPIRATION,
        }
    }
}

/// Where a run stands.
#[derive(Clone, Copy, Debug, PartialEq, Eq, Structural)]
pub enum Phase {
    /// No run is under way.
    Idle,
    /// The run waits to learn whether it got the lock.
    LockAttempt,
    /// The run holds the lock and waits for the fetch, due by `deadline_ms`.
    Fetching { deadline_ms: u64 },
    /// The run holds the lock and waits for the pool to take `number`.
    Submitting { number: u64 },
}

/// What the host reports to the worker.
#[derive(Debug)]
pub enum Input {
    /// The host starts a run at this block height.
    Invoked { block: u64 },
    /// The lock was or was not granted; `now_ms` is the time then.
    LockOutcome { granted: bool, now_ms: u64 },
    /// The fetch ended with a response or a failure.
    FetchOutcome { result: Result<Response, FetchError> },
    /// The pool did or did not take the submitted call.
    SubmitOutcome { accepted: bool },
}

/// What the worker asks the host to do next.
#[derive(Clone, Copy, Debug)]
pub enum Action {
    /// Try the lock, for this many blocks and milliseconds.
    AcquireLock { block_ttl: u64, time_ttl: u64 },
    /// Fetch from the endpoint, giving up at `deadline_ms`.
    Fetch { deadline_ms: u64 },
    /// Hand this call to the pool.
    Submit { call: Call },
    /// End the run, releasing the lock where `release` is set, and report
    /// `outcome`.
    Finish { release: bool, outcome: Result<(), Error> },
    /// The report does not fit where the run stands; nothing changes.
    Ignore,
}

/// The kind of work that a block height selects.
pub open spec fn selector_spec(block: u64) -> u32 {
    (block as u32) % TX_TYPES
}

/// What a fetch yields: the number in the body of a 200 response, or why it
/// failed.
pub open spec fn response_spec(result: Result<Response, FetchError>) -> Result<u64, FetchError> {
    match result {
        Ok(resp) => if resp.code == 200 {
            Ok(number_or_zero(trim_spec(lossy_text(resp.body@))))
        } else {
            Err(FetchError::BadStatus(resp.code))
        },
        Err(e) => Err(e),
    }
}

/// One step of a run: where it goes next and what it asks of the host.
pub open spec fn step_spec(phase: Phase, config: Config, input: Input) -> (Phase, Action) {
    match (phase, input) {
        (Phase::Idle, Input::Invoked { block }) => if selector_spec(block) == 0 {
            (
                Phase::LockAttempt,
                Action::AcquireLock {
                    block_ttl: config.lock_block_ttl,
                    time_ttl: config.lock_time_ttl,
                },
            )
        } else {
            (
                Phase::Idle,
                Action::Finish { release: false, outcome: Err(Error::UnknownOffchainMux) },
            )
        },
        (Phase::LockAttempt, Input::LockOutcome { granted, now_ms }) => if granted {
            let deadline_ms = saturating_sum(now_ms, config.fetch_timeout_ms);
            (Phase::Fetching { deadline_ms }, Action::Fetch { deadline_ms })
        } else {
            (Phase::Idle, Action::Finish { release: false, outcome: Ok(()) })
        },
        (Phase::Fetching { .. }, Input::FetchOutcome { result }) => match response_spec(result) {
            Ok(number) => (
                Phase::Submitting { number },
                Action::Submit { call: Call::SubmitNumberUnsigned { number } },
            ),
            Err(_) => (
                Phase::Idle,
                Action::Finish { release: true, outcome: Err(Error::HttpFetchingError) },
            ),
        },
        (Phase::Submitting { .. }, Input::SubmitOutcome { accepted }) => (
            Phase::Idle,
            Action::Finish {
                release: true,
                outcome: if accepted {
                    Ok(())
                } else {
                    Err(Error::OffchainUnsignedTxError)
                },
            },
        ),
        _ => (phase, Action::Ignore),
    }
}

/// The work that a block height selects; only selector 0, fetching the
/// remote number, is defined.
pub fn dispatch_selector(block: u64) -> (r: u32)
    ensures
        r == selector_spec(block),
        r == 0,
{
    (block as u32) % TX_TYPES
}

/// Reads a fetch's outcome: a 200 response gives the number in its body
/// (zero where the body holds none); any other status, and any failure, is an
/// error.
pub fn read_response(result: Result<Response, FetchError>) -> (r: Result<u64, FetchError>)
    ensures
        r == response_spec(result),
{
    match result {
        Ok(resp) => {
            if resp.code != 200 {
                return Err(FetchError::BadStatus(resp.code));
            }
            Ok(parse_body(resp.body.as_slice()))
        },
        Err(e) => Err(e),
    }
}

/// The call that carries a fetched number to the pool without a signature.
pub fn offchain_unsigned_fetch(number: u64) -> (r: Call)
    ensures
        r == (Call::SubmitNumberUnsigned { number }),
{
    Call::SubmitNumberUnsigned { number }
}

/// The call that carries a signed payload, or `NoLocalAcctForSigning` where
/// no local key gave a signature.
pub fn signed_payload_call(payload: Payload, signature: Option<[u8; 64]>) -> (r: Result<
    Call,
    Error,
>)
    ensures
        match signature {
            Some(s) => r == Ok::<Call, Error>(
                Call::SubmitNumberUnsignedWithSignedPayload { payload, signature: s },
            ),
            None => r == Err::<Call, Error>(Error::NoLocalAcctForSigning),
        },
{
    match signature {
        Some(s) => Ok(Call::SubmitNumberUnsignedWithSignedPayload { payload, signature: s }),
        None => Err(Error::NoLocalAcctForSigning),
    }
}

/// What a submission reports: nothing where the pool took the call, else the
/// error of its path.
pub fn submission_outcome(call: &Call, accepted: bool) -> (r: Result<(), Error>)
    ensures
        accepted ==> r == Ok::<(), Error>(()),
        !accepted ==> r == Err::<(), Error>(
            match call {
                Call::SubmitNumberUnsignedWithSignedPayload { .. } => {
                    Error::OffchainUnsignedTxSignedPayloadError
                },
                _ => Error::OffchainUnsignedTxError,
            },
        ),
{
    if accepted {
        Ok(())
    } else {
        match call {
            Call::SubmitNumberUnsignedWithSignedPayload { .. } => Err(
                Error::OffchainUnsignedTxSignedPayloadError,
            ),
            _ => Err(Error::OffchainUnsignedTxError),
        }
    }
}

/// One run of the offchain worker, driven by the host's reports.
#[derive(Debug)]
pub struct Worker {
    pub phase: Phase,
    pub config: Config,
}

impl Worker {
    pub fn new(config: Config) -> (r: Worker)
        ensures
            r.phase == Phase::Idle,
            r.config == config,
    {
        Worker { phase: Phase::Idle, config }
    }

    /// Takes one report of the host and says what to do next. A run goes from
    /// `Idle` to the lock attempt; a refused lock ends it quietly; a granted
    /// one starts the fetch with a deadline `fetch_timeout_ms` from then; a
    /// failed fetch ends it with `HttpFetchingError`; a body is read as a
    /// number and submitted unsigned; the pool's answer ends the run. Every
    /// end after the lock was taken releases it.
    pub fn step(&mut self, input: Input) -> (r: Action)
        ensures
            (final(self).phase, r) == step_spec(old(self).phase, old(self).config, input),
            final(self).config == old(self).config,
    {
        let (phase, action) = match (self.phase, input) {
            (Phase::Idle, Input::Invoked { block }) => {
                if dispatch_selector(block) == 0 {
                    (
                        Phase::LockAttempt,
                        Action::AcquireLock {
                            block_ttl: self.config.lock_block_ttl,
                            time_ttl: self.config.lock_time_ttl,
                        },
                    )
                } else {
                    (
                        Phase::Idle,
                        Action::Finish {
                            release: false,
                            outcome: Err(Error::UnknownOffchainMux),
                        },
                    )
                }
            },
            (Phase::LockAttempt, Input::LockOutcome { granted, now_ms }) => {
                if granted {
                    let deadline_ms = now_ms.saturating_add(self.config.fetch_timeout_ms);
                    (Phase::Fetching { deadline_ms }, Action::Fetch { deadline_ms })
                } else {
                    (Phase::Idle, Action::Finish { release: false, outcome: Ok(()) })
                }
            },
            (Phase::Fetching { .. }, Input::FetchOutcome { result }) => {
                match read_response(result) {
                    Ok(number) => (
                        Phase::Submitting { number },
                        Action::Submit { call: offchain_unsigned_fetch(number) },
                    ),
                    Err(_) => (
                        Phase::Idle,
                        Action::Finish { release: true, outcome: Err(Error::HttpFetchingError) },
                    ),
                }
            },
            (Phase::Submitting { number }, Input::SubmitOutcome { accepted }) => {
                let call = offchain_unsigned_fetch(number);
                (
                    Phase::Idle,
                    Action::Finish { release: true, outcome: submission_outcome(&call, accepted) },
                )
            },
            (p, _) => (p, Action::Ignore),
        };
        self.phase = phase;
        action
    }
}

/// A run that got the lock at `now_ms` fetches with a deadline of
/// `fetch_timeout_ms` later, and a fetch that times out ends the run with
/// `HttpFetchingError`, giving the lock back and submitting nothing.
pub proof fn lemma_fetch_deadline(config: Config, now_ms: u64, deadline_ms: u64)
    requires
        now_ms + config.fetch_timeout_ms <= u64::MAX,
    ensures
        step_spec(Phase::LockAttempt, config, Input::LockOutcome { granted: true, now_ms }).0
            == (Phase::Fetching { deadline_ms: (now_ms + config.fetch_timeout_ms) as u64 }),
        ({
            let (phase, action) = step_spec(
                Phase::Fetching { deadline_ms },
                config,
                Input::FetchOutcome { result: Err(FetchError::FetchTimeout) },
            );
            phase == Phase::Idle && action == (Action::Finish {
                release: true,
                outcome: Err(Error::HttpFetchingError),
            })
        }),
{
}

/// A response with any status other than 200 ends the run with
/// `HttpFetchingError`: nothing is submitted and the lock is given back.
pub proof fn lemma_bad_status_ends_run(
    config: Config,
    deadline_ms: u64,
    code: u16,
    body: Vec<u8>,
)
    requires
        code != 200,
    ensures
        step_spec(
            Phase::Fetching { deadline_ms },
            config,
            Input::FetchOutcome { result: Ok(Response { code, body }) },
        ) == (Phase::Idle, Action::Finish { release: true, outcome: Err(Error::HttpFetchingError) }),
{
}

/// The lock is given back on every way out of a run that took it, and never
/// by a run that did not: a run ends with `release` set exactly when it ends
/// from `Fetching` or `Submitting`.
pub proof fn lemma_release_on_every_exit(phase: Phase, config: Config, input: Input)
    ensures
        ({
            let (_, action) = step_spec(phase, config, input);
            action is Finish ==> (action->release <==> (phase is Fetching || phase is Submitting))
        }),
{
}

/// A run that is refused the lock ends quietly: no error and no release.
pub proof fn lemma_refused_lock_is_quiet(config: Config, now_ms: u64)
    ensures
        step_spec(Phase::LockAttempt, config, Input::LockOutcome { granted: false, now_ms })
            == (Phase::Idle, Action::Finish { release: false, outcome: Ok(()) }),
{
}

} // verus!
