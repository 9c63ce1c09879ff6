//! An offchain worker pipeline that fetches a number from a remote endpoint and
//! brings it back on chain through unsigned transactions.
//!
//! The library holds the decisions of that pipeline: the cross-run lock, the
//! decoding of the fetched body, the admission of submitted calls, the bounded
//! record of processed numbers, and the state machine that drives one run.
//! The host performs the I/O and hands the outcomes back.

mod admission;
mod codec;
mod ledger;
mod lock;
mod worker;

pub use codec::{lemma_malformed_reads_zero, parse_body, parse_decimal, parse_trimmed};
pub use lock::{
    lemma_lock_bytes_round_trip, lemma_lock_expiry, lemma_lock_mutual_exclusion, try_acquire, LockError, LockGuard, LockSlot,
    LockState, FETCH_TIMEOUT_PERIOD, LOCK_BLOCK_EXPIRATION, LOCK_NAME, LOCK_TIMEOUT_EXPIRATION,
};
pub use admission::{
    lemma_signed_admission, lemma_unsigned_admission, validate_unsigned, Call, InvalidTransaction,
    Payload, TestAuthId, ValidTransaction, KEY_TYPE, TX_LONGEVITY, UNSIGNED_TXS_PRIORITY,
};
pub use ledger::{
    lemma_append_keeps_newest, DispatchError, Event, Origin, Pallet, WorkDone, WORK_DONE_CAPACITY,
};
pub use worker::{
    dispatch_selector, lemma_bad_status_ends_run, lemma_fetch_deadline, lemma_refused_lock_is_quiet,
    lemma_release_on_every_exit, offchain_unsigned_fetch, read_response, signed_payload_call,
    submission_outcome, Action, Config, Error, FetchError, Input, Phase, Response, Worker, TX_TYPES,
};
