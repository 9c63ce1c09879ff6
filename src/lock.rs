use vstd::prelude::*;
use crate::admission::le_bytes;

verus! {

/// The name under which the lock's state is stored.
pub const LOCK_NAME: &'static str = "offchain-demo::lock";

/// How many blocks a granted lock lasts.
pub const LOCK_BLOCK_EXPIRATION: u64 = 3;

/// How long a fetch may take, in milliseconds.
pub const FETCH_TIMEOUT_PERIOD: u64 = 3000;

/// How long a granted lock lasts, in milliseconds: a fetch and a second more.
pub const LOCK_TIMEOUT_EXPIRATION: u64 = FETCH_TIMEOUT_PERIOD + 1000;

/// A granted lock: it holds until the block height reaches `block_deadline`
/// or the time reaches `time_deadline`, whichever comes first.
#[derive(Clone, Copy, Debug, PartialEq, Eq, Structural)]
pub struct LockState {
    pub block_deadline: u64,
    pub time_deadline: u64,
}

#[derive(Clone, Copy, Debug, PartialEq, Eq, Structural)]
pub enum LockError {
    /// Another run holds the lock and it has not expired.
    AlreadyLocked,
}

/// `a + b`, held at `u64::MAX`.
pub open spec fn saturating_sum(a: u64, b: u64) -> u64 {
    if a + b > u64::MAX {
        u64::MAX
    } else {
        (a + b) as u64
    }
}

pub open spec fn expired_at(s: LockState, now_block: u64, now_ms: u64) -> bool {
    now_block >= s.block_deadline || now_ms >= s.time_deadline
}

/// The state that an acquisition writes, or `None` where a live lock refuses it.
pub open spec fn acquire_spec(
    stored: Option<LockState>,
    now_block: u64,
    now_ms: u64,
    block_ttl: u64,
    time_ttl: u64,
) -> Option<LockState> {
    match stored {
        Some(s) if !expired_at(s, now_block, now_ms) => None,
        _ => Some(
            LockState {
                block_deadline: saturating_sum(now_block, block_ttl),
                time_deadline: saturating_sum(now_ms, time_ttl),
            },
        ),
    }
}

/// What a compare-and-set leaves in a slot: `new` where the slot held
/// `expected`, else what it held.
pub open spec fn cas_spec(
    slot: Option<LockState>,
    expected: Option<LockState>,
    new: Option<LockState>,
) -> Option<LockState> {
    if slot == expected {
        new
    } else {
        slot
    }
}

/// The stored form of a lock: the block deadline, then the time deadline, each
/// in eight little-endian bytes.
pub open spec fn lock_bytes(s: LockState) -> Seq<u8> {
    le_bytes(s.block_deadline as nat, 8) + le_bytes(s.time_deadline as nat, 8)
}

/// Relies on `Encode::encode` of parity-scale-codec for `(u64, u64)`: each
/// `u64` is written in eight little-endian bytes.
#[verifier::external_body]
fn encode_u64_pair(a: u64, b: u64) -> (r: Vec<u8>)
    ensures
        r@ == le_bytes(a as nat, 8) + le_bytes(b as nat, 8),
{
    parity_scale_codec::Encode::encode(&(a, b))
}

/// Relies on `Decode::decode` of parity-scale-codec for `(u64, u64)` from a
/// byte slice: each `u64` is read from the next eight little-endian bytes, and
/// fewer than sixteen bytes fail. Bytes after the sixteenth are left unread.
#[verifier::external_body]
fn decode_u64_pair(b: &[u8]) -> (r: Option<(u64, u64)>)
    ensures
        match r {
            Some(p) => b@.len() >= 16 && le_bytes(p.0 as nat, 8) == b@.subrange(0, 8) && le_bytes(
                p.1 as nat,
                8,
            ) == b@.subrange(8, 16),
            None => b@.len() < 16,
        },
{
    let mut input = b;
    <(u64, u64) as parity_scale_codec::Decode>::decode(&mut input).ok()
}

impl LockState {
    /// The bytes under which the lock is stored.
    pub fn to_bytes(&self) -> (r: Vec<u8>)
        ensures
            r@ == lock_bytes(*self),
    {
        encode_u64_pair(self.block_deadline, self.time_deadline)
    }

    /// Reads a stored lock: `None` where fewer than sixteen bytes are stored,
    /// as for an empty slot; otherwise the two deadlines in their first
    /// sixteen bytes.
    pub fn from_bytes(b: &[u8]) -> (r: Option<LockState>)
        ensures
            match r {
                Some(s) => b@.len() >= 16 && lock_bytes(s) == b@.subrange(0, 16),
                None => b@.len() < 16,
            },
    {
        match decode_u64_pair(b) {
            Some((x, y)) => {
                let s = LockState { block_deadline: x, time_deadline: y };
                assert(lock_bytes(s) =~= b@.subrange(0, 8) + b@.subrange(8, 16));
                assert(b@.subrange(0, 8) + b@.subrange(8, 16) =~= b@.subrange(0, 16));
                Some(s)
            },
            None => None,
        }
    }

    /// Whether the lock no longer holds at this block height and time.
    pub fn is_expired(&self, now_block: u64, now_ms: u64) -> (r: bool)
        ensures
            r == expired_at(*self, now_block, now_ms),
    {
        now_block >= self.block_deadline || now_ms >= self.time_deadline
    }
}

/// Decides an acquisition on the stored state: where no live lock is stored,
/// the new state lasts `block_ttl` blocks and `time_ttl` milliseconds from now.
pub fn try_acquire(
    stored: Option<LockState>,
    now_block: u64,
    now_ms: u64,
    block_ttl: u64,
    time_ttl: u64,
) -> (r: Result<LockState, LockError>)
    ensures
        match acquire_spec(stored, now_block, now_ms, block_ttl, time_ttl) {
            Some(s) => r == Ok::<LockState, LockError>(s),
            None => r == Err::<LockState, LockError>(LockError::AlreadyLocked),
        },
{
    if let Some(s) = stored {
        if !s.is_expired(now_block, now_ms) {
            return Err(LockError::AlreadyLocked);
        }
    }
    Ok(
        LockState {
            block_deadline: now_block.saturating_add(block_ttl),
            time_deadline: now_ms.saturating_add(time_ttl),
        },
    )
}

fn same_state(a: Option<LockState>, b: Option<LockState>) -> (r: bool)
    ensures
        r == (a == b),
{
    match (a, b) {
        (None, None) => true,
        (Some(x), Some(y)) => x == y,
        _ => false,
    }
}

/// Proof that a run holds the lock, with the state it wrote.
#[derive(Debug)]
pub struct LockGuard {
    pub state: LockState,
}

/// The storage slot that holds the lock's state, shared by all runs.
#[derive(Debug)]
pub struct LockSlot {
    pub state: Option<LockState>,
}

impl LockSlot {
    /// An empty slot: nobody holds the lock.
    pub fn new() -> (r: LockSlot)
        ensures
            r.state.is_none(),
    {
        LockSlot { state: None }
    }

    /// Writes `new` where the slot holds `expected`, and says whether it did.
    pub fn compare_and_set(&mut self, expected: Option<LockState>, new: Option<LockState>) -> (r:
        bool)
        ensures
            r == (old(self).state == expected),
            final(self).state == cas_spec(old(self).state, expected, new),
    {
        if same_state(self.state, expected) {
            self.state = new;
            true
        } else {
            false
        }
    }

    /// Tries to take the lock: reads the slot, decides, and writes the grant by
    /// one compare-and-set. Fails fast where a live lock is stored.
    pub fn try_lock(&mut self, now_block: u64, now_ms: u64, block_ttl: u64, time_ttl: u64) -> (r:
        Result<LockGuard, LockError>)
        ensures
            match acquire_spec(old(self).state, now_block, now_ms, block_ttl, time_ttl) {
                Some(s) => r matches Ok(g) && g.state == s && final(self).state == Some(s),
                None => r == Err::<LockGuard, LockError>(LockError::AlreadyLocked)
                    && final(self).state == old(self).state,
            },
    {
        let seen = self.state;
        match try_acquire(seen, now_block, now_ms, block_ttl, time_ttl) {
            Ok(s) => {
                if self.compare_and_set(seen, Some(s)) {
                    Ok(LockGuard { state: s })
                } else {
                    Err(LockError::AlreadyLocked)
                }
            },
            Err(e) => Err(e),
        }
    }

    /// Gives the lock back: the slot is cleared where it still holds what the
    /// guard wrote, and left alone where another run has taken it since.
    pub fn release(&mut self, guard: LockGuard) -> (r: bool)
        ensures
            r == (old(self).state == Some(guard.state)),
            final(self).state == cas_spec(old(self).state, Some(guard.state), None),
    {
        self.compare_and_set(Some(guard.state), None)
    }
}

/// Mutual exclusion. Let one attempt read `seen` from the slot at block `b1`
/// and time `t1`, and write its grant by compare-and-set. Any other attempt
/// before that grant expires fails: one that read `seen` too loses its
/// compare-and-set, and one that reads the grant is refused by it.
pub proof fn lemma_lock_mutual_exclusion(
    seen: Option<LockState>,
    b1: u64,
    t1: u64,
    b2: u64,
    t2: u64,
    block_ttl: u64,
    time_ttl: u64,
    other: Option<LockState>,
)
    requires
        acquire_spec(seen, b1, t1, block_ttl, time_ttl) is Some,
        block_ttl > 0,
        time_ttl > 0,
        b1 + block_ttl <= u64::MAX,
        t1 + time_ttl <= u64::MAX,
    ensures
        ({
            let grant = acquire_spec(seen, b1, t1, block_ttl, time_ttl);
            let slot = cas_spec(seen, seen, grant);
            &&& slot == grant
            &&& cas_spec(slot, seen, other) == slot
            &&& (b2 < grant->0.block_deadline && t2 < grant->0.time_deadline) ==> acquire_spec(
                slot,
                b2,
                t2,
                block_ttl,
                time_ttl,
            ) is None
        }),
{
}

/// Expiry. Once either deadline of a stored lock has passed, an acquisition
/// succeeds, whether or not its holder gave it back.
pub proof fn lemma_lock_expiry(
    s: LockState,
    now_block: u64,
    now_ms: u64,
    block_ttl: u64,
    time_ttl: u64,
)
    requires
        now_block >= s.block_deadline || now_ms >= s.time_deadline,
    ensures
        acquire_spec(Some(s), now_block, now_ms, block_ttl, time_ttl) is Some,
{
}

pub open spec fn pow256(k: nat) -> nat
    decreases k,
{
    if k == 0 {
        1
    } else {
        256 * pow256((k - 1) as nat)
    }
}

proof fn lemma_le_bytes_len(n: nat, k: nat)
    ensures
        le_bytes(n, k).len() == k,
    decreases k,
{
    if k > 0 {
        lemma_le_bytes_len(n / 256, (k - 1) as nat);
    }
}

proof fn lemma_le_bytes_injective(a: nat, b: nat, k: nat)
    requires
        le_bytes(a, k) == le_bytes(b, k),
        a < pow256(k),
        b < pow256(k),
    ensures
        a == b,
    decreases k,
{
    if k > 0 {
        let p = pow256((k - 1) as nat);
        assert(le_bytes(a, k)[0] == (a % 256) as u8);
        assert(le_bytes(b, k)[0] == (b % 256) as u8);
        assert(((a % 256) as u8) as nat == a % 256);
        assert(((b % 256) as u8) as nat == b % 256);
        assert(a % 256 == b % 256);
        assert(le_bytes(a / 256, (k - 1) as nat) =~= le_bytes(a, k).drop_first());
        assert(le_bytes(b / 256, (k - 1) as nat) =~= le_bytes(b, k).drop_first());
        assert(a / 256 < p && b / 256 < p) by (nonlinear_arith)
            requires
                a < 256 * p,
                b < 256 * p,
        ;
        lemma_le_bytes_injective(a / 256, b / 256, (k - 1) as nat);
        assert(a == 256 * (a / 256) + a % 256) by (nonlinear_arith);
        assert(b == 256 * (b / 256) + b % 256) by (nonlinear_arith);
    }
}

/// The stored form reads back: the bytes that `to_bytes` writes are sixteen,
/// and the only lock whose stored form they begin with is the one written.
pub proof fn lemma_lock_bytes_round_trip(s: LockState, t: LockState)
    ensures
        lock_bytes(s).len() == 16,
        lock_bytes(t) == lock_bytes(s).subrange(0, 16) ==> t == s,
{
    lemma_le_bytes_len(s.block_deadline as nat, 8);
    lemma_le_bytes_len(s.time_deadline as nat, 8);
    lemma_le_bytes_len(t.block_deadline as nat, 8);
    lemma_le_bytes_len(t.time_deadline as nat, 8);
    reveal_with_fuel(pow256, 9);
    assert(pow256(8) == 0x1_0000_0000_0000_0000);
    if lock_bytes(t) == lock_bytes(s).subrange(0, 16) {
        assert(lock_bytes(s).subrange(0, 16) =~= lock_bytes(s));
        assert(lock_bytes(t).subrange(0, 8) =~= le_bytes(t.block_deadline as nat, 8));
        assert(lock_bytes(s).subrange(0, 8) =~= le_bytes(s.block_deadline as nat, 8));
        assert(lock_bytes(t).subrange(8, 16) =~= le_bytes(t.time_deadline as nat, 8));
        assert(lock_bytes(s).subrange(8, 16) =~= le_bytes(s.time_deadline as nat, 8));
        lemma_le_bytes_injective(t.block_deadline as nat, s.block_deadline as nat, 8);
        lemma_le_bytes_injective(t.time_deadline as nat, s.time_deadline as nat, 8);
    }
}

} // verus!
