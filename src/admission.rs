use vstd::prelude::*;

verus! {

/// The identity of the keys that sign payloads for this pipeline.
pub const KEY_TYPE: [u8; 4] = [100, 101, 109, 111];

/// The priority that every admitted call gets.
pub const UNSIGNED_TXS_PRIORITY: u64 = 100;

/// How many blocks an admitted call stays valid in the pool.
pub const TX_LONGEVITY: u64 = 3;

/// The key scheme of this pipeline's signed payloads.
#[derive(Clone, Copy, Debug)]
pub struct TestAuthId;

impl TestAuthId {
    /// The identity under which the signing keys are looked up.
    pub fn key_type(&self) -> (r: [u8; 4])
        ensures
            r@ == KEY_TYPE@,
    {
        KEY_TYPE
    }
}

/// A fetched number and the public key of who attests to it.
#[derive(Clone, Copy, Debug)]
pub struct Payload {
    pub number: u64,
    pub public: [u8; 32],
}

impl Payload {
    pub fn new(number: u64, public: [u8; 32]) -> (r: Payload)
        ensures
            r.number == number,
            r.public@ == public@,
    {
        Payload { number, public }
    }

    /// The key that must have signed this payload.
    pub fn public(&self) -> (r: [u8; 32])
        ensures
            r@ == self.public@,
    {
        self.public
    }

    /// The bytes that are signed: the payload in its SCALE encoding.
    pub fn encode(&self) -> (r: Vec<u8>)
        ensures
            r@ == payload_bytes(*self),
    {
        encode_payload(self.number, &self.public)
    }
}

/// The calls that reach the admission check.
#[derive(Clone, Copy, Debug)]
pub enum Call {
    /// A bare number, carried without any signature.
    SubmitNumberUnsigned { number: u64 },
    /// A number in a payload, with a signature over that payload.
    SubmitNumberUnsignedWithSignedPayload { payload: Payload, signature: [u8; 64] },
    /// A call of another kind, which this check never admits.
    Other,
}

/// Why a call was refused.
#[derive(Clone, Copy, Debug, PartialEq, Eq, Structural)]
pub enum InvalidTransaction {
    /// The call is not one that this pipeline sends.
    Call,
    /// The signature does not verify against the payload and its key.
    BadProof,
}

/// How the pool is to handle an admitted call.
#[derive(Clone, Debug)]
pub struct ValidTransaction {
    pub priority: u64,
    pub requires: Vec<Vec<u8>>,
    pub provides: Vec<Vec<u8>>,
    pub longevity: u64,
    pub propagate: bool,
}

/// The little-endian bytes of the lowest `k` bytes of `n`.
pub open spec fn le_bytes(n: nat, k: nat) -> Seq<u8>
    decreases k,
{
    if k == 0 {
        Seq::empty()
    } else {
        seq![(n % 256) as u8] + le_bytes(n / 256, (k - 1) as nat)
    }
}

/// The SCALE encoding of a payload: the number in eight little-endian bytes,
/// then the 32 bytes of the key.
pub open spec fn payload_bytes(p: Payload) -> Seq<u8> {
    le_bytes(p.number as nat, 8) + p.public@
}

/// The SCALE encoding of a byte string shorter than 64 bytes: its length times
/// four in one byte, then the bytes.
pub open spec fn short_bytes(s: Seq<u8>) -> Seq<u8> {
    seq![(s.len() * 4) as u8] + s
}

pub open spec fn tag_prefix() -> Seq<u8> {
    seq![111u8, 99, 119, 45, 100, 101, 109, 111]
}

pub open spec fn unsigned_tag() -> Seq<u8> {
    seq![
        115u8, 117, 98, 109, 105, 116, 95, 110, 117, 109, 98, 101, 114, 95, 117, 110, 115, 105,
        103, 110, 101, 100,
    ]
}

pub open spec fn signed_tag() -> Seq<u8> {
    unsigned_tag() + seq![
        95u8, 119, 105, 116, 104, 95, 115, 105, 103, 110, 101, 100, 95, 112, 97, 121, 108, 111,
        97, 100,
    ]
}

/// The tag that an admitted call provides: the prefix and the call's own tag,
/// SCALE-encoded as a pair.
pub open spec fn provided_tag(tag: Seq<u8>) -> Seq<u8> {
    short_bytes(tag_prefix()) + short_bytes(tag)
}

/// Whether `signature` is a valid sr25519 signature of `message` by `public`.
pub uninterp spec fn sr25519_verifies(signature: Seq<u8>, message: Seq<u8>, public: Seq<u8>) -> bool;

/// Relies on `Encode::encode` of parity-scale-codec for `(u64, &[u8; 32])`: a
/// `u64` is written in eight little-endian bytes and a fixed array byte by
/// byte, with no length.
#[verifier::external_body]
fn encode_payload(number: u64, public: &[u8; 32]) -> (r: Vec<u8>)
    ensures
        r@ == le_bytes(number as nat, 8) + public@,
{
    parity_scale_codec::Encode::encode(&(number, public))
}

/// Relies on `Encode::encode` of parity-scale-codec for `(&[u8], &[u8])`: each
/// slice is written as its compact length, one byte `len << 2` below 64, then
/// its bytes.
#[verifier::external_body]
fn encode_pair(a: &[u8], b: &[u8]) -> (r: Vec<u8>)
    requires
        a@.len() < 64,
        b@.len() < 64,
    ensures
        r@ == short_bytes(a@) + short_bytes(b@),
{
    parity_scale_codec::Encode::encode(&(a, b))
}

/// Relies on `sr25519::Pair::verify` of sp-core, which checks a signature of a
/// message by a public key and gives `false` for malformed keys or signatures;
/// the answer depends on the bytes alone. The signing transcript takes the
/// message length as a `u32` and panics on a longer message.
#[verifier::external_body]
fn verify_sr25519(signature: &[u8; 64], message: &[u8], public: &[u8; 32]) -> (r: bool)
    requires
        message@.len() <= u32::MAX,
    ensures
        r == sr25519_verifies(signature@, message@, public@),
{
    let signature = sp_core::sr25519::Signature::from_raw(*signature);
    let public = sp_core::sr25519::Public::from_raw(*public);
    <sp_core::sr25519::Pair as sp_core::Pair>::verify(&signature, message, &public)
}

/// Whether the signature of a signed submission verifies against its payload.
pub open spec fn signature_holds(payload: Payload, signature: [u8; 64]) -> bool {
    sr25519_verifies(signature@, payload_bytes(payload), payload.public@)
}

/// The admission decision on a call: the tag it is admitted under, or why it
/// is refused.
pub open spec fn admission_spec(call: Call) -> Result<Seq<u8>, InvalidTransaction> {
    match call {
        Call::SubmitNumberUnsigned { .. } => Ok(unsigned_tag()),
        Call::SubmitNumberUnsignedWithSignedPayload { payload, signature } => {
            if signature_holds(payload, signature) {
                Ok(signed_tag())
            } else {
                Err(InvalidTransaction::BadProof)
            }
        },
        Call::Other => Err(InvalidTransaction::Call),
    }
}

/// The pool policy of a call admitted under `tag`.
pub open spec fn admitted_as(v: ValidTransaction, tag: Seq<u8>) -> bool {
    &&& v.priority == UNSIGNED_TXS_PRIORITY
    &&& v.requires@.len() == 0
    &&& v.provides@.len() == 1
    &&& v.provides@[0]@ == provided_tag(tag)
    &&& v.longevity == TX_LONGEVITY
    &&& v.propagate
}

fn unsigned_tag_bytes() -> (r: Vec<u8>)
    ensures
        r@ == unsigned_tag(),
{
    let r = vec![
        115u8, 117, 98, 109, 105, 116, 95, 110, 117, 109, 98, 101, 114, 95, 117, 110, 115, 105,
        103, 110, 101, 100,
    ];
    assert(r@ =~= unsigned_tag());
    r
}

fn signed_tag_bytes() -> (r: Vec<u8>)
    ensures
        r@ == signed_tag(),
{
    let r = vec![
        115u8, 117, 98, 109, 105, 116, 95, 110, 117, 109, 98, 101, 114, 95, 117, 110, 115, 105,
        103, 110, 101, 100, 95, 119, 105, 116, 104, 95, 115, 105, 103, 110, 101, 100, 95, 112, 97,
        121, 108, 111, 97, 100,
    ];
    assert(r@ =~= signed_tag());
    r
}

/// The pool policy of an admitted call: fixed priority, a longevity of three
/// blocks, gossiped to peers, and one provided tag made from `tag`.
fn valid_tx(tag: &Vec<u8>) -> (r: ValidTransaction)
    requires
        tag@.len() < 64,
    ensures
        admitted_as(r, tag@),
{
    let prefix = vec![111u8, 99, 119, 45, 100, 101, 109, 111];
    assert(prefix@ =~= tag_prefix());
    let provide = encode_pair(prefix.as_slice(), tag.as_slice());
    let mut provides: Vec<Vec<u8>> = Vec::new();
    provides.push(provide);
    ValidTransaction {
        priority: UNSIGNED_TXS_PRIORITY,
        requires: Vec::new(),
        provides,
        longevity: TX_LONGEVITY,
        propagate: true,
    }
}

/// Decides whether a call may enter the pool. A bare number is always
/// admitted; a signed payload only where its signature verifies against the
/// payload's bytes and key; any other call never. The decision depends on the
/// call alone and changes nothing.
pub fn validate_unsigned(call: &Call) -> (r: Result<ValidTransaction, InvalidTransaction>)
    ensures
        match admission_spec(*call) {
            Ok(tag) => r matches Ok(v) && admitted_as(v, tag),
            Err(e) => r == Err::<ValidTransaction, InvalidTransaction>(e),
        },
{
    proof {
        reveal_with_fuel(le_bytes, 9);
    }
    match call {
        Call::SubmitNumberUnsigned { .. } => Ok(valid_tx(&unsigned_tag_bytes())),
        Call::SubmitNumberUnsignedWithSignedPayload { payload, signature } => {
            let message = payload.encode();
            if !verify_sr25519(signature, message.as_slice(), &payload.public) {
                return Err(InvalidTransaction::BadProof);
            }
            Ok(valid_tx(&signed_tag_bytes()))
        },
        Call::Other => Err(InvalidTransaction::Call),
    }
}

/// A signed submission is admitted exactly when its signature verifies
/// against the key and the bytes of its payload, and two equal submissions
/// always get the same decision.
pub proof fn lemma_signed_admission(payload: Payload, signature: [u8; 64], other: Call)
    requires
        other == (Call::SubmitNumberUnsignedWithSignedPayload { payload, signature }),
    ensures
        admission_spec(Call::SubmitNumberUnsignedWithSignedPayload { payload, signature }) is Ok
            <==> sr25519_verifies(signature@, payload_bytes(payload), payload.public@),
        !signature_holds(payload, signature) ==> admission_spec(
            Call::SubmitNumberUnsignedWithSignedPayload { payload, signature },
        ) == Err::<Seq<u8>, InvalidTransaction>(InvalidTransaction::BadProof),
        admission_spec(other) == admission_spec(
            Call::SubmitNumberUnsignedWithSignedPayload { payload, signature },
        ),
{
}

/// Every bare-number submission is admitted, under its own tag; a call of
/// any other kind is refused as an invalid call.
pub proof fn lemma_unsigned_admission(number: u64)
    ensures
        admission_spec(Call::SubmitNumberUnsigned { number }) == Ok::<
            Seq<u8>,
            InvalidTransaction,
        >(unsigned_tag()),
        admission_spec(Call::Other) == Err::<Seq<u8>, InvalidTransaction>(
            InvalidTransaction::Call,
        ),
        unsigned_tag() != signed_tag(),
{
    assert(unsigned_tag().len() != signed_tag().len());
}

} // verus!
