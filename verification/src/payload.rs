//! The canonical byte string an owner signs to grant a session.
//!
//! It is the SCALE encoding of the request as the delegate would send it,
//! with the delegate's own account in place of the owner's, between the
//! markers `<Bytes>` and `</Bytes>`.

use vstd::prelude::*;

use crate::types::{AccountId, ActionTag};

verus! {

/// Most actions a request may list when it is authorised by signature, so
/// that the payload's length can be written in 32 bits.
pub const MAX_SIGNED_ACTIONS: usize = 0xFFFF_FFC3;

/// The `width` low-order bytes of `value`, least significant first.
pub open spec fn le_bytes(value: nat, width: nat) -> Seq<u8>
    decreases width,
{
    if width == 0 {
        Seq::empty()
    } else {
        seq![(value % 256) as u8] + le_bytes(value / 256, (width - 1) as nat)
    }
}

/// SCALE's compact encoding of a collection's length: the two low bits of
/// the first byte say how many bytes follow.
pub open spec fn compact_length(n: nat) -> Seq<u8> {
    if n < 0x40 {
        le_bytes(4 * n, 1)
    } else if n < 0x4000 {
        le_bytes(4 * n + 1, 2)
    } else if n < 0x4000_0000 {
        le_bytes(4 * n + 2, 4)
    } else {
        seq![3u8] + le_bytes(n, 4)
    }
}

/// SCALE encoding of a request: the account's 32 bytes, the duration as 8
/// little-endian bytes, the number of actions in compact form, then one
/// byte per action.
pub open spec fn scale_encoding(key: Seq<u8>, duration: u64, allowed_actions: Seq<ActionTag>) -> Seq<
    u8,
> {
    key + le_bytes(duration as nat, 8) + compact_length(allowed_actions.len()) + allowed_actions
}

/// The opening marker, `<Bytes>` in ASCII.
pub open spec fn payload_prefix() -> Seq<u8> {
    seq![0x3cu8, 0x42u8, 0x79u8, 0x74u8, 0x65u8, 0x73u8, 0x3eu8]
}

/// The closing marker, `</Bytes>` in ASCII.
pub open spec fn payload_suffix() -> Seq<u8> {
    seq![0x3cu8, 0x2fu8, 0x42u8, 0x79u8, 0x74u8, 0x65u8, 0x73u8, 0x3eu8]
}

/// What the owner signs to let `delegate` act for `duration` milliseconds
/// with `allowed_actions`.
pub open spec fn signing_payload(
    delegate: AccountId,
    duration: u64,
    allowed_actions: Seq<ActionTag>,
) -> Seq<u8> {
    payload_prefix() + scale_encoding(delegate@, duration, allowed_actions) + payload_suffix()
}

/// `le_bytes` yields exactly `width` bytes.
pub proof fn lemma_le_bytes_len(value: nat, width: nat)
    ensures
        le_bytes(value, width).len() == width,
    decreases width,
{
    if width > 0 {
        lemma_le_bytes_len(value / 256, (width - 1) as nat);
    }
}

/// A payload is 55 bytes of framing and fixed fields, at most 5 bytes of
/// length, and one byte per action.
pub proof fn lemma_signing_payload_len(
    delegate: AccountId,
    duration: u64,
    allowed_actions: Seq<ActionTag>,
)
    ensures
        allowed_actions.len() + 56 <= signing_payload(delegate, duration, allowed_actions).len()
            <= allowed_actions.len() + 60,
{
    let n = allowed_actions.len();
    lemma_le_bytes_len(duration as nat, 8);
    lemma_le_bytes_len(4 * n, 1);
    lemma_le_bytes_len(4 * n + 1, 2);
    lemma_le_bytes_len(4 * n + 2, 4);
    lemma_le_bytes_len(n, 4);
}

/// The number of bytes that the compact length of `n` items takes.
pub open spec fn compact_length_len(n: nat) -> nat {
    if n < 0x40 {
        1
    } else if n < 0x4000 {
        2
    } else if n < 0x4000_0000 {
        4
    } else {
        5
    }
}

/// A payload's length, exactly.
pub proof fn lemma_signing_payload_exact_len(
    delegate: AccountId,
    duration: u64,
    allowed_actions: Seq<ActionTag>,
)
    ensures
        compact_length(allowed_actions.len()).len() == compact_length_len(allowed_actions.len()),
        signing_payload(delegate, duration, allowed_actions).len() == 55 + compact_length_len(
            allowed_actions.len(),
        ) + allowed_actions.len(),
{
    let n = allowed_actions.len();
    lemma_le_bytes_len(duration as nat, 8);
    lemma_le_bytes_len(4 * n, 1);
    lemma_le_bytes_len(4 * n + 1, 2);
    lemma_le_bytes_len(4 * n + 2, 4);
    lemma_le_bytes_len(n, 4);
}

/// Whether `value` can be written in `width` bytes.
pub open spec fn fits_in_bytes(value: nat, width: nat) -> bool
    decreases width,
{
    if width == 0 {
        value == 0
    } else {
        fits_in_bytes(value / 256, (width - 1) as nat)
    }
}

/// Two values that fit in `width` bytes and are written alike are the same.
pub proof fn lemma_le_bytes_injective(a: nat, b: nat, width: nat)
    requires
        fits_in_bytes(a, width),
        fits_in_bytes(b, width),
        le_bytes(a, width) == le_bytes(b, width),
    ensures
        a == b,
    decreases width,
{
    if width > 0 {
        let rest = (width - 1) as nat;
        let bytes_a = le_bytes(a, width);
        let bytes_b = le_bytes(b, width);
        lemma_le_bytes_len(a / 256, rest);
        lemma_le_bytes_len(b / 256, rest);
        assert(bytes_a[0] == (a % 256) as u8);
        assert(bytes_b[0] == (b % 256) as u8);
        assert(le_bytes(a / 256, rest) =~= bytes_a.subrange(1, width as int));
        assert(le_bytes(b / 256, rest) =~= bytes_b.subrange(1, width as int));
        lemma_le_bytes_injective(a / 256, b / 256, rest);
    }
}

/// Every `u64` fits in 8 bytes.
pub proof fn lemma_u64_fits_in_8_bytes(value: u64)
    ensures
        fits_in_bytes(value as nat, 8),
{
    reveal_with_fuel(fits_in_bytes, 9);
    let v = value as nat;
    assert(v / 256 / 256 / 256 / 256 / 256 / 256 / 256 / 256 == 0);
}

/// The payload determines the request: two requests with the same payload
/// name the same delegate, the same duration and the same actions in the
/// same order. So what an owner signed for one request serves no other.
pub proof fn lemma_signing_payload_determines_request(
    delegate1: AccountId,
    duration1: u64,
    actions1: Seq<ActionTag>,
    delegate2: AccountId,
    duration2: u64,
    actions2: Seq<ActionTag>,
)
    requires
        signing_payload(delegate1, duration1, actions1) == signing_payload(
            delegate2,
            duration2,
            actions2,
        ),
    ensures
        delegate1 == delegate2,
        duration1 == duration2,
        actions1 == actions2,
{
    let p1 = signing_payload(delegate1, duration1, actions1);
    let p2 = signing_payload(delegate2, duration2, actions2);
    lemma_signing_payload_exact_len(delegate1, duration1, actions1);
    lemma_signing_payload_exact_len(delegate2, duration2, actions2);
    lemma_le_bytes_len(duration1 as nat, 8);
    lemma_le_bytes_len(duration2 as nat, 8);
    // the length of a payload grows with the number of actions
    assert(actions1.len() == actions2.len());
    let width = compact_length_len(actions1.len());
    let e1 = scale_encoding(delegate1@, duration1, actions1);
    let e2 = scale_encoding(delegate2@, duration2, actions2);
    assert(e1 =~= p1.subrange(7, 7 + e1.len() as int));
    assert(e2 =~= p2.subrange(7, 7 + e2.len() as int));
    assert(delegate1@ =~= e1.subrange(0, 32));
    assert(delegate2@ =~= e2.subrange(0, 32));
    assert(delegate1 =~= delegate2);
    assert(le_bytes(duration1 as nat, 8) =~= e1.subrange(32, 40));
    assert(le_bytes(duration2 as nat, 8) =~= e2.subrange(32, 40));
    lemma_u64_fits_in_8_bytes(duration1);
    lemma_u64_fits_in_8_bytes(duration2);
    lemma_le_bytes_injective(duration1 as nat, duration2 as nat, 8);
    assert(actions1 =~= e1.subrange(40 + width as int, e1.len() as int));
    assert(actions2 =~= e2.subrange(40 + width as int, e2.len() as int));
}

/// Calls parity-scale-codec's `Encode::encode`, under the path by which
/// sails-rs hands it on, for the triple of the account, the duration and the
/// actions. Trusted: the codec writes a byte array as it is, a `u64` as 8
/// little-endian bytes, and a vector of bytes as its compact length followed
/// by the bytes. It panics on a vector of more than `u32::MAX` items.
#[verifier::external_body]
fn scale_encode(key: &AccountId, duration: u64, allowed_actions: &Vec<ActionTag>) -> (bytes: Vec<u8>)
    requires
        allowed_actions@.len() <= u32::MAX,
    ensures
        bytes@ == scale_encoding(key@, duration, allowed_actions@),
{
    sails_rs::Encode::encode(&(key, duration, allowed_actions))
}

/// Builds the byte string that the owner must have signed for `delegate` to
/// open a session of `duration` milliseconds with `allowed_actions`.
pub fn build_signing_payload(
    delegate: &AccountId,
    duration: u64,
    allowed_actions: &Vec<ActionTag>,
) -> (message: Vec<u8>)
    requires
        allowed_actions@.len() <= u32::MAX,
    ensures
        message@ == signing_payload(*delegate, duration, allowed_actions@),
{
    let prefix: [u8; 7] = [0x3c, 0x42, 0x79, 0x74, 0x65, 0x73, 0x3e];
    let suffix: [u8; 8] = [0x3c, 0x2f, 0x42, 0x79, 0x74, 0x65, 0x73, 0x3e];
    let encoded = scale_encode(delegate, duration, allowed_actions);
    let mut message: Vec<u8> = Vec::new();
    message.extend_from_slice(prefix.as_slice());
    message.extend_from_slice(encoded.as_slice());
    message.extend_from_slice(suffix.as_slice());
    assert(prefix@ =~= payload_prefix());
    assert(suffix@ =~= payload_suffix());
    message
}

} // verus!
