pub mod cookies;
pub mod error;
pub mod password;
pub mod structs;
pub mod text;
pub mod timing;

use rand::rngs::OsRng;
use rand::{Rng, RngCore};
use vstd::prelude::*;
use crate::common::structs::Sessions;
use crate::common::timing::{session_lifetime, session_lifetime_seconds, timestamp_bound};
use crate::common::text::{hex_encode, hex_lower, hex_alphabet, is_hex_lower_char, lemma_hex_lower_shape, lemma_hex_lower_index};

verus! {

/// Sixteen random bytes from the thread-local generator, used as a bcrypt salt.
///
/// Trusted: wraps `rand::thread_rng().gen::<[u8; 16]>()`. Nothing is promised
/// of the bytes (they come from a random generator); like the generator, the
/// call panics where the operating system cannot seed it.
#[verifier::external_body]
pub fn generate_random_bytes() -> [u8; 16] {
    rand::thread_rng().gen::<[u8; 16]>()
}

/// The bytes of a fresh random UUID.
///
/// Trusted: wraps `uuid::Uuid::new_v4().into_bytes()`. The value is random; what
/// holds of every outcome (uuid's source masks it so) is that the version
/// nibble, the high half of byte 6, is 4, and the top two bits of byte 8 are
/// `10` (the RFC 9562 variant). It panics where the operating system's RNG fails.
#[verifier::external_body]
fn random_v4_uuid_bytes() -> (res: [u8; 16])
    ensures
        res@[6] / 16 == 4,
        res@[8] / 64 == 2,
{
    uuid::Uuid::new_v4().into_bytes()
}

/// The hyphenated lowercase text of a UUID: 8, 4, 4, 4 and 12 hex digits
/// joined by `-`.
pub open spec fn uuid_text(b: Seq<u8>) -> Seq<char> {
    hex_lower(b.subrange(0, 4)) + seq!['-'] + hex_lower(b.subrange(4, 6)) + seq!['-']
        + hex_lower(b.subrange(6, 8)) + seq!['-'] + hex_lower(b.subrange(8, 10)) + seq!['-']
        + hex_lower(b.subrange(10, 16))
}

/// `text` is the hyphenated text of some version 4, RFC 9562 variant UUID.
pub open spec fn is_uuid_v4_text(text: Seq<char>) -> bool {
    exists|b: Seq<u8>|
        b.len() == 16 && b[6] / 16 == 4 && b[8] / 64 == 2 && text == #[trigger] uuid_text(b)
}

/// The text of a UUID given by its bytes.
///
/// Trusted: wraps `uuid::Uuid::from_bytes(bytes).to_string()`; uuid's `Display`
/// writes the hyphenated form in lowercase, which is `uuid_text`.
#[verifier::external_body]
fn uuid_bytes_to_text(bytes: [u8; 16]) -> (res: String)
    ensures
        res@ == uuid_text(bytes@),
{
    uuid::Uuid::from_bytes(bytes).to_string()
}

/// Shape of the text of a version 4 UUID: 36 characters, hyphens at 8, 13,
/// 18 and 23, lowercase hex digits elsewhere, `4` at 14 and one of `8`, `9`,
/// `a`, `b` at 19.
pub proof fn lemma_uuid_v4_text_shape(b: Seq<u8>)
    requires
        b.len() == 16,
        b[6] / 16 == 4,
        b[8] / 64 == 2,
    ensures
        uuid_text(b).len() == 36,
        uuid_text(b)[8] == '-' && uuid_text(b)[13] == '-' && uuid_text(b)[18] == '-' && uuid_text(b)[23] == '-',
        uuid_text(b)[14] == '4',
        uuid_text(b)[19] == '8' || uuid_text(b)[19] == '9' || uuid_text(b)[19] == 'a' || uuid_text(b)[19] == 'b',
        forall|i: int| 0 <= i < 36 && i != 8 && i != 13 && i != 18 && i != 23
            ==> is_hex_lower_char(#[trigger] uuid_text(b)[i]),
{
    let p0 = b.subrange(0, 4);
    let p1 = b.subrange(4, 6);
    let p2 = b.subrange(6, 8);
    let p3 = b.subrange(8, 10);
    let p4 = b.subrange(10, 16);
    lemma_hex_lower_shape(p0);
    lemma_hex_lower_shape(p1);
    lemma_hex_lower_shape(p2);
    lemma_hex_lower_shape(p3);
    lemma_hex_lower_shape(p4);
    lemma_hex_lower_index(p2, 0);
    lemma_hex_lower_index(p3, 0);
    assert(p2[0] == b[6]);
    assert(p3[0] == b[8]);
    let t = uuid_text(b);
    assert(t[14] == hex_lower(p2)[0]);
    assert(t[19] == hex_lower(p3)[0]);
    assert(8 <= b[8] / 16 < 12);
    assert forall|i: int| 0 <= i < 36 && i != 8 && i != 13 && i != 18 && i != 23
        implies is_hex_lower_char(#[trigger] uuid_text(b)[i]) by {
        if i < 8 {
            assert(t[i] == hex_lower(p0)[i]);
        } else if i < 13 {
            assert(t[i] == hex_lower(p1)[i - 9]);
        } else if i < 18 {
            assert(t[i] == hex_lower(p2)[i - 14]);
        } else if i < 23 {
            assert(t[i] == hex_lower(p3)[i - 19]);
        } else {
            assert(t[i] == hex_lower(p4)[i - 24]);
        }
    }
}

/// A fresh random identifier for a new user: the hyphenated lowercase text
/// of a version 4 UUID.
pub fn generate_uuid() -> (res: String)
    ensures
        is_uuid_v4_text(res@),
        res@.len() == 36,
        res@[14] == '4',
{
    let bytes = random_v4_uuid_bytes();
    let text = uuid_bytes_to_text(bytes);
    proof {
        lemma_uuid_v4_text_shape(bytes@);
        assert(text@ == uuid_text(bytes@));
    }
    text
}

/// Thirty-two random bytes from the operating system's generator.
///
/// Trusted: wraps `rand::rngs::OsRng.try_fill_bytes` on a 32-byte buffer.
/// Nothing is promised of the bytes (they are random); where the operating
/// system's generator fails the call panics, as the `unwrap` it stands for.
#[verifier::external_body]
fn os_random_bytes_32() -> [u8; 32] {
    let mut bytes = [0u8; 32];
    OsRng.try_fill_bytes(&mut bytes).unwrap();
    bytes
}

/// `text` is a session token: the lowercase hexadecimal text of 32 bytes.
pub open spec fn is_session_token(text: Seq<char>) -> bool {
    exists|b: Seq<u8>| b.len() == 32 && text == #[trigger] hex_lower(b)
}

/// A fresh session token: 32 random bytes from the operating system's
/// generator, written as 64 lowercase hexadecimal digits.
pub fn generate_token() -> (res: String)
    ensures
        is_session_token(res@),
        res@.len() == 64,
        forall|i: int| 0 <= i < res@.len() ==> is_hex_lower_char(#[trigger] res@[i]),
{
    let bytes = os_random_bytes_32();
    let text = hex_encode(bytes.as_slice());
    proof {
        lemma_hex_lower_shape(bytes@);
    }
    text
}

/// A fresh session for `user_id`, created at `now` and expiring one session
/// lifetime (two days) later, under a fresh random token.
pub fn issue_session(user_id: String, now: i64) -> (res: Sessions)
    requires
        -timestamp_bound() < now < timestamp_bound(),
    ensures
        res.user_id == user_id,
        is_session_token(res.session_id@),
        res.created_at == now,
        res.expire_at == now + session_lifetime(),
{
    let session_id = generate_token();
    let expire_at = now + session_lifetime_seconds();
    Sessions { session_id, user_id, created_at: now, expire_at }
}

} // verus!
