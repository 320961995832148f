//! The byte material around message encryption: a friend's public
//! encryption key, decoded from its hex text, and the ciphertext and nonce
//! of a received message, decoded from base64 and hex.

use vstd::prelude::*;
use base64::Engine;
use crate::app::App;
use crate::inbox::{first_friend, friend_index};
use crate::types::Screen;

verus! {

/// The value of a hexadecimal digit (either case), or -1.
pub open spec fn hex_val(c: char) -> int {
    if '0' <= c && c <= '9' {
        (c as int) - ('0' as int)
    } else if 'a' <= c && c <= 'f' {
        (c as int) - ('a' as int) + 10
    } else if 'A' <= c && c <= 'F' {
        (c as int) - ('A' as int) + 10
    } else {
        -1
    }
}

/// The bytes that a hex text stands for: two digits per byte, high digit
/// first; nothing when the length is odd or a character is not a digit.
pub open spec fn hex_bytes(s: Seq<char>) -> Option<Seq<u8>> {
    if s.len() % 2 == 0 && forall|i: int| 0 <= i < s.len() ==> hex_val(#[trigger] s[i]) >= 0 {
        Some(Seq::new((s.len() / 2) as nat, |i: int| (16 * hex_val(s[2 * i]) + hex_val(s[2 * i + 1])) as u8))
    } else {
        None
    }
}

/// The bytes of a vector, if any.
pub open spec fn bytes_of(r: Option<Vec<u8>>) -> Option<Seq<u8>> {
    match r {
        Some(v) => Some(v@),
        None => None,
    }
}

/// The error of a hex decoding.
#[verifier::external_type_specification]
#[verifier::external_body]
pub struct ExFromHexError(hex::FromHexError);

/// The error of a base64 decoding.
#[verifier::external_type_specification]
#[verifier::external_body]
pub struct ExDecodeError(base64::DecodeError);

/// The bytes of a decoding, if it succeeded.
pub open spec fn decoded<E>(r: Result<Vec<u8>, E>) -> Option<Seq<u8>> {
    match r {
        Ok(v) => Some(v@),
        Err(_) => None,
    }
}

/// `hex::decode`: the digits of `s` taken two by two, either case; an odd
/// length or a character that is no hex digit is an error.
#[verifier::external_body]
fn hex_decode(s: &str) -> (r: Result<Vec<u8>, hex::FromHexError>)
    ensures
        decoded(r) == hex_bytes(s@),
{
    hex::decode(s)
}

/// The bytes of a decoding, dropping the error.
fn ok_bytes<E>(r: Result<Vec<u8>, E>) -> (b: Option<Vec<u8>>)
    ensures
        bytes_of(b) == decoded(r),
{
    match r {
        Ok(v) => Some(v),
        Err(_) => None,
    }
}

/// What the standard base64 alphabet, with padding, decodes a text to
/// (nothing where the text is not valid base64).
pub uninterp spec fn base64_decoded(s: Seq<char>) -> Option<Seq<u8>>;

/// `base64::engine::general_purpose::STANDARD.decode`: the bytes that `s`
/// encodes in standard, padded base64, or nothing where it is not valid.
#[verifier::external_body]
fn base64_decode(s: &str) -> (r: Result<Vec<u8>, base64::DecodeError>)
    ensures
        decoded(r) == base64_decoded(s@),
{
    base64::engine::general_purpose::STANDARD.decode(s)
}

/// The encryption key of the first friend with this DID, on the chat
/// screen: its hex text decoded, when that gives 32 bytes.
pub open spec fn friend_key(s: Screen, did: Seq<char>) -> Option<Seq<u8>> {
    match s {
        Screen::Chat { friends, .. } => if exists|i: int| #[trigger] first_friend(friends@, did, i) {
            let f = friends@[choose|i: int| #[trigger] first_friend(friends@, did, i)];
            match f.encryption_key {
                Some(k) => match hex_bytes(k@) {
                    Some(b) => if b.len() == 32 {
                        Some(b)
                    } else {
                        None
                    },
                    None => None,
                },
                None => None,
            }
        } else {
            None
        },
        _ => None,
    }
}

/// The key of a 32-byte decoding, else nothing.
fn key_of(r: Option<Vec<u8>>) -> (k: Option<Vec<u8>>)
    ensures
        bytes_of(k) == match bytes_of(r) {
            Some(b) => if b.len() == 32 {
                Some(b)
            } else {
                None
            },
            None => None,
        },
{
    match r {
        Some(b) => if b.len() == 32 {
            Some(b)
        } else {
            None
        },
        None => None,
    }
}

impl App {
    /// The public encryption key of a friend, from the friends list of the
    /// chat screen.
    pub fn find_friend_encryption_key(&self, did: &str) -> (r: Option<Vec<u8>>)
        ensures
            bytes_of(r) == friend_key(self.screen, did@),
    {
        match &self.screen {
            Screen::Chat { friends, .. } => match friend_index(friends, did) {
                Some(i) => {
                    proof {
                        let k = choose|k: int| #[trigger] first_friend(friends@, did@, k);
                        assert(k == i) by {
                            if k > i {
                                assert(friends@[i as int].did@ == did@);
                            } else if k < i {
                                assert(friends@[k].did@ == did@);
                            }
                        }
                    }
                    match &friends[i].encryption_key {
                        Some(hex_key) => key_of(ok_bytes(hex_decode(hex_key.as_str()))),
                        None => None,
                    }
                },
                None => None,
            },
            _ => None,
        }
    }
}

/// The ciphertext and nonce of a received message: the ciphertext from
/// standard base64 and a 12-byte nonce from hex.
pub open spec fn sealed_parts_of(ct: Seq<char>, nonce: Seq<char>) -> Option<(Seq<u8>, Seq<u8>)> {
    match (base64_decoded(ct), hex_bytes(nonce)) {
        (Some(c), Some(n)) => if n.len() == 12 {
            Some((c, n))
        } else {
            None
        },
        _ => None,
    }
}

/// The ciphertext and nonce of a message in the current envelope format,
/// or nothing where either does not decode or the nonce is not 12 bytes.
pub fn sealed_parts(ciphertext_b64: &str, nonce_hex: &str) -> (r: Option<(Vec<u8>, Vec<u8>)>)
    ensures
        match r {
            Some((c, n)) => sealed_parts_of(ciphertext_b64@, nonce_hex@) == Some((c@, n@)),
            None => sealed_parts_of(ciphertext_b64@, nonce_hex@) is None,
        },
{
    let c = ok_bytes(base64_decode(ciphertext_b64));
    let n = ok_bytes(hex_decode(nonce_hex));
    match (c, n) {
        (Some(c), Some(n)) => if n.len() == 12 {
            Some((c, n))
        } else {
            None
        },
        _ => None,
    }
}

/// The ciphertext and nonce of a message in the older format, both hex.
pub open spec fn legacy_parts_of(ct: Seq<char>, nonce: Seq<char>) -> Option<(Seq<u8>, Seq<u8>)> {
    match (hex_bytes(nonce), hex_bytes(ct)) {
        (Some(n), Some(c)) => if n.len() == 12 {
            Some((c, n))
        } else {
            None
        },
        _ => None,
    }
}

/// The ciphertext and nonce of a message in the older format, or nothing
/// where either does not decode or the nonce is not 12 bytes.
pub fn legacy_parts(ciphertext_hex: &str, nonce_hex: &str) -> (r: Option<(Vec<u8>, Vec<u8>)>)
    ensures
        match r {
            Some((c, n)) => legacy_parts_of(ciphertext_hex@, nonce_hex@) == Some((c@, n@)),
            None => legacy_parts_of(ciphertext_hex@, nonce_hex@) is None,
        },
{
    let n = ok_bytes(hex_decode(nonce_hex));
    let c = ok_bytes(hex_decode(ciphertext_hex));
    match (n, c) {
        (Some(n), Some(c)) => if n.len() == 12 {
            Some((c, n))
        } else {
            None
        },
        _ => None,
    }
}

} // verus!
