//! Authentication of a push notification.
//!
//! The sender signs the raw body with a secret that it shares with the
//! runner, and sends the signature as `sha256=` followed by the keyed hash
//! in hexadecimal notation.

use crate::cfg::Cfg;
use crate::text::strip_prefix;
use hmac::Mac;
use vstd::prelude::*;
use vstd::utf8::encode_utf8;

verus! {

/// The number of bytes of a keyed hash.
pub const MAC_BYTES: usize = 32;

/// The HMAC-SHA256 of `body` under `key`, as the crates `hmac` and `sha2`
/// compute it.
pub uninterp spec fn hmac_sha256(key: Seq<u8>, body: Seq<u8>) -> Seq<u8>;

/// The value of a hexadecimal digit of either case, `None` for any other
/// character.
pub open spec fn hex_value(c: char) -> Option<int> {
    let n = c as int;
    if '0' as int <= n <= '9' as int {
        Some(n - '0' as int)
    } else if 'a' as int <= n <= 'f' as int {
        Some(n - 'a' as int + 10)
    } else if 'A' as int <= n <= 'F' as int {
        Some(n - 'A' as int + 10)
    } else {
        None
    }
}

/// Whether `s` is hexadecimal notation for some bytes: an even number of
/// hexadecimal digits.
pub open spec fn is_hex(s: Seq<char>) -> bool {
    s.len() % 2 == 0 && forall|i: int| 0 <= i < s.len() ==> hex_value(#[trigger] s[i]) is Some
}

/// The bytes that `s` is hexadecimal notation for, two digits to a byte,
/// the high one first.
pub open spec fn hex_bytes(s: Seq<char>) -> Seq<u8> {
    Seq::new(s.len() / 2, |i: int| (hex_value(s[2 * i])->0 * 16 + hex_value(s[2 * i + 1])->0) as u8)
}

/// The bytes that `s` stands for, if it is hexadecimal notation.
pub open spec fn hex_decoded(s: Seq<char>) -> Option<Seq<u8>> {
    if is_hex(s) {
        Some(hex_bytes(s))
    } else {
        None
    }
}

/// The lower-case hexadecimal digit of a value below sixteen.
pub open spec fn hex_digit(v: int) -> char
    recommends
        0 <= v < 16,
{
    if v < 10 {
        ('0' as int + v) as char
    } else {
        ('a' as int + v - 10) as char
    }
}

/// The lower-case hexadecimal notation of `bytes`.
pub open spec fn hex_encoded(bytes: Seq<u8>) -> Seq<char> {
    Seq::new(
        2 * bytes.len(),
        |i: int|
            if i % 2 == 0 {
                hex_digit(bytes[i / 2] as int / 16)
            } else {
                hex_digit(bytes[i / 2] as int % 16)
            },
    )
}

/// What every signature begins with.
pub open spec fn signature_prefix() -> Seq<char> {
    "sha256="@
}

/// The bytes that a signature carries: what follows `sha256=`, read as
/// hexadecimal notation. `None` where the prefix is missing or the rest is
/// no hexadecimal notation.
pub open spec fn signature_bytes(signature: Seq<char>) -> Option<Seq<u8>> {
    if signature_prefix().is_prefix_of(signature) {
        hex_decoded(signature.skip(signature_prefix().len() as int))
    } else {
        None
    }
}

/// Whether `signature` is accepted for `body` under `key`: it carries the
/// keyed hash of the body.
pub open spec fn signature_accepted(key: Seq<u8>, body: Seq<u8>, signature: Seq<char>) -> bool {
    signature_bytes(signature) == Some(hmac_sha256(key, body))
}

/// `hex::decode` on a string: the bytes it is hexadecimal notation for.
/// The crate reads the string byte by byte, takes digits of either case,
/// two to a byte, and fails on an odd length or on any other byte; a
/// character outside ASCII is made of such other bytes.
#[verifier::external_body]
fn hex_decode(s: &str) -> (r: Option<Vec<u8>>)
    ensures
        match r {
            Some(bytes) => hex_decoded(s@) == Some(bytes@),
            None => hex_decoded(s@) is None,
        },
{
    hex::decode(s).ok()
}

/// An `Hmac<Sha256>` of the crates `hmac` and `sha2`, made from `key` by
/// `new_from_slice`, fed `body` by `update` and asked by `verify_slice`
/// whether `tag` is the keyed hash: all of its bytes and no more. The
/// crate compares in constant time, and `new_from_slice` takes a key of
/// any length. The keyed hash is as long as a SHA-256 digest, so only a
/// tag of 32 bytes is one.
#[verifier::external_body]
fn mac_matches(key: &[u8], body: &[u8], tag: &[u8]) -> (r: bool)
    ensures
        r == (tag@ == hmac_sha256(key@, body@)),
        r ==> tag@.len() == MAC_BYTES,
{
    match hmac::Hmac::<sha2::Sha256>::new_from_slice(key) {
        Ok(mut mac) => {
            mac.update(body);
            mac.verify_slice(tag).is_ok()
        },
        Err(_) => false,
    }
}

/// The bytes that a signature carries, `None` for a signature without the
/// prefix `sha256=` or with anything but hexadecimal notation behind it.
pub fn signature_tag(signature: &str) -> (r: Option<Vec<u8>>)
    ensures
        match r {
            Some(bytes) => signature_bytes(signature@) == Some(bytes@),
            None => signature_bytes(signature@) is None,
        },
{
    match strip_prefix(signature, "sha256=") {
        Some(digits) => hex_decode(digits),
        None => None,
    }
}

/// Whether `signature` is the one that the holder of the configured secret
/// gives to `payload_bytes`. A malformed signature is not accepted, and
/// neither is one that carries fewer or more bytes than a keyed hash has.
pub fn verify_hmac(config: &Cfg, payload_bytes: &[u8], signature: &str) -> (ok: bool)
    ensures
        ok == signature_accepted(encode_utf8(config.hmac_key@), payload_bytes@, signature@),
        ok ==> signature@.len() == signature_prefix().len() + 2 * MAC_BYTES,
{
    match signature_tag(signature) {
        Some(tag) => {
            let ok = mac_matches(
                config.hmac_key.as_str().as_bytes(),
                payload_bytes,
                tag.as_slice(),
            );
            proof {
                if ok {
                    let digits = signature@.skip(signature_prefix().len() as int);
                    assert(hex_bytes(digits).len() == digits.len() / 2);
                }
            }
            ok
        },
        None => false,
    }
}

/// Whether `c` is one of the upper-case hexadecimal digits `A` to `F`.
pub open spec fn is_upper_hex(c: char) -> bool {
    'A' as int <= c as int <= 'F' as int
}

/// Reading the lower-case hexadecimal notation of some bytes gives the
/// bytes back.
pub proof fn lemma_hex_round_trip(bytes: Seq<u8>)
    ensures
        hex_decoded(hex_encoded(bytes)) == Some(bytes),
{
    let s = hex_encoded(bytes);
    assert forall|i: int| 0 <= i < s.len() implies hex_value(#[trigger] s[i]) is Some by {
        let b = bytes[i / 2] as int;
        assert(0 <= b / 16 < 16 && 0 <= b % 16 < 16);
    }
    assert forall|k: int| 0 <= k < bytes.len() implies #[trigger] hex_bytes(s)[k] == bytes[k] by {
        let b = bytes[k] as int;
        assert((2 * k) / 2 == k && (2 * k) % 2 == 0);
        assert((2 * k + 1) / 2 == k && (2 * k + 1) % 2 == 1);
        assert(0 <= b / 16 < 16 && 0 <= b % 16 < 16);
        assert(hex_value(s[2 * k]) == Some(b / 16));
        assert(hex_value(s[2 * k + 1]) == Some(b % 16));
        assert((b / 16) * 16 + b % 16 == b);
    }
    assert(hex_bytes(s) =~= bytes);
}

/// Hexadecimal notation without upper-case digits is the lower-case
/// notation of the bytes it stands for.
pub proof fn lemma_lower_hex_is_encoding(s: Seq<char>)
    requires
        is_hex(s),
        forall|i: int| 0 <= i < s.len() ==> !is_upper_hex(#[trigger] s[i]),
    ensures
        hex_encoded(hex_bytes(s)) == s,
{
    let bytes = hex_bytes(s);
    let e = hex_encoded(bytes);
    assert(e.len() == s.len());
    assert forall|i: int| 0 <= i < s.len() implies #[trigger] e[i] == s[i] by {
        let k = i / 2;
        let hi = hex_value(s[2 * k])->0;
        let lo = hex_value(s[2 * k + 1])->0;
        assert(hex_value(s[2 * k]) is Some && hex_value(s[2 * k + 1]) is Some);
        assert(!is_upper_hex(s[2 * k]) && !is_upper_hex(s[2 * k + 1]));
        assert(0 <= hi < 16 && 0 <= lo < 16);
        assert(bytes[k] as int == hi * 16 + lo);
        assert((hi * 16 + lo) / 16 == hi && (hi * 16 + lo) % 16 == lo);
        if i % 2 == 0 {
            assert(i == 2 * k);
            assert(hex_digit(hi) == s[i]);
        } else {
            assert(i == 2 * k + 1);
            assert(hex_digit(lo) == s[i]);
        }
    }
    assert(e =~= s);
}

/// A signature without upper-case hexadecimal digits behind its prefix is
/// accepted if and only if it is `sha256=` followed by the lower-case
/// hexadecimal notation of the keyed hash of the body. (With upper-case
/// digits the same bytes can be written in other ways, and those are
/// accepted as well.)
pub proof fn lemma_accepted_signature(key: Seq<u8>, body: Seq<u8>, signature: Seq<char>)
    requires
        forall|i: int|
            signature_prefix().len() <= i < signature.len() ==> !is_upper_hex(#[trigger] signature[i]),
    ensures
        signature_accepted(key, body, signature) <==> signature == signature_prefix() + hex_encoded(
            hmac_sha256(key, body),
        ),
{
    let prefix = signature_prefix();
    let mac = hmac_sha256(key, body);
    let expected = prefix + hex_encoded(mac);
    if signature == expected {
        lemma_hex_round_trip(mac);
        assert(signature.subrange(0, prefix.len() as int) =~= prefix);
        assert(signature.skip(prefix.len() as int) =~= hex_encoded(mac));
    }
    if signature_accepted(key, body, signature) {
        let rest = signature.skip(prefix.len() as int);
        assert forall|i: int| 0 <= i < rest.len() implies !is_upper_hex(#[trigger] rest[i]) by {
            assert(rest[i] == signature[i + prefix.len()]);
        }
        lemma_lower_hex_is_encoding(rest);
        assert(signature =~= prefix + rest);
    }
}

/// Two signatures that are accepted for the same body under the same key
/// are the same but for the case of their hexadecimal digits. So a
/// signature that is accepted is no longer accepted once one of its
/// characters is changed in any other way.
pub proof fn lemma_accepted_signatures_agree(
    key: Seq<u8>,
    body: Seq<u8>,
    first: Seq<char>,
    second: Seq<char>,
)
    requires
        signature_accepted(key, body, first),
        signature_accepted(key, body, second),
    ensures
        first.len() == second.len(),
        forall|i: int| 0 <= i < signature_prefix().len() ==> first[i] == second[i],
        forall|i: int|
            signature_prefix().len() <= i < first.len() ==> hex_value(#[trigger] first[i])
                == hex_value(second[i]),
{
    let prefix = signature_prefix();
    let n = prefix.len() as int;
    let a = first.skip(n);
    let b = second.skip(n);
    assert(hex_bytes(a) == hex_bytes(b));
    assert(hex_bytes(a).len() == a.len() / 2);
    assert(hex_bytes(b).len() == b.len() / 2);
    assert(a.len() == b.len());
    assert forall|i: int| 0 <= i < n implies first[i] == second[i] by {
        assert(first.subrange(0, n)[i] == prefix[i]);
        assert(second.subrange(0, n)[i] == prefix[i]);
    }
    assert forall|i: int| n <= i < first.len() implies hex_value(#[trigger] first[i]) == hex_value(
        second[i],
    ) by {
        let k = (i - n) / 2;
        assert(first[i] == a[i - n] && second[i] == b[i - n]);
        assert(hex_value(a[2 * k]) is Some && hex_value(a[2 * k + 1]) is Some);
        assert(hex_value(b[2 * k]) is Some && hex_value(b[2 * k + 1]) is Some);
        let ah = hex_value(a[2 * k])->0;
        let al = hex_value(a[2 * k + 1])->0;
        let bh = hex_value(b[2 * k])->0;
        let bl = hex_value(b[2 * k + 1])->0;
        assert(0 <= ah < 16 && 0 <= al < 16 && 0 <= bh < 16 && 0 <= bl < 16);
        assert(hex_bytes(a)[k] == hex_bytes(b)[k]);
        assert(hex_bytes(a)[k] as int == ah * 16 + al);
        assert(hex_bytes(b)[k] as int == bh * 16 + bl);
        assert(ah == bh && al == bl);
        assert(i - n == 2 * k || i - n == 2 * k + 1);
    }
}

/// The signature that the holder of the key gives to a body is accepted
/// for that body.
pub proof fn lemma_right_signature_accepted(key: Seq<u8>, body: Seq<u8>)
    ensures
        signature_accepted(key, body, signature_prefix() + hex_encoded(hmac_sha256(key, body))),
{
    let prefix = signature_prefix();
    let mac = hmac_sha256(key, body);
    let signature = prefix + hex_encoded(mac);
    lemma_hex_round_trip(mac);
    assert(signature.subrange(0, prefix.len() as int) =~= prefix);
    assert(signature.skip(prefix.len() as int) =~= hex_encoded(mac));
}

} // verus!
