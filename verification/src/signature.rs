//! Webhook signature verification: the header must read `sha256=` followed
//! by exactly 64 hex characters whose decoding equals the HMAC-SHA256 of the
//! request body under the shared secret. Comparison of secret-derived bytes
//! goes through a constant-time primitive.

use vstd::prelude::*;
use vstd::slice::slice_subrange;
use vstd::string::StringSliceAdditionalSpecFns;

verus! {

/// The digest that HMAC-SHA256 assigns to a key and a message. The digest
/// is a function of the two arguments alone; its definition is the HMAC
/// construction over SHA-256, left unnamed here.
pub uninterp spec fn hmac_sha256_of(key: Seq<u8>, msg: Seq<u8>) -> Seq<u8>;

/// The bytes of the literal header prefix `sha256=`.
pub open spec fn sha256_prefix() -> Seq<u8> {
    seq![115, 104, 97, 50, 53, 54, 61]
}

/// Whether `b` is the ASCII code of a hex digit, in either case.
pub open spec fn is_hex_digit(b: u8) -> bool {
    (48 <= b && b <= 57) || (97 <= b && b <= 102) || (65 <= b && b <= 70)
}

/// The value of a hex digit; case-insensitive, as `hex::decode` reads it.
pub open spec fn hex_val(b: u8) -> int {
    if 48 <= b && b <= 57 {
        b - 48
    } else if 97 <= b && b <= 102 {
        b - 97 + 10
    } else {
        b - 65 + 10
    }
}

/// Whether `s` is a well-formed hex string: even length, hex digits only.
pub open spec fn valid_hex(s: Seq<u8>) -> bool {
    s.len() % 2 == 0 && (forall|i: int| 0 <= i < s.len() ==> is_hex_digit(#[trigger] s[i]))
}

/// The bytes a hex string decodes to, two digits per byte.
pub open spec fn hex_decode_spec(s: Seq<u8>) -> Seq<u8>
    decreases s.len(),
{
    if s.len() < 2 {
        Seq::empty()
    } else {
        seq![(hex_val(s[0]) * 16 + hex_val(s[1])) as u8] + hex_decode_spec(s.skip(2))
    }
}

/// The lowercase hex digit for a value below sixteen.
pub open spec fn hex_digit_lower(v: int) -> u8 {
    if v < 10 {
        (48 + v) as u8
    } else {
        (97 + v - 10) as u8
    }
}

/// The lowercase hex encoding of a byte sequence, two digits per byte.
pub open spec fn hex_encode_spec(b: Seq<u8>) -> Seq<u8>
    decreases b.len(),
{
    if b.len() == 0 {
        Seq::empty()
    } else {
        seq![hex_digit_lower(b[0] as int / 16), hex_digit_lower(b[0] as int % 16)]
            + hex_encode_spec(
            b.drop_first(),
        )
    }
}

/// When a signature header authenticates a body under a secret: the header
/// is `sha256=` followed by exactly 64 hex digits that decode to the
/// HMAC-SHA256 digest of the body keyed by the secret.
pub open spec fn verify_spec(secret: Seq<u8>, body: Seq<u8>, header: Seq<u8>) -> bool {
    &&& header.len() == 71
    &&& header.subrange(0, 7) == sha256_prefix()
    &&& valid_hex(header.skip(7))
    &&& hex_decode_spec(header.skip(7)) == hmac_sha256_of(secret, body)
}

/// Relies on `hmac::Hmac<sha2::Sha256>`: the digest depends on the key and
/// the message alone and is 32 bytes long; `new_from_slice` accepts keys of
/// every length (its source returns `Ok` unconditionally for HMAC).
#[verifier::external_body]
fn hmac_sha256(key: &[u8], msg: &[u8]) -> (r: Vec<u8>)
    ensures
        r@ == hmac_sha256_of(key@, msg@),
        r@.len() == 32,
{
    let mut mac = <hmac::Hmac<sha2::Sha256> as hmac::KeyInit>::new_from_slice(key).expect(
        "HMAC accepts keys of any length",
    );
    hmac::Mac::update(&mut mac, msg);
    hmac::Mac::finalize(mac).into_bytes().to_vec()
}

/// Relies on `hex::decode`: it succeeds exactly on even-length strings of
/// hex digits, in either case, and returns the decoded bytes.
#[verifier::external_body]
fn hex_decode(s: &[u8]) -> (r: Option<Vec<u8>>)
    ensures
        r is Some <==> valid_hex(s@),
        r matches Some(d) ==> d@ == hex_decode_spec(s@),
{
    hex::decode(s).ok()
}

/// Relies on `subtle::ConstantTimeEq` for byte slices: the result is
/// content equality (false when the lengths differ), evaluated without
/// data-dependent branching.
#[verifier::external_body]
fn ct_bytes_eq(a: &[u8], b: &[u8]) -> (r: bool)
    ensures
        r == (a@ == b@),
{
    subtle::ConstantTimeEq::ct_eq(a, b).into()
}

/// Validates a `sha256=<hex>` signature header against the HMAC-SHA256 of
/// `body` keyed by `secret`. Malformed headers yield `false`, never an
/// error.
pub fn verify(secret: &str, body: &[u8], signature_header: &str) -> (r: bool)
    ensures
        r == verify_spec(secret.spec_bytes(), body@, signature_header.spec_bytes()),
{
    let header: &[u8] = signature_header.as_bytes();
    if header.len() != 71 {
        return false;
    }
    if header[0] != 115 || header[1] != 104 || header[2] != 97 || header[3] != 50
        || header[4] != 53 || header[5] != 54 || header[6] != 61 {
        proof {
            assert(header@.subrange(0, 7) != sha256_prefix()) by {
                if header@.subrange(0, 7) == sha256_prefix() {
                    assert(header@[0] == sha256_prefix()[0]);
                    assert(header@[1] == sha256_prefix()[1]);
                    assert(header@[2] == sha256_prefix()[2]);
                    assert(header@[3] == sha256_prefix()[3]);
                    assert(header@[4] == sha256_prefix()[4]);
                    assert(header@[5] == sha256_prefix()[5]);
                    assert(header@[6] == sha256_prefix()[6]);
                }
            }
        }
        return false;
    }
    proof {
        assert(header@.subrange(0, 7) =~= sha256_prefix());
    }
    let hex_part = slice_subrange(header, 7, 71);
    proof {
        assert(hex_part@ =~= header@.skip(7));
    }
    let decoded = match hex_decode(hex_part) {
        Some(d) => d,
        None => {
            return false;
        },
    };
    let digest = hmac_sha256(secret.as_bytes(), body);
    ct_bytes_eq(decoded.as_slice(), digest.as_slice())
}

proof fn lemma_hex_encode_len(b: Seq<u8>)
    ensures
        hex_encode_spec(b).len() == 2 * b.len(),
    decreases b.len(),
{
    if b.len() > 0 {
        lemma_hex_encode_len(b.drop_first());
    }
}

proof fn lemma_hex_encode_valid(b: Seq<u8>)
    ensures
        valid_hex(hex_encode_spec(b)),
    decreases b.len(),
{
    lemma_hex_encode_len(b);
    if b.len() > 0 {
        lemma_hex_encode_valid(b.drop_first());
        let enc = hex_encode_spec(b);
        let rest = hex_encode_spec(b.drop_first());
        assert forall|i: int| 0 <= i < enc.len() implies is_hex_digit(#[trigger] enc[i]) by {
            if i >= 2 {
                assert(enc[i] == rest[i - 2]);
            }
        }
    }
}

proof fn lemma_hex_val_of_digit_lower(v: int)
    requires
        0 <= v < 16,
    ensures
        is_hex_digit(hex_digit_lower(v)),
        hex_val(hex_digit_lower(v)) == v,
{
}

proof fn lemma_hex_decode_encode(b: Seq<u8>)
    ensures
        hex_decode_spec(hex_encode_spec(b)) == b,
    decreases b.len(),
{
    if b.len() == 0 {
        assert(hex_decode_spec(hex_encode_spec(b)) =~= b);
    } else {
        lemma_hex_decode_encode(b.drop_first());
        lemma_hex_encode_len(b.drop_first());
        let enc = hex_encode_spec(b);
        let rest = hex_encode_spec(b.drop_first());
        assert(enc.skip(2) =~= rest);
        let hi = b[0] as int / 16;
        let lo = b[0] as int % 16;
        lemma_hex_val_of_digit_lower(hi);
        lemma_hex_val_of_digit_lower(lo);
        assert(hex_val(enc[0]) * 16 + hex_val(enc[1]) == b[0] as int);
        assert(hex_decode_spec(enc) =~= b);
    }
}

proof fn lemma_hex_decode_index(s: Seq<u8>)
    requires
        s.len() % 2 == 0,
    ensures
        hex_decode_spec(s).len() == s.len() / 2,
        forall|k: int|
            0 <= k < s.len() / 2 ==> #[trigger] hex_decode_spec(s)[k] == (hex_val(s[2 * k]) * 16
                + hex_val(s[2 * k + 1])) as u8,
    decreases s.len(),
{
    if s.len() >= 2 {
        lemma_hex_decode_index(s.skip(2));
        let d = hex_decode_spec(s);
        let rest = hex_decode_spec(s.skip(2));
        assert forall|k: int| 0 <= k < s.len() / 2 implies #[trigger] d[k] == (hex_val(s[2 * k])
            * 16 + hex_val(s[2 * k + 1])) as u8 by {
            if k > 0 {
                assert(d[k] == rest[k - 1]);
                assert(s.skip(2)[2 * (k - 1)] == s[2 * k]);
                assert(s.skip(2)[2 * (k - 1) + 1] == s[2 * k + 1]);
            }
        }
    }
}

/// A correctly computed signature always verifies: for every secret and
/// body, the header `sha256=` followed by the lowercase hex encoding of the
/// HMAC-SHA256 digest of the body under the secret passes verification.
/// (That the digest is 32 bytes long is a fact about HMAC-SHA256, recorded
/// here as a premise.)
pub proof fn lemma_correct_signature_verifies(secret: Seq<u8>, body: Seq<u8>)
    requires
        hmac_sha256_of(secret, body).len() == 32,
    ensures
        verify_spec(
            secret,
            body,
            sha256_prefix() + hex_encode_spec(hmac_sha256_of(secret, body)),
        ),
{
    let d = hmac_sha256_of(secret, body);
    let enc = hex_encode_spec(d);
    lemma_hex_encode_len(d);
    lemma_hex_encode_valid(d);
    lemma_hex_decode_encode(d);
    let header = sha256_prefix() + enc;
    assert(header.subrange(0, 7) =~= sha256_prefix());
    assert(header.skip(7) =~= enc);
}

/// A header that lacks the `sha256=` prefix, or whose hex payload is not
/// exactly 64 characters long, never verifies, whatever the secret and the
/// body.
pub proof fn lemma_malformed_header_fails(secret: Seq<u8>, body: Seq<u8>, header: Seq<u8>)
    requires
        header.len() < 7 || header.subrange(0, 7) != sha256_prefix() || header.len() != 71,
    ensures
        !verify_spec(secret, body, header),
{
}

/// Changing a single hex character of a valid signature header makes
/// verification fail. The premise excludes only the replacement of a digit
/// by its other-case spelling, which denotes the same value.
pub proof fn lemma_flipped_digit_fails(
    secret: Seq<u8>,
    body: Seq<u8>,
    header: Seq<u8>,
    other: Seq<u8>,
    i: int,
)
    requires
        verify_spec(secret, body, header),
        other.len() == header.len(),
        7 <= i < 71,
        other[i] != header[i],
        forall|j: int| 0 <= j < header.len() && j != i ==> other[j] == header[j],
        !(is_hex_digit(other[i]) && hex_val(other[i]) == hex_val(header[i])),
    ensures
        !verify_spec(secret, body, other),
{
    let s1 = header.skip(7);
    let s2 = other.skip(7);
    let p = i - 7;
    assert(s2[p] == other[i] && s1[p] == header[i]);
    if !is_hex_digit(other[i]) {
        assert(!valid_hex(s2));
    } else if valid_hex(s2) {
        lemma_hex_decode_index(s1);
        lemma_hex_decode_index(s2);
        let k = p / 2;
        let hi = 2 * k;
        let lo = 2 * k + 1;
        assert(p == hi || p == lo);
        assert(0 <= k < 32);
        assert(is_hex_digit(s1[hi]) && is_hex_digit(s1[lo]));
        assert(is_hex_digit(s2[hi]) && is_hex_digit(s2[lo]));
        assert(0 <= hex_val(s1[hi]) < 16 && 0 <= hex_val(s1[lo]) < 16);
        assert(0 <= hex_val(s2[hi]) < 16 && 0 <= hex_val(s2[lo]) < 16);
        let v1 = hex_val(s1[hi]) * 16 + hex_val(s1[lo]);
        let v2 = hex_val(s2[hi]) * 16 + hex_val(s2[lo]);
        if p == hi {
            assert(s2[lo] == s1[lo]);
            assert(hex_val(s2[hi]) != hex_val(s1[hi]));
            assert(v1 != v2);
        } else {
            assert(s2[hi] == s1[hi]);
            assert(hex_val(s2[lo]) != hex_val(s1[lo]));
            assert(v1 != v2);
        }
        assert(hex_decode_spec(s1)[k] == v1 as u8);
        assert(hex_decode_spec(s2)[k] == v2 as u8);
        assert(v1 as u8 != v2 as u8);
        assert(hex_decode_spec(s2) != hmac_sha256_of(secret, body));
    }
}

} // verus!
