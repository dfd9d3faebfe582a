use vstd::prelude::*;
use base64::Engine;

verus! {

/// The SHA-256 digest of a text's UTF-8 bytes.
pub uninterp spec fn sha256_of(text: Seq<char>) -> Seq<u8>;

/// The base64url encoding, without padding, of some bytes.
pub uninterp spec fn b64url_of(bytes: Seq<u8>) -> Seq<char>;

/// The bytes a base64url text without padding decodes to, if it is well formed.
pub uninterp spec fn b64url_decoded(text: Seq<char>) -> Option<Seq<u8>>;

/// Relies on openssl::hash::hash with MessageDigest::sha256: the digest of the
/// text's bytes, or `None` where OpenSSL reports an error.
#[verifier::external_body]
fn sha256(text: &str) -> (r: Option<Vec<u8>>)
    ensures
        r matches Some(d) ==> d@ == sha256_of(text@),
{
    match openssl::hash::hash(openssl::hash::MessageDigest::sha256(), text.as_bytes()) {
        Ok(d) => Some(d.to_vec()),
        Err(_) => None,
    }
}

/// Relies on base64's URL_SAFE_NO_PAD engine, `encode`.
#[verifier::external_body]
fn b64url_encode(bytes: &Vec<u8>) -> (r: String)
    ensures
        r@ == b64url_of(bytes@),
        bytes@.len() > 0 ==> r@.len() > 0,
{
    base64::engine::general_purpose::URL_SAFE_NO_PAD.encode(bytes)
}

/// Relies on base64's URL_SAFE_NO_PAD engine, `decode`.
#[verifier::external_body]
fn b64url_decode(text: &str) -> (r: Option<Vec<u8>>)
    ensures
        r matches Some(b) ==> b64url_decoded(text@) == Some(b@),
        r is None ==> b64url_decoded(text@) is None,
{
    base64::engine::general_purpose::URL_SAFE_NO_PAD.decode(text).ok()
}

/// The DNS proof value published for a key authorization: the base64url
/// (unpadded) SHA-256 digest of it. `None` only where the digest could not be
/// computed.
pub fn dns_proof_value(key_authorization: &str) -> (r: Option<String>)
    ensures
        r matches Some(p) ==> p@ == b64url_of(sha256_of(key_authorization@)),
{
    match sha256(key_authorization) {
        Some(d) => Some(b64url_encode(&d)),
        None => None,
    }
}

/// The EAB MAC key as bytes, or `None` where it is not base64url without padding.
pub fn decode_mac_key(mac_key: &str) -> (r: Option<Vec<u8>>)
    ensures
        r is Some <==> b64url_decoded(mac_key@) is Some,
        r matches Some(b) ==> b64url_decoded(mac_key@) == Some(b@),
{
    b64url_decode(mac_key)
}

pub open spec fn key_authorization_spec(token: Seq<char>, thumbprint: Seq<char>) -> Seq<char> {
    token + "."@ + thumbprint
}

/// The proof value is a function of the key authorization alone, and the key
/// authorization tells apart distinct tokens under one account key, and
/// distinct account keys for one token.
pub proof fn lemma_proof_inputs_distinct(
    t1: Seq<char>,
    t2: Seq<char>,
    k1: Seq<char>,
    k2: Seq<char>,
)
    ensures
        b64url_of(sha256_of(key_authorization_spec(t1, k1))) == b64url_of(
            sha256_of(key_authorization_spec(t1, k1)),
        ),
        t1 != t2 ==> key_authorization_spec(t1, k1) != key_authorization_spec(t2, k1),
        k1 != k2 ==> key_authorization_spec(t1, k1) != key_authorization_spec(t1, k2),
{
    reveal_strlit(".");
    if t1 != t2 && key_authorization_spec(t1, k1) == key_authorization_spec(t2, k1) {
        let a = key_authorization_spec(t1, k1);
        assert(a.len() == t1.len() + 1 + k1.len());
        assert(t1 =~= a.subrange(0, t1.len() as int));
        assert(t2 =~= a.subrange(0, t2.len() as int));
    }
    if k1 != k2 && key_authorization_spec(t1, k1) == key_authorization_spec(t1, k2) {
        let a = key_authorization_spec(t1, k1);
        let n = t1.len() + 1;
        assert(a.len() == n + k1.len());
        assert(a.len() == n + k2.len());
        assert(k1 =~= a.subrange(n as int, a.len() as int));
        assert(k2 =~= a.subrange(n as int, a.len() as int));
    }
}

} // verus!
