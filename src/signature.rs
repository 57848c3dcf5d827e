//! HTTP signatures for outbound deliveries: the body digest, the canonical
//! signing string, and the `Signature` header.
use vstd::prelude::*;
use vstd::utf8::encode_utf8;
use crate::crypto::{
    base64_encode, base64_of, check_rsa_private_der, rsa_private_key_consistent, rsa_sha256_signature_of, sha256,
    sha256_of, sign_rsa_sha256, BASE64_MAX_INPUT,
};
use crate::error::FederationError;

verus! {

/// `c` with an ASCII capital turned into its small letter.
pub open spec fn ascii_lower_char(c: char) -> char {
    if 'A' <= c && c <= 'Z' {
        ((c as u32) + 32) as char
    } else {
        c
    }
}

/// `s` with its ASCII capitals turned into small letters.
pub open spec fn ascii_lower(s: Seq<char>) -> Seq<char> {
    s.map_values(|c: char| ascii_lower_char(c))
}

/// Relies on `str::to_ascii_lowercase`, which maps `'A'..='Z'` to `'a'..='z'`
/// and leaves every other character as it is.
#[verifier::external_body]
fn to_ascii_lowercase(s: &str) -> (r: String)
    ensures
        r@ == ascii_lower(s@),
{
    s.to_ascii_lowercase()
}

/// The HTTP date (`%a, %d %b %Y %T GMT`, always UTC) of the instant
/// `unix_seconds` seconds after the Unix epoch; `None` for an instant outside
/// the range of dates that can be written.
pub uninterp spec fn http_date_of(unix_seconds: int) -> Option<Seq<char>>;

/// The chrono format of an HTTP date.
pub open spec fn http_date_pattern() -> Seq<char> {
    "%a, %d %b %Y %T GMT"@
}

/// Relies on chrono's `DateTime::<Utc>::from_timestamp(unix_seconds, 0)`,
/// formatted with `pattern`, which is the HTTP date format: English day and
/// month names, UTC, the same text for the same number, and no format error.
/// `None` where chrono cannot represent the instant.
#[verifier::external_body]
fn format_http_date(unix_seconds: i64, pattern: &str) -> (r: Option<String>)
    requires
        pattern@ == http_date_pattern(),
    ensures
        match r {
            Some(s) => http_date_of(unix_seconds as int) == Some(s@),
            None => http_date_of(unix_seconds as int) is None,
        },
{
    match chrono::DateTime::from_timestamp(unix_seconds, 0) {
        Some(t) => Some(t.format(pattern).to_string()),
        None => None,
    }
}

/// The value of the `Digest` header of a body: `SHA-256={base64 of its SHA-256}`.
pub open spec fn digest_value_of(body: Seq<u8>) -> Seq<char> {
    "SHA-256="@ + base64_of(sha256_of(body))
}

/// The `(request-target)` pseudo-header: `{method in small letters} {path}`,
/// where the path carries its query, if any.
pub open spec fn request_target_of(method: Seq<char>, path: Seq<char>) -> Seq<char> {
    ascii_lower(method) + " "@ + path
}

/// The names of the signed headers, in signing order, separated by spaces.
pub open spec fn signed_header_names() -> Seq<char> {
    "(request-target) host date digest"@
}

/// The canonical string that is signed: one `name: value` line for each of
/// `(request-target)`, `host`, `date` and `digest`, joined by newlines.
pub open spec fn signing_string_of(
    target: Seq<char>,
    host: Seq<char>,
    date: Seq<char>,
    digest: Seq<char>,
) -> Seq<char> {
    "(request-target): "@ + target + "\nhost: "@ + host + "\ndate: "@ + date + "\ndigest: "@ + digest
}

/// The value of the `Signature` header for a key id and a base64 signature.
pub open spec fn signature_header_of(key_id: Seq<char>, signature_b64: Seq<char>) -> Seq<char> {
    "keyId=\""@ + key_id + "\",algorithm=\"rsa-sha256\",headers=\""@ + signed_header_names()
        + "\",signature=\""@ + signature_b64 + "\""@
}

/// The `Digest` value depends on the body bytes alone: signing the same body
/// twice, for any requests, gives the same `Digest`.
pub proof fn lemma_digest_depends_on_body_alone(first: Seq<u8>, second: Seq<u8>)
    requires
        first == second,
    ensures
        digest_value_of(first) == digest_value_of(second),
{
}

/// The signed string binds the digest: for one request target, host and date,
/// two bodies whose `Digest` values differ have different signing strings, so a
/// body changed after signing is no longer the one whose string was signed.
pub proof fn lemma_signing_string_binds_digest(
    target: Seq<char>,
    host: Seq<char>,
    date: Seq<char>,
    signed_body: Seq<u8>,
    changed_body: Seq<u8>,
)
    requires
        digest_value_of(signed_body) != digest_value_of(changed_body),
    ensures
        signing_string_of(target, host, date, digest_value_of(signed_body)) != signing_string_of(
            target,
            host,
            date,
            digest_value_of(changed_body),
        ),
{
    let head = "(request-target): "@ + target + "\nhost: "@ + host + "\ndate: "@ + date + "\ndigest: "@;
    let d1 = digest_value_of(signed_body);
    let d2 = digest_value_of(changed_body);
    assert(signing_string_of(target, host, date, d1) == head + d1);
    assert(signing_string_of(target, host, date, d2) == head + d2);
    if head + d1 == head + d2 {
        assert((head + d1).subrange(head.len() as int, (head + d1).len() as int) =~= d1);
        assert((head + d2).subrange(head.len() as int, (head + d2).len() as int) =~= d2);
    }
}

/// The headers that authenticate a request.
#[derive(Debug)]
pub struct SignatureHeaders {
    pub date: String,
    pub digest: String,
    pub signature: String,
}

/// The `Digest` header value of `body`.
pub fn digest_header(body: &[u8]) -> (r: String)
    ensures
        r@ == digest_value_of(body@),
{
    let hash = sha256(body);
    String::from_str("SHA-256=").concat(base64_encode(hash.as_slice()).as_str())
}

/// The `(request-target)` value of a request with `method` on `path`.
pub fn request_target(method: &str, path: &str) -> (r: String)
    ensures
        r@ == request_target_of(method@, path@),
{
    to_ascii_lowercase(method).concat(" ").concat(path)
}

/// The canonical signing string of a request.
pub fn signing_string(target: &str, host: &str, date: &str, digest: &str) -> (r: String)
    ensures
        r@ == signing_string_of(target@, host@, date@, digest@),
{
    String::from_str("(request-target): ")
        .concat(target)
        .concat("\nhost: ")
        .concat(host)
        .concat("\ndate: ")
        .concat(date)
        .concat("\ndigest: ")
        .concat(digest)
}

/// The `Signature` header value for `key_id` and the raw `signature` bytes.
pub fn signature_header(key_id: &str, signature: &[u8]) -> (r: String)
    requires
        signature@.len() <= BASE64_MAX_INPUT,
    ensures
        r@ == signature_header_of(key_id@, base64_of(signature@)),
{
    let encoded = base64_encode(signature);
    String::from_str("keyId=\"")
        .concat(key_id)
        .concat("\",algorithm=\"rsa-sha256\",headers=\"")
        .concat("(request-target) host date digest")
        .concat("\",signature=\"")
        .concat(encoded.as_str())
        .concat("\"")
}

/// The bytes that are signed for a request with `method` on `path` at `host`,
/// dated `date`, carrying `body`.
pub open spec fn signed_bytes_of(
    method: Seq<char>,
    path: Seq<char>,
    host: Seq<char>,
    date: Seq<char>,
    body: Seq<u8>,
) -> Seq<u8> {
    encode_utf8(signing_string_of(request_target_of(method, path), host, date, digest_value_of(body)))
}

/// The raw signature of `signed` under `private_key`, when the key is
/// consistent, openssl can make the signature, and it can be base64-encoded.
pub open spec fn request_signature_of(private_key: Seq<u8>, signed: Seq<u8>) -> Option<Seq<u8>> {
    if rsa_private_key_consistent(private_key) {
        match rsa_sha256_signature_of(private_key, signed) {
            Some(s) => if s.len() <= BASE64_MAX_INPUT {
                Some(s)
            } else {
                None
            },
            None => None,
        }
    } else {
        None
    }
}

impl SignatureHeaders {
    /// These are the headers of a request dated `date` with `body`, signed by
    /// `key_id` with the raw signature `signature`.
    pub open spec fn carries(
        &self,
        date: Seq<char>,
        body: Seq<u8>,
        key_id: Seq<char>,
        signature: Seq<u8>,
    ) -> bool {
        &&& self.date@ == date
        &&& self.digest@ == digest_value_of(body)
        &&& self.signature@ == signature_header_of(key_id, base64_of(signature))
    }
}

/// Signs a request for delivery: its body `body` goes by `method` to `path` on
/// `host`, dated `date`, and is signed with the PKCS#1 DER `private_key` known
/// as `key_id`. When the key is not a consistent RSA key or the signature
/// cannot be made the result is `SigningFailed`, and the request must not be
/// sent.
pub fn sign(
    method: &str,
    path: &str,
    host: &str,
    date: &str,
    body: &[u8],
    key_id: &str,
    private_key: &[u8],
) -> (r: Result<SignatureHeaders, FederationError>)
    ensures
        match request_signature_of(private_key@, signed_bytes_of(method@, path@, host@, date@, body@)) {
            Some(sig) => r matches Ok(h) && h.carries(date@, body@, key_id@, sig),
            None => r matches Err(e) && e == FederationError::SigningFailed,
        },
{
    let digest = digest_header(body);
    let target = request_target(method, path);
    let signed = signing_string(target.as_str(), host, date, digest.as_str());
    if !check_rsa_private_der(private_key) {
        return Err(FederationError::SigningFailed);
    }
    let signature = match sign_rsa_sha256(private_key, signed.as_str().as_bytes()) {
        Ok(s) => s,
        Err(_) => {
            return Err(FederationError::SigningFailed);
        },
    };
    if signature.len() > BASE64_MAX_INPUT {
        return Err(FederationError::SigningFailed);
    }
    let header = signature_header(key_id, signature.as_slice());
    Ok(SignatureHeaders { date: String::from_str(date), digest, signature: header })
}

/// Signs a request as `sign` does, dated at the instant `unix_seconds` seconds
/// after the Unix epoch, in UTC. An instant that cannot be written as a date
/// gives `SigningFailed`, and no signature is attempted.
pub fn sign_at(
    method: &str,
    path: &str,
    host: &str,
    unix_seconds: i64,
    body: &[u8],
    key_id: &str,
    private_key: &[u8],
) -> (r: Result<SignatureHeaders, FederationError>)
    ensures
        match http_date_of(unix_seconds as int) {
            Some(date) => match request_signature_of(
                private_key@,
                signed_bytes_of(method@, path@, host@, date, body@),
            ) {
                Some(sig) => r matches Ok(h) && h.carries(date, body@, key_id@, sig),
                None => r matches Err(e) && e == FederationError::SigningFailed,
            },
            None => r matches Err(e) && e == FederationError::SigningFailed,
        },
{
    match format_http_date(unix_seconds, "%a, %d %b %Y %T GMT") {
        Some(date) => sign(method, path, host, date.as_str(), body, key_id, private_key),
        None => Err(FederationError::SigningFailed),
    }
}

} // verus!
