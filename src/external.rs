use vstd::prelude::*;

verus! {

#[verifier::external_type_specification]
#[verifier::external_body]
pub struct ExJsonValue(serde_json::Value);

#[verifier::external_type_specification]
#[verifier::external_body]
#[verifier::reject_recursive_types(K)]
#[verifier::reject_recursive_types(V)]
pub struct ExJsonMap<K, V>(serde_json::Map<K, V>);

#[verifier::external_type_specification]
#[verifier::external_body]
pub struct ExJwtError(jsonwebtoken::errors::Error);

/// The claims object of a token, as the JSON codec holds it.
pub type ClaimsObject = serde_json::Map<String, serde_json::Value>;

/// The claims of a claims object that hold JSON strings, by key.
pub uninterp spec fn text_claims(o: serde_json::Map<String, serde_json::Value>) -> Map<
    Seq<char>,
    Seq<char>,
>;

/// The claims of a claims object that hold JSON integers within `i64`, by key.
pub uninterp spec fn int_claims(o: serde_json::Map<String, serde_json::Value>) -> Map<
    Seq<char>,
    i64,
>;

/// The text and integer claims carried in the payload segment of a token.
/// They depend on the token's text alone; whether the token is accepted
/// depends on its signature and on the clock as well.
pub uninterp spec fn token_claims(token: Seq<char>) -> (Map<Seq<char>, Seq<char>>, Map<
    Seq<char>,
    i64,
>);

/// The SHA-256 digest of a byte string.
pub uninterp spec fn sha256_of(data: Seq<u8>) -> Seq<u8>;


/// What the UUID parser makes of a text: the 128-bit value, or nothing.
pub uninterp spec fn uuid_parsed(s: Seq<char>) -> Option<u128>;

/// Whether the email validator accepts a text as an address.
pub uninterp spec fn email_valid(s: Seq<char>) -> bool;

/// The media type guessed from a file name.
pub uninterp spec fn mime_of(name: Seq<char>) -> Seq<char>;

/// A lower-case hexadecimal digit for `n < 16`.
pub open spec fn hex_digit(n: int) -> char {
    seq!['0', '1', '2', '3', '4', '5', '6', '7', '8', '9', 'a', 'b', 'c', 'd', 'e', 'f'][n]
}

/// `16` to the power `n`.
pub open spec fn pow16(n: nat) -> int
    decreases n,
{
    if n == 0 {
        1
    } else {
        16 * pow16((n - 1) as nat)
    }
}

/// Hex digit `k` of a 128-bit value, counted from the most significant.
pub open spec fn nibble(id: u128, k: int) -> int {
    (id as int / pow16((31 - k) as nat)) % 16
}

/// Character `i` of the hyphenated form: hyphens at 8, 13, 18 and 23, hex
/// digits elsewhere.
pub open spec fn uuid_char(id: u128, i: int) -> char {
    if i == 8 || i == 13 || i == 18 || i == 23 {
        '-'
    } else {
        let hyphens_before: int = if i < 8 {
            0
        } else if i < 13 {
            1
        } else if i < 18 {
            2
        } else if i < 23 {
            3
        } else {
            4
        };
        hex_digit(nibble(id, i - hyphens_before))
    }
}

/// The hyphenated lower-case text of a UUID given as its 128-bit value: its 32
/// hex digits, most significant first, in groups of 8, 4, 4, 4 and 12.
pub open spec fn uuid_text_of(id: u128) -> Seq<char> {
    Seq::new(36, |i: int| uuid_char(id, i))
}

/// Lower-case hexadecimal text of a byte string, two digits per byte.
pub open spec fn hex_text(b: Seq<u8>) -> Seq<char>
    decreases b.len(),
{
    if b.len() == 0 {
        Seq::empty()
    } else {
        hex_text(b.drop_last()) + seq![hex_digit(b.last() as int / 16), hex_digit(b.last() as int % 16)]
    }
}

/// Relies on sha2::Sha256::digest: the 32-byte SHA-256 digest of `data`.
#[verifier::external_body]
pub(crate) fn sha256(data: &[u8]) -> (r: Vec<u8>)
    ensures
        r@ == sha256_of(data@),
        r@.len() == 32,
{
    <sha2::Sha256 as sha2::Digest>::digest(data).to_vec()
}

/// Relies on hex::encode: lower-case hexadecimal, two digits per byte.
#[verifier::external_body]
pub(crate) fn hex_encode(data: &[u8]) -> (r: String)
    ensures
        r@ == hex_text(data@),
{
    hex::encode(data)
}

/// Relies on uuid's `Display` for `Uuid` (from `Uuid::from_u128`, big-endian):
/// the hyphenated lower-case form.
#[verifier::external_body]
pub(crate) fn uuid_text(id: u128) -> (r: String)
    ensures
        r@ == uuid_text_of(id),
{
    uuid::Uuid::from_u128(id).to_string()
}

/// Relies on uuid::Uuid::parse_str: the value of a UUID text, or nothing.
#[verifier::external_body]
pub(crate) fn parse_uuid(s: &str) -> (r: Option<u128>)
    ensures
        r == uuid_parsed(s@),
{
    uuid::Uuid::parse_str(s).ok().map(|u| u.as_u128())
}

/// Relies on uuid::Uuid::new_v4: a random identifier; nothing is known of its
/// value. It panics only when the system's random source fails.
#[verifier::external_body]
pub(crate) fn random_uuid() -> (r: u128) {
    uuid::Uuid::new_v4().as_u128()
}

/// Relies on chrono::Utc::now: the current Unix time in seconds; nothing is known of it.
#[verifier::external_body]
pub(crate) fn unix_now() -> (r: i64) {
    chrono::Utc::now().timestamp()
}

/// Relies on validator::ValidateEmail::validate_email for `&str`: an empty
/// text, or one without `@`, is never an address.
#[verifier::external_body]
pub(crate) fn is_email(s: &str) -> (r: bool)
    ensures
        r == email_valid(s@),
        s@.len() == 0 ==> !r,
        !crate::text::has_char(s@, '@') ==> !r,
{
    validator::ValidateEmail::validate_email(&s)
}

/// Relies on mime_guess::from_path and MimeGuess::first_or_octet_stream: the
/// media type for the name's extension, or `application/octet-stream`.
#[verifier::external_body]
pub(crate) fn guess_mime(name: &str) -> (r: String)
    ensures
        r@ == mime_of(name@),
{
    mime_guess::from_path(name).first_or_octet_stream().to_string()
}

/// Relies on serde_json::Map::new: an empty claims object.
#[verifier::external_body]
pub(crate) fn claims_object() -> (r: ClaimsObject)
    ensures
        text_claims(r).dom() == Set::<Seq<char>>::empty(),
        int_claims(r).dom() == Set::<Seq<char>>::empty(),
{
    serde_json::Map::new()
}

/// Relies on serde_json::Map::insert with a JSON string: `key` now holds `value`
/// as text, and no longer an integer.
#[verifier::external_body]
pub(crate) fn put_text_claim(obj: &mut ClaimsObject, key: &str, value: &str)
    ensures
        text_claims(*final(obj)) == text_claims(*old(obj)).insert(key@, value@),
        int_claims(*final(obj)) == int_claims(*old(obj)).remove(key@),
{
    obj.insert(key.to_string(), serde_json::Value::from(value));
}

/// Relies on serde_json::Map::insert with a JSON number: `key` now holds
/// `value` as an integer, and no longer text.
#[verifier::external_body]
pub(crate) fn put_int_claim(obj: &mut ClaimsObject, key: &str, value: i64)
    ensures
        int_claims(*final(obj)) == int_claims(*old(obj)).insert(key@, value),
        text_claims(*final(obj)) == text_claims(*old(obj)).remove(key@),
{
    obj.insert(key.to_string(), serde_json::Value::from(value));
}

/// Relies on serde_json::Map::get and Value::as_str: the text under `key`, if
/// the key holds a JSON string.
#[verifier::external_body]
pub(crate) fn text_claim(obj: &ClaimsObject, key: &str) -> (r: Option<String>)
    ensures
        text_claims(*obj).contains_key(key@) ==> r is Some && r->Some_0@ == text_claims(*obj)[key@],
        !text_claims(*obj).contains_key(key@) ==> r is None,
{
    obj.get(key).and_then(|v| v.as_str()).map(|t| t.to_string())
}

/// Relies on serde_json::Map::get and Value::as_i64: the integer under `key`,
/// if the key holds a JSON number that fits in `i64`.
#[verifier::external_body]
pub(crate) fn int_claim(obj: &ClaimsObject, key: &str) -> (r: Option<i64>)
    ensures
        int_claims(*obj).contains_key(key@) ==> r == Some(int_claims(*obj)[key@]),
        !int_claims(*obj).contains_key(key@) ==> r is None,
{
    obj.get(key).and_then(|v| v.as_i64())
}

/// Relies on jsonwebtoken::encode with the default header (HS256) and the
/// shared secret: signs the claims object, whose JSON becomes the token's
/// payload, so the token carries exactly its claims.
#[verifier::external_body]
pub(crate) fn jwt_sign(claims: &ClaimsObject, secret: &str) -> (r: Result<
    String,
    jsonwebtoken::errors::Error,
>)
    ensures
        r matches Ok(t) ==> token_claims(t@) == (text_claims(*claims), int_claims(*claims)),
{
    let key = jsonwebtoken::EncodingKey::from_secret(secret.as_bytes());
    jsonwebtoken::encode(&jsonwebtoken::Header::default(), claims, &key)
}

/// Relies on jsonwebtoken::decode with the default validation (HS256
/// signature, `exp` required and not more than sixty seconds past): the claims
/// object of a token that passes, which is its payload, or the codec's error.
/// The outcome depends on the clock.
#[verifier::external_body]
pub(crate) fn jwt_open(token: &str, secret: &str) -> (r: Result<
    ClaimsObject,
    jsonwebtoken::errors::Error,
>)
    ensures
        r matches Ok(o) ==> token_claims(token@) == (text_claims(o), int_claims(o)),
{
    let key = jsonwebtoken::DecodingKey::from_secret(secret.as_bytes());
    jsonwebtoken::decode::<ClaimsObject>(token, &key, &jsonwebtoken::Validation::default()).map(
        |d| d.claims,
    )
}

} // verus!
