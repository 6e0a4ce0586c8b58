//! What the library takes from other crates: encodings, digests, random
//! bytes, parsers. Each function here makes one outside call; its contract is
//! believed, not proved.

use crate::text::opt_text;
use base64::Engine;
use rsa::rand_core::RngCore;
use sha2::Digest;
use vstd::prelude::*;
use vstd::utf8::{encode_utf8, valid_utf8};

verus! {

/// The bytes that stand for themselves in a percent-encoded parameter:
/// ASCII letters and digits, `-`, `.`, `_` and `~`.
pub open spec fn unreserved(b: u8) -> bool {
    ||| 0x30 <= b <= 0x39
    ||| 0x41 <= b <= 0x5a
    ||| 0x61 <= b <= 0x7a
    ||| b == 0x2d
    ||| b == 0x2e
    ||| b == 0x5f
    ||| b == 0x7e
}

/// The digit of `n < 16` in upper-case hexadecimal.
pub open spec fn hex_upper(n: u8) -> char {
    if n < 10 {
        (0x30 + n) as char
    } else {
        (0x37 + n) as char
    }
}

/// The digit of `n < 16` in lower-case hexadecimal.
pub open spec fn hex_lower(n: u8) -> char {
    if n < 10 {
        (0x30 + n) as char
    } else {
        (0x57 + n) as char
    }
}

/// One byte of a percent-encoded parameter.
pub open spec fn escaped(b: u8) -> Seq<char> {
    if unreserved(b) {
        seq![b as char]
    } else {
        seq!['%', hex_upper(b / 16), hex_upper(b % 16)]
    }
}

/// A percent-encoded parameter.
pub open spec fn percent_encoded(bytes: Seq<u8>) -> Seq<char>
    decreases bytes.len(),
{
    if bytes.len() == 0 {
        Seq::empty()
    } else {
        escaped(bytes[0]) + percent_encoded(bytes.skip(1))
    }
}

/// The value of a hexadecimal digit of either case.
pub open spec fn hex_value(b: u8) -> Option<u8> {
    if 0x30 <= b <= 0x39 {
        Some((b - 0x30) as u8)
    } else if 0x41 <= b <= 0x46 {
        Some((b - 0x37) as u8)
    } else if 0x61 <= b <= 0x66 {
        Some((b - 0x57) as u8)
    } else {
        None
    }
}

/// `bytes` with every `%` and the two hexadecimal digits behind it replaced
/// by the byte they name; a `%` without two digits stays.
pub open spec fn percent_decoded(bytes: Seq<u8>) -> Seq<u8>
    decreases bytes.len(),
{
    if bytes.len() == 0 {
        Seq::empty()
    } else if bytes[0] == 0x25 && bytes.len() >= 3 && hex_value(bytes[1]) is Some && hex_value(
        bytes[2],
    ) is Some {
        seq![(hex_value(bytes[1])->0 * 16 + hex_value(bytes[2])->0) as u8] + percent_decoded(
            bytes.skip(3),
        )
    } else {
        seq![bytes[0]] + percent_decoded(bytes.skip(1))
    }
}

/// Two lower-case hexadecimal digits for each byte.
pub open spec fn hex_of(bytes: Seq<u8>) -> Seq<char>
    decreases bytes.len(),
{
    if bytes.len() == 0 {
        Seq::empty()
    } else {
        hex_of(bytes.drop_last()).push(hex_lower(bytes.last() / 16)).push(
            hex_lower(bytes.last() % 16),
        )
    }
}

/// The characters of the URL-safe base64 alphabet.
pub open spec fn is_urlsafe(c: char) -> bool {
    ||| 'A' <= c <= 'Z'
    ||| 'a' <= c <= 'z'
    ||| '0' <= c <= '9'
    ||| c == '-'
    ||| c == '_'
}

/// The URL-safe base64 text of `bytes`, without padding.
pub uninterp spec fn base64url(bytes: Seq<u8>) -> Seq<char>;

/// The bytes that a padded base64 text of the standard alphabet stands for.
pub uninterp spec fn base64_decoded(text: Seq<char>) -> Option<Seq<u8>>;

/// The SHA-256 digest of `bytes`.
pub uninterp spec fn sha256(bytes: Seq<u8>) -> Seq<u8>;

/// The lower-case form of a text.
pub uninterp spec fn lowercase(text: Seq<char>) -> Seq<char>;

/// `urlencoding::encode`: the UTF-8 bytes of `s` are percent-encoded, with
/// upper-case digits; letters, digits and `-._~` stay as they are.
#[verifier::external_body]
pub(crate) fn url_encode(s: &str) -> (r: String)
    ensures
        r@ == percent_encoded(encode_utf8(s@)),
{
    urlencoding::encode(s).into_owned()
}

/// `percent_encoding::percent_decode_str` and its `decode_utf8`: the
/// percent-decoded bytes of `s` as a string, or nothing where they are not
/// UTF-8.
#[verifier::external_body]
pub(crate) fn percent_decode(s: &str) -> (r: Option<String>)
    ensures
        r is Some <==> valid_utf8(percent_decoded(encode_utf8(s@))),
        r matches Some(t) ==> encode_utf8(t@) == percent_decoded(encode_utf8(s@)),
{
    percent_encoding::percent_decode_str(s).decode_utf8().ok().map(|c| c.into_owned())
}

/// `base64`'s URL-safe engine without padding: the text is the one named
/// `base64url`; it has four characters for every three bytes, rounded up to
/// whole characters, all of the URL-safe alphabet.
#[verifier::external_body]
pub(crate) fn base64url_encode(bytes: &[u8]) -> (r: String)
    ensures
        r@ == base64url(bytes@),
        r@.len() == (bytes@.len() * 4 + 2) / 3,
        forall|i: int| 0 <= i < r@.len() ==> is_urlsafe(#[trigger] r@[i]),
{
    base64::engine::general_purpose::URL_SAFE_NO_PAD.encode(bytes)
}

/// `base64`'s standard engine: the decoded bytes, or nothing where the text is
/// not base64.
#[verifier::external_body]
pub(crate) fn base64_decode(s: &str) -> (r: Option<Vec<u8>>)
    ensures
        r is Some <==> base64_decoded(s@) is Some,
        r matches Some(b) ==> base64_decoded(s@) == Some(b@),
{
    base64::engine::general_purpose::STANDARD.decode(s).ok()
}

/// `String::from_utf8`: the string of a UTF-8 byte sequence, or nothing where
/// the bytes are not UTF-8.
#[verifier::external_body]
pub(crate) fn string_from_utf8(bytes: Vec<u8>) -> (r: Option<String>)
    ensures
        r is Some <==> valid_utf8(bytes@),
        r matches Some(t) ==> encode_utf8(t@) == bytes@,
{
    String::from_utf8(bytes).ok()
}

/// `sha2::Sha256::digest`: the digest named `sha256`, of 32 bytes.
#[verifier::external_body]
pub(crate) fn sha256_digest(bytes: &[u8]) -> (r: Vec<u8>)
    ensures
        r@ == sha256(bytes@),
        r@.len() == 32,
{
    sha2::Sha256::digest(bytes).to_vec()
}

/// `hex::encode`: two lower-case digits for each byte, high digit first.
#[verifier::external_body]
pub(crate) fn hex_encode(bytes: &[u8]) -> (r: String)
    ensures
        r@ == hex_of(bytes@),
{
    hex::encode(bytes)
}

/// `str::to_lowercase`: the lower-case form named `lowercase`.
#[verifier::external_body]
pub(crate) fn to_lower(s: &str) -> (r: String)
    ensures
        r@ == lowercase(s@),
{
    s.to_lowercase()
}

/// `rand::fill` on an array of 32 bytes: random bytes, of which nothing more
/// is claimed than their number.
#[verifier::external_body]
pub(crate) fn random_bytes() -> (r: [u8; 32]) {
    let mut bytes = [0u8; 32];
    rand::fill(&mut bytes);
    bytes
}

/// `rsa::rand_core::OsRng`: one random byte from the operating system.
#[verifier::external_body]
pub(crate) fn random_byte() -> (r: u8) {
    let mut buf = [0u8; 1];
    rsa::rand_core::OsRng.fill_bytes(&mut buf);
    buf[0]
}

/// `uuid::Uuid::new_v4`: a random identifier in its hyphenated form of 36
/// characters.
#[verifier::external_body]
pub(crate) fn random_uuid() -> (r: String)
    ensures
        r@.len() == 36,
{
    uuid::Uuid::new_v4().to_string()
}

/// `uuid::Uuid::now_v7`: a time-ordered identifier in its hyphenated form of
/// 36 characters.
#[verifier::external_body]
pub(crate) fn ordered_uuid() -> (r: String)
    ensures
        r@.len() == 36,
{
    uuid::Uuid::now_v7().to_string()
}

/// The identifier that stands for a name in the namespace of domain names, in
/// its hyphenated form.
pub uninterp spec fn uuid_of_name(name: Seq<char>) -> Seq<char>;

/// `uuid::Uuid::new_v5` in `Uuid::NAMESPACE_DNS`: the identifier that stands
/// for the UTF-8 bytes of `name`, in its hyphenated form of 36 characters,
/// which is one of the forms that can be read.
#[verifier::external_body]
pub(crate) fn name_uuid(name: &str) -> (r: String)
    ensures
        r@ == uuid_of_name(name@),
        r@.len() == 36,
        uuid_of(r@) is Some,
{
    uuid::Uuid::new_v5(&uuid::Uuid::NAMESPACE_DNS, name.as_bytes()).to_string()
}

/// The hyphenated form of the identifier that a text writes, in any of the
/// forms in which identifiers are written.
pub uninterp spec fn uuid_of(text: Seq<char>) -> Option<Seq<char>>;

/// `uuid::Uuid::try_parse`: the identifier that `s` writes, in its hyphenated
/// form, or nothing where `s` writes none.
#[verifier::external_body]
pub(crate) fn parse_uuid(s: &str) -> (r: Option<String>)
    ensures
        opt_text(r) == uuid_of(s@),
{
    uuid::Uuid::try_parse(s).ok().map(|id| id.to_string())
}

/// What is said of a second that no timestamp can hold.
pub uninterp spec fn second_error(second: i64) -> Seq<char>;

/// `jiff::Timestamp::from_second`: the seconds from -377705023201 to
/// 253402207200 are timestamps; of any other the error says why not.
#[verifier::external_body]
pub(crate) fn check_second(second: i64) -> (r: Result<(), String>)
    ensures
        r is Ok <==> -377705023201 <= second <= 253402207200,
        r matches Err(e) ==> e@ == second_error(second),
{
    jiff::Timestamp::from_second(second).map(|_| ()).map_err(|e| e.to_string())
}

/// The parts of a URL that the library reads.
pub struct ParsedUrl {
    pub scheme: String,
    pub host: Option<String>,
    pub fragment: Option<String>,
}

pub struct ParsedUrlView {
    pub scheme: Seq<char>,
    pub host: Option<Seq<char>>,
    pub fragment: Option<Seq<char>>,
}

impl View for ParsedUrl {
    type V = ParsedUrlView;

    open spec fn view(&self) -> ParsedUrlView {
        ParsedUrlView {
            scheme: self.scheme@,
            host: opt_text(self.host),
            fragment: opt_text(self.fragment),
        }
    }
}

/// The view of a parsed URL, or of what is wrong with it.
pub open spec fn parsed_view(r: Result<ParsedUrl, String>) -> Result<ParsedUrlView, Seq<char>> {
    match r {
        Ok(u) => Ok(u@),
        Err(e) => Err(e@),
    }
}

/// The scheme, host and fragment of the URL that a text writes, or why it
/// writes none.
pub uninterp spec fn url_of(text: Seq<char>) -> Result<
    (Seq<char>, Option<Seq<char>>, Option<Seq<char>>),
    Seq<char>,
>;

/// The named URL as a view.
pub open spec fn url_parts(text: Seq<char>) -> Result<ParsedUrlView, Seq<char>> {
    match url_of(text) {
        Ok((scheme, host, fragment)) => Ok(ParsedUrlView { scheme, host, fragment }),
        Err(e) => Err(e),
    }
}

/// `url::Url::parse`: the scheme, the host and the fragment of the URL, or the
/// parser's error.
#[verifier::external_body]
pub(crate) fn parse_url(s: &str) -> (r: Result<ParsedUrl, String>)
    ensures
        (match r {
            Ok(u) => Ok((u.scheme@, opt_text(u.host), opt_text(u.fragment))),
            Err(e) => Err(e@),
        }) == url_of(s@),
{
    match url::Url::parse(s) {
        Ok(u) => Ok(
            ParsedUrl {
                scheme: u.scheme().to_string(),
                host: u.host_str().map(|h| h.to_string()),
                fragment: u.fragment().map(|f| f.to_string()),
            },
        ),
        Err(e) => Err(e.to_string()),
    }
}

/// The identifier of the key that a signed token names in its header.
pub uninterp spec fn kid_of(token: Seq<char>) -> Option<Seq<char>>;

/// `jsonwebtoken::decode_header`: the key identifier of the token's header,
/// or nothing where the header cannot be read or names no key.
#[verifier::external_body]
pub(crate) fn token_kid(token: &str) -> (r: Option<String>)
    ensures
        opt_text(r) == kid_of(token@),
{
    jsonwebtoken::decode_header(token).ok().and_then(|h| h.kid)
}

/// The issuer, subject and audience of a token whose RS256 signature holds
/// under a public key, whether or not the token has expired.
pub uninterp spec fn hint_of(token: Seq<char>, pem: Seq<u8>) -> Option<
    (Seq<char>, Seq<char>, Seq<char>),
>;

/// The issuer, subject and audience of a token.
pub struct HintClaims {
    pub iss: String,
    pub sub: String,
    pub aud: String,
}

/// The view of a decoded hint.
pub open spec fn hint_view(h: Option<HintClaims>) -> Option<(Seq<char>, Seq<char>, Seq<char>)> {
    match h {
        Some(c) => Some((c.iss@, c.sub@, c.aud@)),
        None => None,
    }
}

/// `jsonwebtoken::decode` with the RS256 algorithm and with the checks of
/// expiry and audience switched off: issuer, subject and audience, or nothing
/// where the key cannot be read, the signature does not hold, the token names
/// no expiry, or one of the three is not a string.
#[verifier::external_body]
pub(crate) fn decode_hint(token: &str, pem: &[u8]) -> (r: Option<HintClaims>)
    ensures
        hint_view(r) == hint_of(token@, pem@),
{
    let key = jsonwebtoken::DecodingKey::from_rsa_pem(pem).ok()?;
    let mut checks = jsonwebtoken::Validation::new(jsonwebtoken::Algorithm::RS256);
    checks.validate_exp = false;
    checks.validate_aud = false;
    let data = jsonwebtoken::decode::<serde_json::Value>(token, &key, &checks).ok()?;
    let iss = data.claims.get("iss")?.as_str()?.to_string();
    let sub = data.claims.get("sub")?.as_str()?.to_string();
    let aud = data.claims.get("aud")?.as_str()?.to_string();
    Some(HintClaims { iss, sub, aud })
}

/// The media type that a file's name suggests.
pub uninterp spec fn media_type_of(name: Seq<char>) -> Seq<char>;

/// `mime_guess::from_path` and its `first_or_octet_stream`: the media type
/// that the extension of `name` suggests.
#[verifier::external_body]
pub(crate) fn guess_media_type(name: &str) -> (r: String)
    ensures
        r@ == media_type_of(name@),
{
    mime_guess::from_path(name).first_or_octet_stream().to_string()
}

/// A second in the form of RFC 3339.
pub uninterp spec fn rfc3339_of(second: i64) -> Seq<char>;

/// `jiff::Timestamp::strftime` with the format of RFC 3339, on the timestamp
/// of a second.
#[verifier::external_body]
pub(crate) fn format_second(second: i64) -> (r: String)
    requires
        -377705023201 <= second <= 253402207200,
    ensures
        r@ == rfc3339_of(second),
{
    let at = jiff::Timestamp::from_second(second).expect("a second in range");
    at.strftime("%Y-%m-%dT%H:%M:%SZ").to_string()
}

/// The credential identifier in a stored passkey.
pub uninterp spec fn credential_id_of(passkey: Seq<u8>) -> Option<Seq<u8>>;

/// `webauthn_rs::prelude::Passkey`, read by `serde_json::from_slice`, and its
/// `cred_id`: the identifier of the credential, or nothing where the bytes are
/// no passkey.
#[verifier::external_body]
pub(crate) fn passkey_credential_id(passkey: &[u8]) -> (r: Option<Vec<u8>>)
    ensures
        r is Some <==> credential_id_of(passkey@) is Some,
        r matches Some(id) ==> credential_id_of(passkey@) == Some(id@),
{
    let key = serde_json::from_slice::<webauthn_rs::prelude::Passkey>(passkey).ok()?;
    Some(key.cred_id().as_slice().to_vec())
}

/// The contents of some byte strings.
pub open spec fn bytes_of(v: Seq<Vec<u8>>) -> Seq<Seq<u8>> {
    v.map_values(|b: Vec<u8>| b@)
}

/// Whether a domain can run ceremonies for an origin.
pub uninterp spec fn is_party(domain: Seq<char>, origin: Seq<char>) -> bool;

/// `webauthn_rs::WebauthnBuilder::new` on an origin read by
/// `url::Url::parse`: whether the origin is a URL, and one that the domain can
/// stand for. Nothing that follows on the builder fails.
#[verifier::external_body]
pub(crate) fn check_party(domain: &str, origin: &str) -> (r: bool)
    ensures
        r == is_party(domain@, origin@),
{
    match url::Url::parse(origin) {
        Ok(url) => webauthn_rs::WebauthnBuilder::new(domain, &url).is_ok(),
        Err(_) => false,
    }
}

/// Whether a text in JSON writes the answer of an authenticator to a
/// registration.
pub uninterp spec fn reads_as_registration(credential: Seq<u8>) -> bool;

/// `serde_json::from_value` into
/// `webauthn_rs::prelude::RegisterPublicKeyCredential`: whether the text can
/// be read so.
#[verifier::external_body]
pub(crate) fn is_registration(credential: &[u8]) -> (r: bool)
    ensures
        r == reads_as_registration(credential@),
{
    match serde_json::from_slice::<serde_json::Value>(credential) {
        Ok(v) => serde_json::from_value::<
            webauthn_rs::prelude::RegisterPublicKeyCredential,
        >(v).is_ok(),
        Err(_) => false,
    }
}

/// Whether a text in JSON writes the answer of an authenticator to a sign-in.
pub uninterp spec fn reads_as_assertion(credential: Seq<u8>) -> bool;

/// `serde_json::from_value` into `webauthn_rs::prelude::PublicKeyCredential`:
/// whether the text can be read so.
#[verifier::external_body]
pub(crate) fn is_assertion(credential: &[u8]) -> (r: bool)
    ensures
        r == reads_as_assertion(credential@),
{
    match serde_json::from_slice::<serde_json::Value>(credential) {
        Ok(v) => serde_json::from_value::<webauthn_rs::prelude::PublicKeyCredential>(v).is_ok(),
        Err(_) => false,
    }
}

/// What an authenticator's answer to a sign-in shows, where it holds against
/// the state of the sign-in: the identifier of the credential, and the outcome
/// as it is written down.
pub uninterp spec fn assertion_of(
    domain: Seq<char>,
    origin: Seq<char>,
    name: Seq<char>,
    state: Seq<u8>,
    credential: Seq<u8>,
) -> Option<(Seq<u8>, Seq<u8>)>;

/// A state of a sign-in accepts no credential but those of `passkeys`,
/// whatever is shown and to whomever.
pub open spec fn accepts_only(state: Seq<u8>, passkeys: Seq<Seq<u8>>) -> bool {
    forall|domain: Seq<char>, origin: Seq<char>, name: Seq<char>, credential: Seq<u8>|
        (#[trigger] assertion_of(domain, origin, name, state, credential)) matches Some(shown)
            ==> exists|i: int|
            0 <= i < passkeys.len() && credential_id_of(#[trigger] passkeys[i]) == Some(shown.0)
}

/// `webauthn_rs::Webauthn::finish_passkey_authentication` for a party of this
/// name: the identifier of the credential that was shown and the outcome, or
/// nothing where the party, the state or the credential cannot be read or the
/// credential does not hold against the state.
#[verifier::external_body]
pub(crate) fn finish_assertion(
    domain: &str,
    origin: &str,
    name: &str,
    state: &[u8],
    credential: &[u8],
) -> (r: Option<(Vec<u8>, Vec<u8>)>)
    ensures
        (match r {
            Some(shown) => Some((shown.0@, shown.1@)),
            None => None,
        }) == assertion_of(domain@, origin@, name@, state@, credential@),
{
    let url = url::Url::parse(origin).ok()?;
    let builder = webauthn_rs::WebauthnBuilder::new(domain, &url).ok()?;
    let party = builder.rp_name(name).build().ok()?;
    let state = serde_json::from_slice::<webauthn_rs::prelude::PasskeyAuthentication>(state).ok()?;
    let json = serde_json::from_slice::<serde_json::Value>(credential).ok()?;
    let shown = serde_json::from_value::<webauthn_rs::prelude::PublicKeyCredential>(json).ok()?;
    let outcome = party.finish_passkey_authentication(&shown, &state).ok()?;
    Some((outcome.cred_id().as_slice().to_vec(), serde_json::to_vec(&outcome).ok()?))
}

/// `webauthn_rs::Webauthn::start_passkey_authentication` for a party of this
/// name: the challenge in JSON, and the state to keep. It starts wherever the
/// party is one and the passkeys can be read, and the state accepts no other
/// credential than theirs. The challenge is random: nothing more is said of
/// the two.
#[verifier::external_body]
pub(crate) fn start_assertion(domain: &str, origin: &str, name: &str, passkeys: &Vec<Vec<u8>>) -> (r:
    Option<(String, Vec<u8>)>)
    ensures
        r is Some <==> (is_party(domain@, origin@) && forall|i: int|
            0 <= i < passkeys@.len() ==> credential_id_of((#[trigger] passkeys@[i])@) is Some),
        r matches Some(started) ==> accepts_only(started.1@, bytes_of(passkeys@)),
{
    let url = url::Url::parse(origin).ok()?;
    let builder = webauthn_rs::WebauthnBuilder::new(domain, &url).ok()?;
    let party = builder.rp_name(name).build().ok()?;
    let read: Result<Vec<webauthn_rs::prelude::Passkey>, serde_json::Error> = passkeys.iter().map(
        |p| serde_json::from_slice(p),
    ).collect();
    let (challenge, state) = party.start_passkey_authentication(&read.ok()?).ok()?;
    Some((serde_json::to_string(&challenge).ok()?, serde_json::to_vec(&state).ok()?))
}

/// The passkey that an authenticator's answer to a registration gives, where
/// it holds against the state of the registration, as it is written down; the
/// inner option is empty where it cannot be written.
pub uninterp spec fn registration_of(
    domain: Seq<char>,
    origin: Seq<char>,
    name: Seq<char>,
    state: Seq<u8>,
    credential: Seq<u8>,
) -> Option<Option<Seq<u8>>>;

/// A state of a registration gives none of the credentials in `ids`, whatever
/// is shown and to whomever.
pub open spec fn excludes(state: Seq<u8>, ids: Seq<Seq<u8>>) -> bool {
    forall|domain: Seq<char>, origin: Seq<char>, name: Seq<char>, credential: Seq<u8>|
        (#[trigger] registration_of(domain, origin, name, state, credential)) matches Some(Some(p))
            ==> (credential_id_of(p) matches Some(id) ==> !ids.contains(id))
}

/// The entries of a list that may be missing.
pub open spec fn listed(list: Option<Vec<Vec<u8>>>) -> Seq<Seq<u8>> {
    match list {
        Some(v) => bytes_of(v@),
        None => Seq::empty(),
    }
}

/// `webauthn_rs::Webauthn::finish_passkey_registration` for a party of this
/// name: the new passkey, or nothing where the party, the state or the
/// credential cannot be read or the credential does not hold against the
/// state.
#[verifier::external_body]
pub(crate) fn finish_registration(
    domain: &str,
    origin: &str,
    name: &str,
    state: &[u8],
    credential: &[u8],
) -> (r: Option<Option<Vec<u8>>>)
    ensures
        (match r {
            Some(Some(p)) => Some(Some(p@)),
            Some(None) => Some(None),
            None => None,
        }) == registration_of(domain@, origin@, name@, state@, credential@),
{
    let url = url::Url::parse(origin).ok()?;
    let builder = webauthn_rs::WebauthnBuilder::new(domain, &url).ok()?;
    let party = builder.rp_name(name).build().ok()?;
    let state = serde_json::from_slice::<webauthn_rs::prelude::PasskeyRegistration>(state).ok()?;
    let json = serde_json::from_slice::<serde_json::Value>(credential).ok()?;
    let shown = serde_json::from_value::<
        webauthn_rs::prelude::RegisterPublicKeyCredential,
    >(json).ok()?;
    let passkey = party.finish_passkey_registration(&shown, &state).ok()?;
    Some(serde_json::to_vec(&passkey).ok())
}

/// `webauthn_rs::Webauthn::start_passkey_registration` for a party of this
/// name: the challenge in JSON, and the state to keep. It starts wherever the
/// party is one, the handle is an identifier and the user has names, and the
/// state gives none of the excluded credentials. The challenge is random:
/// nothing more is said of the two.
#[verifier::external_body]
pub(crate) fn start_registration(
    domain: &str,
    origin: &str,
    name: &str,
    handle: &str,
    user: &str,
    display: &str,
    exclude: Option<Vec<Vec<u8>>>,
) -> (r: Option<(String, Vec<u8>)>)
    ensures
        r is Some <==> (is_party(domain@, origin@) && uuid_of(handle@) is Some && user@.len() > 0
            && display@.len() > 0),
        r matches Some(started) ==> excludes(started.1@, listed(exclude)),
{
    let url = url::Url::parse(origin).ok()?;
    let builder = webauthn_rs::WebauthnBuilder::new(domain, &url).ok()?;
    let party = builder.rp_name(name).build().ok()?;
    let handle = uuid::Uuid::try_parse(handle).ok()?;
    let ids = exclude.map(|ids| ids.into_iter().map(|id| id.into()).collect());
    let (challenge, state) = party.start_passkey_registration(handle, user, display, ids).ok()?;
    Some((serde_json::to_string(&challenge).ok()?, serde_json::to_vec(&state).ok()?))
}

/// A stored passkey after a sign-in with the given outcome, and whether that
/// changed it; the inner option is empty where the outcome is that of another
/// credential.
pub uninterp spec fn updated_of(passkey: Seq<u8>, outcome: Seq<u8>) -> Option<
    (Option<bool>, Seq<u8>),
>;

/// `webauthn_rs::prelude::Passkey::update_credential` on a passkey and an
/// outcome read by `serde_json::from_slice`: what it returns, and the passkey
/// after it, or nothing where one of them cannot be read or written.
#[verifier::external_body]
pub(crate) fn update_passkey(passkey: &[u8], outcome: &[u8]) -> (r: Option<(Option<bool>, Vec<u8>)>)
    ensures
        (match r {
            Some(updated) => Some((updated.0, updated.1@)),
            None => None,
        }) == updated_of(passkey@, outcome@),
{
    let mut key = serde_json::from_slice::<webauthn_rs::prelude::Passkey>(passkey).ok()?;
    let outcome = serde_json::from_slice::<webauthn_rs::prelude::AuthenticationResult>(
        outcome,
    ).ok()?;
    let changed = key.update_credential(&outcome);
    Some((changed, serde_json::to_vec(&key).ok()?))
}

/// The public key of a stored passkey, in JSON.
pub uninterp spec fn public_key_of(passkey: Seq<u8>) -> Option<Seq<char>>;

/// `webauthn_rs::prelude::Passkey::get_public_key` on a passkey read by
/// `serde_json::from_slice`: the public key as `serde_json` writes it, or
/// nothing where one of the two fails.
#[verifier::external_body]
pub(crate) fn passkey_public_key(passkey: &[u8]) -> (r: Option<String>)
    ensures
        opt_text(r) == public_key_of(passkey@),
{
    let key = serde_json::from_slice::<webauthn_rs::prelude::Passkey>(passkey).ok()?;
    serde_json::to_string(key.get_public_key()).ok()
}

} // verus!
