//! Codes: random handles, user codes, digests, PKCE challenges.

use crate::outside::{
    base64url, base64url_encode, hex_encode, hex_of, is_urlsafe, ordered_uuid, random_bytes,
    random_uuid, sha256, sha256_digest, unreserved,
};
use crate::text::{same, string_of};
use vstd::prelude::*;
use vstd::utf8::{encode_utf8, encode_utf8_decode_utf8};

verus! {

/// Whether two byte strings are equal; every byte is looked at whatever the
/// earlier ones are.
pub fn constant_time_eq(a: &[u8], b: &[u8]) -> (r: bool)
    ensures
        r == (a@ == b@),
{
    if a.len() != b.len() {
        return false;
    }
    let mut diff: u8 = 0;
    let mut i: usize = 0;
    while i < a.len()
        invariant
            i <= a@.len(),
            a@.len() == b@.len(),
            diff == 0 <==> forall|j: int| 0 <= j < i ==> a@[j] == b@[j],
        decreases a@.len() - i,
    {
        let x: u8 = a[i];
        let y: u8 = b[i];
        let ghost before = diff;
        diff = diff | (x ^ y);
        proof {
            assert((before | (x ^ y)) == 0 <==> (before == 0 && x == y)) by (bit_vector);
        }
        i = i + 1;
    }
    proof {
        if diff == 0 {
            assert(a@ =~= b@);
        }
    }
    diff == 0
}

/// Whether two texts are equal, compared byte by byte.
pub fn same_secret(a: &str, b: &str) -> (r: bool)
    ensures
        r == (a@ == b@),
{
    proof {
        encode_utf8_decode_utf8(a@);
        encode_utf8_decode_utf8(b@);
    }
    constant_time_eq(a.as_bytes(), b.as_bytes())
}

/// 43 characters of the URL-safe alphabet.
pub open spec fn is_handle(s: Seq<char>) -> bool {
    s.len() == 43 && forall|i: int| 0 <= i < s.len() ==> is_urlsafe(#[trigger] s[i])
}

/// The handle that stands for 32 bytes.
pub fn urlsafe_handle(bytes: &[u8; 32]) -> (r: String)
    ensures
        r@ == base64url(bytes@),
        is_handle(r@),
{
    base64url_encode(bytes.as_slice())
}

/// A random handle of 43 URL-safe characters.
pub fn random_urlsafe_string() -> (r: String)
    ensures
        is_handle(r@),
{
    urlsafe_handle(&random_bytes())
}

/// A random device code.
pub fn generate_device_code() -> (r: String)
    ensures
        is_handle(r@),
{
    urlsafe_handle(&random_bytes())
}

/// The identifier of a new token, token family or grant: random, of 36
/// characters.
pub fn random_id() -> (r: String)
    ensures
        r@.len() == 36,
{
    random_uuid()
}

/// The identifier of a new client, delivery or management token: of 36
/// characters, and ordered by the time at which it was made.
pub fn ordered_id() -> (r: String)
    ensures
        r@.len() == 36,
{
    ordered_uuid()
}

/// The letters of user codes: consonants that are not easily mistaken.
pub open spec fn code_letters() -> Seq<char> {
    seq![
        'B',
        'C',
        'D',
        'F',
        'G',
        'H',
        'J',
        'K',
        'L',
        'M',
        'N',
        'P',
        'Q',
        'R',
        'S',
        'T',
        'V',
        'W',
        'X',
        'Z',
    ]
}

fn code_letter(n: u8) -> (r: char)
    requires
        n < 20,
    ensures
        r == code_letters()[n as int],
{
    let letters: [char; 20] = [
        'B',
        'C',
        'D',
        'F',
        'G',
        'H',
        'J',
        'K',
        'L',
        'M',
        'N',
        'P',
        'Q',
        'R',
        'S',
        'T',
        'V',
        'W',
        'X',
        'Z',
    ];
    letters[n as usize]
}

/// The letters that a sequence of random bytes gives: bytes from 240 up are
/// passed over, so that every letter is equally likely.
pub open spec fn letters_of(bytes: Seq<u8>) -> Seq<char>
    decreases bytes.len(),
{
    if bytes.len() == 0 {
        Seq::empty()
    } else if bytes.last() < 240 {
        letters_of(bytes.drop_last()).push(code_letters()[bytes.last() as int % 20])
    } else {
        letters_of(bytes.drop_last())
    }
}

/// The first eight of some letters.
pub open spec fn first_eight(letters: Seq<char>) -> Seq<char> {
    if letters.len() <= 8 {
        letters
    } else {
        letters.take(8)
    }
}

/// Adds the letters of `bytes` to `letters` until there are eight.
pub fn collect_letters(letters: &mut Vec<char>, bytes: &[u8])
    requires
        old(letters)@.len() <= 8,
    ensures
        final(letters)@ == first_eight(old(letters)@ + letters_of(bytes@)),
{
    let ghost start = letters@;
    let mut i: usize = 0;
    proof {
        assert(bytes@.take(0) =~= Seq::<u8>::empty());
        assert(start + letters_of(bytes@.take(0)) =~= start);
    }
    while i < bytes.len()
        invariant
            i <= bytes@.len(),
            letters@ == first_eight(start + letters_of(bytes@.take(i as int))),
        decreases bytes@.len() - i,
    {
        let b: u8 = bytes[i];
        proof {
            assert(bytes@.take(i + 1).drop_last() =~= bytes@.take(i as int));
            assert(bytes@.take(i + 1).last() == b);
            let got = start + letters_of(bytes@.take(i as int));
            let next = start + letters_of(bytes@.take(i + 1));
            if b < 240 {
                assert(next =~= got.push(code_letters()[b as int % 20]));
                if got.len() >= 8 {
                    assert(first_eight(next) =~= first_eight(got));
                }
            }
        }
        if b < 240 && letters.len() < 8 {
            letters.push(code_letter(b % 20));
        }
        i = i + 1;
    }
    proof {
        assert(bytes@.take(bytes@.len() as int) =~= bytes@);
    }
}

/// The shape of a user code: four letters, a hyphen, four letters.
pub open spec fn is_user_code(s: Seq<char>) -> bool {
    &&& s.len() == 9
    &&& s[4] == '-'
    &&& forall|i: int| 0 <= i < 9 && i != 4 ==> code_letters().contains(#[trigger] s[i])
}

/// Eight letters with a hyphen in the middle.
pub open spec fn hyphenated(letters: Seq<char>) -> Seq<char> {
    letters.take(4).push('-') + letters.skip(4)
}

/// The user code of eight letters.
pub fn user_code(letters: &Vec<char>) -> (r: String)
    requires
        letters@.len() == 8,
    ensures
        r@ == hyphenated(letters@),
{
    let mut s = string_of(letters, 0, 4);
    s.push('-');
    let tail = string_of(letters, 4, 8);
    s.append(tail.as_str());
    proof {
        assert(letters@.subrange(0, 4) =~= letters@.take(4));
        assert(letters@.subrange(4, 8) =~= letters@.skip(4));
    }
    s
}

proof fn lemma_letters_are_letters(bytes: Seq<u8>)
    ensures
        forall|i: int|
            0 <= i < letters_of(bytes).len() ==> code_letters().contains(
                #[trigger] letters_of(bytes)[i],
            ),
    decreases bytes.len(),
{
    if bytes.len() > 0 {
        lemma_letters_are_letters(bytes.drop_last());
        let front = letters_of(bytes.drop_last());
        assert(code_letters().contains(code_letters()[bytes.last() as int % 20]));
        assert forall|i: int| 0 <= i < letters_of(bytes).len() implies code_letters().contains(
            #[trigger] letters_of(bytes)[i],
        ) by {
            if i < front.len() {
                assert(letters_of(bytes)[i] == front[i]);
            }
        }
    }
}

/// A random user code. Bytes are drawn until eight of them are accepted; the
/// count of draws is bounded by the range of `u64`, past which the missing
/// letters are filled in.
pub fn generate_user_code() -> (r: String)
    ensures
        is_user_code(r@),
{
    let mut letters: Vec<char> = Vec::new();
    let mut draws: u64 = 0;
    while letters.len() < 8 && draws < u64::MAX
        invariant
            letters@.len() <= 8,
            forall|i: int|
                0 <= i < letters@.len() ==> code_letters().contains(#[trigger] letters@[i]),
        decreases u64::MAX - draws,
    {
        let bytes = random_bytes();
        let ghost before = letters@;
        collect_letters(&mut letters, bytes.as_slice());
        proof {
            lemma_letters_are_letters(bytes@);
            let all = before + letters_of(bytes@);
            assert forall|i: int| 0 <= i < letters@.len() implies code_letters().contains(
                #[trigger] letters@[i],
            ) by {
                assert(letters@[i] == all[i]);
                if i < before.len() {
                    assert(all[i] == before[i]);
                } else {
                    assert(all[i] == letters_of(bytes@)[i - before.len()]);
                }
            }
        }
        draws = draws + 1;
    }
    while letters.len() < 8
        invariant
            letters@.len() <= 8,
            forall|i: int|
                0 <= i < letters@.len() ==> code_letters().contains(#[trigger] letters@[i]),
        decreases 8 - letters@.len(),
    {
        proof {
            assert(code_letters().contains(code_letters()[0]));
        }
        letters.push(code_letter(0));
    }
    let r = user_code(&letters);
    proof {
        assert forall|i: int| 0 <= i < 9 && i != 4 implies code_letters().contains(
            #[trigger] r@[i],
        ) by {
            if i < 4 {
                assert(r@[i] == letters@[i]);
            } else {
                assert(r@[i] == letters@[i - 1]);
            }
        }
    }
    r
}

/// The stored digest of a code: SHA-256 in hexadecimal. The code itself is
/// never stored with a grant.
pub open spec fn code_digest(code: Seq<char>) -> Seq<char> {
    hex_of(sha256(encode_utf8(code)))
}

pub fn code_hash(code: &str) -> (r: String)
    ensures
        r@ == code_digest(code@),
{
    hex_encode(sha256_digest(code.as_bytes()).as_slice())
}

/// The left half of an access token's digest, as an ID token carries it.
pub open spec fn token_digest(access_token: Seq<char>) -> Seq<char> {
    base64url(sha256(encode_utf8(access_token)).take(16))
}

pub fn at_hash(access_token: &str) -> (r: String)
    ensures
        r@ == token_digest(access_token@),
{
    let digest = sha256_digest(access_token.as_bytes());
    let (half, _rest) = digest.as_slice().split_at(16);
    proof {
        assert(half@ =~= digest@.take(16));
    }
    base64url_encode(half)
}

/// A challenge that the provider accepts: 43 to 128 bytes, each a letter, a
/// digit or one of `-._~`.
pub open spec fn challenge_ok(challenge: Seq<char>) -> bool {
    let bytes = encode_utf8(challenge);
    &&& 43 <= bytes.len() <= 128
    &&& forall|i: int| 0 <= i < bytes.len() ==> unreserved(#[trigger] bytes[i])
}

pub fn challenge_is_ok(challenge: &str) -> (r: bool)
    ensures
        r == challenge_ok(challenge@),
{
    let bytes = challenge.as_bytes();
    if bytes.len() < 43 || bytes.len() > 128 {
        return false;
    }
    let mut i: usize = 0;
    while i < bytes.len()
        invariant
            i <= bytes@.len(),
            bytes@ == encode_utf8(challenge@),
            forall|j: int| 0 <= j < i ==> unreserved(#[trigger] bytes@[j]),
        decreases bytes@.len() - i,
    {
        let b: u8 = bytes[i];
        let ok = (0x30 <= b && b <= 0x39) || (0x41 <= b && b <= 0x5a) || (0x61 <= b && b <= 0x7a)
            || b == 0x2d || b == 0x2e || b == 0x5f || b == 0x7e;
        if !ok {
            proof {
                assert(!unreserved(bytes@[i as int]));
            }
            return false;
        }
        i = i + 1;
    }
    true
}

/// What a verifier must hash to, or be, to match a challenge.
pub open spec fn verifier_matches(
    method: Seq<char>,
    verifier: Seq<char>,
    challenge: Seq<char>,
) -> bool {
    if method == "s256"@ {
        base64url(sha256(encode_utf8(verifier))) == challenge
    } else if method == "plain"@ {
        verifier == challenge
    } else {
        false
    }
}

/// Whether `verifier` is the one that `challenge` was made of.
pub fn verify_challenge(method: &str, verifier: &str, challenge: &str) -> (r: bool)
    ensures
        r == verifier_matches(method@, verifier@, challenge@),
{
    if same(method, "s256") {
        let digest = sha256_digest(verifier.as_bytes());
        let computed = base64url_encode(digest.as_slice());
        same_secret(computed.as_str(), challenge)
    } else if same(method, "plain") {
        same_secret(verifier, challenge)
    } else {
        false
    }
}

} // verus!
