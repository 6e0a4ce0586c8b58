//! Redirect URLs: error pages, callbacks, login and consent hops.

use crate::outside::{escaped, hex_value, percent_decoded, percent_encoded, unreserved, url_encode};
use crate::text::opt_str;
use vstd::prelude::*;
use vstd::utf8::{encode_utf8, is_ascii_chars, is_ascii_chars_encode_utf8};

verus! {

/// A text as a URL parameter.
pub open spec fn param(s: Seq<char>) -> Seq<char> {
    percent_encoded(encode_utf8(s))
}

/// `&name=` and the encoded value, or nothing.
pub open spec fn optional_param(name: Seq<char>, value: Option<Seq<char>>) -> Seq<char> {
    match value {
        Some(v) => name + param(v),
        None => Seq::empty(),
    }
}

/// The redirect that reports an error: the code, its description where there
/// is one, and the caller's state where there was one.
pub open spec fn error_url(
    uri: Seq<char>,
    error: Seq<char>,
    description: Seq<char>,
    state: Option<Seq<char>>,
) -> Seq<char> {
    uri + "?error="@ + param(error) + (if description.len() > 0 {
        "&error_description="@ + param(description)
    } else {
        Seq::empty()
    }) + optional_param("&state="@, state)
}

pub fn oauth2_error_url(uri: &str, error: &str, description: &str, state: Option<&str>) -> (r:
    String)
    ensures
        r@ == error_url(uri@, error@, description@, opt_str(state)),
{
    let mut loc = uri.to_owned();
    loc.append("?error=");
    loc.append(url_encode(error).as_str());
    let ghost head = loc@;
    if !description.is_empty() {
        loc.append("&error_description=");
        loc.append(url_encode(description).as_str());
        proof {
            assert(loc@ =~= head + ("&error_description="@ + param(description@)));
        }
    } else {
        proof {
            assert(loc@ =~= head + Seq::<char>::empty());
        }
    }
    let ghost body = loc@;
    match state {
        Some(s) => {
            loc.append("&state=");
            loc.append(url_encode(s).as_str());
            proof {
                assert(loc@ =~= body + ("&state="@ + param(s@)));
            }
        },
        None => {
            proof {
                assert(loc@ =~= body + Seq::<char>::empty());
            }
        },
    }
    loc
}

/// The callback that hands an authorization code to the client, with the
/// client's state and the scope where they were given.
pub open spec fn callback_url(
    callback_uri: Seq<char>,
    code: Seq<char>,
    state: Option<Seq<char>>,
    scope: Option<Seq<char>>,
) -> Seq<char> {
    callback_uri + "?code="@ + param(code) + optional_param("&state="@, state) + optional_param(
        "&scope="@,
        scope,
    )
}

pub fn callback_url_with_code(
    callback_uri: &str,
    auth_code: &str,
    state: Option<&str>,
    scope: Option<&str>,
) -> (r: String)
    ensures
        r@ == callback_url(callback_uri@, auth_code@, opt_str(state), opt_str(scope)),
{
    let mut url = callback_uri.to_owned();
    url.append("?code=");
    url.append(url_encode(auth_code).as_str());
    let ghost head = url@;
    match state {
        Some(s) => {
            url.append("&state=");
            url.append(url_encode(s).as_str());
            proof {
                assert(url@ =~= head + ("&state="@ + param(s@)));
            }
        },
        None => {
            proof {
                assert(url@ =~= head + Seq::<char>::empty());
            }
        },
    }
    let ghost body = url@;
    match scope {
        Some(s) => {
            url.append("&scope=");
            url.append(url_encode(s).as_str());
            proof {
                assert(url@ =~= body + ("&scope="@ + param(s@)));
            }
        },
        None => {
            proof {
                assert(url@ =~= body + Seq::<char>::empty());
            }
        },
    }
    url
}

/// The sign-in page for a parked authorization request.
pub open spec fn login_url(
    client_id: Seq<char>,
    csrf: Seq<char>,
    callback_uri: Seq<char>,
    expired: bool,
) -> Seq<char> {
    "/login?client_id="@ + param(client_id) + "&state="@ + param(csrf) + "&redirect_uri="@ + param(
        callback_uri,
    ) + (if expired {
        "&error=session_expired"@
    } else {
        Seq::empty()
    })
}

/// The sign-in page for a parked request; `expired` says that a token was
/// presented that names no session.
pub fn login_redirect(client_id: &str, csrf: &str, callback_uri: &str, expired: bool) -> (r: String)
    ensures
        r@ == login_url(client_id@, csrf@, callback_uri@, expired),
{
    let mut loc = "/login?client_id=".to_owned();
    loc.append(url_encode(client_id).as_str());
    loc.append("&state=");
    loc.append(url_encode(csrf).as_str());
    loc.append("&redirect_uri=");
    loc.append(url_encode(callback_uri).as_str());
    if expired {
        loc.append("&error=session_expired");
    } else {
        proof {
            assert(loc@ =~= loc@ + Seq::<char>::empty());
        }
    }
    loc
}

/// The consent page for a parked request.
pub open spec fn consent_url(csrf: Seq<char>) -> Seq<char> {
    "/consent?state="@ + param(csrf)
}

pub fn consent_redirect(csrf: &str) -> (r: String)
    ensures
        r@ == consent_url(csrf@),
{
    let mut loc = "/consent?state=".to_owned();
    loc.append(url_encode(csrf).as_str());
    loc
}

/// An encoded parameter holds letters, digits, `-._~` and `%` only, so it can
/// neither end its parameter nor start another one.
pub proof fn law_param_is_inert(s: Seq<char>, i: int)
    requires
        0 <= i < param(s).len(),
    ensures
        param(s)[i] == '%' || param(s)[i] <= '\u{7f}' && unreserved(param(s)[i] as u8),
{
    lemma_encoded_chars(encode_utf8(s));
}

proof fn lemma_encoded_chars(bytes: Seq<u8>)
    ensures
        forall|i: int|
            0 <= i < percent_encoded(bytes).len() ==> ({
                let c = #[trigger] percent_encoded(bytes)[i];
                c == '%' || '\0' <= c <= '\u{7f}' && unreserved(c as u8)
            }),
    decreases bytes.len(),
{
    if bytes.len() > 0 {
        lemma_encoded_chars(bytes.skip(1));
        let head = escaped(bytes[0]);
        let tail = percent_encoded(bytes.skip(1));
        assert forall|i: int| 0 <= i < percent_encoded(bytes).len() implies ({
            let c = #[trigger] percent_encoded(bytes)[i];
            c == '%' || '\0' <= c <= '\u{7f}' && unreserved(c as u8)
        }) by {
            if i < head.len() {
                assert(percent_encoded(bytes)[i] == head[i]);
            } else {
                assert(percent_encoded(bytes)[i] == tail[i - head.len()]);
            }
        }
    }
}

/// Decoding an encoded parameter gives back the text: the state that a client
/// sends is the state that it reads.
pub proof fn law_param_reads_back(s: Seq<char>)
    ensures
        percent_decoded(encode_utf8(param(s))) == encode_utf8(s),
{
    let bytes = encode_utf8(s);
    lemma_encoded_chars(bytes);
    assert forall|i: int| 0 <= i < param(s).len() implies '\0' <= #[trigger] param(s)[i]
        <= '\u{7f}' by {
        law_param_is_inert(s, i);
    }
    assert(is_ascii_chars(param(s)));
    is_ascii_chars_encode_utf8(param(s));
    let ascii = param(s).map_values(|c: char| c as u8);
    assert(encode_utf8(param(s)) =~= ascii);
    lemma_decode_encoded(bytes);
}

proof fn lemma_decode_encoded(bytes: Seq<u8>)
    ensures
        percent_decoded(percent_encoded(bytes).map_values(|c: char| c as u8)) == bytes,
    decreases bytes.len(),
{
    let all = percent_encoded(bytes).map_values(|c: char| c as u8);
    if bytes.len() == 0 {
        assert(all =~= Seq::<u8>::empty());
        assert(bytes =~= Seq::<u8>::empty());
    } else {
        let b = bytes[0];
        let rest = bytes.skip(1);
        let tail = percent_encoded(rest).map_values(|c: char| c as u8);
        lemma_decode_encoded(rest);
        let head = escaped(b);
        assert(percent_encoded(bytes) == head + percent_encoded(rest));
        if unreserved(b) {
            assert(all[0] == b);
            assert(all.skip(1) =~= tail);
            assert(b != 0x25);
            assert(percent_decoded(all) == seq![b] + bytes.skip(1));
            assert(seq![b] + bytes.skip(1) =~= bytes);
        } else {
            assert(all[0] == 0x25);
            assert(all[1] == crate::outside::hex_upper(b / 16) as u8);
            assert(all[2] == crate::outside::hex_upper(b % 16) as u8);
            lemma_hex_digit((b / 16) as u8);
            lemma_hex_digit((b % 16) as u8);
            assert(all.skip(3) =~= tail);
            assert((b / 16) * 16 + b % 16 == b);
            assert(percent_decoded(all) == seq![b] + bytes.skip(1));
            assert(seq![b] + bytes.skip(1) =~= bytes);
        }
    }
}

proof fn lemma_hex_digit(n: u8)
    requires
        n < 16,
    ensures
        hex_value(crate::outside::hex_upper(n) as u8) == Some(n),
{
}

} // verus!
