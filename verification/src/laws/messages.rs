//! Numbers and one-time codes: how a number is read, what a code is made of,
//! and how a ceremony goes from step to step.

use crate::identity::{inherited, with_factor_view};
use crate::laws::words::law_trimming_takes_the_blanks_around;
use crate::oidc::codes::{
    code_letters, first_eight, hyphenated, is_handle, is_user_code, letters_of,
};
use crate::otp::{
    add_next, add_verify_next, attaching, canonical, cleaned, digit_of, digits_of, dispatched_as,
    fair_digits, first_six, has_plus, is_code, lemma_cleaned_keeps, lemma_digits_add,
    lemma_digits_cleaned, lemma_digits_of_number, plain_digits, request_next, sign_up_of,
    throttle_key_of, unsigned, verify_next, AddAskView, AddState, AddVerifyAskView,
    AddVerifyState, MobileView, RequestAskView, RequestState, SignUp, VerifyAskView, VerifyState,
};
use crate::text::{is_space, trimmed, trimmed_end, trimmed_start};
use vstd::prelude::*;

verus! {

/// A digit.
pub open spec fn is_decimal(c: char) -> bool {
    '0' <= c <= '9'
}

/// A character that numbers are grouped with: a space or one of `-().`.
pub open spec fn groups(c: char) -> bool {
    c == ' ' || c == '-' || c == '(' || c == ')' || c == '.'
}

/// The digits of a text are those of its parts, one after the other; the
/// digits of a single character are the character, where it is a digit.
pub proof fn law_digits_are_read_in_order(a: Seq<char>, b: Seq<char>, c: char)
    ensures
        digits_of(a + b) == digits_of(a) + digits_of(b),
        digits_of(seq![c]) == (if is_decimal(c) {
            seq![c]
        } else {
            Seq::empty()
        }),
        digits_of(Seq::<char>::empty()).len() == 0,
{
    lemma_digits_add(a, b);
    let one = seq![c];
    assert(one.drop_last() =~= Seq::<char>::empty());
    assert(digits_of(one.drop_last()) =~= Seq::<char>::empty());
    assert(digits_of(one) =~= if is_decimal(c) {
        seq![c]
    } else {
        Seq::<char>::empty()
    });
}

/// A number is read in every spelling: with blanks around, with a plus sign in
/// front or without, and with spaces, hyphens, dots and brackets between its
/// digits. What is kept is the sign and the digits.
pub proof fn law_numbers_are_read_in_any_spelling(
    a: Seq<char>,
    plus: bool,
    body: Seq<char>,
    b: Seq<char>,
)
    requires
        forall|i: int| 0 <= i < a.len() ==> is_space(#[trigger] a[i]),
        forall|i: int| 0 <= i < b.len() ==> is_space(#[trigger] b[i]),
        body.len() > 0,
        is_decimal(body[0]) && is_decimal(body.last()),
        forall|i: int| 0 <= i < body.len() ==> is_decimal(#[trigger] body[i]) || groups(body[i]),
    ensures
        plus ==> canonical(a + (seq!['+'] + body) + b) == Some(seq!['+'] + digits_of(body)),
        !plus ==> canonical(a + body + b) == Some(digits_of(body)),
{
    let spelled = if plus {
        seq!['+'] + body
    } else {
        body
    };
    assert(spelled.last() == body.last());
    assert(!is_space('+'));
    law_trimming_takes_the_blanks_around(a, spelled, b);
    let raw = a + spelled + b;
    if plus {
        assert(spelled.skip(1) =~= body);
    }
    assert(unsigned(raw) == body);
    lemma_cleaned_digits(body);
    lemma_digits_cleaned(body);
    lemma_digits_of_number(cleaned(body));
    lemma_cleaned_keeps(body, 0);
    assert(cleaned(body).len() > 0);
}

proof fn lemma_cleaned_digits(s: Seq<char>)
    requires
        forall|i: int| 0 <= i < s.len() ==> is_decimal(#[trigger] s[i]) || groups(s[i]),
    ensures
        forall|i: int| 0 <= i < cleaned(s).len() ==> is_decimal(#[trigger] cleaned(s)[i]),
    decreases s.len(),
{
    if s.len() > 0 {
        let front = s.drop_last();
        assert forall|i: int| 0 <= i < front.len() implies is_decimal(#[trigger] front[i])
            || groups(front[i]) by {
            assert(front[i] == s[i]);
        }
        lemma_cleaned_digits(front);
        assert(s.last() == s[s.len() - 1]);
        assert forall|i: int| 0 <= i < cleaned(s).len() implies is_decimal(
            #[trigger] cleaned(s)[i],
        ) by {
            if i < cleaned(front).len() {
                assert(cleaned(s)[i] == cleaned(front)[i]);
            }
        }
    }
}

/// A text that holds anything but digits, the characters that group them,
/// white space and plus signs is no number, and neither is one without digits.
pub proof fn law_other_texts_are_no_numbers(raw: Seq<char>, k: int)
    requires
        0 <= k < raw.len(),
        !is_decimal(raw[k]) && !groups(raw[k]) && !is_space(raw[k]) && raw[k] != '+',
    ensures
        canonical(raw) is None,
{
    lemma_stays_inside(raw, k);
    let t = trimmed(raw);
    let i = choose|i: int| 0 <= i < t.len() && t[i] == raw[k];
    let u = unsigned(raw);
    if has_plus(raw) {
        assert(i > 0);
        assert(u[i - 1] == raw[k]);
        lemma_cleaned_keeps(u, i - 1);
    } else {
        assert(u[i] == raw[k]);
        lemma_cleaned_keeps(u, i);
    }
    let c = cleaned(u);
    let j = choose|j: int| 0 <= j < c.len() && c[j] == raw[k];
    assert(!is_decimal(c[j]));
}

/// What is read of a number holds a digit.
pub proof fn law_numbers_hold_digits(raw: Seq<char>)
    requires
        digits_of(raw).len() == 0,
    ensures
        canonical(raw) is None,
{
    if canonical(raw) is Some {
        crate::otp::law_digits_are_kept(raw);
        assert(cleaned(unsigned(raw)).len() > 0);
    }
}

proof fn lemma_stays_inside(s: Seq<char>, k: int)
    requires
        0 <= k < s.len(),
        !is_space(s[k]),
    ensures
        trimmed(s).contains(s[k]),
{
    lemma_stays_start(s, k);
    lemma_stays_end(s, k);
    let u = trimmed_start(s);
    if u.contains(s[k]) {
        let i = choose|i: int| 0 <= i < u.len() && u[i] == s[k];
        lemma_stays_end(u, i);
    }
    let v = trimmed_end(s);
    if v.contains(s[k]) {
        let i = choose|i: int| 0 <= i < v.len() && v[i] == s[k];
        lemma_stays_start(v, i);
    }
}

proof fn lemma_stays_start(s: Seq<char>, k: int)
    requires
        0 <= k < s.len(),
        !is_space(s[k]),
    ensures
        trimmed_start(s).contains(s[k]),
    decreases s.len(),
{
    if is_space(s[0]) {
        assert(s.skip(1)[k - 1] == s[k]);
        lemma_stays_start(s.skip(1), k - 1);
    }
}

proof fn lemma_stays_end(s: Seq<char>, k: int)
    requires
        0 <= k < s.len(),
        !is_space(s[k]),
    ensures
        trimmed_end(s).contains(s[k]),
    decreases s.len(),
{
    if is_space(s.last()) {
        assert(s.last() == s[s.len() - 1]);
        assert(s.drop_last()[k] == s[k]);
        lemma_stays_end(s.drop_last(), k);
    }
}

/// Messages to a number are counted by the domain and the digits alone: two
/// spellings share a budget exactly when they have the same digits.
pub proof fn law_budgets_go_by_digits(domain: Seq<char>, a: Seq<char>, b: Seq<char>)
    ensures
        throttle_key_of(domain, a) == throttle_key_of(domain, b) <==> digits_of(a) == digits_of(b),
{
    let n = (domain + "|mobile:"@).len() as int;
    assert(throttle_key_of(domain, a).skip(n) =~= digits_of(a));
    assert(throttle_key_of(domain, b).skip(n) =~= digits_of(b));
}

/// A code has six characters, each a digit.
pub proof fn law_codes_are_six_digits(s: Seq<char>)
    ensures
        is_code(s) <==> s.len() == 6 && forall|i: int|
            0 <= i < s.len() ==> is_decimal(#[trigger] s[i]),
{
    if s.len() == 6 && forall|i: int| 0 <= i < s.len() ==> is_decimal(#[trigger] s[i]) {
        assert forall|i: int| 0 <= i < 6 implies crate::otp::is_digit(#[trigger] s[i]) by {
            assert(is_decimal(s[i]));
        }
    }
    if is_code(s) {
        assert forall|i: int| 0 <= i < s.len() implies is_decimal(#[trigger] s[i]) by {
            assert(crate::otp::is_digit(s[i]));
        }
    }
}

/// A random byte stands for the digit of its remainder by ten. For a fair draw
/// the bytes from 250 on stand for nothing, so that each digit is stood for by
/// as many bytes; the digits come in the order of the bytes.
pub proof fn law_bytes_stand_for_digits(bytes: Seq<u8>, b: u8)
    ensures
        digit_of(b) as int == '0' as int + b as int % 10,
        plain_digits(bytes.push(b)) == plain_digits(bytes).push(digit_of(b)),
        plain_digits(bytes).len() == bytes.len(),
        fair_digits(bytes.push(b)) == (if b < 250 {
            fair_digits(bytes).push(digit_of(b))
        } else {
            fair_digits(bytes)
        }),
        fair_digits(Seq::<u8>::empty()).len() == 0,
{
    assert(bytes.push(b).drop_last() =~= bytes);
    assert(plain_digits(bytes.push(b)) =~= plain_digits(bytes).push(digit_of(b)));
}

/// A code is what the first digits drawn say.
pub proof fn law_the_first_draws_count(digits: Seq<char>, letters: Seq<char>)
    ensures
        first_six(digits).is_prefix_of(digits),
        first_six(digits).len() == (if digits.len() < 6 {
            digits.len() as int
        } else {
            6
        }),
        first_eight(letters).is_prefix_of(letters),
        first_eight(letters).len() == (if letters.len() < 8 {
            letters.len() as int
        } else {
            8
        }),
{
}

/// User codes are made of twenty consonants that differ, each stood for by
/// twelve bytes: those below 240 by their remainder, and none from 240 on.
pub proof fn law_bytes_stand_for_letters(bytes: Seq<u8>, b: u8, i: int, j: int)
    ensures
        code_letters().len() == 20,
        0 <= i < j < 20 ==> code_letters()[i] < code_letters()[j],
        0 <= i < 20 ==> 'A' <= code_letters()[i] <= 'Z' && code_letters()[i] != 'A'
            && code_letters()[i] != 'E' && code_letters()[i] != 'I' && code_letters()[i] != 'O'
            && code_letters()[i] != 'U',
        letters_of(bytes.push(b)) == (if b < 240 {
            letters_of(bytes).push(code_letters()[b as int % 20])
        } else {
            letters_of(bytes)
        }),
        letters_of(Seq::<u8>::empty()).len() == 0,
{
    assert(bytes.push(b).drop_last() =~= bytes);
}

/// A user code is eight of those letters with a hyphen in the middle, and says
/// just those letters.
pub proof fn law_user_codes_are_eight_letters(s: Seq<char>, letters: Seq<char>)
    ensures
        is_user_code(s) <==> s.len() == 9 && s[4] == '-' && forall|i: int|
            0 <= i < 9 && i != 4 ==> code_letters().contains(#[trigger] s[i]),
        letters.len() == 8 ==> hyphenated(letters).len() == 9 && hyphenated(letters)[4] == '-'
            && hyphenated(letters).take(4) == letters.take(4) && hyphenated(letters).skip(5)
            == letters.skip(4),
{
    if letters.len() == 8 {
        assert(hyphenated(letters).take(4) =~= letters.take(4));
        assert(hyphenated(letters).skip(5) =~= letters.skip(4));
    }
}

/// A handle has 43 characters, each a letter, a digit, a hyphen or an
/// underscore.
pub proof fn law_handles_are_url_safe(s: Seq<char>)
    ensures
        is_handle(s) <==> s.len() == 43 && forall|i: int|
            0 <= i < s.len() ==> {
                let c = #[trigger] s[i];
                'A' <= c <= 'Z' || 'a' <= c <= 'z' || '0' <= c <= '9' || c == '-' || c == '_'
            },
{
    if is_handle(s) {
        assert forall|i: int| 0 <= i < s.len() implies ({
            let c = #[trigger] s[i];
            'A' <= c <= 'Z' || 'a' <= c <= 'z' || '0' <= c <= '9' || c == '-' || c == '_'
        }) by {
            assert(crate::outside::is_urlsafe(s[i]));
        }
    }
    if s.len() == 43 && forall|i: int|
        0 <= i < s.len() ==> {
            let c = #[trigger] s[i];
            'A' <= c <= 'Z' || 'a' <= c <= 'z' || '0' <= c <= '9' || c == '-' || c == '_'
        } {
        assert forall|i: int| 0 <= i < s.len() implies crate::outside::is_urlsafe(
            #[trigger] s[i],
        ) by {}
    }
}

/// A refusal by its code and message, without a token.
pub open spec fn refuses(r: MobileView, code: int, msg: Seq<char>) -> bool {
    !r.ok && r.code == code && r.msg == msg && r.jwt is None
}

/// Success, with this token.
pub open spec fn grants(r: MobileView, jwt: Option<Seq<char>>) -> bool {
    r.ok && r.code == 200 && r.msg == "Success"@ && r.jwt == jwt
}

/// The number that a request for a code is about, where everything before it
/// is in order: the number reads, the throttle let it pass, an account is
/// named and not locked, and tenant and configuration are there.
pub open spec fn request_reaches(s: RequestState, mobile: Seq<char>) -> bool {
    &&& s.body matches Some(b)
    &&& canonical(b.mobile@) == Some(mobile)
    &&& s.throttle == Some(true)
    &&& b.name@.len() > 0
    &&& s.gate == Some(true)
    &&& s.has_tenant == Some(true)
    &&& s.has_config == Some(true)
}

/// The account that the code is for: the owner of the number, or the named one
/// where the number is nobody's, which is then a sign-up.
pub open spec fn code_is_for(s: RequestState, name: Seq<char>, signup: bool) -> bool {
    match s.owner {
        Some(None) => signup && name == s.body->0.name@,
        Some(Some(owner)) => !signup && name == owner@ && s.owner_gate == Some(true),
        None => false,
    }
}

/// A code is sent exactly when the request is in order and its ceremony is
/// prepared, to the number that was read; success hands out its handle, and
/// comes only once the code was sent and kept.
pub proof fn law_codes_are_sent_for_requests_in_order(s: RequestState)
    ensures
        ({
            let mobile = canonical(s.body->0.mobile@)->0;
            let reached = s.body is Some && canonical(s.body->0.mobile@) is Some && request_reaches(
                s,
                mobile,
            );
            let known = s.owner == Some(None::<String>) || (s.owner is Some && s.owner->0 is Some
                && s.owner_gate == Some(true));
            &&& request_next(s) is Owner <==> reached && s.owner is None
            &&& request_next(s) is OwnerGate <==> reached && s.owner is Some && s.owner->0 is Some
                && s.owner_gate is None
            &&& request_next(s) is Prepare <==> reached && known && s.prepared is None
            &&& request_next(s) is Dispatch <==> reached && known && s.prepared == Some(true)
                && s.dispatched is None
            &&& request_next(s) matches RequestAskView::Owner(m) ==> m == mobile
            &&& request_next(s) matches RequestAskView::OwnerGate(n) ==> n == s.owner->0->0@
            &&& request_next(s) matches RequestAskView::Dispatch(m) ==> m == mobile
            &&& request_next(s) matches RequestAskView::Prepare { name, mobile: m, signup } ==> m
                == mobile && code_is_for(s, name, signup)
            &&& (request_next(s) matches RequestAskView::Reply(r) && r.ok) <==> reached && known
                && s.prepared == Some(true) && s.dispatched is Some && s.dispatched->0 is Ok
            &&& request_next(s) matches RequestAskView::Reply(r) ==> r.ok ==> grants(
                r,
                Some(s.dispatched->0->Ok_0@),
            )
        }),
{
}

/// Before that, what is missing is asked for and what is wrong is told: the
/// throttle goes by the number, the lock by the account.
pub proof fn law_requests_are_checked_in_turn(s: RequestState)
    ensures
        s.body is None ==> (request_next(s) matches RequestAskView::Reply(r) && refuses(
            r,
            401,
            "Unauthorized: "@ + "Invalid request"@,
        )),
        s.body matches Some(b) ==> {
            &&& canonical(b.mobile@) is None ==> (request_next(s) matches RequestAskView::Reply(r)
                && refuses(r, 400, "Invalid mobile number"@))
            &&& canonical(b.mobile@) is Some && s.throttle is None ==> (request_next(s) matches
                RequestAskView::Throttle(k) && k == s.domain@ + "|mobile:"@ + digits_of(
                canonical(b.mobile@)->0,
            ))
            &&& canonical(b.mobile@) is Some && s.throttle == Some(false) ==> (request_next(
                s,
            ) matches RequestAskView::Reply(r) && refuses(r, 429, "Too many requests"@))
            &&& canonical(b.mobile@) is Some && s.throttle == Some(true) && b.name@.len() == 0 ==> (
            request_next(s) matches RequestAskView::Reply(r) && refuses(
                r,
                401,
                "Unauthorized: "@ + "Empty user name"@,
            ))
            &&& canonical(b.mobile@) is Some && s.throttle == Some(true) && b.name@.len() > 0 ==> {
                &&& s.gate is None ==> (request_next(s) matches RequestAskView::Gate(n) && n
                    == b.name@)
                &&& s.gate == Some(false) ==> (request_next(s) matches RequestAskView::Reply(r)
                    && refuses(r, 429, "Too many failed attempts; try again later"@))
                &&& s.gate == Some(true) ==> {
                    &&& s.has_tenant is None ==> request_next(s) is Tenant
                    &&& s.has_tenant == Some(false) ==> (request_next(s) matches
                        RequestAskView::Reply(r) && refuses(
                        r,
                        401,
                        "Unauthorized: "@ + "Failed to find tenant"@,
                    ))
                    &&& s.has_tenant == Some(true) && s.has_config is None ==> request_next(
                        s,
                    ) is Config
                    &&& s.has_tenant == Some(true) && s.has_config == Some(false) ==> (request_next(
                        s,
                    ) matches RequestAskView::Reply(r) && refuses(
                        r,
                        401,
                        "Unauthorized: "@ + "Failed to load OTP config"@,
                    ))
                }
            }
        },
        s.body is Some && s.owner_gate == Some(false) && s.owner is Some && s.owner->0 is Some
            && canonical(s.body->0.mobile@) is Some && request_reaches(
            s,
            canonical(s.body->0.mobile@)->0,
        ) ==> (request_next(s) matches RequestAskView::Reply(r) && refuses(
            r,
            429,
            "Too many failed attempts; try again later"@,
        )),
{
}

/// The right code was shown: the account is not locked, the code was taken,
/// and the ceremony was the user's own, for the number and with the code that
/// the request names.
pub open spec fn right_code(s: VerifyState) -> bool {
    &&& s.body matches Some(b)
    &&& s.gate == Some(true)
    &&& s.code matches Some(Some(code))
    &&& s.has_tenant == Some(true)
    &&& s.ceremony matches Some(Some(data))
    &&& data.mobile@ == b.mobile@
    &&& code@ == b.code@
}

/// Whoever shows the right code is signed up or in, gets a session with the
/// code as a factor, and succeeds with it, and nobody else does; success
/// clears the account's failures.
pub proof fn law_the_right_code_signs_in(s: VerifyState)
    ensures
        verify_next(s) is SignUp <==> right_code(s) && s.bound is None && s.ceremony->0->0.signup,
        verify_next(s) is SignIn <==> right_code(s) && s.bound is None && !s.ceremony->0->0.signup,
        verify_next(s) is Mint <==> right_code(s) && s.bound == Some(true) && s.minted is None,
        (verify_next(s) matches VerifyAskView::Reply { response, record_failure, clear_failures }
            && response.ok) <==> right_code(s) && s.bound == Some(true) && s.minted is Some
            && s.minted->0 is Some,
        verify_next(s) matches VerifyAskView::Reply { response, record_failure, clear_failures }
            ==> (response.ok ==> grants(response, Some(s.minted->0->0@))) && (clear_failures
            <==> response.ok),
        verify_next(s) matches VerifyAskView::SignUp { name, mobile } ==> name == s.body->0.name@
            && mobile == s.body->0.mobile@,
        verify_next(s) matches VerifyAskView::SignIn { name, mobile } ==> name == s.body->0.name@
            && mobile == s.body->0.mobile@,
        verify_next(s) matches VerifyAskView::Mint { name, factors } ==> name == s.body->0.name@
            && factors.contains("otp"@),
{
    if verify_next(s) is Mint {
        let before = inherited(s.session, s.body->0.name@);
        let after = with_factor_view(before, "otp"@);
        if !before.contains("otp"@) {
            assert(after[before.len() as int] == "otp"@);
        }
    }
}

/// A wrong code, a number that is not the ceremony's, a user who cannot be
/// bound and a session that cannot be signed are failures of the user's own
/// ceremony, and only these are counted.
pub proof fn law_own_failures_are_counted(s: VerifyState)
    ensures
        (verify_next(s) matches VerifyAskView::Reply { response, record_failure, clear_failures }
            && record_failure) <==> {
            &&& s.body matches Some(b)
            &&& s.gate == Some(true)
            &&& s.code matches Some(Some(code))
            &&& s.has_tenant == Some(true)
            &&& s.ceremony matches Some(Some(data))
            &&& (data.mobile@ != b.mobile@ || code@ != b.code@ || s.bound == Some(false) || (s.bound
                == Some(true) && s.minted is Some && s.minted->0 is None))
        },
        verify_next(s) matches VerifyAskView::Reply { response, record_failure, clear_failures }
            ==> !response.ok ==> response.jwt is None && (response.code == 429 <==> s.body is Some
            && s.gate == Some(false)) && (response.code != 429 ==> response.code == 401),
{
}

/// Before that, the account's lock is asked for, then the code of the handle,
/// the tenant and the ceremony of the same handle for the named user.
pub proof fn law_checks_ask_in_turn(s: VerifyState)
    ensures
        verify_next(s) is Gate <==> s.body is Some && s.gate is None,
        verify_next(s) is TakeCode <==> s.body is Some && s.gate == Some(true) && s.code is None,
        verify_next(s) is Tenant <==> s.body is Some && s.gate == Some(true) && s.code is Some
            && s.code->0 is Some && s.has_tenant is None,
        verify_next(s) is Ceremony <==> s.body is Some && s.gate == Some(true) && s.code is Some
            && s.code->0 is Some && s.has_tenant == Some(true) && s.ceremony is None,
        verify_next(s) matches VerifyAskView::Gate(n) ==> n == s.body->0.name@,
        verify_next(s) matches VerifyAskView::TakeCode(k) ==> k == s.domain@ + ":"@
            + s.body->0.token@,
        verify_next(s) matches VerifyAskView::Ceremony { key, name } ==> key == s.domain@ + ":"@
            + s.body->0.token@ && name == s.body->0.name@,
{
}

/// Everything that adding a number asks for holds, up to its token.
pub open spec fn add_reaches(s: AddState) -> bool {
    &&& s.session matches Some(session)
    &&& session.fresh
    &&& s.mobile matches Some(raw)
    &&& canonical(raw@) is Some
    &&& s.throttle == Some(true)
    &&& s.has_tenant == Some(true)
    &&& s.taken == Some(false)
    &&& s.has_config == Some(true)
}

/// A free number is added by a user who signed in a short while ago: a token is
/// signed that binds it to that user, a code is sent to it, and the code is
/// kept under the token, which success hands out.
pub proof fn law_free_numbers_are_added(s: AddState)
    ensures
        add_next(s) is Sign <==> add_reaches(s) && s.token is None,
        add_next(s) is Send <==> add_reaches(s) && s.token is Some && s.token->0 is Some
            && s.sent is None,
        (add_next(s) matches AddAskView::Reply { response, keep } && response.ok) <==> add_reaches(
            s,
        ) && s.token is Some && s.token->0 is Some && s.sent == Some(true),
        add_next(s) matches AddAskView::Sign { user, mobile } ==> user == s.session->0.username@
            && Some(mobile) == canonical(s.mobile->0@),
        add_next(s) matches AddAskView::Send(mobile) ==> Some(mobile) == canonical(s.mobile->0@),
        add_next(s) matches AddAskView::Reply { response, keep } ==> if response.ok {
            grants(response, Some(s.token->0->0@)) && keep == Some(
                "otp_add:"@ + s.domain@ + ":"@ + s.token->0->0@,
            )
        } else {
            keep is None && response.jwt is None
        },
        add_next(s) is SignInAgain <==> s.session is Some && !s.session->0.fresh,
        add_next(s) matches AddAskView::SignInAgain(r) ==> refuses(
            r,
            403,
            "Re-authentication required before changing credentials"@,
        ),
{
}

/// What adding a number asks on the way: the throttle of the number, the
/// tenant, whether the number is taken, the configuration; and why it is
/// refused.
pub proof fn law_additions_are_checked_in_turn(s: AddState)
    requires
        s.session is Some && s.session->0.fresh,
        s.mobile is Some,
    ensures
        canonical(s.mobile->0@) is None ==> (add_next(s) matches AddAskView::Reply {
            response,
            keep,
        } && refuses(response, 400, "Invalid mobile number"@)),
        canonical(s.mobile->0@) matches Some(mobile) ==> {
            &&& s.throttle is None ==> (add_next(s) matches AddAskView::Throttle(k) && k == s.domain@
                + "|mobile:"@ + digits_of(mobile))
            &&& s.throttle == Some(false) ==> (add_next(s) matches AddAskView::Reply {
                response,
                keep,
            } && refuses(response, 429, "Too many requests"@))
            &&& s.throttle == Some(true) && s.has_tenant is None ==> add_next(s) is Tenant
            &&& s.throttle == Some(true) && s.has_tenant == Some(true) ==> {
                &&& s.taken is None ==> (add_next(s) matches AddAskView::Taken(m) && m == mobile)
                &&& s.taken == Some(true) ==> (add_next(s) matches AddAskView::Reply {
                    response,
                    keep,
                } && refuses(response, 401, "Unauthorized: "@ + "Mobile already in use"@))
                &&& s.taken == Some(false) && s.has_config is None ==> add_next(s) is Config
            }
        },
{
}

/// The number that a token binds is attached exactly when the session's user
/// shows the token's code; success comes once it was attached.
pub proof fn law_shown_codes_attach_the_number(s: AddVerifyState)
    ensures
        ({
            let shown = {
                &&& s.user is Some
                &&& s.body matches Some((token, code))
                &&& s.has_tenant == Some(true)
                &&& s.stored matches Some(Some(stored))
                &&& s.bound is Some && s.bound->0 is Some
                &&& stored@ == code@
            };
            &&& add_verify_next(s) is Attach <==> shown && s.created is None
            &&& (add_verify_next(s) matches AddVerifyAskView::Reply(r) && r.ok) <==> shown
                && s.created == Some(true)
            &&& add_verify_next(s) matches AddVerifyAskView::Reply(r) ==> if r.ok {
                grants(r, None)
            } else {
                r.code == 401 && r.jwt is None
            }
            &&& add_verify_next(s) matches AddVerifyAskView::Attach { user, mobile } ==> user
                == s.user->0@ && mobile == s.bound->0->0@
        }),
        add_verify_next(s) is Tenant <==> s.user is Some && s.body is Some && s.has_tenant is None,
        add_verify_next(s) is TakeCode <==> s.user is Some && s.body is Some && s.has_tenant
            == Some(true) && s.stored is None,
        add_verify_next(s) is Verify <==> s.user is Some && s.body is Some && s.has_tenant == Some(
            true,
        ) && s.stored is Some && s.stored->0 is Some && s.bound is None,
        add_verify_next(s) matches AddVerifyAskView::TakeCode(k) ==> k == "otp_add:"@ + s.domain@
            + ":"@ + (s.body->0).0@,
        add_verify_next(s) matches AddVerifyAskView::Verify { user, token } ==> user == s.user->0@
            && token == (s.body->0).0@,
{
}

/// A number is attached in its one spelling exactly where it reads and is
/// nobody's; the user who has it keeps it, and nobody else gets it.
pub proof fn law_free_numbers_are_attached(
    mobile: Seq<char>,
    holder: Option<Seq<char>>,
    user_id: Seq<char>,
)
    ensures
        canonical(mobile) is None ==> attaching(mobile, holder, user_id) == Err::<
            Option<Seq<char>>,
            Seq<char>,
        >("invalid mobile number"@),
        canonical(mobile) matches Some(m) ==> {
            &&& holder is None ==> attaching(mobile, holder, user_id) == Ok::<
                Option<Seq<char>>,
                Seq<char>,
            >(Some(m))
            &&& holder == Some(user_id) ==> attaching(mobile, holder, user_id) == Ok::<
                Option<Seq<char>>,
                Seq<char>,
            >(None)
            &&& holder is Some && holder->0 != user_id ==> attaching(mobile, holder, user_id)
                == Err::<Option<Seq<char>>, Seq<char>>("Mobile already exist"@)
        },
{
}

/// Signing up is done exactly where the user was created and the number
/// attached; a user without the number is taken back.
pub proof fn law_sign_ups_are_all_or_nothing(created: bool, attached: bool)
    ensures
        sign_up_of(created, attached) == SignUp::Done <==> created && attached,
        sign_up_of(created, attached) == SignUp::RolledBack <==> created && !attached,
        sign_up_of(created, attached) == SignUp::Refused <==> !created,
{
}

/// A handle is given out exactly where the code was sent and is kept.
pub proof fn law_handles_stand_for_kept_codes(handle: Seq<char>, sent: bool, kept: bool)
    ensures
        dispatched_as(handle, sent, kept) is Ok <==> sent && kept,
        dispatched_as(handle, sent, kept) matches Ok(h) ==> h == handle,
        dispatched_as(handle, sent, kept) matches Err(e) ==> e == (if sent {
            "Fail to start OTP ceremony"@
        } else {
            "Fail to send SMS"@
        }),
{
}

/// Why a check of a code failed is told: that it cannot be read or is not
/// there, that the tenant is unknown, that the account is locked, and nothing
/// at all of what was wrong with the code.
pub proof fn law_failed_checks_are_told(s: VerifyState)
    ensures
        verify_next(s) matches VerifyAskView::Reply { response, record_failure, clear_failures }
            ==> !response.ok ==> response.msg == (if s.body is None {
            "Unauthorized: "@ + "Invalid request"@
        } else if s.gate == Some(false) {
            "Too many failed attempts; try again later"@
        } else if s.code == Some(None::<String>) {
            "Unauthorized: "@ + "Invalid request"@
        } else if s.has_tenant == Some(false) {
            "Unauthorized: "@ + "Failed to find tenant"@
        } else {
            "Unauthorized: "@ + ""@
        }),
{
}

/// Why no code is sent, once the request was in order, is told.
pub proof fn law_failed_dispatches_are_told(s: RequestState)
    ensures
        s.body is Some && canonical(s.body->0.mobile@) is Some && request_reaches(
            s,
            canonical(s.body->0.mobile@)->0,
        ) && (s.owner == Some(None::<String>) || (s.owner is Some && s.owner->0 is Some
            && s.owner_gate == Some(true))) ==> {
            &&& s.prepared == Some(false) ==> (request_next(s) matches RequestAskView::Reply(r)
                && refuses(r, 401, "Unauthorized: "@ + "Fail to issue JWT"@))
            &&& s.prepared == Some(true) ==> (s.dispatched matches Some(Err(e)) ==> (request_next(
                s,
            ) matches RequestAskView::Reply(r) && refuses(r, 401, "Unauthorized: "@ + e@)))
        },
{
}

/// Why a number is not added is told.
pub proof fn law_failed_additions_are_told(s: AddState, v: AddVerifyState)
    ensures
        add_next(s) matches AddAskView::Reply { response, keep } ==> !response.ok ==> response.msg
            == (if s.session is None {
            "Unauthorized: "@ + "no valid session"@
        } else if s.mobile is None {
            "Unauthorized: "@ + "Invalid request"@
        } else if canonical(s.mobile->0@) is None {
            "Invalid mobile number"@
        } else if s.throttle == Some(false) {
            "Too many requests"@
        } else if s.has_tenant == Some(false) {
            "Unauthorized: "@ + "Failed to find tenant"@
        } else if s.taken == Some(true) {
            "Unauthorized: "@ + "Mobile already in use"@
        } else if s.has_config == Some(false) {
            "Unauthorized: "@ + "Failed to load OTP config"@
        } else if s.token == Some(None::<String>) {
            "Unauthorized: "@ + "Fail to issue JWT"@
        } else {
            "Unauthorized: "@ + "Fail to send SMS"@
        }),
        add_verify_next(v) matches AddVerifyAskView::Reply(r) ==> !r.ok ==> r.msg == (
        if v.user is None {
            "Unauthorized: "@ + "no valid session"@
        } else if v.body is None {
            "Unauthorized: "@ + "Invalid request"@
        } else if v.has_tenant == Some(false) {
            "Unauthorized: "@ + "Failed to find tenant"@
        } else if v.created == Some(false) && v.stored is Some && v.stored->0 is Some
            && v.bound is Some && v.bound->0 is Some && v.stored->0->0@ == (v.body->0).1@ {
            "Unauthorized: "@ + "Mobile already in use"@
        } else {
            "Unauthorized: "@ + "Invalid or expired token"@
        }),
{
}

/// A plus sign stands in front of a number and nowhere else.
pub proof fn law_a_sign_stands_in_front(s: Seq<char>, k: int)
    requires
        s.len() > 0 && !is_space(s[0]) && !is_space(s.last()),
        0 < k < s.len(),
        s[k] == '+',
    ensures
        canonical(s) is None,
{
    let none = Seq::<char>::empty();
    law_trimming_takes_the_blanks_around(none, s, none);
    assert(none + s + none =~= s);
    let u = unsigned(s);
    if has_plus(s) {
        assert(u[k - 1] == '+');
        lemma_cleaned_keeps(u, k - 1);
    } else {
        assert(u[k] == '+');
        lemma_cleaned_keeps(u, k);
    }
    let c = cleaned(u);
    let j = choose|j: int| 0 <= j < c.len() && c[j] == '+';
    assert(!is_decimal(c[j]));
}

} // verus!
