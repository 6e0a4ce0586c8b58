//! One-time codes by text message: signing in, signing up, adding a number.

use crate::identity::{
    inherit_factors, inherited, with_factor, with_factor_view, SessionFactors,
};
use crate::oneshot::{law_taken_is_gone, lookup, store_run, StoreOp};
use crate::outside::random_byte;
use crate::reply::{problem, problem_of, Problem, ProblemKind};
use crate::text::{
    cat, cat3, chars_of, is_space, opt_str, opt_text, same, string_of, texts, trim, trimmed, trimmed_end,
    trimmed_start,
};
use vstd::prelude::*;

verus! {

/// The characters that numbers are grouped with.
pub open spec fn is_separator(c: char) -> bool {
    c == ' ' || c == '-' || c == '(' || c == ')' || c == '.'
}

pub open spec fn is_digit(c: char) -> bool {
    '0' <= c <= '9'
}

/// A text without separators.
pub open spec fn cleaned(s: Seq<char>) -> Seq<char>
    decreases s.len(),
{
    if s.len() == 0 {
        Seq::empty()
    } else if is_separator(s.last()) {
        cleaned(s.drop_last())
    } else {
        cleaned(s.drop_last()).push(s.last())
    }
}

/// Whether a text is made of digits, and of at least one.
pub open spec fn is_number(s: Seq<char>) -> bool {
    s.len() > 0 && forall|i: int| 0 <= i < s.len() ==> is_digit(#[trigger] s[i])
}

/// Whether a spelling begins with a plus sign.
pub open spec fn has_plus(raw: Seq<char>) -> bool {
    trimmed(raw).len() > 0 && trimmed(raw)[0] == '+'
}

/// A spelling without the plus sign at its start.
pub open spec fn unsigned(raw: Seq<char>) -> Seq<char> {
    if has_plus(raw) {
        trimmed(raw).skip(1)
    } else {
        trimmed(raw)
    }
}

/// The one spelling of a number: no separators, and the leading plus sign
/// where there is one.
pub open spec fn canonical(raw: Seq<char>) -> Option<Seq<char>> {
    let digits = cleaned(unsigned(raw));
    if !is_number(digits) {
        None
    } else if has_plus(raw) {
        Some(seq!['+'] + digits)
    } else {
        Some(digits)
    }
}

/// The one spelling of a number, or nothing where a text is no number.
pub fn canonical_mobile(raw: &str) -> (r: Option<String>)
    ensures
        opt_text(r) == canonical(raw@),
{
    let t = trim(raw);
    let cs = chars_of(t.as_str());
    let plus = cs.len() > 0 && cs[0] == '+';
    let start: usize = if plus {
        1
    } else {
        0
    };
    let ghost rest = cs@.skip(start as int);
    let mut out = String::new();
    if plus {
        out.push('+');
    }
    let ghost head = out@;
    let mut count: usize = 0;
    let mut i: usize = start;
    proof {
        assert(rest.take(0) =~= Seq::<char>::empty());
        assert(head + cleaned(rest.take(0)) =~= head);
        assert(cs@.skip(0) =~= cs@);
    }
    while i < cs.len()
        invariant
            start <= i <= cs@.len(),
            start <= 1,
            cs@ == trimmed(raw@),
            plus == (trimmed(raw@).len() > 0 && trimmed(raw@)[0] == '+'),
            start == (if plus {
                1int
            } else {
                0int
            }),
            rest == cs@.skip(start as int),
            rest == (if plus {
                trimmed(raw@).skip(1)
            } else {
                trimmed(raw@)
            }),
            head == (if plus {
                seq!['+']
            } else {
                Seq::<char>::empty()
            }),
            out@ == head + cleaned(rest.take(i - start)),
            count == cleaned(rest.take(i - start)).len(),
            count <= i - start,
            forall|j: int|
                0 <= j < cleaned(rest.take(i - start)).len() ==> is_digit(
                    #[trigger] cleaned(rest.take(i - start))[j],
                ),
        decreases cs@.len() - i,
    {
        let c: char = cs[i];
        let ghost before = cleaned(rest.take(i - start));
        proof {
            assert(rest.take(i - start + 1).drop_last() =~= rest.take(i - start));
            assert(rest.take(i - start + 1).last() == c);
        }
        let separator = c == ' ' || c == '-' || c == '(' || c == ')' || c == '.';
        if !separator {
            if c < '0' || c > '9' {
                proof {
                    lemma_cleaned_keeps(rest, i - start);
                    assert(!is_number(cleaned(rest)));
                }
                return None;
            }
            out.push(c);
            count = count + 1;
            proof {
                assert(out@ =~= head + before.push(c));
            }
        }
        i = i + 1;
    }
    proof {
        assert(rest.take(rest.len() as int) =~= rest);
        assert(head + cleaned(rest) =~= if plus {
            seq!['+'] + cleaned(rest)
        } else {
            cleaned(rest)
        });
    }
    if count == 0 {
        None
    } else {
        Some(out)
    }
}

/// A character that is no separator stays in the cleaned text.
pub(crate) proof fn lemma_cleaned_keeps(s: Seq<char>, k: int)
    requires
        0 <= k < s.len(),
        !is_separator(s[k]),
    ensures
        cleaned(s).contains(s[k]),
    decreases s.len(),
{
    let n = s.len() - 1;
    if k == n {
        assert(cleaned(s).last() == s[k]);
        assert(cleaned(s)[cleaned(s).len() - 1] == s[k]);
    } else {
        let front = s.drop_last();
        lemma_cleaned_keeps(front, k);
        assert(front[k] == s[k]);
        let j = choose|j: int| 0 <= j < cleaned(front).len() && cleaned(front)[j] == s[k];
        assert(cleaned(s)[j] == s[k]);
    }
}

pub(crate) proof fn lemma_cleaned_number(s: Seq<char>)
    requires
        forall|i: int| 0 <= i < s.len() ==> is_digit(#[trigger] s[i]),
    ensures
        cleaned(s) == s,
    decreases s.len(),
{
    if s.len() > 0 {
        let front = s.drop_last();
        assert forall|i: int| 0 <= i < front.len() implies is_digit(#[trigger] front[i]) by {
            assert(front[i] == s[i]);
        }
        lemma_cleaned_number(front);
        assert(is_digit(s[s.len() - 1]));
        assert(front.push(s.last()) =~= s);
    } else {
        assert(cleaned(s) =~= s);
    }
}

/// The canonical spelling of a canonical spelling is itself: storing and
/// looking up agree.
pub proof fn law_canonical_is_stable(raw: Seq<char>)
    requires
        canonical(raw) is Some,
    ensures
        canonical(canonical(raw)->0) == canonical(raw),
{
    let c = canonical(raw)->0;
    let t = trimmed(raw);
    let plus = t.len() > 0 && t[0] == '+';
    let digits = cleaned(if plus {
        t.skip(1)
    } else {
        t
    });
    assert(c.len() > 0);
    assert(c.last() == digits.last()) by {
        assert(c[c.len() - 1] == digits[digits.len() - 1]);
    }
    assert(is_digit(digits[digits.len() - 1]));
    assert(c[0] == if plus {
        '+'
    } else {
        digits[0]
    });
    assert(is_digit(digits[0]));
    assert(!is_space(c[0]));
    assert(!is_space(c.last()));
    assert(trimmed_start(c) == c);
    assert(trimmed_end(c) == c);
    lemma_cleaned_number(digits);
    if plus {
        assert(c.skip(1) =~= digits);
    } else {
        assert(c[0] != '+');
    }
}

/// Two spellings of a number that differ only in separators, both with a plus
/// sign or both without, have the same canonical spelling.
pub proof fn law_separators_do_not_matter(a: Seq<char>, b: Seq<char>)
    requires
        has_plus(a) == has_plus(b),
        cleaned(unsigned(a)) == cleaned(unsigned(b)),
    ensures
        canonical(a) == canonical(b),
{
}

/// A separator more or less, anywhere behind the sign, does not matter.
pub proof fn law_a_separator_does_not_matter(
    a: Seq<char>,
    b: Seq<char>,
    front: Seq<char>,
    separator: char,
    back: Seq<char>,
)
    requires
        is_separator(separator),
        has_plus(a) == has_plus(b),
        unsigned(a) == front + back,
        unsigned(b) == front.push(separator) + back,
    ensures
        canonical(a) == canonical(b),
{
    lemma_cleaned_adds(front, back);
    lemma_cleaned_adds(front.push(separator), back);
    assert(front.push(separator).drop_last() =~= front);
}

pub(crate) proof fn lemma_cleaned_adds(a: Seq<char>, b: Seq<char>)
    ensures
        cleaned(a + b) == cleaned(a) + cleaned(b),
    decreases b.len(),
{
    if b.len() == 0 {
        assert(a + b =~= a);
        assert(cleaned(a) + cleaned(b) =~= cleaned(a));
    } else {
        assert((a + b).drop_last() =~= a + b.drop_last());
        assert((a + b).last() == b.last());
        lemma_cleaned_adds(a, b.drop_last());
        assert(cleaned(a + b) =~= cleaned(a) + cleaned(b));
    }
}

/// The digits of a text.
pub open spec fn digits_of(s: Seq<char>) -> Seq<char>
    decreases s.len(),
{
    if s.len() == 0 {
        Seq::empty()
    } else if is_digit(s.last()) {
        digits_of(s.drop_last()).push(s.last())
    } else {
        digits_of(s.drop_last())
    }
}

pub(crate) proof fn lemma_digits_add(a: Seq<char>, b: Seq<char>)
    ensures
        digits_of(a + b) == digits_of(a) + digits_of(b),
    decreases b.len(),
{
    if b.len() == 0 {
        assert(a + b =~= a);
        assert(digits_of(a) + digits_of(b) =~= digits_of(a));
    } else {
        assert((a + b).drop_last() =~= a + b.drop_last());
        assert((a + b).last() == b.last());
        lemma_digits_add(a, b.drop_last());
        assert(digits_of(a + b) =~= digits_of(a) + digits_of(b));
    }
}

pub(crate) proof fn lemma_digits_without_first(s: Seq<char>)
    requires
        s.len() > 0,
        !is_digit(s[0]),
    ensures
        digits_of(s.skip(1)) == digits_of(s),
{
    let first = seq![s[0]];
    assert(first + s.skip(1) =~= s);
    lemma_digits_add(first, s.skip(1));
    assert(first.drop_last() =~= Seq::<char>::empty());
    assert(digits_of(first.drop_last()) =~= Seq::<char>::empty());
    assert(digits_of(first) =~= Seq::<char>::empty());
    assert(digits_of(first) + digits_of(s.skip(1)) =~= digits_of(s.skip(1)));
}

pub(crate) proof fn lemma_digits_trimmed(s: Seq<char>)
    ensures
        digits_of(trimmed_start(s)) == digits_of(s),
        digits_of(trimmed_end(s)) == digits_of(s),
    decreases s.len(),
{
    if s.len() > 0 {
        if is_space(s[0]) {
            lemma_digits_without_first(s);
            lemma_digits_trimmed(s.skip(1));
        }
        if is_space(s.last()) {
            lemma_digits_trimmed(s.drop_last());
        }
    }
}

pub(crate) proof fn lemma_digits_cleaned(s: Seq<char>)
    ensures
        digits_of(cleaned(s)) == digits_of(s),
    decreases s.len(),
{
    if s.len() > 0 {
        lemma_digits_cleaned(s.drop_last());
        if !is_separator(s.last()) {
            assert(cleaned(s).drop_last() =~= cleaned(s.drop_last()));
        }
    } else {
        assert(digits_of(cleaned(s)) =~= digits_of(s));
    }
}

pub(crate) proof fn lemma_digits_of_number(s: Seq<char>)
    requires
        forall|i: int| 0 <= i < s.len() ==> is_digit(#[trigger] s[i]),
    ensures
        digits_of(s) == s,
    decreases s.len(),
{
    if s.len() > 0 {
        let front = s.drop_last();
        assert forall|i: int| 0 <= i < front.len() implies is_digit(#[trigger] front[i]) by {
            assert(front[i] == s[i]);
        }
        lemma_digits_of_number(front);
        assert(is_digit(s[s.len() - 1]));
        assert(front.push(s.last()) =~= s);
    } else {
        assert(digits_of(s) =~= s);
    }
}

/// The canonical spelling holds the digits of the input in their order, behind
/// the plus sign where there is one, and nothing else.
pub proof fn law_digits_are_kept(raw: Seq<char>)
    requires
        canonical(raw) is Some,
    ensures
        canonical(raw)->0 == (if has_plus(raw) {
            seq!['+'] + digits_of(raw)
        } else {
            digits_of(raw)
        }),
{
    let digits = cleaned(unsigned(raw));
    lemma_digits_trimmed(raw);
    lemma_digits_trimmed(trimmed_start(raw));
    if has_plus(raw) {
        lemma_digits_without_first(trimmed(raw));
    }
    lemma_digits_cleaned(unsigned(raw));
    lemma_digits_of_number(digits);
}

/// The form of a number under which messages to it are counted: its digits.
pub fn throttle_digits(canonical: &str) -> (r: String)
    ensures
        r@ == digits_of(canonical@),
{
    let cs = chars_of(canonical);
    let mut out = String::new();
    let mut i: usize = 0;
    while i < cs.len()
        invariant
            i <= cs@.len(),
            out@ == digits_of(cs@.take(i as int)),
        decreases cs@.len() - i,
    {
        let c: char = cs[i];
        proof {
            assert(cs@.take(i + 1).drop_last() =~= cs@.take(i as int));
            assert(cs@.take(i + 1).last() == c);
        }
        if '0' <= c && c <= '9' {
            out.push(c);
        }
        i = i + 1;
    }
    proof {
        assert(cs@.take(cs@.len() as int) =~= cs@);
    }
    out
}

/// The key under which messages to a number are counted.
pub open spec fn throttle_key_of(domain: Seq<char>, mobile: Seq<char>) -> Seq<char> {
    domain + "|mobile:"@ + digits_of(mobile)
}

pub fn throttle_key(domain: &str, mobile: &str) -> (r: String)
    ensures
        r@ == throttle_key_of(domain@, mobile@),
{
    cat3(domain, "|mobile:", throttle_digits(mobile).as_str())
}

/// A plus sign does not give a number a second budget.
pub proof fn law_plus_shares_the_budget(domain: Seq<char>, number: Seq<char>)
    requires
        is_number(number),
    ensures
        throttle_key_of(domain, seq!['+'] + number) == throttle_key_of(domain, number),
{
    lemma_plus_is_no_digit(number);
}

proof fn lemma_plus_is_no_digit(s: Seq<char>)
    ensures
        digits_of(seq!['+'] + s) == digits_of(s),
    decreases s.len(),
{
    let all = seq!['+'] + s;
    if s.len() == 0 {
        assert(all.drop_last() =~= Seq::<char>::empty());
        assert(all.last() == '+');
        assert(all.drop_last().len() == 0);
        assert(digits_of(all.drop_last()) =~= Seq::<char>::empty());
        assert(!is_digit('+'));
        assert(digits_of(s) =~= Seq::<char>::empty());
    } else {
        assert(all.drop_last() =~= seq!['+'] + s.drop_last());
        assert(all.last() == s.last());
        lemma_plus_is_no_digit(s.drop_last());
    }
}

/// A code of six digits.
pub open spec fn is_code(s: Seq<char>) -> bool {
    s.len() == 6 && forall|i: int| 0 <= i < 6 ==> is_digit(#[trigger] s[i])
}

/// The digit that a byte stands for.
pub open spec fn digit_of(b: u8) -> char {
    (0x30 + b % 10) as char
}

/// The last decimal digit of a byte.
pub fn byte_digit(b: u8) -> (r: char)
    ensures
        r == digit_of(b),
        is_digit(r),
{
    (0x30u8 + b % 10u8) as char
}

/// The digit that a random byte gives: bytes from 250 up are passed over, so
/// that every digit is equally likely.
pub fn fair_digit(b: u8) -> (r: Option<char>)
    ensures
        r == (if b < 250 {
            Some(digit_of(b))
        } else {
            None
        }),
{
    if b < 250 {
        Some(byte_digit(b))
    } else {
        None
    }
}

/// The digits that a sequence of random bytes gives, one for each byte.
pub open spec fn plain_digits(bytes: Seq<u8>) -> Seq<char> {
    bytes.map_values(|b: u8| digit_of(b))
}

/// The code that some drawn bytes give: the last decimal digit of each.
pub fn plain_code(bytes: &[u8]) -> (r: String)
    ensures
        r@ == plain_digits(bytes@),
{
    let mut digits = String::new();
    let mut i: usize = 0;
    proof {
        assert(digits@ =~= plain_digits(bytes@.take(0)));
    }
    while i < bytes.len()
        invariant
            i <= bytes@.len(),
            digits@ == plain_digits(bytes@.take(i as int)),
        decreases bytes@.len() - i,
    {
        let ghost before = digits@;
        digits.push(byte_digit(bytes[i]));
        proof {
            assert(plain_digits(bytes@.take(i + 1)) =~= before.push(digit_of(bytes@[i as int])));
        }
        i = i + 1;
    }
    proof {
        assert(bytes@.take(bytes@.len() as int) =~= bytes@);
    }
    digits
}

/// A random code for adding a number: that of six drawn bytes.
pub fn generate_otp_code() -> (r: String)
    ensures
        is_code(r@),
{
    let mut bytes: Vec<u8> = Vec::new();
    while bytes.len() < 6
        invariant
            bytes@.len() <= 6,
        decreases 6 - bytes@.len(),
    {
        bytes.push(random_byte());
    }
    plain_code(bytes.as_slice())
}

/// The digits that a sequence of random bytes gives: bytes from 250 up are
/// passed over, so that every digit is equally likely.
pub open spec fn fair_digits(bytes: Seq<u8>) -> Seq<char>
    decreases bytes.len(),
{
    if bytes.len() == 0 {
        Seq::empty()
    } else if bytes.last() < 250 {
        fair_digits(bytes.drop_last()).push(digit_of(bytes.last()))
    } else {
        fair_digits(bytes.drop_last())
    }
}

/// The first six of some digits.
pub open spec fn first_six(digits: Seq<char>) -> Seq<char> {
    if digits.len() <= 6 {
        digits
    } else {
        digits.take(6)
    }
}

/// Adds the digits of `bytes` to `digits` until there are six.
pub fn collect_digits(digits: &mut Vec<char>, bytes: &[u8])
    requires
        old(digits)@.len() <= 6,
    ensures
        final(digits)@ == first_six(old(digits)@ + fair_digits(bytes@)),
{
    let ghost start = digits@;
    let mut i: usize = 0;
    proof {
        assert(bytes@.take(0) =~= Seq::<u8>::empty());
        assert(start + fair_digits(bytes@.take(0)) =~= start);
    }
    while i < bytes.len()
        invariant
            i <= bytes@.len(),
            digits@ == first_six(start + fair_digits(bytes@.take(i as int))),
        decreases bytes@.len() - i,
    {
        let b: u8 = bytes[i];
        proof {
            assert(bytes@.take(i + 1).drop_last() =~= bytes@.take(i as int));
            assert(bytes@.take(i + 1).last() == b);
            let got = start + fair_digits(bytes@.take(i as int));
            let next = start + fair_digits(bytes@.take(i + 1));
            if b < 250 {
                assert(next =~= got.push(digit_of(b)));
                if got.len() >= 6 {
                    assert(first_six(next) =~= first_six(got));
                }
            }
        }
        if let Some(d) = fair_digit(b) {
            if digits.len() < 6 {
                digits.push(d);
            }
        }
        i = i + 1;
    }
    proof {
        assert(bytes@.take(bytes@.len() as int) =~= bytes@);
    }
}

proof fn lemma_fair_digits_are_digits(bytes: Seq<u8>)
    ensures
        forall|i: int| 0 <= i < fair_digits(bytes).len() ==> is_digit(#[trigger] fair_digits(bytes)[i]),
    decreases bytes.len(),
{
    if bytes.len() > 0 {
        lemma_fair_digits_are_digits(bytes.drop_last());
        let front = fair_digits(bytes.drop_last());
        assert forall|i: int| 0 <= i < fair_digits(bytes).len() implies is_digit(
            #[trigger] fair_digits(bytes)[i],
        ) by {
            if i < front.len() {
                assert(fair_digits(bytes)[i] == front[i]);
            }
        }
    }
}

/// A random code for signing in or up. Bytes are drawn until six of them are
/// accepted; the count of draws is bounded by the range of `u64`, past which
/// the missing digits are filled in.
pub fn generate_fair_code() -> (r: String)
    ensures
        is_code(r@),
{
    let mut digits: Vec<char> = Vec::new();
    let mut draws: u64 = 0;
    while digits.len() < 6 && draws < u64::MAX
        invariant
            digits@.len() <= 6,
            forall|i: int| 0 <= i < digits@.len() ==> is_digit(#[trigger] digits@[i]),
        decreases u64::MAX - draws,
    {
        let mut drawn: Vec<u8> = Vec::new();
        drawn.push(random_byte());
        let ghost before = digits@;
        collect_digits(&mut digits, drawn.as_slice());
        proof {
            lemma_fair_digits_are_digits(drawn@);
            let all = before + fair_digits(drawn@);
            assert forall|i: int| 0 <= i < digits@.len() implies is_digit(#[trigger] digits@[i]) by {
                assert(digits@[i] == all[i]);
                if i < before.len() {
                    assert(all[i] == before[i]);
                } else {
                    assert(all[i] == fair_digits(drawn@)[i - before.len()]);
                }
            }
        }
        draws = draws + 1;
    }
    while digits.len() < 6
        invariant
            digits@.len() <= 6,
            forall|i: int| 0 <= i < digits@.len() ==> is_digit(#[trigger] digits@[i]),
        decreases 6 - digits@.len(),
    {
        digits.push(byte_digit(0));
    }
    let r = string_of(&digits, 0, 6);
    proof {
        assert(digits@.subrange(0, 6) =~= digits@);
    }
    r
}

/// The answer of the code endpoints.
pub struct MobileResponse {
    pub ok: bool,
    pub code: u16,
    pub msg: String,
    pub jwt: Option<String>,
}

pub struct MobileView {
    pub ok: bool,
    pub code: u16,
    pub msg: Seq<char>,
    pub jwt: Option<Seq<char>>,
}

impl View for MobileResponse {
    type V = MobileView;

    open spec fn view(&self) -> MobileView {
        MobileView { ok: self.ok, code: self.code, msg: self.msg@, jwt: opt_text(self.jwt) }
    }
}

pub open spec fn refusal(code: u16, msg: Seq<char>) -> MobileView {
    MobileView { ok: false, code, msg, jwt: None }
}

pub open spec fn unauthorized(reason: Seq<char>) -> MobileView {
    refusal(401, "Unauthorized: "@ + reason)
}

pub open spec fn success(jwt: Option<Seq<char>>) -> MobileView {
    MobileView { ok: true, code: 200, msg: "Success"@, jwt }
}

pub open spec fn locked_out() -> MobileView {
    refusal(429, "Too many failed attempts; try again later"@)
}

fn refuse_mobile(code: u16, msg: &str) -> (r: MobileResponse)
    ensures
        r@ == refusal(code, msg@),
{
    MobileResponse { ok: false, code, msg: msg.to_owned(), jwt: None }
}

fn refuse_unauthorized(reason: &str) -> (r: MobileResponse)
    ensures
        r@ == unauthorized(reason@),
{
    MobileResponse { ok: false, code: 401, msg: cat("Unauthorized: ", reason), jwt: None }
}

fn succeed(jwt: Option<String>) -> (r: MobileResponse)
    ensures
        r@ == success(opt_text(jwt)),
{
    MobileResponse { ok: true, code: 200, msg: "Success".to_owned(), jwt }
}

/// A request for a code.
pub struct ReqRequest {
    pub name: String,
    pub mobile: String,
}

/// What is known so far of a request for a code. A fact that has not been
/// asked for yet is `None`.
pub struct RequestState {
    pub domain: String,
    pub body: Option<ReqRequest>,
    /// Whether the number has messages left.
    pub throttle: Option<bool>,
    /// Whether the named account is not locked out.
    pub gate: Option<bool>,
    pub has_tenant: Option<bool>,
    /// Whether the tenant can send messages.
    pub has_config: Option<bool>,
    /// The user that owns the number, where there is one.
    pub owner: Option<Option<String>>,
    /// Whether the owner is not locked out.
    pub owner_gate: Option<bool>,
    /// Whether the ceremony's token was signed.
    pub prepared: Option<bool>,
    /// The handle of the ceremony, or why it could not be started.
    pub dispatched: Option<Result<String, String>>,
}

/// What a request for a code needs to know or to do next.
pub enum RequestAsk {
    /// Count a message to the number of this key.
    Throttle(String),
    /// Ask whether the account of this name is locked out.
    Gate(String),
    Tenant,
    Config,
    /// Ask who owns this number.
    Owner(String),
    /// Ask whether the owner of this name is locked out.
    OwnerGate(String),
    /// Sign the ceremony's token and draw a code.
    Prepare { name: String, mobile: String, signup: bool },
    /// Send the code to this number.
    Dispatch(String),
    Reply(MobileResponse),
}

pub enum RequestAskView {
    Throttle(Seq<char>),
    Gate(Seq<char>),
    Tenant,
    Config,
    Owner(Seq<char>),
    OwnerGate(Seq<char>),
    Prepare { name: Seq<char>, mobile: Seq<char>, signup: bool },
    Dispatch(Seq<char>),
    Reply(MobileView),
}

impl View for RequestAsk {
    type V = RequestAskView;

    open spec fn view(&self) -> RequestAskView {
        match self {
            RequestAsk::Throttle(k) => RequestAskView::Throttle(k@),
            RequestAsk::Gate(n) => RequestAskView::Gate(n@),
            RequestAsk::Tenant => RequestAskView::Tenant,
            RequestAsk::Config => RequestAskView::Config,
            RequestAsk::Owner(m) => RequestAskView::Owner(m@),
            RequestAsk::OwnerGate(n) => RequestAskView::OwnerGate(n@),
            RequestAsk::Prepare { name, mobile, signup } => RequestAskView::Prepare {
                name: name@,
                mobile: mobile@,
                signup: *signup,
            },
            RequestAsk::Dispatch(m) => RequestAskView::Dispatch(m@),
            RequestAsk::Reply(r) => RequestAskView::Reply(r@),
        }
    }
}

/// What a request for a code needs next: the number is brought into its one
/// spelling, counted against its budget, the account is checked for a lockout,
/// a ceremony is prepared for the owner of the number, or for a new user where
/// it has none, and the code is sent.
pub open spec fn request_next(s: RequestState) -> RequestAskView {
    match s.body {
        None => RequestAskView::Reply(unauthorized("Invalid request"@)),
        Some(b) => match canonical(b.mobile@) {
            None => RequestAskView::Reply(refusal(400, "Invalid mobile number"@)),
            Some(mobile) => match s.throttle {
                None => RequestAskView::Throttle(throttle_key_of(s.domain@, mobile)),
                Some(false) => RequestAskView::Reply(refusal(429, "Too many requests"@)),
                Some(true) => if b.name@.len() == 0 {
                    RequestAskView::Reply(unauthorized("Empty user name"@))
                } else {
                    match s.gate {
                        None => RequestAskView::Gate(b.name@),
                        Some(false) => RequestAskView::Reply(locked_out()),
                        Some(true) => match s.has_tenant {
                            None => RequestAskView::Tenant,
                            Some(false) => RequestAskView::Reply(
                                unauthorized("Failed to find tenant"@),
                            ),
                            Some(true) => match s.has_config {
                                None => RequestAskView::Config,
                                Some(false) => RequestAskView::Reply(
                                    unauthorized("Failed to load OTP config"@),
                                ),
                                Some(true) => request_for(s, b.name@, mobile),
                            },
                        },
                    }
                },
            },
        },
    }
}

/// What a request needs once its tenant can send messages.
pub open spec fn request_for(s: RequestState, name: Seq<char>, mobile: Seq<char>) -> RequestAskView {
    match s.owner {
        None => RequestAskView::Owner(mobile),
        Some(None) => request_send(s, name, mobile, true),
        Some(Some(owner)) => match s.owner_gate {
            None => RequestAskView::OwnerGate(owner@),
            Some(false) => RequestAskView::Reply(locked_out()),
            Some(true) => request_send(s, owner@, mobile, false),
        },
    }
}

/// What a request needs once its ceremony's identity is known.
pub open spec fn request_send(
    s: RequestState,
    name: Seq<char>,
    mobile: Seq<char>,
    signup: bool,
) -> RequestAskView {
    match s.prepared {
        None => RequestAskView::Prepare { name, mobile, signup },
        Some(false) => RequestAskView::Reply(unauthorized("Fail to issue JWT"@)),
        Some(true) => match s.dispatched {
            None => RequestAskView::Dispatch(mobile),
            Some(Err(e)) => RequestAskView::Reply(unauthorized(e@)),
            Some(Ok(handle)) => RequestAskView::Reply(success(Some(handle@))),
        },
    }
}

/// Drives a request for a code from what is known to what is needed next.
pub fn request(s: &RequestState) -> (r: RequestAsk)
    ensures
        r@ == request_next(*s),
{
    let b = match &s.body {
        Some(b) => b,
        None => {
            return RequestAsk::Reply(refuse_unauthorized("Invalid request"));
        },
    };
    let mobile = match canonical_mobile(b.mobile.as_str()) {
        Some(m) => m,
        None => {
            return RequestAsk::Reply(refuse_mobile(400, "Invalid mobile number"));
        },
    };
    match s.throttle {
        None => {
            return RequestAsk::Throttle(throttle_key(s.domain.as_str(), mobile.as_str()));
        },
        Some(allowed) => {
            if !allowed {
                return RequestAsk::Reply(refuse_mobile(429, "Too many requests"));
            }
        },
    }
    if b.name.as_str().is_empty() {
        return RequestAsk::Reply(refuse_unauthorized("Empty user name"));
    }
    match s.gate {
        None => {
            return RequestAsk::Gate(b.name.clone());
        },
        Some(open) => {
            if !open {
                return RequestAsk::Reply(
                    refuse_mobile(429, "Too many failed attempts; try again later"),
                );
            }
        },
    }
    match s.has_tenant {
        None => {
            return RequestAsk::Tenant;
        },
        Some(known) => {
            if !known {
                return RequestAsk::Reply(refuse_unauthorized("Failed to find tenant"));
            }
        },
    }
    match s.has_config {
        None => {
            return RequestAsk::Config;
        },
        Some(known) => {
            if !known {
                return RequestAsk::Reply(refuse_unauthorized("Failed to load OTP config"));
            }
        },
    }
    let (name, signup) = match &s.owner {
        None => {
            return RequestAsk::Owner(mobile);
        },
        Some(None) => (b.name.clone(), true),
        Some(Some(owner)) => {
            match s.owner_gate {
                None => {
                    return RequestAsk::OwnerGate(owner.clone());
                },
                Some(open) => {
                    if !open {
                        return RequestAsk::Reply(
                            refuse_mobile(429, "Too many failed attempts; try again later"),
                        );
                    }
                },
            }
            (owner.clone(), false)
        },
    };
    match s.prepared {
        None => {
            return RequestAsk::Prepare { name, mobile, signup };
        },
        Some(signed) => {
            if !signed {
                return RequestAsk::Reply(refuse_unauthorized("Fail to issue JWT"));
            }
        },
    }
    match &s.dispatched {
        None => RequestAsk::Dispatch(mobile),
        Some(Err(e)) => RequestAsk::Reply(refuse_unauthorized(e.as_str())),
        Some(Ok(handle)) => RequestAsk::Reply(succeed(Some(handle.clone()))),
    }
}

/// The handle of a ceremony whose code was sent and is kept, or why it has
/// none.
pub open spec fn dispatched_as(handle: Seq<char>, sent: bool, kept: bool) -> Result<
    Seq<char>,
    Seq<char>,
> {
    if !sent {
        Err("Fail to send SMS"@)
    } else if !kept {
        Err("Fail to start OTP ceremony"@)
    } else {
        Ok(handle)
    }
}

/// The outcome of sending a code: the handle under which the ceremony is kept,
/// or why there is none.
pub fn dispatch_ceremony(handle: String, sent: bool, kept: bool) -> (r: Result<String, String>)
    ensures
        (match r {
            Ok(h) => Ok(h@),
            Err(e) => Err(e@),
        }) == dispatched_as(handle@, sent, kept),
{
    if !sent {
        return Err("Fail to send SMS".to_owned());
    }
    if !kept {
        return Err("Fail to start OTP ceremony".to_owned());
    }
    Ok(handle)
}

/// The key under which a ceremony's code and token are kept.
pub open spec fn flow_key_of(domain: Seq<char>, handle: Seq<char>) -> Seq<char> {
    domain + ":"@ + handle
}

pub fn flow_key(domain: &str, handle: &str) -> (r: String)
    ensures
        r@ == flow_key_of(domain@, handle@),
{
    cat3(domain, ":", handle)
}

/// The key under which the code for adding a number is kept.
pub open spec fn add_key_of(domain: Seq<char>, token: Seq<char>) -> Seq<char> {
    "otp_add:"@ + domain + ":"@ + token
}

pub fn add_key(domain: &str, token: &str) -> (r: String)
    ensures
        r@ == add_key_of(domain@, token@),
{
    let head = cat3("otp_add:", domain, ":");
    cat(head.as_str(), token)
}

/// The token for adding a number is never the handle of a sign-in: their codes
/// are kept under different keys.
pub proof fn law_adding_is_not_signing_in(domain: Seq<char>, token: Seq<char>)
    ensures
        flow_key_of(domain, token) != add_key_of(domain, token),
{
    reveal_strlit("otp_add:");
    reveal_strlit(":");
    assert(flow_key_of(domain, token).len() + 8 == add_key_of(domain, token).len());
}

/// A request to check a code.
pub struct VerifyRequest {
    pub token: String,
    pub name: String,
    pub mobile: String,
    pub code: String,
}

/// What a ceremony's token says: the number, and whether it is for a new user.
pub struct OtpData {
    pub mobile: String,
    pub signup: bool,
}

/// What is known so far of a request to check a code.
pub struct VerifyState {
    pub domain: String,
    pub body: Option<VerifyRequest>,
    /// Whether the named account is not locked out.
    pub gate: Option<bool>,
    /// The code of the ceremony, taken out of the cache, where there is one.
    pub code: Option<Option<String>>,
    pub has_tenant: Option<bool>,
    /// What the ceremony's token says, where it was signed for the named user.
    pub ceremony: Option<Option<OtpData>>,
    /// Whether the user was created with the number, or found to own it.
    pub bound: Option<bool>,
    /// The session that the request was made in, where there is one.
    pub session: Option<SessionFactors>,
    /// The session's token, where it was signed.
    pub minted: Option<Option<String>>,
}

/// What a request to check a code needs to know or to do next.
pub enum VerifyAsk {
    Gate(String),
    /// Take the code of this key out of the cache.
    TakeCode(String),
    Tenant,
    /// Take the ceremony's token of this key out of the cache and verify it
    /// for this user.
    Ceremony { key: String, name: String },
    /// Create the user with the number.
    SignUp { name: String, mobile: String },
    /// Check that the user owns the number.
    SignIn { name: String, mobile: String },
    /// Sign a session for the user, with these factors.
    Mint { name: String, factors: Vec<String> },
    /// Answer; count a failure against the account, or forget its failures.
    Reply { response: MobileResponse, record_failure: bool, clear_failures: bool },
}

pub enum VerifyAskView {
    Gate(Seq<char>),
    TakeCode(Seq<char>),
    Tenant,
    Ceremony { key: Seq<char>, name: Seq<char> },
    SignUp { name: Seq<char>, mobile: Seq<char> },
    SignIn { name: Seq<char>, mobile: Seq<char> },
    Mint { name: Seq<char>, factors: Seq<Seq<char>> },
    Reply { response: MobileView, record_failure: bool, clear_failures: bool },
}

impl View for VerifyAsk {
    type V = VerifyAskView;

    open spec fn view(&self) -> VerifyAskView {
        match self {
            VerifyAsk::Gate(n) => VerifyAskView::Gate(n@),
            VerifyAsk::TakeCode(k) => VerifyAskView::TakeCode(k@),
            VerifyAsk::Tenant => VerifyAskView::Tenant,
            VerifyAsk::Ceremony { key, name } => VerifyAskView::Ceremony { key: key@, name: name@ },
            VerifyAsk::SignUp { name, mobile } => VerifyAskView::SignUp {
                name: name@,
                mobile: mobile@,
            },
            VerifyAsk::SignIn { name, mobile } => VerifyAskView::SignIn {
                name: name@,
                mobile: mobile@,
            },
            VerifyAsk::Mint { name, factors } => VerifyAskView::Mint {
                name: name@,
                factors: texts(factors@),
            },
            VerifyAsk::Reply { response, record_failure, clear_failures } => VerifyAskView::Reply {
                response: response@,
                record_failure: *record_failure,
                clear_failures: *clear_failures,
            },
        }
    }
}

/// An answer that leaves the account's failures alone.
pub open spec fn plain_reply(response: MobileView) -> VerifyAskView {
    VerifyAskView::Reply { response, record_failure: false, clear_failures: false }
}

/// The answer to a failed check of a ceremony that was the user's own: it is
/// counted against the account.
pub open spec fn counted_failure() -> VerifyAskView {
    VerifyAskView::Reply {
        response: unauthorized(""@),
        record_failure: true,
        clear_failures: false,
    }
}

/// What a request to check a code needs next. The lockout is checked before
/// the code is taken out of the cache; a failure is counted only where the
/// ceremony was the user's own.
pub open spec fn verify_next(s: VerifyState) -> VerifyAskView {
    match s.body {
        None => plain_reply(unauthorized("Invalid request"@)),
        Some(b) => match s.gate {
            None => VerifyAskView::Gate(b.name@),
            Some(false) => plain_reply(locked_out()),
            Some(true) => match s.code {
                None => VerifyAskView::TakeCode(flow_key_of(s.domain@, b.token@)),
                Some(None) => plain_reply(unauthorized("Invalid request"@)),
                Some(Some(code)) => match s.has_tenant {
                    None => VerifyAskView::Tenant,
                    Some(false) => plain_reply(unauthorized("Failed to find tenant"@)),
                    Some(true) => match s.ceremony {
                        None => VerifyAskView::Ceremony {
                            key: flow_key_of(s.domain@, b.token@),
                            name: b.name@,
                        },
                        Some(None) => plain_reply(unauthorized(""@)),
                        Some(Some(data)) => verify_ceremony(s, b, code@, data),
                    },
                },
            },
        },
    }
}

/// What a check needs once its ceremony is known to be the user's own.
pub open spec fn verify_ceremony(
    s: VerifyState,
    b: VerifyRequest,
    code: Seq<char>,
    data: OtpData,
) -> VerifyAskView {
    if data.mobile@ != b.mobile@ || code != b.code@ {
        counted_failure()
    } else {
        match s.bound {
            None => if data.signup {
                VerifyAskView::SignUp { name: b.name@, mobile: b.mobile@ }
            } else {
                VerifyAskView::SignIn { name: b.name@, mobile: b.mobile@ }
            },
            Some(false) => counted_failure(),
            Some(true) => match s.minted {
                None => VerifyAskView::Mint {
                    name: b.name@,
                    factors: with_factor_view(inherited(s.session, b.name@), "otp"@),
                },
                Some(None) => counted_failure(),
                Some(Some(jwt)) => VerifyAskView::Reply {
                    response: success(Some(jwt@)),
                    record_failure: false,
                    clear_failures: true,
                },
            },
        }
    }
}

fn reply_plainly(response: MobileResponse) -> (r: VerifyAsk)
    ensures
        r@ == plain_reply(response@),
{
    VerifyAsk::Reply { response, record_failure: false, clear_failures: false }
}

fn count_failure() -> (r: VerifyAsk)
    ensures
        r@ == counted_failure(),
{
    VerifyAsk::Reply {
        response: refuse_unauthorized(""),
        record_failure: true,
        clear_failures: false,
    }
}

/// Drives a request to check a code from what is known to what is needed next.
pub fn verify(s: &VerifyState) -> (r: VerifyAsk)
    ensures
        r@ == verify_next(*s),
{
    let b = match &s.body {
        Some(b) => b,
        None => {
            return reply_plainly(refuse_unauthorized("Invalid request"));
        },
    };
    match s.gate {
        None => {
            return VerifyAsk::Gate(b.name.clone());
        },
        Some(open) => {
            if !open {
                return reply_plainly(
                    refuse_mobile(429, "Too many failed attempts; try again later"),
                );
            }
        },
    }
    let key = flow_key(s.domain.as_str(), b.token.as_str());
    let code = match &s.code {
        None => {
            return VerifyAsk::TakeCode(key);
        },
        Some(None) => {
            return reply_plainly(refuse_unauthorized("Invalid request"));
        },
        Some(Some(code)) => code,
    };
    match s.has_tenant {
        None => {
            return VerifyAsk::Tenant;
        },
        Some(known) => {
            if !known {
                return reply_plainly(refuse_unauthorized("Failed to find tenant"));
            }
        },
    }
    let data = match &s.ceremony {
        None => {
            return VerifyAsk::Ceremony { key, name: b.name.clone() };
        },
        Some(None) => {
            return reply_plainly(refuse_unauthorized(""));
        },
        Some(Some(data)) => data,
    };
    if !same(data.mobile.as_str(), b.mobile.as_str()) || !same(code.as_str(), b.code.as_str()) {
        return count_failure();
    }
    match s.bound {
        None => {
            if data.signup {
                return VerifyAsk::SignUp { name: b.name.clone(), mobile: b.mobile.clone() };
            }
            return VerifyAsk::SignIn { name: b.name.clone(), mobile: b.mobile.clone() };
        },
        Some(bound) => {
            if !bound {
                return count_failure();
            }
        },
    }
    match &s.minted {
        None => VerifyAsk::Mint {
            name: b.name.clone(),
            factors: with_factor(inherit_factors(&s.session, b.name.as_str()), "otp"),
        },
        Some(None) => count_failure(),
        Some(Some(jwt)) => VerifyAsk::Reply {
            response: succeed(Some(jwt.clone())),
            record_failure: false,
            clear_failures: true,
        },
    }
}

/// A session is signed only for a ceremony of the named user, with its number
/// and its code, bound to that user.
pub proof fn law_sessions_need_the_code(s: VerifyState)
    requires
        verify_next(s) is Mint,
    ensures
        s.gate == Some(true),
        s.code is Some && s.code->0 is Some && s.code->0->0@ == s.body->0.code@,
        s.ceremony is Some && s.ceremony->0 is Some && s.ceremony->0->0.mobile@
            == s.body->0.mobile@,
        s.bound == Some(true),
{
}

/// The session that is signed is the named user's, and its factors are the
/// one-time code and those of a session of the same user: somebody else's
/// session adds nothing.
pub proof fn law_code_sessions_carry_their_own_factors(s: VerifyState)
    requires
        verify_next(s) is Mint,
    ensures
        verify_next(s) == (VerifyAskView::Mint {
            name: s.body->0.name@,
            factors: with_factor_view(inherited(s.session, s.body->0.name@), "otp"@),
        }),
        s.session is None || s.session->0.username@ != s.body->0.name@ ==> verify_next(s) == (
        VerifyAskView::Mint { name: s.body->0.name@, factors: seq!["otp"@] }),
{
    assert(with_factor_view(Seq::<Seq<char>>::empty(), "otp"@) =~= seq!["otp"@]);
}

/// An account that is locked out is refused before its code is taken: the code
/// can still be used once the lock is gone.
pub proof fn law_lockout_keeps_the_code(s: VerifyState)
    requires
        s.body is Some,
        s.gate == Some(false),
    ensures
        verify_next(s) == plain_reply(locked_out()),
{
}

/// What happens to the codes that were sent.
pub enum SentOp {
    /// A code is sent and kept under its handle.
    Send { domain: Seq<char>, handle: Seq<char>, code: String },
    /// A code is tried against this handle; `open` says whether the account is
    /// not locked out.
    Try { domain: Seq<char>, handle: Seq<char>, open: bool },
}

impl SentOp {
    /// What it does to the store of codes.
    pub open spec fn on_store(self) -> StoreOp<String> {
        match self {
            SentOp::Send { domain, handle, code } => StoreOp::Put(
                flow_key_of(domain, handle),
                code,
            ),
            SentOp::Try { domain, handle, open } => if open {
                StoreOp::Take(flow_key_of(domain, handle))
            } else {
                StoreOp::Leave
            },
        }
    }
}

/// The codes that are left after a run.
pub open spec fn sent_run(ops: Seq<SentOp>) -> Map<Seq<char>, String> {
    store_run(ops.map_values(|o: SentOp| o.on_store()))
}

/// A code is tried once: in any run, a try that was let through, right or
/// wrong, leaves every later one on the same handle refused. A try that a lock
/// turned away spends nothing.
pub proof fn law_codes_are_tried_once(
    ops: Seq<SentOp>,
    i: int,
    j: int,
    domain: Seq<char>,
    handle: Seq<char>,
    s: VerifyState,
)
    requires
        0 <= i < j <= ops.len(),
        ops[i] == (SentOp::Try { domain, handle, open: true }),
        forall|k: int|
            i < k < j ==> !((#[trigger] ops[k]) matches SentOp::Send { domain: d, handle: h, code }
                && flow_key_of(d, h) == flow_key_of(domain, handle)),
        s.domain@ == domain,
        s.body is Some && s.body->0.token@ == handle,
        s.gate == Some(true),
        s.code == Some(lookup(sent_run(ops.take(j)), flow_key_of(domain, handle))),
    ensures
        verify_next(s) == plain_reply(unauthorized("Invalid request"@)),
{
    let f = |o: SentOp| o.on_store();
    let stored = ops.map_values(f);
    assert(stored.take(j) =~= ops.take(j).map_values(f));
    assert forall|k: int| i < k < j implies !((#[trigger] stored[k]) matches StoreOp::Put(other, _)
        && other == flow_key_of(domain, handle)) by {
        assert(stored[k] == ops[k].on_store());
    }
    assert(stored[i] == ops[i].on_store());
    law_taken_is_gone(stored, i, j, flow_key_of(domain, handle));
}

/// A failure is counted against an account only where the ceremony was that
/// user's own.
pub proof fn law_failures_need_a_ceremony(s: VerifyState)
    requires
        verify_next(s) matches VerifyAskView::Reply { response, record_failure, clear_failures }
            && record_failure,
    ensures
        s.ceremony is Some && s.ceremony->0 is Some,
{
}

/// A number is attached to a user who signs up, never to one who signs in.
pub proof fn law_signing_in_attaches_nothing(s: VerifyState)
    requires
        s.ceremony is Some && s.ceremony->0 is Some,
        !s.ceremony->0->0.signup,
    ensures
        !(verify_next(s) is SignUp),
{
}

/// A sign-in succeeds where the number belongs to the user.
pub fn signin_user_mobile(owner: Option<&str>, user_name: &str) -> (r: bool)
    ensures
        r == (owner matches Some(o) && o@ == user_name@),
{
    match owner {
        Some(o) => same(o, user_name),
        None => false,
    }
}

/// What attaching a number comes to.
pub enum MobileCreate {
    /// The user has it already.
    Keep,
    /// Store it under this spelling.
    Create(String),
}

/// The spelling under which a number is stored for a user, none where the user
/// has it already, or why it is not attached.
pub open spec fn attaching(mobile: Seq<char>, holder: Option<Seq<char>>, user_id: Seq<char>) -> Result<
    Option<Seq<char>>,
    Seq<char>,
> {
    match canonical(mobile) {
        None => Err("invalid mobile number"@),
        Some(m) => match holder {
            None => Ok(Some(m)),
            Some(h) => if h == user_id {
                Ok(None)
            } else {
                Err("Mobile already exist"@)
            },
        },
    }
}

/// Decides on attaching a number to a user. `holder` is the identifier of the
/// user that the canonical number is stored for, where it is stored.
pub fn mobile_create(mobile: &str, holder: Option<&str>, user_id: &str) -> (r: Result<
    MobileCreate,
    String,
>)
    ensures
        (match r {
            Ok(MobileCreate::Keep) => Ok(None),
            Ok(MobileCreate::Create(c)) => Ok(Some(c@)),
            Err(e) => Err(e@),
        }) == attaching(mobile@, opt_str(holder), user_id@),
{
    let canonical = match canonical_mobile(mobile) {
        Some(m) => m,
        None => {
            return Err("invalid mobile number".to_owned());
        },
    };
    match holder {
        None => Ok(MobileCreate::Create(canonical)),
        Some(h) => if same(h, user_id) {
            Ok(MobileCreate::Keep)
        } else {
            Err("Mobile already exist".to_owned())
        },
    }
}

/// The spelling under which a number is deleted.
pub fn mobile_delete(mobile: &str) -> (r: Result<String, String>)
    ensures
        (match r {
            Ok(m) => canonical(mobile@) == Some(m@),
            Err(e) => canonical(mobile@) is None && e@ == "invalid mobile number"@,
        }),
{
    match canonical_mobile(mobile) {
        Some(m) => Ok(m),
        None => Err("invalid mobile number".to_owned()),
    }
}

/// What signing up a user with a number comes to.
#[derive(Clone, Copy, Debug, PartialEq, Eq, Structural)]
pub enum SignUp {
    /// The name is taken, or the user could not be created: nothing was done.
    Refused,
    /// The number could not be attached: the new user is deleted again.
    RolledBack,
    Done,
}

/// What signing up comes to.
pub open spec fn sign_up_of(created: bool, attached: bool) -> SignUp {
    if !created {
        SignUp::Refused
    } else if !attached {
        SignUp::RolledBack
    } else {
        SignUp::Done
    }
}

/// Signing up is all or nothing: a user whose number cannot be attached is
/// deleted again.
pub fn signup_user_mobile(created: bool, attached: bool) -> (r: SignUp)
    ensures
        r == sign_up_of(created, attached),
{
    if !created {
        SignUp::Refused
    } else if !attached {
        SignUp::RolledBack
    } else {
        SignUp::Done
    }
}

/// The session of a request: whose it is, and whether the user signed in a
/// short while ago.
pub struct FreshSession {
    pub username: String,
    pub fresh: bool,
}

/// What is known so far of a request to add a number.
pub struct AddState {
    pub domain: String,
    pub session: Option<FreshSession>,
    /// The number that the request names.
    pub mobile: Option<String>,
    pub throttle: Option<bool>,
    pub has_tenant: Option<bool>,
    /// Whether the number belongs to somebody.
    pub taken: Option<bool>,
    pub has_config: Option<bool>,
    /// The ceremony's token, where it was signed.
    pub token: Option<Option<String>>,
    /// Whether the code was sent.
    pub sent: Option<bool>,
}

/// What a request to add a number needs to know or to do next.
pub enum AddAsk {
    Throttle(String),
    Tenant,
    Taken(String),
    Config,
    /// Sign a token that binds the number to the session's user.
    Sign { user: String, mobile: String },
    /// Draw a code and send it to the number.
    Send(String),
    /// Ask the user to sign in again.
    SignInAgain(MobileResponse),
    /// Answer; keep the code under this key where there is one.
    Reply { response: MobileResponse, keep: Option<String> },
}

pub enum AddAskView {
    Throttle(Seq<char>),
    Tenant,
    Taken(Seq<char>),
    Config,
    Sign { user: Seq<char>, mobile: Seq<char> },
    Send(Seq<char>),
    SignInAgain(MobileView),
    Reply { response: MobileView, keep: Option<Seq<char>> },
}

impl View for AddAsk {
    type V = AddAskView;

    open spec fn view(&self) -> AddAskView {
        match self {
            AddAsk::Throttle(k) => AddAskView::Throttle(k@),
            AddAsk::Tenant => AddAskView::Tenant,
            AddAsk::Taken(m) => AddAskView::Taken(m@),
            AddAsk::Config => AddAskView::Config,
            AddAsk::Sign { user, mobile } => AddAskView::Sign { user: user@, mobile: mobile@ },
            AddAsk::Send(m) => AddAskView::Send(m@),
            AddAsk::SignInAgain(r) => AddAskView::SignInAgain(r@),
            AddAsk::Reply { response, keep } => AddAskView::Reply {
                response: response@,
                keep: opt_text(*keep),
            },
        }
    }
}

pub open spec fn add_reply(response: MobileView) -> AddAskView {
    AddAskView::Reply { response, keep: None }
}

/// What a request to add a number needs next: a session of a user who signed
/// in a short while ago, a number that is free, and a code sent to it. The
/// number is bound to the session's user, never to a name in the request.
pub open spec fn add_next(s: AddState) -> AddAskView {
    match s.session {
        None => add_reply(unauthorized("no valid session"@)),
        Some(session) => if !session.fresh {
            AddAskView::SignInAgain(
                refusal(403, "Re-authentication required before changing credentials"@),
            )
        } else {
            match s.mobile {
                None => add_reply(unauthorized("Invalid request"@)),
                Some(raw) => match canonical(raw@) {
                    None => add_reply(refusal(400, "Invalid mobile number"@)),
                    Some(mobile) => add_number(s, session.username@, mobile),
                },
            }
        },
    }
}

/// What adding a number needs once the number is known.
pub open spec fn add_number(s: AddState, user: Seq<char>, mobile: Seq<char>) -> AddAskView {
    match s.throttle {
        None => AddAskView::Throttle(throttle_key_of(s.domain@, mobile)),
        Some(false) => add_reply(refusal(429, "Too many requests"@)),
        Some(true) => match s.has_tenant {
            None => AddAskView::Tenant,
            Some(false) => add_reply(unauthorized("Failed to find tenant"@)),
            Some(true) => match s.taken {
                None => AddAskView::Taken(mobile),
                Some(true) => add_reply(unauthorized("Mobile already in use"@)),
                Some(false) => match s.has_config {
                    None => AddAskView::Config,
                    Some(false) => add_reply(unauthorized("Failed to load OTP config"@)),
                    Some(true) => match s.token {
                        None => AddAskView::Sign { user, mobile },
                        Some(None) => add_reply(unauthorized("Fail to issue JWT"@)),
                        Some(Some(token)) => match s.sent {
                            None => AddAskView::Send(mobile),
                            Some(false) => add_reply(unauthorized("Fail to send SMS"@)),
                            Some(true) => AddAskView::Reply {
                                response: success(Some(token@)),
                                keep: Some(add_key_of(s.domain@, token@)),
                            },
                        },
                    },
                },
            },
        },
    }
}

fn add_answer(response: MobileResponse) -> (r: AddAsk)
    ensures
        r@ == add_reply(response@),
{
    AddAsk::Reply { response, keep: None }
}

/// Drives a request to add a number from what is known to what is needed next.
pub fn add(s: &AddState) -> (r: AddAsk)
    ensures
        r@ == add_next(*s),
{
    let session = match &s.session {
        Some(session) => session,
        None => {
            return add_answer(refuse_unauthorized("no valid session"));
        },
    };
    if !session.fresh {
        return AddAsk::SignInAgain(
            refuse_mobile(403, "Re-authentication required before changing credentials"),
        );
    }
    let raw = match &s.mobile {
        Some(m) => m,
        None => {
            return add_answer(refuse_unauthorized("Invalid request"));
        },
    };
    let mobile = match canonical_mobile(raw.as_str()) {
        Some(m) => m,
        None => {
            return add_answer(refuse_mobile(400, "Invalid mobile number"));
        },
    };
    match s.throttle {
        None => {
            return AddAsk::Throttle(throttle_key(s.domain.as_str(), mobile.as_str()));
        },
        Some(allowed) => {
            if !allowed {
                return add_answer(refuse_mobile(429, "Too many requests"));
            }
        },
    }
    match s.has_tenant {
        None => {
            return AddAsk::Tenant;
        },
        Some(known) => {
            if !known {
                return add_answer(refuse_unauthorized("Failed to find tenant"));
            }
        },
    }
    match s.taken {
        None => {
            return AddAsk::Taken(mobile);
        },
        Some(taken) => {
            if taken {
                return add_answer(refuse_unauthorized("Mobile already in use"));
            }
        },
    }
    match s.has_config {
        None => {
            return AddAsk::Config;
        },
        Some(known) => {
            if !known {
                return add_answer(refuse_unauthorized("Failed to load OTP config"));
            }
        },
    }
    let token = match &s.token {
        None => {
            return AddAsk::Sign { user: session.username.clone(), mobile };
        },
        Some(None) => {
            return add_answer(refuse_unauthorized("Fail to issue JWT"));
        },
        Some(Some(token)) => token,
    };
    match s.sent {
        None => AddAsk::Send(mobile),
        Some(sent) => if sent {
            AddAsk::Reply {
                response: succeed(Some(token.clone())),
                keep: Some(add_key(s.domain.as_str(), token.as_str())),
            }
        } else {
            add_answer(refuse_unauthorized("Fail to send SMS"))
        },
    }
}

/// A session that was signed in long ago adds no number: nothing is sent and
/// nothing is kept.
pub proof fn law_stale_sessions_add_nothing(s: AddState)
    requires
        s.session matches Some(session) ==> !session.fresh,
    ensures
        !(add_next(s) is Send),
        !(add_next(s) is Sign),
        add_next(s) matches AddAskView::Reply { response, keep } ==> keep is None && !response.ok,
{
}

/// What is known so far of a request to complete adding a number.
pub struct AddVerifyState {
    pub domain: String,
    /// The session's user.
    pub user: Option<String>,
    /// The ceremony's token and the code that the request names.
    pub body: Option<(String, String)>,
    pub has_tenant: Option<bool>,
    /// The code, taken out of the cache, where there is one.
    pub stored: Option<Option<String>>,
    /// The number that the token binds, where it was signed for the session's
    /// user.
    pub bound: Option<Option<String>>,
    /// Whether the number was attached.
    pub created: Option<bool>,
}

/// What a request to complete adding a number needs to know or to do next.
pub enum AddVerifyAsk {
    Tenant,
    /// Take the code of this key out of the cache.
    TakeCode(String),
    /// Verify the token for this user.
    Verify { user: String, token: String },
    /// Attach the number to the user.
    Attach { user: String, mobile: String },
    Reply(MobileResponse),
}

pub enum AddVerifyAskView {
    Tenant,
    TakeCode(Seq<char>),
    Verify { user: Seq<char>, token: Seq<char> },
    Attach { user: Seq<char>, mobile: Seq<char> },
    Reply(MobileView),
}

impl View for AddVerifyAsk {
    type V = AddVerifyAskView;

    open spec fn view(&self) -> AddVerifyAskView {
        match self {
            AddVerifyAsk::Tenant => AddVerifyAskView::Tenant,
            AddVerifyAsk::TakeCode(k) => AddVerifyAskView::TakeCode(k@),
            AddVerifyAsk::Verify { user, token } => AddVerifyAskView::Verify {
                user: user@,
                token: token@,
            },
            AddVerifyAsk::Attach { user, mobile } => AddVerifyAskView::Attach {
                user: user@,
                mobile: mobile@,
            },
            AddVerifyAsk::Reply(r) => AddVerifyAskView::Reply(r@),
        }
    }
}

/// What a request to complete adding a number needs next: the token must have
/// been signed for the session's user and the code must match.
pub open spec fn add_verify_next(s: AddVerifyState) -> AddVerifyAskView {
    match s.user {
        None => AddVerifyAskView::Reply(unauthorized("no valid session"@)),
        Some(user) => match s.body {
            None => AddVerifyAskView::Reply(unauthorized("Invalid request"@)),
            Some((token, code)) => match s.has_tenant {
                None => AddVerifyAskView::Tenant,
                Some(false) => AddVerifyAskView::Reply(unauthorized("Failed to find tenant"@)),
                Some(true) => match s.stored {
                    None => AddVerifyAskView::TakeCode(add_key_of(s.domain@, token@)),
                    Some(None) => AddVerifyAskView::Reply(
                        unauthorized("Invalid or expired token"@),
                    ),
                    Some(Some(stored)) => match s.bound {
                        None => AddVerifyAskView::Verify { user: user@, token: token@ },
                        Some(None) => AddVerifyAskView::Reply(
                            unauthorized("Invalid or expired token"@),
                        ),
                        Some(Some(mobile)) => if stored@ != code@ {
                            AddVerifyAskView::Reply(unauthorized("Invalid or expired token"@))
                        } else {
                            match s.created {
                                None => AddVerifyAskView::Attach { user: user@, mobile: mobile@ },
                                Some(true) => AddVerifyAskView::Reply(success(None)),
                                Some(false) => AddVerifyAskView::Reply(
                                    unauthorized("Mobile already in use"@),
                                ),
                            }
                        },
                    },
                },
            },
        },
    }
}

/// Drives a request to complete adding a number from what is known to what is
/// needed next.
pub fn add_verify(s: &AddVerifyState) -> (r: AddVerifyAsk)
    ensures
        r@ == add_verify_next(*s),
{
    let user = match &s.user {
        Some(u) => u,
        None => {
            return AddVerifyAsk::Reply(refuse_unauthorized("no valid session"));
        },
    };
    let (token, code) = match &s.body {
        Some((t, c)) => (t, c),
        None => {
            return AddVerifyAsk::Reply(refuse_unauthorized("Invalid request"));
        },
    };
    match s.has_tenant {
        None => {
            return AddVerifyAsk::Tenant;
        },
        Some(known) => {
            if !known {
                return AddVerifyAsk::Reply(refuse_unauthorized("Failed to find tenant"));
            }
        },
    }
    let stored = match &s.stored {
        None => {
            return AddVerifyAsk::TakeCode(add_key(s.domain.as_str(), token.as_str()));
        },
        Some(None) => {
            return AddVerifyAsk::Reply(refuse_unauthorized("Invalid or expired token"));
        },
        Some(Some(stored)) => stored,
    };
    let mobile = match &s.bound {
        None => {
            return AddVerifyAsk::Verify { user: user.clone(), token: token.clone() };
        },
        Some(None) => {
            return AddVerifyAsk::Reply(refuse_unauthorized("Invalid or expired token"));
        },
        Some(Some(mobile)) => mobile,
    };
    if !same(stored.as_str(), code.as_str()) {
        return AddVerifyAsk::Reply(refuse_unauthorized("Invalid or expired token"));
    }
    match s.created {
        None => AddVerifyAsk::Attach { user: user.clone(), mobile: mobile.clone() },
        Some(created) => if created {
            AddVerifyAsk::Reply(succeed(None))
        } else {
            AddVerifyAsk::Reply(refuse_unauthorized("Mobile already in use"))
        },
    }
}

/// A number is attached to the session's own user only, and only after its
/// code was shown.
pub proof fn law_numbers_go_to_the_session_user(s: AddVerifyState)
    requires
        add_verify_next(s) is Attach,
    ensures
        add_verify_next(s) matches AddVerifyAskView::Attach { user, mobile } && user
            == s.user->0@ && s.bound->0->0@ == mobile,
        s.stored is Some && s.stored->0 is Some,
        s.body matches Some((token, code)) && s.stored->0->0@ == code@,
{
}

/// What removing a number of a user comes to.
pub enum RemoveOutcome {
    Problem(Problem),
    Response(MobileResponse),
}

/// Decides on removing a number. `refused` is the refusal of the level check,
/// where the user is known and the check refused.
pub fn remove(has_session: bool, readable: bool, refused: Option<Problem>, deleted: bool) -> (r:
    RemoveOutcome)
    ensures
        !has_session ==> (r matches RemoveOutcome::Problem(p) && p@ == problem_of(
            401,
            ProblemKind::Unauthorized,
            ""@,
        )),
        has_session && !readable ==> (r matches RemoveOutcome::Response(m) && m@ == refusal(
            400,
            "Failure"@,
        )),
        has_session && readable ==> match refused {
            Some(p) => r matches RemoveOutcome::Problem(q) && q == p,
            None => r matches RemoveOutcome::Response(m) && m@ == (if deleted {
                success(None)
            } else {
                refusal(400, "Failure"@)
            }),
        },
{
    if !has_session {
        return RemoveOutcome::Problem(problem(401, ProblemKind::Unauthorized, ""));
    }
    if !readable {
        return RemoveOutcome::Response(refuse_mobile(400, "Failure"));
    }
    match refused {
        Some(p) => RemoveOutcome::Problem(p),
        None => if deleted {
            RemoveOutcome::Response(succeed(None))
        } else {
            RemoveOutcome::Response(refuse_mobile(400, "Failure"))
        },
    }
}

} // verus!
