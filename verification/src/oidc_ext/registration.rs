//! Dynamic client registration and its management.

use crate::oidc::authorize::Fault;
use crate::oidc::client::{bearer_of, get_bearer_token, Client};
use crate::outside::{
    ordered_uuid, parse_url, parsed_view, url_parts, ParsedUrl, ParsedUrlView,
};
use crate::reply::{
    problem, problem_of, refuse, refused, Problem, ProblemKind, ProblemView, Refusal, RefusalView,
};
use crate::text::{
    cat, cat3, cat5, copy_opt, copy_texts, find_outside, first_outside, has_text, join, joined,
    one_text, opt_str, opt_text, same, split_words, starts_with, strip_prefix, texts, trim, trimmed,
    words,
};
use vstd::prelude::*;

verus! {

/// The hosts of the machine itself.
pub open spec fn loopback(host: Option<Seq<char>>) -> bool {
    ||| host == Some("127.0.0.1"@)
    ||| host == Some("localhost"@)
    ||| host == Some("[::1]"@)
    ||| host == Some("::1"@)
}

pub fn is_loopback_host(host: Option<&str>) -> (r: bool)
    ensures
        r == loopback(opt_str(host)),
{
    match host {
        Some(h) => same(h, "127.0.0.1") || same(h, "localhost") || same(h, "[::1]") || same(
            h,
            "::1",
        ),
        None => false,
    }
}

/// What is wrong with a client's URI, given how it parses: it must be a URL
/// without a fragment, over https, or over http on the machine itself.
pub open spec fn uri_verdict(uri: Seq<char>, parsed: Result<ParsedUrlView, Seq<char>>) -> Option<
    Seq<char>,
> {
    match parsed {
        Err(e) => Some("invalid URI '"@ + uri + "': "@ + e),
        Ok(u) => if u.fragment is Some {
            Some("URI must not contain a fragment: '"@ + uri + "'"@)
        } else if u.scheme == "https"@ || (u.scheme == "http"@ && loopback(u.host)) {
            None
        } else {
            Some(
                "URI scheme '"@ + u.scheme + "' not allowed (https, or http on loopback): '"@ + uri
                    + "'"@,
            )
        },
    }
}

/// Judges a client's URI, given how it parses.
pub fn judge_client_uri(uri: &str, parsed: &Result<ParsedUrl, String>) -> (r: Result<(), String>)
    ensures
        r is Ok <==> uri_verdict(uri@, parsed_view(*parsed)) is None,
        r matches Err(e) ==> uri_verdict(uri@, parsed_view(*parsed)) == Some(e@),
{
    let u = match parsed {
        Ok(u) => u,
        Err(e) => {
            let mut d = cat3("invalid URI '", uri, "': ");
            d.append(e.as_str());
            return Err(d);
        },
    };
    if u.fragment.is_some() {
        return Err(cat3("URI must not contain a fragment: '", uri, "'"));
    }
    let scheme = u.scheme.as_str();
    if same(scheme, "https") {
        return Ok(());
    }
    if same(scheme, "http") && is_loopback_host(crate::text::as_opt_str(&u.host)) {
        return Ok(());
    }
    Err(
        cat5(
            "URI scheme '",
            scheme,
            "' not allowed (https, or http on loopback): '",
            uri,
            "'",
        ),
    )
}

/// What is wrong with a client's URI.
pub open spec fn uri_fault(uri: Seq<char>) -> Option<Seq<char>> {
    uri_verdict(uri, url_parts(uri))
}

/// Checks a redirect or logout URI of a client.
pub fn validate_client_uri(uri: &str) -> (r: Result<(), String>)
    ensures
        r is Ok <==> uri_fault(uri@) is None,
        r matches Err(e) ==> uri_fault(uri@) == Some(e@),
{
    judge_client_uri(uri, &parse_url(uri))
}

/// The grant types that a client may register itself for: none that acts
/// without a user.
pub open spec fn dcr_grant_types() -> Seq<Seq<char>> {
    seq![
        "authorization_code"@,
        "refresh_token"@,
        "urn:ietf:params:oauth:grant-type:device_code"@,
    ]
}

fn self_service_grants() -> (r: Vec<String>)
    ensures
        texts(r@) == dcr_grant_types(),
{
    let mut v: Vec<String> = Vec::new();
    v.push("authorization_code".to_owned());
    v.push("refresh_token".to_owned());
    v.push("urn:ietf:params:oauth:grant-type:device_code".to_owned());
    proof {
        assert(texts(v@) =~= dcr_grant_types());
    }
    v
}

/// The grant types that a registration gets, or what is wrong with them.
pub open spec fn registered_grants(asked: Seq<Seq<char>>) -> Result<Seq<Seq<char>>, Seq<char>> {
    if asked.len() == 0 {
        Ok(seq!["authorization_code"@])
    } else {
        match first_outside(asked, dcr_grant_types()) {
            Some(g) => Err("unsupported grant_type: '"@ + g + "'"@),
            None => if asked.contains("authorization_code"@) {
                Ok(asked)
            } else {
                Err("grant_types must include 'authorization_code'"@)
            },
        }
    }
}

/// The view of a list of strings or of an error.
pub open spec fn texts_or_error(r: Result<Vec<String>, String>) -> Result<
    Seq<Seq<char>>,
    Seq<char>,
> {
    match r {
        Ok(v) => Ok(texts(v@)),
        Err(e) => Err(e@),
    }
}

pub fn validate_dcr_grant_types(grant_types: &[String]) -> (r: Result<Vec<String>, String>)
    ensures
        texts_or_error(r) == registered_grants(texts(grant_types@)),
{
    if grant_types.len() == 0 {
        return Ok(one_text("authorization_code"));
    }
    if let Some(g) = find_outside(grant_types, &self_service_grants()) {
        return Err(cat3("unsupported grant_type: '", g.as_str(), "'"));
    }
    if !has_text(grant_types, "authorization_code") {
        return Err("grant_types must include 'authorization_code'".to_owned());
    }
    Ok(copy_texts(grant_types))
}

/// The response types that a registration gets: the code flow, or an error.
pub open spec fn registered_responses(asked: Seq<Seq<char>>) -> Result<Seq<Seq<char>>, Seq<char>> {
    match first_outside(asked, seq!["code"@]) {
        Some(r) => Err("unsupported response_type: '"@ + r + "'"@),
        None => Ok(seq!["code"@]),
    }
}

pub fn validate_dcr_response_types(response_types: &[String]) -> (r: Result<Vec<String>, String>)
    ensures
        texts_or_error(r) == registered_responses(texts(response_types@)),
{
    let code = one_text("code");
    match find_outside(response_types, &code) {
        Some(r) => Err(cat3("unsupported response_type: '", r.as_str(), "'")),
        None => Ok(code),
    }
}

/// The scopes that the provider knows.
pub open spec fn known_scopes() -> Seq<Seq<char>> {
    seq!["openid"@, "profile"@, "email"@, "offline_access"@]
}

fn scope_vocabulary() -> (r: Vec<String>)
    ensures
        texts(r@) == known_scopes(),
{
    let mut v: Vec<String> = Vec::new();
    v.push("openid".to_owned());
    v.push("profile".to_owned());
    v.push("email".to_owned());
    v.push("offline_access".to_owned());
    proof {
        assert(texts(v@) =~= known_scopes());
    }
    v
}

/// The default scope that a registration gets, its words one blank apart, or
/// what is wrong with it.
pub open spec fn registered_scope(asked: Option<Seq<char>>) -> Result<Seq<char>, Seq<char>> {
    let scope = trimmed(
        match asked {
            Some(s) => s,
            None => "openid"@,
        },
    );
    if scope.len() == 0 {
        Ok("openid"@)
    } else {
        match first_outside(words(scope), known_scopes()) {
            Some(s) => Err("unknown scope: '"@ + s + "'"@),
            None => Ok(joined(words(scope), " "@)),
        }
    }
}

/// The view of a string or of an error.
pub open spec fn text_or_error(r: Result<String, String>) -> Result<Seq<char>, Seq<char>> {
    match r {
        Ok(s) => Ok(s@),
        Err(e) => Err(e@),
    }
}

pub fn validate_dcr_scope(scope: Option<&str>) -> (r: Result<String, String>)
    ensures
        text_or_error(r) == registered_scope(opt_str(scope)),
{
    let scope = match scope {
        Some(s) => trim(s),
        None => trim("openid"),
    };
    if scope.as_str().is_empty() {
        return Ok("openid".to_owned());
    }
    let ws = split_words(scope.as_str());
    match find_outside(&ws, &scope_vocabulary()) {
        Some(s) => Err(cat3("unknown scope: '", s.as_str(), "'")),
        None => Ok(join(&ws, " ")),
    }
}

/// A registration request.
pub struct RegisterRequest {
    pub redirect_uris: Vec<String>,
    pub token_endpoint_auth_method: Option<String>,
    pub grant_types: Option<Vec<String>>,
    pub response_types: Option<Vec<String>>,
    pub scope: Option<String>,
    pub client_name: Option<String>,
    pub backchannel_logout_uri: Option<String>,
    pub post_logout_redirect_uris: Option<Vec<String>>,
}

/// A registration that keeps the rules, in normal form.
pub struct ValidatedRegistration {
    pub auth_method: String,
    pub grant_types: Vec<String>,
    pub response_types: Vec<String>,
    pub scope: String,
    pub post_logout_uris: Vec<String>,
}

pub struct ValidatedView {
    pub auth_method: Seq<char>,
    pub grant_types: Seq<Seq<char>>,
    pub response_types: Seq<Seq<char>>,
    pub scope: Seq<char>,
    pub post_logout_uris: Seq<Seq<char>>,
}

impl View for ValidatedRegistration {
    type V = ValidatedView;

    open spec fn view(&self) -> ValidatedView {
        ValidatedView {
            auth_method: self.auth_method@,
            grant_types: texts(self.grant_types@),
            response_types: texts(self.response_types@),
            scope: self.scope@,
            post_logout_uris: texts(self.post_logout_uris@),
        }
    }
}

/// What is wrong with the first faulty one of some URIs.
pub open spec fn uris_fault(uris: Seq<Seq<char>>) -> Option<Seq<char>>
    decreases uris.len(),
{
    if uris.len() == 0 {
        None
    } else {
        let earlier = uris_fault(uris.drop_last());
        if earlier is Some {
            earlier
        } else {
            uri_fault(uris.last())
        }
    }
}

proof fn lemma_first_uri_fault(uris: Seq<Seq<char>>, n: int)
    requires
        0 <= n <= uris.len(),
        uris_fault(uris.take(n)) is Some,
    ensures
        uris_fault(uris) == uris_fault(uris.take(n)),
    decreases uris.len() - n,
{
    if n == uris.len() {
        assert(uris.take(n) =~= uris);
    } else {
        assert(uris.take(n + 1).drop_last() =~= uris.take(n));
        lemma_first_uri_fault(uris, n + 1);
    }
}

/// Checks each of some URIs; the error is that of the first faulty one.
pub fn validate_client_uris(uris: &[String]) -> (r: Result<(), String>)
    ensures
        r is Ok <==> uris_fault(texts(uris@)) is None,
        r matches Err(e) ==> uris_fault(texts(uris@)) == Some(e@),
{
    let ghost all = texts(uris@);
    let mut i: usize = 0;
    while i < uris.len()
        invariant
            i <= uris@.len(),
            all == texts(uris@),
            uris_fault(all.take(i as int)) is None,
        decreases uris@.len() - i,
    {
        proof {
            assert(all.take(i + 1).drop_last() =~= all.take(i as int));
            assert(all.take(i + 1).last() == uris@[i as int]@);
        }
        if let Err(e) = validate_client_uri(uris[i].as_str()) {
            proof {
                lemma_first_uri_fault(all, i + 1);
            }
            return Err(e);
        }
        i = i + 1;
    }
    proof {
        assert(all.take(all.len() as int) =~= all);
    }
    Ok(())
}

/// The optional list, or an empty one.
pub open spec fn opt_texts(o: Option<Vec<String>>) -> Seq<Seq<char>> {
    match o {
        Some(v) => texts(v@),
        None => Seq::empty(),
    }
}

/// What is wrong with a logout URI to which tokens are posted: the rules of
/// any client URI, and https without exception.
pub open spec fn backchannel_fault(uri: Option<Seq<char>>) -> Option<Seq<char>> {
    match uri {
        None => None,
        Some(u) => match uri_fault(u) {
            Some(e) => Some(e),
            None => if starts_with(u, "https://"@) {
                None
            } else {
                Some("backchannel_logout_uri must be https"@)
            },
        },
    }
}

fn check_backchannel(uri: &Option<String>) -> (r: Result<(), String>)
    ensures
        r is Ok <==> backchannel_fault(opt_text(*uri)) is None,
        r matches Err(e) ==> backchannel_fault(opt_text(*uri)) == Some(e@),
{
    let u = match uri {
        Some(u) => u,
        None => {
            return Ok(());
        },
    };
    if let Err(e) = validate_client_uri(u.as_str()) {
        return Err(e);
    }
    match strip_prefix(u.as_str(), "https://") {
        Some(_) => Ok(()),
        None => Err("backchannel_logout_uri must be https".to_owned()),
    }
}

pub open spec fn bad_metadata<T>(description: Seq<char>) -> Result<T, (Seq<char>, Seq<char>)> {
    Err(("invalid_client_metadata"@, description))
}

/// The method by which the client will authenticate.
pub open spec fn asked_method(body: RegisterRequest) -> Seq<char> {
    match body.token_endpoint_auth_method {
        Some(m) => m@,
        None => "client_secret_basic"@,
    }
}

/// The rules of a registration in their order: redirect URIs, authentication
/// method, grant types, response types, scope, name, logout URIs.
pub open spec fn registration_verdict(body: RegisterRequest) -> Result<
    ValidatedView,
    (Seq<char>, Seq<char>),
> {
    let method = asked_method(body);
    if body.redirect_uris@.len() == 0 {
        Err(("invalid_redirect_uri"@, "redirect_uris is required"@))
    } else if uris_fault(texts(body.redirect_uris@)) is Some {
        Err(("invalid_redirect_uri"@, uris_fault(texts(body.redirect_uris@))->0))
    } else if method != "client_secret_basic"@ && method != "client_secret_post"@ && method
        != "none"@ {
        bad_metadata("unsupported token_endpoint_auth_method: '"@ + method + "'"@)
    } else {
        match registered_grants(opt_texts(body.grant_types)) {
            Err(e) => bad_metadata(e),
            Ok(grant_types) => match registered_responses(opt_texts(body.response_types)) {
                Err(e) => bad_metadata(e),
                Ok(response_types) => match registered_scope(opt_text(body.scope)) {
                    Err(e) => bad_metadata(e),
                    Ok(scope) => if body.client_name is Some && body.client_name->0@.len() > 200 {
                        bad_metadata("client_name too long"@)
                    } else if backchannel_fault(opt_text(body.backchannel_logout_uri)) is Some {
                        bad_metadata(backchannel_fault(opt_text(body.backchannel_logout_uri))->0)
                    } else if uris_fault(opt_texts(body.post_logout_redirect_uris)) is Some {
                        bad_metadata(uris_fault(opt_texts(body.post_logout_redirect_uris))->0)
                    } else {
                        Ok(
                            ValidatedView {
                                auth_method: method,
                                grant_types,
                                response_types,
                                scope,
                                post_logout_uris: opt_texts(body.post_logout_redirect_uris),
                            },
                        )
                    },
                },
            },
        }
    }
}

fn metadata_fault(description: String) -> (r: Result<ValidatedRegistration, Fault>)
    ensures
        r matches Err(f) && f.error@ == "invalid_client_metadata"@ && f.description@
            == description@,
{
    Err(Fault { error: "invalid_client_metadata".to_owned(), description })
}

fn list_or_empty(o: &Option<Vec<String>>) -> (r: Vec<String>)
    ensures
        texts(r@) == opt_texts(*o),
{
    match o {
        Some(v) => copy_texts(v),
        None => {
            let v: Vec<String> = Vec::new();
            proof {
                assert(texts(v@) =~= Seq::<Seq<char>>::empty());
            }
            v
        },
    }
}

/// Checks a registration and brings it into normal form. The same rules hold
/// for a new registration and for an update.
pub fn validate_registration(body: &RegisterRequest) -> (r: Result<ValidatedRegistration, Fault>)
    ensures
        (match r {
            Ok(v) => Ok(v@),
            Err(f) => Err((f.error@, f.description@)),
        }) == registration_verdict(*body),
{
    if body.redirect_uris.len() == 0 {
        return Err(
            Fault {
                error: "invalid_redirect_uri".to_owned(),
                description: "redirect_uris is required".to_owned(),
            },
        );
    }
    if let Err(e) = validate_client_uris(&body.redirect_uris) {
        return Err(Fault { error: "invalid_redirect_uri".to_owned(), description: e });
    }
    let method = match &body.token_endpoint_auth_method {
        Some(m) => m.clone(),
        None => "client_secret_basic".to_owned(),
    };
    if !same(method.as_str(), "client_secret_basic") && !same(
        method.as_str(),
        "client_secret_post",
    ) && !same(method.as_str(), "none") {
        return metadata_fault(
            cat3("unsupported token_endpoint_auth_method: '", method.as_str(), "'"),
        );
    }
    let asked_grants = list_or_empty(&body.grant_types);
    let grant_types = match validate_dcr_grant_types(&asked_grants) {
        Ok(g) => g,
        Err(e) => {
            return metadata_fault(e);
        },
    };
    let asked_responses = list_or_empty(&body.response_types);
    let response_types = match validate_dcr_response_types(&asked_responses) {
        Ok(g) => g,
        Err(e) => {
            return metadata_fault(e);
        },
    };
    let scope = match validate_dcr_scope(crate::text::as_opt_str(&body.scope)) {
        Ok(s) => s,
        Err(e) => {
            return metadata_fault(e);
        },
    };
    if let Some(name) = &body.client_name {
        if name.as_str().unicode_len() > 200 {
            return metadata_fault("client_name too long".to_owned());
        }
    }
    if let Err(e) = check_backchannel(&body.backchannel_logout_uri) {
        return metadata_fault(e);
    }
    let post_logout_uris = list_or_empty(&body.post_logout_redirect_uris);
    if let Err(e) = validate_client_uris(&post_logout_uris) {
        return metadata_fault(e);
    }
    Ok(
        ValidatedRegistration {
            auth_method: method,
            grant_types,
            response_types,
            scope,
            post_logout_uris,
        },
    )
}

/// The extended metadata of a client.
pub struct ClientMeta {
    pub client_name: Option<String>,
    pub backchannel_logout_uri: Option<String>,
    pub post_logout_redirect_uris: Vec<String>,
    /// Whether the client registered itself.
    pub dynamic: bool,
}

impl ClientMeta {
    /// The metadata of a client that registered itself so.
    pub open spec fn keeps(&self, body: RegisterRequest, v: ValidatedView) -> bool {
        &&& opt_text(self.client_name) == opt_text(body.client_name)
        &&& opt_text(self.backchannel_logout_uri) == opt_text(body.backchannel_logout_uri)
        &&& texts(self.post_logout_redirect_uris@) == v.post_logout_uris
        &&& self.dynamic
    }

    /// The metadata `before` after a change: what the request gives replaces
    /// what was there, what it leaves out stays.
    pub open spec fn changes(&self, before: ClientMeta, req: ClientMetaRequest) -> bool {
        &&& opt_text(self.client_name) == (if req.client_name is Some {
            opt_text(req.client_name)
        } else {
            opt_text(before.client_name)
        })
        &&& opt_text(self.backchannel_logout_uri) == (match req.backchannel_logout_uri {
            Some(u) => if u@.len() == 0 {
                None
            } else {
                Some(u@)
            },
            None => opt_text(before.backchannel_logout_uri),
        })
        &&& texts(self.post_logout_redirect_uris@) == (match req.post_logout_redirect_uris {
            Some(v) => texts(v@),
            None => texts(before.post_logout_redirect_uris@),
        })
        &&& self.dynamic == before.dynamic
    }
}

/// The metadata that a registration stores.
pub fn registration_meta(body: &RegisterRequest, v: &ValidatedRegistration) -> (r: ClientMeta)
    ensures
        r.keeps(*body, v@),
{
    ClientMeta {
        client_name: copy_opt(&body.client_name),
        backchannel_logout_uri: copy_opt(&body.backchannel_logout_uri),
        post_logout_redirect_uris: copy_texts(&v.post_logout_uris),
        dynamic: true,
    }
}

/// Why a registration is refused before anything is stored: the tenant is
/// unknown or keeps registration closed, the body is no JSON, or the metadata
/// break a rule.
pub open spec fn register_gate(has_tenant: bool, enabled: bool, body: Option<RegisterRequest>) -> Result<
    ValidatedView,
    RefusalView,
> {
    if !has_tenant {
        Err(refused(400, "invalid_client_metadata"@, "unknown tenant domain"@))
    } else if !enabled {
        Err(
            refused(
                400,
                "invalid_client_metadata"@,
                "dynamic client registration is not enabled for this tenant"@,
            ),
        )
    } else {
        body_verdict(body)
    }
}

/// What a registration body amounts to.
pub open spec fn body_verdict(body: Option<RegisterRequest>) -> Result<ValidatedView, RefusalView> {
    match body {
        None => Err(refused(400, "invalid_client_metadata"@, "request body must be JSON"@)),
        Some(b) => match registration_verdict(b) {
            Err((error, description)) => Err(refused(400, error, description)),
            Ok(v) => Ok(v),
        },
    }
}

/// The view of a validated registration or of its refusal.
pub open spec fn validated_or_refusal(r: Result<ValidatedRegistration, Refusal>) -> Result<
    ValidatedView,
    RefusalView,
> {
    match r {
        Ok(v) => Ok(v@),
        Err(e) => Err(e@),
    }
}

/// Checks the body of a registration or of an update.
pub fn registration_body(body: &Option<RegisterRequest>) -> (r: Result<
    ValidatedRegistration,
    Refusal,
>)
    ensures
        validated_or_refusal(r) == body_verdict(*body),
{
    match body {
        None => Err(refuse(400, "invalid_client_metadata", "request body must be JSON")),
        Some(b) => match validate_registration(b) {
            Ok(v) => Ok(v),
            Err(f) => Err(refuse(400, f.error.as_str(), f.description.as_str())),
        },
    }
}

/// Checks a registration before anything is stored.
pub fn register(has_tenant: bool, enabled: bool, body: &Option<RegisterRequest>) -> (r: Result<
    ValidatedRegistration,
    Refusal,
>)
    ensures
        validated_or_refusal(r) == register_gate(has_tenant, enabled, *body),
{
    if !has_tenant {
        return Err(refuse(400, "invalid_client_metadata", "unknown tenant domain"));
    }
    if !enabled {
        return Err(
            refuse(
                400,
                "invalid_client_metadata",
                "dynamic client registration is not enabled for this tenant",
            ),
        );
    }
    registration_body(body)
}

/// What the store answered while a registration is carried out.
pub enum RegisterEvent {
    /// The client was created, or not.
    Created(Result<(), String>),
    /// Its metadata were saved, or not.
    MetaSaved(Result<(), String>),
    /// Its management credential of this identifier was signed; none where it
    /// was not.
    Signed(Option<String>),
    /// The identifier was put on record, or not.
    Recorded(Result<(), String>),
}

/// What to do next to carry out a registration or an update.
pub enum RegisterAction {
    SaveMeta,
    SignToken,
    /// Put this identifier on record as that of the client's one management
    /// credential, in place of the one on record so far.
    Record(String),
    Answer,
}

pub enum RegisterActionView {
    SaveMeta,
    SignToken,
    Record(Seq<char>),
    Answer,
}

impl View for RegisterAction {
    type V = RegisterActionView;

    open spec fn view(&self) -> RegisterActionView {
        match self {
            RegisterAction::SaveMeta => RegisterActionView::SaveMeta,
            RegisterAction::SignToken => RegisterActionView::SignToken,
            RegisterAction::Record(jti) => RegisterActionView::Record(jti@),
            RegisterAction::Answer => RegisterActionView::Answer,
        }
    }
}

/// Why a registration fails after its checks, and whether the client that was
/// created must be deleted again.
pub struct RegisterFailure {
    pub refusal: Refusal,
    pub delete_client: bool,
}

/// The next action of a registration, or its failure. Once the client exists,
/// every failure deletes it.
pub open spec fn register_next(event: RegisterEvent) -> Result<
    RegisterActionView,
    (RefusalView, bool),
> {
    let not_issued: (RefusalView, bool) = (
        refused(
            400,
            "invalid_client_metadata"@,
            "failed to issue the registration access token"@,
        ),
        true,
    );
    match event {
        RegisterEvent::Created(Ok(_)) => Ok(RegisterActionView::SaveMeta),
        RegisterEvent::Created(Err(e)) => Err(
            (refused(400, "invalid_client_metadata"@, e@), false),
        ),
        RegisterEvent::MetaSaved(Ok(_)) => Ok(RegisterActionView::SignToken),
        RegisterEvent::MetaSaved(Err(e)) => Err(
            (refused(400, "invalid_client_metadata"@, e@), true),
        ),
        RegisterEvent::Signed(Some(jti)) => Ok(RegisterActionView::Record(jti@)),
        RegisterEvent::Signed(None) => Err(not_issued),
        RegisterEvent::Recorded(Ok(_)) => Ok(RegisterActionView::Answer),
        RegisterEvent::Recorded(Err(_)) => Err(not_issued),
    }
}

fn not_issued() -> (r: RegisterFailure)
    ensures
        r.refusal@ == refused(
            400,
            "invalid_client_metadata"@,
            "failed to issue the registration access token"@,
        ),
        r.delete_client,
{
    RegisterFailure {
        refusal: refuse(
            400,
            "invalid_client_metadata",
            "failed to issue the registration access token",
        ),
        delete_client: true,
    }
}

/// Drives a registration from one answer of the store to the next action.
pub fn register_step(event: &RegisterEvent) -> (r: Result<RegisterAction, RegisterFailure>)
    ensures
        (match r {
            Ok(a) => Ok(a@),
            Err(f) => Err((f.refusal@, f.delete_client)),
        }) == register_next(*event),
{
    match event {
        RegisterEvent::Created(Ok(_)) => Ok(RegisterAction::SaveMeta),
        RegisterEvent::Created(Err(e)) => Err(
            RegisterFailure {
                refusal: refuse(400, "invalid_client_metadata", e.as_str()),
                delete_client: false,
            },
        ),
        RegisterEvent::MetaSaved(Ok(_)) => Ok(RegisterAction::SignToken),
        RegisterEvent::MetaSaved(Err(e)) => Err(
            RegisterFailure {
                refusal: refuse(400, "invalid_client_metadata", e.as_str()),
                delete_client: true,
            },
        ),
        RegisterEvent::Signed(Some(jti)) => Ok(RegisterAction::Record(jti.clone())),
        RegisterEvent::Signed(None) => Err(not_issued()),
        RegisterEvent::Recorded(Ok(_)) => Ok(RegisterAction::Answer),
        RegisterEvent::Recorded(Err(_)) => Err(not_issued()),
    }
}

/// The answer to a registration or to an update.
pub struct RegisterResponse {
    pub client_id: String,
    pub client_secret: Option<String>,
    pub client_id_issued_at: i64,
    /// 0: the secret never expires.
    pub client_secret_expires_at: i64,
    pub redirect_uris: Vec<String>,
    pub token_endpoint_auth_method: String,
    pub grant_types: Vec<String>,
    pub response_types: Vec<String>,
    pub scope: String,
    pub client_name: Option<String>,
    pub backchannel_logout_uri: Option<String>,
    pub post_logout_redirect_uris: Vec<String>,
    pub registration_access_token: String,
    pub registration_client_uri: String,
}

impl RegisterResponse {
    /// The metadata of the answer are those of the validated registration.
    pub open spec fn states(&self, body: RegisterRequest, v: ValidatedView) -> bool {
        &&& texts(self.redirect_uris@) == texts(body.redirect_uris@)
        &&& self.token_endpoint_auth_method@ == v.auth_method
        &&& texts(self.grant_types@) == v.grant_types
        &&& texts(self.response_types@) == v.response_types
        &&& self.scope@ == v.scope
        &&& opt_text(self.client_name) == opt_text(body.client_name)
        &&& opt_text(self.backchannel_logout_uri) == opt_text(body.backchannel_logout_uri)
        &&& texts(self.post_logout_redirect_uris@) == v.post_logout_uris
        &&& self.client_secret_expires_at == 0
    }
}

/// The identity and the credentials that an answer hands out.
pub struct Credentials {
    pub issuer: String,
    pub client_id: String,
    /// The secret of a new client; none on an update, which never shows it.
    pub secret: Option<String>,
    pub issued_at: i64,
    pub access_token: String,
}

impl RegisterResponse {
    /// The identity and the credentials of the answer: a client that
    /// authenticates by no secret is shown none.
    pub open spec fn hands_out(&self, c: Credentials, v: ValidatedView) -> bool {
        &&& self.client_id@ == c.client_id@
        &&& opt_text(self.client_secret) == (if v.auth_method == "none"@ {
            None
        } else {
            opt_text(c.secret)
        })
        &&& self.client_id_issued_at == c.issued_at
        &&& self.registration_access_token@ == c.access_token@
        &&& self.registration_client_uri@ == c.issuer@ + "/register/"@ + c.client_id@
    }
}

/// The answer to a registration or to an update. A client that authenticates
/// by no secret is shown none.
pub fn registration_answer(c: Credentials, body: &RegisterRequest, v: &ValidatedRegistration) -> (r:
    RegisterResponse)
    ensures
        r.states(*body, v@),
        r.hands_out(c, v@),
        r.registration_access_token == c.access_token,
{
    let uri = cat3(c.issuer.as_str(), "/register/", c.client_id.as_str());
    let client_secret = if same(v.auth_method.as_str(), "none") {
        None
    } else {
        c.secret
    };
    RegisterResponse {
        client_id: c.client_id,
        client_secret,
        client_id_issued_at: c.issued_at,
        client_secret_expires_at: 0,
        redirect_uris: copy_texts(&body.redirect_uris),
        token_endpoint_auth_method: v.auth_method.clone(),
        grant_types: copy_texts(&v.grant_types),
        response_types: copy_texts(&v.response_types),
        scope: v.scope.clone(),
        client_name: copy_opt(&body.client_name),
        backchannel_logout_uri: copy_opt(&body.backchannel_logout_uri),
        post_logout_redirect_uris: copy_texts(&v.post_logout_uris),
        registration_access_token: c.access_token,
        registration_client_uri: uri,
    }
}

/// How long a management credential lives, in minutes: ten years.
pub const REGISTRATION_TOKEN_LIFETIME_MINUTES: i32 = 5256000;

/// What a management credential claims.
pub struct RegistrationClaims {
    pub iss: String,
    pub sub: String,
    pub aud: String,
    pub typ: Option<String>,
    /// What sets the credential apart from every other of the client, those of
    /// the same second included.
    pub jti: String,
}

/// A management credential that is about to be signed.
pub struct RegistrationToken {
    pub claims: RegistrationClaims,
    pub minutes: i32,
}

/// A new identifier, which is not the one that it takes the place of.
fn fresh_jti(previous: Option<&str>) -> (r: String)
    ensures
        Some(r@) != opt_str(previous),
        r@.len() >= 36,
{
    let id = ordered_uuid();
    if let Some(p) = previous {
        if same(id.as_str(), p) {
            proof {
                reveal_strlit("+");
            }
            let longer = cat(id.as_str(), "+");
            assert(longer@.len() == id@.len() + 1);
            return longer;
        }
    }
    id
}

/// A new management credential of a client, which is not the `previous` one.
pub fn mint_registration_token(issuer: &str, client_id: &str, previous: Option<&str>) -> (r:
    RegistrationToken)
    ensures
        manages(r.claims, issuer@, client_id@),
        Some(r.claims.jti@) != opt_str(previous),
        r.claims.jti@.len() >= 36,
        r.minutes == REGISTRATION_TOKEN_LIFETIME_MINUTES,
        r.minutes == 10 * 365 * 24 * 60,
{
    RegistrationToken {
        claims: RegistrationClaims {
            iss: issuer.to_owned(),
            sub: client_id.to_owned(),
            aud: client_id.to_owned(),
            typ: Some("client_registration".to_owned()),
            jti: fresh_jti(previous),
        },
        minutes: REGISTRATION_TOKEN_LIFETIME_MINUTES,
    }
}

/// A management credential manages one client of one issuer.
pub proof fn law_credential_manages_one_client(
    c: RegistrationClaims,
    issuer: Seq<char>,
    client_id: Seq<char>,
    other_issuer: Seq<char>,
    other_client: Seq<char>,
)
    requires
        manages(c, issuer, client_id),
    ensures
        manages(c, other_issuer, other_client) <==> other_issuer == issuer && other_client
            == client_id,
{
}

/// Whether claims are those of a management credential of a client.
pub open spec fn manages(c: RegistrationClaims, issuer: Seq<char>, client_id: Seq<char>) -> bool {
    &&& c.iss@ == issuer
    &&& c.sub@ == client_id
    &&& c.aud@ == client_id
    &&& opt_text(c.typ) == Some("client_registration"@)
}

/// Whether a decoded token is the management credential of a client: the one
/// whose identifier is on record. A client without a record has none.
pub open spec fn is_credential(
    decoded: Option<RegistrationClaims>,
    issuer: Seq<char>,
    client_id: Seq<char>,
    current: Option<Seq<char>>,
) -> bool {
    decoded is Some && manages(decoded->0, issuer, client_id) && Some(decoded->0.jti@) == current
}

/// Whether a decoded token is the management credential of a client, given the
/// identifier on record.
pub fn verify_registration_token(
    decoded: &Option<RegistrationClaims>,
    issuer: &str,
    client_id: &str,
    current: Option<&str>,
) -> (r: bool)
    ensures
        r == is_credential(*decoded, issuer@, client_id@, opt_str(current)),
{
    match decoded {
        Some(c) => {
            let typ_ok = match &c.typ {
                Some(t) => same(t.as_str(), "client_registration"),
                None => false,
            };
            same(c.iss.as_str(), issuer) && same(c.sub.as_str(), client_id) && same(
                c.aud.as_str(),
                client_id,
            ) && typ_ok && (match current {
                Some(jti) => same(c.jti.as_str(), jti),
                None => false,
            })
        },
        None => false,
    }
}

/// An update ends the credential that was on record: what it puts on record is
/// the identifier of the new credential, which is then the client's, and the
/// old one is not any more.
pub proof fn law_rotation_ends_the_old_credential(
    issuer: Seq<char>,
    client_id: Seq<char>,
    old_claims: RegistrationClaims,
    new_claims: RegistrationClaims,
    signed: String,
)
    requires
        manages(new_claims, issuer, client_id),
        new_claims.jti@ != old_claims.jti@,
        signed@ == new_claims.jti@,
    ensures
        update_next(UpdateEvent::Signed(Ok(signed))) matches Ok(RegisterActionView::Record(jti))
            && is_credential(Some(new_claims), issuer, client_id, Some(jti)) && !is_credential(
            Some(old_claims),
            issuer,
            client_id,
            Some(jti),
        ),
{
}

/// The token of a management request's bearer header.
pub fn management_token(authorization: Option<&str>) -> (r: Option<String>)
    ensures
        opt_text(r) == (match bearer_of(opt_str(authorization)) {
            Some(t) => Some(trimmed(t)),
            None => None,
        }),
{
    match get_bearer_token(authorization) {
        Some(t) => Some(trim(t.as_str())),
        None => None,
    }
}

/// Whether a management request is authenticated: by its credential or by the
/// client's secret, which a public client has not.
pub open spec fn may_manage(token_ok: bool, auth_method: Seq<char>, secret_ok: Option<bool>) -> bool {
    token_ok || (auth_method != "none"@ && secret_ok == Some(true))
}

/// Whether a management request is authenticated: by its credential, or, for
/// a confidential client, by its secret. `secret_ok` is the outcome of the
/// password check, where a secret was presented.
pub fn authenticate_management(token_ok: bool, auth_method: &str, secret_ok: Option<bool>) -> (r:
    bool)
    ensures
        r == may_manage(token_ok, auth_method@, secret_ok),
{
    if token_ok {
        return true;
    }
    if same(auth_method, "none") {
        return false;
    }
    match secret_ok {
        Some(ok) => ok,
        None => false,
    }
}

/// Why a management request is refused: it must name a client of the domain
/// and be authenticated for it.
pub open spec fn management_fault(
    client_id: Option<Seq<char>>,
    has_tenant: bool,
    client_domain: Option<Seq<char>>,
    domain: Seq<char>,
    authenticated: bool,
) -> Option<RefusalView> {
    if client_id is None || client_id->0.len() == 0 {
        Some(refused(400, "invalid_request"@, "missing client_id"@))
    } else if !has_tenant {
        Some(refused(400, "invalid_request"@, "unknown tenant domain"@))
    } else if client_domain != Some(domain) {
        Some(refused(401, "invalid_client"@, "unknown client"@))
    } else if !authenticated {
        Some(refused(401, "invalid_client"@, "client authentication failed"@))
    } else {
        None
    }
}

/// Checks a management request: read, update or delete.
pub fn check_management(
    client_id: Option<&str>,
    has_tenant: bool,
    client_domain: Option<&str>,
    domain: &str,
    authenticated: bool,
) -> (r: Result<(), Refusal>)
    ensures
        r is Ok <==> management_fault(
            opt_str(client_id),
            has_tenant,
            opt_str(client_domain),
            domain@,
            authenticated,
        ) is None,
        r matches Err(e) ==> management_fault(
            opt_str(client_id),
            has_tenant,
            opt_str(client_domain),
            domain@,
            authenticated,
        ) == Some(e@),
{
    let named = match client_id {
        Some(id) => !id.is_empty(),
        None => false,
    };
    if !named {
        return Err(refuse(400, "invalid_request", "missing client_id"));
    }
    if !has_tenant {
        return Err(refuse(400, "invalid_request", "unknown tenant domain"));
    }
    let here = match client_domain {
        Some(d) => same(d, domain),
        None => false,
    };
    if !here {
        return Err(refuse(401, "invalid_client", "unknown client"));
    }
    if !authenticated {
        return Err(refuse(401, "invalid_client", "client authentication failed"));
    }
    Ok(())
}

/// The refusal of an update or of a deletion that the store did not carry out.
pub fn store_refusal(error: &str) -> (r: Refusal)
    ensures
        r@ == refused(400, "invalid_client_metadata"@, error@),
{
    refuse(400, "invalid_client_metadata", error)
}

/// The refusal of an update whose new credential could not be signed or put on
/// record.
pub fn rotation_refusal(error: &str) -> (r: Refusal)
    ensures
        r@ == rotation_refused(error@),
{
    let d = cat(
        "metadata updated, but rotating the registration access token failed: ",
        error,
    );
    refuse(400, "invalid_client_metadata", d.as_str())
}

/// The metadata of a registered client.
pub struct ClientMetadata {
    pub client_id: String,
    pub redirect_uris: Vec<String>,
    pub token_endpoint_auth_method: String,
    pub grant_types: Vec<String>,
    pub response_types: Vec<String>,
    pub scope: String,
    pub client_name: Option<String>,
    pub backchannel_logout_uri: Option<String>,
    pub post_logout_redirect_uris: Vec<String>,
}

impl ClientMetadata {
    /// The metadata are those of the client as it is stored.
    pub open spec fn describes(
        &self,
        client: Client,
        redirect_uris: Seq<Seq<char>>,
        meta: ClientMeta,
    ) -> bool {
        &&& self.client_id@ == client.id@
        &&& texts(self.redirect_uris@) == redirect_uris
        &&& self.token_endpoint_auth_method@ == client.token_endpoint_auth_method@
        &&& texts(self.grant_types@) == texts(client.grant_types@)
        &&& texts(self.response_types@) == texts(client.response_types@)
        &&& self.scope@ == client.scope@
        &&& opt_text(self.client_name) == opt_text(meta.client_name)
        &&& opt_text(self.backchannel_logout_uri) == opt_text(meta.backchannel_logout_uri)
        &&& texts(self.post_logout_redirect_uris@) == texts(meta.post_logout_redirect_uris@)
    }
}

/// The metadata of a registered client; no secret is among them.
pub fn register_read(client: &Client, redirect_uris: &[String], meta: &ClientMeta) -> (r:
    ClientMetadata)
    ensures
        r.describes(*client, texts(redirect_uris@), *meta),
{
    ClientMetadata {
        client_id: client.id.clone(),
        redirect_uris: copy_texts(redirect_uris),
        token_endpoint_auth_method: client.token_endpoint_auth_method.clone(),
        grant_types: copy_texts(&client.grant_types),
        response_types: copy_texts(&client.response_types),
        scope: client.scope.clone(),
        client_name: copy_opt(&meta.client_name),
        backchannel_logout_uri: copy_opt(&meta.backchannel_logout_uri),
        post_logout_redirect_uris: copy_texts(&meta.post_logout_redirect_uris),
    }
}

/// What the store answered while an update is carried out.
pub enum UpdateEvent {
    Updated(Result<(), String>),
    MetaSaved(Result<(), String>),
    /// The new management credential of this identifier was signed, or why it
    /// was not.
    Signed(Result<String, String>),
    /// The identifier was put on record, or why it was not.
    Recorded(Result<(), String>),
}

/// The refusal of an update whose new credential does not come into force.
pub open spec fn rotation_refused(error: Seq<char>) -> RefusalView {
    refused(
        400,
        "invalid_client_metadata"@,
        "metadata updated, but rotating the registration access token failed: "@ + error,
    )
}

/// The next action of an update, or its failure.
pub open spec fn update_next(event: UpdateEvent) -> Result<RegisterActionView, RefusalView> {
    match event {
        UpdateEvent::Updated(Ok(_)) => Ok(RegisterActionView::SaveMeta),
        UpdateEvent::Updated(Err(e)) => Err(refused(400, "invalid_client_metadata"@, e@)),
        UpdateEvent::MetaSaved(Ok(_)) => Ok(RegisterActionView::SignToken),
        UpdateEvent::MetaSaved(Err(e)) => Err(refused(400, "invalid_client_metadata"@, e@)),
        UpdateEvent::Signed(Ok(jti)) => Ok(RegisterActionView::Record(jti@)),
        UpdateEvent::Signed(Err(e)) => Err(rotation_refused(e@)),
        UpdateEvent::Recorded(Ok(_)) => Ok(RegisterActionView::Answer),
        UpdateEvent::Recorded(Err(e)) => Err(rotation_refused(e@)),
    }
}

/// Drives an update from one answer of the store to the next action. Nothing
/// is rolled back: the client was there before. The identifier of the new
/// credential is put on record, which ends the old one; until then the old one
/// is in force.
pub fn register_update(event: &UpdateEvent) -> (r: Result<RegisterAction, Refusal>)
    ensures
        (match r {
            Ok(a) => Ok(a@),
            Err(e) => Err(e@),
        }) == update_next(*event),
{
    match event {
        UpdateEvent::Updated(Ok(_)) => Ok(RegisterAction::SaveMeta),
        UpdateEvent::Updated(Err(e)) => Err(store_refusal(e.as_str())),
        UpdateEvent::MetaSaved(Ok(_)) => Ok(RegisterAction::SignToken),
        UpdateEvent::MetaSaved(Err(e)) => Err(store_refusal(e.as_str())),
        UpdateEvent::Signed(Ok(jti)) => Ok(RegisterAction::Record(jti.clone())),
        UpdateEvent::Signed(Err(e)) => Err(rotation_refusal(e.as_str())),
        UpdateEvent::Recorded(Ok(_)) => Ok(RegisterAction::Answer),
        UpdateEvent::Recorded(Err(e)) => Err(rotation_refusal(e.as_str())),
    }
}

/// What a deletion comes to that the store answered so: the status of an answer
/// without content, or the refusal.
pub fn register_delete(deleted: &Result<(), String>) -> (r: Result<u16, Refusal>)
    ensures
        (match *deleted {
            Ok(_) => r == Ok::<u16, Refusal>(204),
            Err(e) => r matches Err(x) && x@ == refused(400, "invalid_client_metadata"@, e@),
        }),
{
    match deleted {
        Ok(_) => Ok(204),
        Err(e) => Err(store_refusal(e.as_str())),
    }
}

/// Why the tenant's settings are neither read nor changed.
pub open spec fn settings_fault(readable: bool, has_tenant: bool) -> Option<ProblemView> {
    if !readable {
        Some(problem_of(400, ProblemKind::Validation, "Failed to parse request body"@))
    } else if !has_tenant {
        Some(problem_of(400, ProblemKind::NotFound, "Unknown domain"@))
    } else {
        None
    }
}

/// Checks a request about the tenant's settings.
pub fn check_settings(readable: bool, has_tenant: bool) -> (r: Result<(), Problem>)
    ensures
        r is Ok <==> settings_fault(readable, has_tenant) is None,
        r matches Err(p) ==> settings_fault(readable, has_tenant) == Some(p@),
{
    if !readable {
        return Err(problem(400, ProblemKind::Validation, "Failed to parse request body"));
    }
    if !has_tenant {
        return Err(problem(400, ProblemKind::NotFound, "Unknown domain"));
    }
    Ok(())
}

/// Checks a request to change a client's metadata: the client must be one of
/// the domain.
pub fn check_client_meta(
    readable: bool,
    has_tenant: bool,
    client_domain: Option<&str>,
    domain: &str,
) -> (r: Result<(), Problem>)
    ensures
        r is Ok <==> settings_fault(readable, has_tenant) is None && opt_str(client_domain) == Some(
            domain@,
        ),
        r matches Err(p) ==> p@ == (match settings_fault(readable, has_tenant) {
            Some(f) => f,
            None => problem_of(400, ProblemKind::NotFound, "Unknown OAuth2 client"@),
        }),
{
    if let Err(p) = check_settings(readable, has_tenant) {
        return Err(p);
    }
    let here = match client_domain {
        Some(d) => same(d, domain),
        None => false,
    };
    if here {
        Ok(())
    } else {
        Err(problem(400, ProblemKind::NotFound, "Unknown OAuth2 client"))
    }
}

/// A change to a client's extended metadata.
pub struct ClientMetaRequest {
    pub client_id: String,
    pub client_name: Option<String>,
    pub backchannel_logout_uri: Option<String>,
    pub post_logout_redirect_uris: Option<Vec<String>>,
}

/// What is wrong with a change of metadata. An empty logout URI takes the
/// stored one away and needs no check.
pub open spec fn meta_fault(req: ClientMetaRequest) -> Option<Seq<char>> {
    let uri = opt_text(req.backchannel_logout_uri);
    let first = if uri is Some && uri->0.len() == 0 {
        None
    } else {
        backchannel_fault(uri)
    };
    if first is Some {
        first
    } else {
        uris_fault(opt_texts(req.post_logout_redirect_uris))
    }
}

/// The metadata after a change: what the request gives replaces what was
/// there, what it leaves out stays.
pub fn set_client_meta(meta: ClientMeta, req: &ClientMetaRequest) -> (r: Result<ClientMeta, String>)
    ensures
        r is Ok <==> meta_fault(*req) is None,
        r matches Err(e) ==> meta_fault(*req) == Some(e@),
        r matches Ok(m) ==> m.changes(meta, *req),
{
    let client_name = match &req.client_name {
        Some(n) => Some(n.clone()),
        None => meta.client_name,
    };
    let backchannel_logout_uri = match &req.backchannel_logout_uri {
        Some(u) => if u.as_str().is_empty() {
            None
        } else {
            if let Err(e) = check_backchannel(&req.backchannel_logout_uri) {
                return Err(e);
            }
            Some(u.clone())
        },
        None => meta.backchannel_logout_uri,
    };
    let post_logout_redirect_uris = match &req.post_logout_redirect_uris {
        Some(uris) => {
            if let Err(e) = validate_client_uris(uris) {
                return Err(e);
            }
            copy_texts(uris)
        },
        None => meta.post_logout_redirect_uris,
    };
    Ok(
        ClientMeta {
            client_name,
            backchannel_logout_uri,
            post_logout_redirect_uris,
            dynamic: meta.dynamic,
        },
    )
}

/// A self-registered client never gets a grant that acts without a user, and
/// always the code grant that its redirect URIs are for.
pub proof fn law_self_registration_needs_a_user(asked: Seq<Seq<char>>)
    requires
        registered_grants(asked) is Ok,
    ensures
        !registered_grants(asked)->Ok_0.contains("client_credentials"@),
        registered_grants(asked)->Ok_0.contains("authorization_code"@),
{
    reveal_strlit("client_credentials");
    reveal_strlit("authorization_code");
    reveal_strlit("refresh_token");
    reveal_strlit("urn:ietf:params:oauth:grant-type:device_code");
    crate::text::lemma_none_outside(asked, dcr_grant_types());
    let got = registered_grants(asked)->Ok_0;
    assert("client_credentials"@[0] == 'c');
    assert(!dcr_grant_types().contains("client_credentials"@)) by {
        assert("authorization_code"@[0] == 'a');
        assert("refresh_token"@[0] == 'r');
        assert("urn:ietf:params:oauth:grant-type:device_code"@[0] == 'u');
    }
    if asked.len() == 0 {
        assert(got[0] == "authorization_code"@);
        if got.contains("client_credentials"@) {
            assert("authorization_code"@[0] == 'a');
        }
    } else if got.contains("client_credentials"@) {
        let i = choose|i: int| 0 <= i < got.len() && got[i] == "client_credentials"@;
        assert(dcr_grant_types().contains(asked[i]));
    }
}

} // verus!
