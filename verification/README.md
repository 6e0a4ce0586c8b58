# janux

The decisions of an OpenID Connect and OAuth 2.0 provider with passwordless
sign-in, written in Verus: what a request is answered, when a token is issued,
rotated or revoked, who may do what. Every function of the library has a
contract that Verus proves; properties that span several functions are public
proof functions whose names begin with `law_`.

## Layout

- `src/oidc/`: authorization, consent, codes, token grants, refresh rotation,
  the device grant, introspection and revocation, userinfo, discovery
- `src/oidc_ext/`: dynamic client registration, logout and its delivery
- `src/otp.rs`, `src/passkey.rs`, `src/identity.rs`: sign-in factors
- `src/oneshot.rs`: the store of what is handed out at most once
- `src/policy.rs`, `src/role.rs`: who may do what
- `src/scim.rs`: provisioning of users
- `src/router.rs`, `src/ops.rs`, `src/pages.rs`: routes, metrics labels, pages
- `src/text.rs`, `src/reply.rs`: text and answers
- `src/outside.rs`: the calls into other crates, whose contracts are believed
- `tests/`: what the library does on concrete values
- `app/`: the server around the library; storage, signing and messaging are
  behind the trait `Backend`

A request that needs several answers from its surroundings is a state whose
unknown facts are `None`. A library function says what to find out next, and in
the end what to answer; the server finds it out and asks again.
