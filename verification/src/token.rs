//! Minting and validation of signed, self-contained session tokens.
//!
//! A token is one line of ASCII text: a fixed-width payload carrying the
//! claims, a dot, and the lowercase hexadecimal HMAC-SHA-256 tag of the
//! payload under the audience secret. Layout, by character position:
//!
//! ```text
//! [0..20)    subject id, zero-padded decimal
//! [20]       role: 'P' for Patient, 'D' for Doctor
//! [21..41)   issued-at, unix seconds, zero-padded decimal
//! [41..61)   expiry, unix seconds, zero-padded decimal
//! [61]       '.'
//! [62..]     hex tag of characters [0..61) under the audience secret
//! ```
//!
//! Validity is determined solely by signature and expiry: there is no
//! server-side session state and no clock-skew leeway. Expiry is checked
//! before the signature, so an expired token is reported expired whatever
//! its tag holds.

use vstd::prelude::*;

use crate::codec::{
    all_digits, dec_pad, digits_val, hex_of, lemma_dec_pad_val, lemma_dec_pad_wf, lemma_hex_of_len,
    lemma_hex_of_injective, lemma_pow10_20_large, parse_dec_field, pow10, push_char, push_dec_pad,
    push_hex, spec_parse_u64,
};
use crate::errors::AuthError;
use crate::roles::Roles;

verus! {

/// Width of each zero-padded decimal field: enough for any `u64`.
pub const U64_DIGITS: usize = 20;

/// Characters in a token's payload: two timestamps, a subject and a role.
pub const PAYLOAD_CHARS: usize = 61;

/// The decoded payload of a session token. Immutable once minted;
/// reconstructed fresh on every verification from the signed payload.
#[derive(Debug, Clone, Copy, PartialEq, Eq, Structural)]
pub struct Claims {
    /// Subject: the user id the token speaks for.
    pub sub: u64,
    /// The single role the token was minted under.
    pub role: Roles,
    /// Expiry, unix seconds. A hard boundary: no leeway is granted.
    pub exp: u64,
    /// Issued-at, unix seconds.
    pub iat: u64,
}

/// The pair of tokens returned by login and refresh. Transport-only: never
/// persisted.
#[derive(Debug, Clone)]
pub struct Passport {
    pub access_token: String,
    pub refresh_token: String,
}

/// The HMAC-SHA-256 tag of a message under a key. A function of key and
/// message alone; its value is known only to the hashing crate.
pub uninterp spec fn mac_of(key: Seq<char>, msg: Seq<char>) -> Seq<u8>;

/// Relies on `Hmac<Sha256>` of the hmac and sha2 crates: the tag is a
/// deterministic function of key and message, 32 bytes long, and any key
/// length is accepted.
#[verifier::external_body]
fn mac_tag(secret: &str, msg: &str) -> (res: Vec<u8>)
    ensures
        res@ == mac_of(secret@, msg@),
        res@.len() == 32,
{
    let mut mac = <hmac::Hmac<sha2::Sha256> as hmac::Mac>::new_from_slice(secret.as_bytes())
        .expect("HMAC accepts any key length");
    hmac::Mac::update(&mut mac, msg.as_bytes());
    hmac::Mac::finalize(mac).into_bytes().to_vec()
}

/// The payload character of a role.
pub open spec fn role_char(r: Roles) -> char {
    match r {
        Roles::Patient => 'P',
        Roles::Doctor => 'D',
    }
}

/// The role a payload character denotes, if any.
pub open spec fn char_role(c: char) -> Option<Roles> {
    if c == 'P' {
        Some(Roles::Patient)
    } else if c == 'D' {
        Some(Roles::Doctor)
    } else {
        None
    }
}

/// The payload characters of a claims value.
pub open spec fn payload_of(c: Claims) -> Seq<char> {
    dec_pad(c.sub as nat, U64_DIGITS as nat) + seq![role_char(c.role)] + dec_pad(
        c.iat as nat,
        U64_DIGITS as nat,
    ) + dec_pad(c.exp as nat, U64_DIGITS as nat)
}

/// The full character sequence of a minted token: payload, dot, hex tag.
pub open spec fn spec_mint(secret: Seq<char>, c: Claims) -> Seq<char> {
    payload_of(c) + seq!['.'] + hex_of(mac_of(secret, payload_of(c)))
}

/// What verification decides for a token at a given time, in order:
/// structure, then expiry, then signature. A structurally sound but expired
/// token is expired regardless of its tag.
pub open spec fn spec_verify(secret: Seq<char>, token: Seq<char>, now: u64) -> Result<
    Claims,
    AuthError,
> {
    if token.len() < 62 {
        Err(AuthError::TokenMalformed)
    } else {
        let sub = spec_parse_u64(token.subrange(0, 20));
        let role = char_role(token[20]);
        let iat = spec_parse_u64(token.subrange(21, 41));
        let exp = spec_parse_u64(token.subrange(41, 61));
        if sub is None || role is None || iat is None || exp is None || token[61] != '.' {
            Err(AuthError::TokenMalformed)
        } else if exp.unwrap() <= now {
            Err(AuthError::TokenExpired)
        } else if token.subrange(62, token.len() as int) != hex_of(
            mac_of(secret, token.subrange(0, 61)),
        ) {
            Err(AuthError::TokenInvalidSignature)
        } else {
            Ok(
                (Claims {
                    sub: sub.unwrap(),
                    role: role.unwrap(),
                    exp: exp.unwrap(),
                    iat: iat.unwrap(),
                }),
            )
        }
    }
}

/// The payload character of a role, executably.
fn role_char_of(r: Roles) -> (res: char)
    ensures
        res == role_char(r),
{
    match r {
        Roles::Patient => 'P',
        Roles::Doctor => 'D',
    }
}

/// The role of a payload character, executably.
fn char_role_of(c: char) -> (res: Option<Roles>)
    ensures
        res == char_role(c),
{
    if c == 'P' {
        Some(Roles::Patient)
    } else if c == 'D' {
        Some(Roles::Doctor)
    } else {
        None
    }
}

/// Serializes the claims and signs them under the given audience secret.
///
/// Minting never fails: the signing scheme accepts any secret and any
/// claims value fits the fixed payload width.
pub fn mint(secret: &str, claims: &Claims) -> (res: String)
    ensures
        res@ == spec_mint(secret@, *claims),
{
    let mut out = String::new();
    push_dec_pad(&mut out, claims.sub, U64_DIGITS);
    push_char(&mut out, role_char_of(claims.role));
    push_dec_pad(&mut out, claims.iat, U64_DIGITS);
    push_dec_pad(&mut out, claims.exp, U64_DIGITS);
    proof {
        assert(out@ =~= payload_of(*claims));
    }
    let tag = mac_tag(secret, out.as_str());
    push_char(&mut out, '.');
    push_hex(&mut out, tag.as_slice());
    proof {
        assert(out@ =~= spec_mint(secret@, *claims));
    }
    out
}

/// Decodes a token and checks its signature and expiry against the given
/// secret and time. Returns the claims exactly when the token has the
/// documented shape, its expiry lies in the future, and its tag is the
/// payload's tag under this secret; otherwise the error names the first
/// check that failed, expiry before signature.
pub fn verify(secret: &str, token: &str, now: u64) -> (res: Result<Claims, AuthError>)
    ensures
        res == spec_verify(secret@, token@, now),
{
    let n = token.unicode_len();
    if n < 62 {
        return Err(AuthError::TokenMalformed);
    }
    let sub = parse_dec_field(token, 0, 20);
    let role = char_role_of(token.get_char(20));
    let iat = parse_dec_field(token, 21, 41);
    let exp = parse_dec_field(token, 41, 61);
    let dot = token.get_char(61);
    let (sub, role, iat, exp) = match (sub, role, iat, exp) {
        (Some(s), Some(r), Some(i), Some(e)) => (s, r, i, e),
        _ => {
            return Err(AuthError::TokenMalformed);
        },
    };
    if dot != '.' {
        return Err(AuthError::TokenMalformed);
    }
    if exp <= now {
        return Err(AuthError::TokenExpired);
    }
    let payload = token.substring_char(0, PAYLOAD_CHARS);
    let tag = mac_tag(secret, payload);
    let mut expected = String::new();
    push_hex(&mut expected, tag.as_slice());
    let carried = token.substring_char(62, n).to_owned();
    if !expected.eq(&carried) {
        return Err(AuthError::TokenInvalidSignature);
    }
    Ok(Claims { sub, role, exp, iat })
}

/// Fields rendered into a payload come back out of it: each fixed-width
/// slice of the payload parses to the claim it was rendered from.
proof fn lemma_payload_parses(c: Claims)
    ensures
        payload_of(c).len() == 61,
        spec_parse_u64(payload_of(c).subrange(0, 20)) == Some(c.sub),
        payload_of(c)[20] == role_char(c.role),
        spec_parse_u64(payload_of(c).subrange(21, 41)) == Some(c.iat),
        spec_parse_u64(payload_of(c).subrange(41, 61)) == Some(c.exp),
{
    let w = U64_DIGITS as nat;
    lemma_pow10_20_large();
    lemma_dec_pad_wf(c.sub as nat, w);
    lemma_dec_pad_wf(c.iat as nat, w);
    lemma_dec_pad_wf(c.exp as nat, w);
    lemma_dec_pad_val(c.sub as nat, w);
    lemma_dec_pad_val(c.iat as nat, w);
    lemma_dec_pad_val(c.exp as nat, w);
    let p = payload_of(c);
    assert(p.subrange(0, 20) =~= dec_pad(c.sub as nat, w));
    assert(p.subrange(21, 41) =~= dec_pad(c.iat as nat, w));
    assert(p.subrange(41, 61) =~= dec_pad(c.exp as nat, w));
}

/// Round trip: verifying a freshly minted token under the same secret,
/// before its expiry, yields exactly the claims that were minted. Holds for
/// every secret, subject, role and pair of timestamps.
pub proof fn lemma_mint_verify_roundtrip(secret: Seq<char>, c: Claims, now: u64)
    requires
        now < c.exp,
    ensures
        spec_verify(secret, spec_mint(secret, c), now) == Ok::<Claims, AuthError>(c),
{
    lemma_payload_parses(c);
    let p = payload_of(c);
    let t = spec_mint(secret, c);
    assert(t.len() == 62 + hex_of(mac_of(secret, p)).len());
    assert(t.subrange(0, 20) =~= p.subrange(0, 20));
    assert(t[20] == p[20]);
    assert(t.subrange(21, 41) =~= p.subrange(21, 41));
    assert(t.subrange(41, 61) =~= p.subrange(41, 61));
    assert(t[61] == '.');
    assert(t.subrange(0, 61) =~= p);
    assert(t.subrange(62, t.len() as int) =~= hex_of(mac_of(secret, p)));
}

/// Expiry dominates: a structurally sound token whose expiry has passed is
/// rejected as expired under every secret, whatever its signature says.
pub proof fn lemma_expired_token_rejected(secret: Seq<char>, token: Seq<char>, now: u64, exp: u64)
    requires
        token.len() >= 62,
        spec_parse_u64(token.subrange(0, 20)) is Some,
        char_role(token[20]) is Some,
        spec_parse_u64(token.subrange(21, 41)) is Some,
        spec_parse_u64(token.subrange(41, 61)) == Some(exp),
        token[61] == '.',
        exp <= now,
    ensures
        spec_verify(secret, token, now) == Err::<Claims, AuthError>(AuthError::TokenExpired),
{
}

/// Audience isolation: a token minted under one secret fails verification
/// under another, as long as the two secrets give the payload different
/// tags — expired tokens are reported expired, live ones fail on the
/// signature. Two secrets whose tags collide on the payload are the one
/// input this cannot promise anything about.
pub proof fn lemma_audience_isolation(minting: Seq<char>, checking: Seq<char>, c: Claims, now: u64)
    requires
        mac_of(minting, payload_of(c)) != mac_of(checking, payload_of(c)),
    ensures
        spec_verify(checking, spec_mint(minting, c), now) == if c.exp <= now {
            Err::<Claims, AuthError>(AuthError::TokenExpired)
        } else {
            Err::<Claims, AuthError>(AuthError::TokenInvalidSignature)
        },
{
    lemma_payload_parses(c);
    let p = payload_of(c);
    let t = spec_mint(minting, c);
    assert(t.len() == 62 + hex_of(mac_of(minting, p)).len());
    assert(t.subrange(0, 20) =~= p.subrange(0, 20));
    assert(t[20] == p[20]);
    assert(t.subrange(21, 41) =~= p.subrange(21, 41));
    assert(t.subrange(41, 61) =~= p.subrange(41, 61));
    assert(t[61] == '.');
    assert(t.subrange(0, 61) =~= p);
    if c.exp > now {
        let carried = t.subrange(62, t.len() as int);
        assert(carried =~= hex_of(mac_of(minting, p)));
        if carried == hex_of(mac_of(checking, p)) {
            lemma_hex_of_len(mac_of(minting, p));
            lemma_hex_of_len(mac_of(checking, p));
            lemma_hex_of_injective(mac_of(minting, p), mac_of(checking, p));
        }
    }
}

} // verus!
