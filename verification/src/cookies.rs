//! Session cookie directives.
//!
//! Tokens travel as two HTTP cookies, `act` for access and `rft` for
//! refresh: `Path=/`, `HttpOnly`, `SameSite=Lax`, `Secure` only in
//! production, and a fixed fourteen-day envelope. The envelope outlives the
//! embedded token expiry on purpose: an expired token in a live cookie
//! still fails verification. Logout clears both cookies with a zero
//! max-age and no token payload; no server-side invalidation occurs.

use vstd::prelude::*;

use crate::token::Passport;

verus! {

/// A set-cookie directive carrying a value for fourteen days.
pub open spec fn spec_session_cookie(name: Seq<char>, value: Seq<char>, secure: bool) -> Seq<
    char,
> {
    name + "="@ + value + "; Path=/; HttpOnly; SameSite=Lax; Max-Age=1209600"@ + if secure {
        "; Secure"@
    } else {
        Seq::<char>::empty()
    }
}

/// A set-cookie directive clearing a cookie: empty value, zero max-age.
pub open spec fn spec_clearing_cookie(name: Seq<char>, secure: bool) -> Seq<char> {
    name + "=; Path=/; HttpOnly; SameSite=Lax; Max-Age=0"@ + if secure {
        "; Secure"@
    } else {
        Seq::<char>::empty()
    }
}

/// Builds the directive that sets one session cookie.
pub fn build_session_cookie(name: &str, value: &str, secure: bool) -> (res: String)
    ensures
        res@ == spec_session_cookie(name@, value@, secure),
{
    let mut out = String::new();
    out.append(name);
    out.append("=");
    out.append(value);
    out.append("; Path=/; HttpOnly; SameSite=Lax; Max-Age=1209600");
    if secure {
        out.append("; Secure");
    }
    proof {
        assert(out@ =~= spec_session_cookie(name@, value@, secure));
    }
    out
}

/// Builds the directive that clears one session cookie.
pub fn build_clearing_cookie(name: &str, secure: bool) -> (res: String)
    ensures
        res@ == spec_clearing_cookie(name@, secure),
{
    let mut out = String::new();
    out.append(name);
    out.append("=; Path=/; HttpOnly; SameSite=Lax; Max-Age=0");
    if secure {
        out.append("; Secure");
    }
    proof {
        assert(out@ =~= spec_clearing_cookie(name@, secure));
    }
    out
}

/// The two directives a successful login or refresh sets: the access token
/// under `act`, the refresh token under `rft`.
pub fn login_cookies(passport: &Passport, secure: bool) -> (res: (String, String))
    ensures
        res.0@ == spec_session_cookie("act"@, passport.access_token@, secure),
        res.1@ == spec_session_cookie("rft"@, passport.refresh_token@, secure),
{
    (
        build_session_cookie("act", passport.access_token.as_str(), secure),
        build_session_cookie("rft", passport.refresh_token.as_str(), secure),
    )
}

/// The two directives logout sets: both cookies cleared, no token payload,
/// zero max-age. Stateless — previously minted tokens stay
/// cryptographically valid until their own expiry.
pub fn logout_cookies(secure: bool) -> (res: (String, String))
    ensures
        res.0@ == spec_clearing_cookie("act"@, secure),
        res.1@ == spec_clearing_cookie("rft"@, secure),
{
    (build_clearing_cookie("act", secure), build_clearing_cookie("rft", secure))
}

} // verus!
