//! The session cookie that carries the access token.

use crate::token::TOKEN_LIFETIME_SECS;
use axum_extra::extract::cookie::Cookie;
use vstd::prelude::*;

verus! {

/// Name of the session cookie.
pub const SESSION_COOKIE_NAME: &'static str = "token";

/// Path that the session cookie is scoped to.
pub const SESSION_COOKIE_PATH: &'static str = "/";

/// The `SameSite` attribute of a cookie.
#[derive(Clone, Copy, Debug, PartialEq, Eq)]
pub enum SameSitePolicy {
    /// `SameSite=Strict`.
    Strict,
    /// `SameSite=Lax`.
    Lax,
    /// `SameSite=None`: sent with every request.
    Unrestricted,
}

/// The `Set-Cookie` header value that the `cookie` crate writes for a cookie
/// with these attributes.
pub uninterp spec fn set_cookie_text(
    name: Seq<char>,
    value: Seq<char>,
    path: Seq<char>,
    secure: bool,
    http_only: bool,
    same_site: SameSitePolicy,
    max_age_secs: i64,
) -> Seq<char>;

/// Builds a cookie with `Cookie::build` and its builder's `path`, `secure`,
/// `http_only`, `same_site`, `max_age` and `finish`, and formats it with the
/// cookie's `Display`.
///
/// Trusted: the text is a function of the attributes alone.
#[verifier::external_body]
fn format_cookie(
    name: &str,
    value: &str,
    path: &str,
    secure: bool,
    http_only: bool,
    same_site: SameSitePolicy,
    max_age_secs: i64,
) -> (text: String)
    ensures
        text@ == set_cookie_text(name@, value@, path@, secure, http_only, same_site, max_age_secs),
{
    let same_site = match same_site {
        SameSitePolicy::Strict => axum_extra::extract::cookie::SameSite::Strict,
        SameSitePolicy::Lax => axum_extra::extract::cookie::SameSite::Lax,
        SameSitePolicy::Unrestricted => axum_extra::extract::cookie::SameSite::None,
    };
    Cookie::build(name.to_owned(), value.to_owned())
        .path(path.to_owned())
        .secure(secure)
        .http_only(http_only)
        .same_site(same_site)
        .max_age(time::Duration::seconds(max_age_secs))
        .finish()
        .to_string()
}

/// The header value of the session cookie for `access_token`: named `token`,
/// scoped to `/`, `HttpOnly`, `SameSite=Lax`, not `Secure`, and kept for as
/// long as the token is valid.
pub open spec fn session_cookie_text(access_token: Seq<char>) -> Seq<char> {
    set_cookie_text(
        SESSION_COOKIE_NAME@,
        access_token,
        SESSION_COOKIE_PATH@,
        false,
        true,
        SameSitePolicy::Lax,
        TOKEN_LIFETIME_SECS as i64,
    )
}

/// Formats the session cookie that hands `access_token` to the client.
pub fn session_cookie(access_token: &str) -> (text: String)
    ensures
        text@ == session_cookie_text(access_token@),
{
    format_cookie(
        SESSION_COOKIE_NAME,
        access_token,
        SESSION_COOKIE_PATH,
        false,
        true,
        SameSitePolicy::Lax,
        TOKEN_LIFETIME_SECS as i64,
    )
}

} // verus!
