use vstd::prelude::*;
use vstd::string::StrSliceExecFns;

verus! {

/// A cookie as this core instructs the HTTP layer to set it.
#[derive(Clone, Debug)]
pub struct CookieDirective {
    pub name: String,
    pub value: String,
    pub path: String,
    pub max_age_seconds: i64,
    pub http_only: bool,
}

/// How long the client keeps a session cookie, in seconds: the token
/// lifetime.
pub const COOKIE_MAX_AGE_SECONDS: i64 = 3600;

/// The cookie that hands an issued token to the client: named `token`, for
/// the whole site, unreadable from client script, kept for an hour.
pub fn set_token_in_cookies(token: String) -> (r: CookieDirective)
    ensures
        r.name@ == "token"@,
        r.value@ == token@,
        r.path@ == "/"@,
        r.max_age_seconds == COOKIE_MAX_AGE_SECONDS,
        r.http_only,
{
    CookieDirective {
        name: "token".to_owned(),
        value: token,
        path: "/".to_owned(),
        max_age_seconds: COOKIE_MAX_AGE_SECONDS,
        http_only: true,
    }
}

/// The cookie that tells the client to discard its token: same name, empty
/// value, and a negative max-age so it is dropped at once. The token itself
/// is not invalidated: the session is stateless and the token lives on until
/// its expiry.
pub fn remove_token_from_cookies() -> (r: CookieDirective)
    ensures
        r.name@ == "token"@,
        r.value@ == Seq::<char>::empty(),
        r.path@ == "/"@,
        r.max_age_seconds == -1,
        r.http_only,
{
    CookieDirective {
        name: "token".to_owned(),
        value: String::new(),
        path: "/".to_owned(),
        max_age_seconds: -1,
        http_only: true,
    }
}

/// The scheme label expected at the head of an Authorization header.
pub open spec fn bearer_prefix() -> Seq<char> {
    "Bearer "@
}

/// Where a request's bearer token comes from: the `token` cookie when one is
/// present, else an Authorization header that carries the scheme label, with
/// that label stripped; nothing otherwise.
pub open spec fn extracted_token(cookie: Option<Seq<char>>, header: Option<Seq<char>>) -> Option<
    Seq<char>,
> {
    match cookie {
        Some(c) => Some(c),
        None => match header {
            Some(h) => if h.len() >= 7 && h.subrange(0, 7) == bearer_prefix() {
                Some(h.subrange(7, h.len() as int))
            } else {
                None
            },
            None => None,
        },
    }
}

/// Strip the bearer scheme label off an Authorization header value, checking
/// it rather than skipping seven characters blindly.
fn strip_bearer(header: &str) -> (r: Option<String>)
    ensures
        header@.len() >= 7 && header@.subrange(0, 7) == bearer_prefix() ==> (r matches Some(t)
            && t@ == header@.subrange(7, header@.len() as int)),
        !(header@.len() >= 7 && header@.subrange(0, 7) == bearer_prefix()) ==> r is None,
{
    proof {
        reveal_strlit("Bearer ");
    }
    let n = header.unicode_len();
    if n < 7 {
        return None;
    }
    let mut i: usize = 0;
    while i < 7
        invariant
            i <= 7,
            7 <= n == header@.len(),
            forall|j: int| 0 <= j < i ==> header@[j] == bearer_prefix()[j],
        decreases 7 - i,
    {
        proof {
            reveal_strlit("Bearer ");
        }
        if header.get_char(i) != "Bearer ".get_char(i) {
            proof {
                assert(header@.subrange(0, 7)[i as int] == header@[i as int]);
            }
            return None;
        }
        i += 1;
    }
    proof {
        assert(header@.subrange(0, 7) =~= bearer_prefix());
    }
    Some(header.substring_char(7, n).to_owned())
}

/// Pull the bearer token out of a request's credentials: the cookie value
/// wins; an Authorization header is used only when the cookie is absent and
/// the header starts with the scheme label.
pub fn extract_token(cookie_token: Option<String>, auth_header: Option<String>) -> (r: Option<
    String,
>)
    ensures
        r.deep_view() == extracted_token(cookie_token.deep_view(), auth_header.deep_view()),
{
    match cookie_token {
        Some(c) => Some(c),
        None => match auth_header {
            Some(h) => strip_bearer(h.as_str()),
            None => None,
        },
    }
}

} // verus!
