use vstd::prelude::*;

verus! {

use crate::customer::{Customer, CustomerRole};
use crate::response::{ErrorResponse, ErrorStatus};
use crate::token::{TokenClaims, token_verification, verify_token};
use crate::transport::{extract_token, extracted_token};

/// Whether a role appears in a route's allow-list.
pub open spec fn role_allowed(role: CustomerRole, allowed: Seq<CustomerRole>) -> bool {
    allowed.contains(role)
}

/// Per-route gate configuration: the roles allowed through.
pub struct RequireAuth {
    pub allowed_roles: Vec<CustomerRole>,
}

impl RequireAuth {
    /// A gate configuration admitting exactly the given roles.
    pub fn allowed_roles(allowed_roles: Vec<CustomerRole>) -> (r: Self)
        ensures
            r.allowed_roles@ == allowed_roles@,
    {
        RequireAuth { allowed_roles }
    }

    /// The per-request gate built from this configuration.
    pub fn into_middleware(self) -> (r: AuthMiddleware)
        ensures
            r.allowed_roles@ == self.allowed_roles@,
    {
        AuthMiddleware { allowed_roles: self.allowed_roles }
    }
}

/// The per-request authorization gate: holds a route's allow-list and
/// decides, step by step, whether a request goes through to the handler.
pub struct AuthMiddleware {
    pub allowed_roles: Vec<CustomerRole>,
}

/// Extraction and verification, the steps pure in the request data:
/// take the bearer token from the cookie or the Authorization header and
/// verify it against the secret at instant `now`. On success the verified
/// claims come back; the subject still has to be resolved and its role
/// checked.
pub fn authenticate_request(
    cookie_token: Option<String>,
    auth_header: Option<String>,
    secret: &str,
    now: u64,
) -> (r: Result<TokenClaims, ErrorResponse>)
    ensures
        extracted_token(cookie_token.deep_view(), auth_header.deep_view()) is None ==> (r matches
            Err(e) && e.status == ErrorStatus::Unauthorized && e.message@
            == "You are not logged in, please provide token"@),
        extracted_token(cookie_token.deep_view(), auth_header.deep_view()) matches Some(t)
            ==> token_verification(t, secret@, now) is None ==> (r matches Err(e) && e.status
            == ErrorStatus::Unauthorized && e.message@ == "Invalid token"@),
        extracted_token(cookie_token.deep_view(), auth_header.deep_view()) matches Some(t)
            ==> token_verification(t, secret@, now) matches Some(c) ==> (r matches Ok(claims)
            && claims.sub@ == c.0 && claims.iat == c.1 && claims.exp == c.2),
{
    let extracted = extract_token(cookie_token, auth_header);
    proof {
        assert(extracted.deep_view() is Some ==> extracted is Some);
        assert(extracted matches Some(t) ==> extracted.deep_view() == Some(t@));
    }
    let token = match extracted {
        Some(t) => t,
        None => {
            return Err(
                ErrorResponse {
                    status: ErrorStatus::Unauthorized,
                    message: "You are not logged in, please provide token".to_owned(),
                },
            );
        },
    };
    match verify_token(token.as_str(), secret, now) {
        Ok(claims) => Ok(claims),
        Err(_) => Err(
            ErrorResponse {
                status: ErrorStatus::Unauthorized,
                message: "Invalid token".to_owned(),
            },
        ),
    }
}

impl AuthMiddleware {
    /// A per-request gate admitting exactly the given roles.
    pub fn new(allowed_roles: Vec<CustomerRole>) -> (r: Self)
        ensures
            r.allowed_roles@ == allowed_roles@,
    {
        AuthMiddleware { allowed_roles }
    }

    /// Whether a role is on this gate's allow-list.
    pub fn contains_role(&self, role: CustomerRole) -> (r: bool)
        ensures
            r == role_allowed(role, self.allowed_roles@),
    {
        let mut i: usize = 0;
        while i < self.allowed_roles.len()
            invariant
                i <= self.allowed_roles@.len(),
                forall|j: int| 0 <= j < i ==> self.allowed_roles@[j] != role,
            decreases self.allowed_roles@.len() - i,
        {
            if self.allowed_roles[i] == role {
                assert(self.allowed_roles@[i as int] == role);
                return true;
            }
            i += 1;
        }
        false
    }

    /// Resolution and authorization: given what the identity
    /// lookup returned for the token's subject, let the account through when
    /// its role is allowed. A vanished identity is an authentication failure;
    /// a present identity whose role is off the allow-list is a forbidden
    /// request; otherwise the account itself is forwarded, to be bound to the
    /// request context.
    pub fn authorize(&self, account: Option<Customer>) -> (r: Result<Customer, ErrorResponse>)
        ensures
            account is None ==> (r matches Err(e) && e.status == ErrorStatus::Unauthorized
                && e.message@ == "User not exists"@),
            account matches Some(c) && !role_allowed(c.role, self.allowed_roles@) ==> (r matches
                Err(e) && e.status == ErrorStatus::Forbidden && e.message@
                == "role not permitted"@),
            account matches Some(c) ==> role_allowed(c.role, self.allowed_roles@) ==> r == Ok::<
                Customer,
                ErrorResponse,
            >(c),
    {
        match account {
            Some(customer) => {
                if self.contains_role(customer.role) {
                    Ok(customer)
                } else {
                    Err(
                        ErrorResponse {
                            status: ErrorStatus::Forbidden,
                            message: "role not permitted".to_owned(),
                        },
                    )
                }
            },
            None => Err(
                ErrorResponse {
                    status: ErrorStatus::Unauthorized,
                    message: "User not exists".to_owned(),
                },
            ),
        }
    }
}

} // verus!
