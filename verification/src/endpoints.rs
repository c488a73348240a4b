use vstd::prelude::*;

verus! {

use crate::customer::{CreateCustomerSchema, Customer, CustomerPublic, CustomerRole};
use crate::password::{
    check_password_is_valid_when_register,
    hash_password,
    is_password_valid_with_hashed_password,
    password_matches,
};
use crate::response::{ErrorResponse, ErrorStatus};
use crate::token::{decoded_claims, issue_token_at, TOKEN_LIFETIME_SECONDS};
use crate::transport::{set_token_in_cookies, remove_token_from_cookies, CookieDirective};

/// What a client submits to register an account.
#[derive(Clone, Debug)]
pub struct RegisterCustomerSchema {
    pub email: String,
    pub firstname: String,
    pub lastname: String,
    pub password: String,
    pub repeated_password: String,
}

/// What a client submits to log in.
#[derive(Clone, Debug)]
pub struct LoginCustomerSchema {
    pub email: String,
    pub password: String,
}

/// A successful login: the issued token, the cookie that carries it to the
/// client, and the account it was issued for.
#[derive(Clone, Debug)]
pub struct LoginSession {
    pub token: String,
    pub cookie: CookieDirective,
    pub customer: Customer,
}

/// Everything of registration up to the persistence call: validate the
/// credential pair, hash the accepted password, and assemble the record to be
/// created, with the lowest-privilege role. A valid pair always comes back
/// Ok; on an invalid one — the client's fault — nothing is handed to
/// persistence.
pub fn prepare_registration(body: RegisterCustomerSchema) -> (r: Result<
    CreateCustomerSchema,
    ErrorResponse,
>)
    ensures
        r is Ok <==> (body.password@ == body.repeated_password@ && body.password@.len() >= 4),
        body.password@ != body.repeated_password@ ==> (r matches Err(e) && e.status
            == ErrorStatus::BadRequest && e.message@ == "Passwords must be the same"@),
        body.password@ == body.repeated_password@ && body.password@.len() < 4 ==> (r matches Err(e)
            && e.status == ErrorStatus::BadRequest && e.message@
            == "Password must contain at least 4 characters"@),
        r matches Ok(req) ==> {
            &&& password_matches(body.password@, req.password@)
            &&& req.email@ == body.email@
            &&& req.firstname@ == body.firstname@
            &&& req.lastname@ == body.lastname@
            &&& req.role == Some(CustomerRole::Viewer)
        },
{
    let RegisterCustomerSchema { email, firstname, lastname, password, repeated_password } = body;
    let valid_password = match check_password_is_valid_when_register(password, repeated_password) {
        Ok(p) => p,
        Err(m) => {
            return Err(ErrorResponse { status: ErrorStatus::BadRequest, message: m });
        },
    };
    let hashed_password = match hash_password(valid_password) {
        Ok(h) => h,
        Err(m) => {
            return Err(ErrorResponse { status: ErrorStatus::InternalServerError, message: m });
        },
    };
    Ok(
        CreateCustomerSchema {
            firstname,
            lastname,
            email,
            password: hashed_password,
            role: Some(CustomerRole::Viewer),
        },
    )
}

/// Everything of login after the account lookup: check the credential against
/// the stored hash and, on success, issue a token for the account identifier
/// and the cookie that carries it. A present account with a matching password
/// always logs in; a missing account and a wrong password fail alike, so the
/// response leaks nothing about which it was.
pub fn login_customer(
    body: LoginCustomerSchema,
    account: Option<Customer>,
    jwt_secret: &str,
    now: u64,
) -> (r: Result<LoginSession, ErrorResponse>)
    requires
        now + TOKEN_LIFETIME_SECONDS <= u64::MAX,
    ensures
        account is None ==> (r matches Err(e) && e.status == ErrorStatus::Unauthorized
            && e.message@ == "Wrong username or password"@),
        account matches Some(c) ==> !password_matches(body.password@, c.password@) ==> (r matches
            Err(e) && e.status == ErrorStatus::Unauthorized && e.message@
            == "Wrong username or password"@),
        account matches Some(c) ==> password_matches(body.password@, c.password@) ==> r is Ok,
        r matches Ok(s) ==> {
            &&& account == Some(s.customer)
            &&& password_matches(body.password@, s.customer.password@)
            &&& decoded_claims(s.token@, jwt_secret@) == Some(
                (s.customer.id@, now, (now + TOKEN_LIFETIME_SECONDS) as u64),
            )
            &&& s.cookie.name@ == "token"@
            &&& s.cookie.value@ == s.token@
            &&& s.cookie.path@ == "/"@
            &&& s.cookie.max_age_seconds == 3600
            &&& s.cookie.http_only
        },
{
    let customer = match account {
        Some(c) => c,
        None => {
            return Err(
                ErrorResponse {
                    status: ErrorStatus::Unauthorized,
                    message: "Wrong username or password".to_owned(),
                },
            );
        },
    };
    if !is_password_valid_with_hashed_password(body.password, customer.password.clone()) {
        return Err(
            ErrorResponse {
                status: ErrorStatus::Unauthorized,
                message: "Wrong username or password".to_owned(),
            },
        );
    }
    let token = issue_token_at(customer.id.as_str(), jwt_secret, now);
    let cookie = set_token_in_cookies(token.clone());
    Ok(LoginSession { token, cookie, customer })
}

/// Log out: produce the cookie-clearing directive for the client. The session
/// is stateless, so nothing is contacted and nothing can fail; a token the
/// client kept stays valid until its natural expiry.
pub fn logout_customer() -> (r: CookieDirective)
    ensures
        r.name@ == "token"@,
        r.value@ == Seq::<char>::empty(),
        r.path@ == "/"@,
        r.max_age_seconds == -1,
        r.http_only,
{
    remove_token_from_cookies()
}

/// The whoami decision: the identity that authorization bound to the request,
/// with the credential hash left out of the response. Where no identity is
/// bound, the request was never authenticated.
pub fn get_me(context_customer: Option<Customer>) -> (r: Result<CustomerPublic, ErrorResponse>)
    ensures
        context_customer is None ==> (r matches Err(e) && e.status == ErrorStatus::Unauthorized
            && e.message@ == "Invalid customer with this jwt"@),
        context_customer matches Some(c) ==> (r matches Ok(p) && p.id@ == c.id@ && p.firstname@
            == c.firstname@ && p.lastname@ == c.lastname@ && p.email@ == c.email@ && p.role
            == c.role && p.created_at == c.created_at && p.updated_at == c.updated_at),
{
    match context_customer {
        Some(customer) => Ok(customer.without_password()),
        None => Err(
            ErrorResponse {
                status: ErrorStatus::Unauthorized,
                message: "Invalid customer with this jwt".to_owned(),
            },
        ),
    }
}

} // verus!
