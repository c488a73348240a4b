use auth_gate::customer::{Customer, CustomerRole};
use auth_gate::gate::{authenticate_request, AuthMiddleware, RequireAuth};
use auth_gate::response::ErrorStatus;
use auth_gate::token::issue_token_at;

const T0: u64 = 1_700_000_000;
const SECRET: &str = "gate-secret";

fn account(role: CustomerRole) -> Customer {
    Customer {
        id: "9a1fbb19-24f8-4a0a-9247-5bb45b53a2a0".to_string(),
        firstname: "Ada".to_string(),
        lastname: "Lovelace".to_string(),
        password: "$2b$08$irrelevant-stored-hash".to_string(),
        email: "ada@example.com".to_string(),
        role,
        created_at: Some(1_690_000_000),
        updated_at: None,
    }
}

#[test]
fn missing_credentials_are_unauthorized() {
    let e = authenticate_request(None, None, SECRET, T0).unwrap_err();
    assert_eq!(e.status, ErrorStatus::Unauthorized);
    assert_eq!(e.message, "You are not logged in, please provide token");
    assert_eq!(e.status_code(), 401);
}

#[test]
fn garbage_token_is_unauthorized() {
    let e = authenticate_request(Some("garbage".to_string()), None, SECRET, T0).unwrap_err();
    assert_eq!(e.status, ErrorStatus::Unauthorized);
    assert_eq!(e.message, "Invalid token");
}

#[test]
fn wrong_secret_is_unauthorized() {
    let token = issue_token_at("user-7", "another-secret", T0);
    let e = authenticate_request(Some(token), None, SECRET, T0).unwrap_err();
    assert_eq!(e.message, "Invalid token");
}

#[test]
fn expired_token_is_unauthorized() {
    let token = issue_token_at("user-7", SECRET, T0);
    let e = authenticate_request(Some(token), None, SECRET, T0 + 3600).unwrap_err();
    assert_eq!(e.status, ErrorStatus::Unauthorized);
    assert_eq!(e.message, "Invalid token");
}

#[test]
fn valid_cookie_token_authenticates() {
    let token = issue_token_at("user-7", SECRET, T0);
    let claims = authenticate_request(Some(token), None, SECRET, T0 + 10).unwrap();
    assert_eq!(claims.sub, "user-7");
    assert_eq!(claims.iat, T0);
    assert_eq!(claims.exp, T0 + 3600);
}

#[test]
fn valid_header_token_authenticates() {
    let token = issue_token_at("user-7", SECRET, T0);
    let header = format!("Bearer {}", token);
    let claims = authenticate_request(None, Some(header), SECRET, T0 + 10).unwrap();
    assert_eq!(claims.sub, "user-7");
}

#[test]
fn vanished_identity_is_unauthorized() {
    let gate = AuthMiddleware::new(vec![CustomerRole::Admin]);
    let e = gate.authorize(None).unwrap_err();
    assert_eq!(e.status, ErrorStatus::Unauthorized);
    assert_eq!(e.message, "User not exists");
}

#[test]
fn role_off_the_allow_list_is_forbidden() {
    let gate = AuthMiddleware::new(vec![CustomerRole::Admin, CustomerRole::Staff]);
    let e = gate.authorize(Some(account(CustomerRole::Viewer))).unwrap_err();
    assert_eq!(e.status, ErrorStatus::Forbidden);
    assert_eq!(e.message, "role not permitted");
    assert_eq!(e.status_code(), 403);
}

#[test]
fn role_on_the_allow_list_forwards_the_identity() {
    let gate = AuthMiddleware::new(vec![CustomerRole::Admin, CustomerRole::Staff]);
    let c = gate.authorize(Some(account(CustomerRole::Staff))).unwrap();
    assert_eq!(c.email, "ada@example.com");
    assert_eq!(c.id, "9a1fbb19-24f8-4a0a-9247-5bb45b53a2a0");
    assert_eq!(c.role, CustomerRole::Staff);
}

#[test]
fn require_auth_configuration_carries_the_roles() {
    let gate = RequireAuth::allowed_roles(vec![CustomerRole::Viewer]).into_middleware();
    assert!(gate.contains_role(CustomerRole::Viewer));
    assert!(!gate.contains_role(CustomerRole::Admin));
    assert!(!gate.contains_role(CustomerRole::Staff));
}

#[test]
fn empty_allow_list_admits_nobody() {
    let gate = AuthMiddleware::new(Vec::new());
    let e = gate.authorize(Some(account(CustomerRole::Admin))).unwrap_err();
    assert_eq!(e.status, ErrorStatus::Forbidden);
}
