use shopcore::credentials::Shop;
use shopcore::credentials::SignupData;
use shopcore::credentials::StoreOutcome;
use shopcore::credentials::complete_signup;
use shopcore::credentials::is_valid_password;
use shopcore::credentials::login_attempt;
use shopcore::credentials::prepare_signup;
use shopcore::errors::ServiceError;
use shopcore::middleware::authenticate;

const SECRET: &[u8] = b"a process-wide signing secret";

#[test]
fn signup_login_then_a_protected_call_under_the_issued_token() {
    let now: u64 = 1_700_000_000;
    let data = SignupData {
        name: "A".to_string(),
        email: "a@x.com".to_string(),
        password: "Abcdef12".to_string(),
    };
    assert!(is_valid_password(&data.password));

    // Signup: the email is free, the row is persisted and read back with
    // its assigned id within one unit of work.
    let row = prepare_signup(&data, None).unwrap();
    let inserted = Shop { id: 1, name: row.name, email: row.email, password: row.password };
    let shop = complete_signup(StoreOutcome::Inserted(inserted)).unwrap();
    assert_eq!(shop.id, 1);

    // Login with the same credentials yields a token.
    let token = login_attempt(Some(&shop), "Abcdef12", SECRET, now).unwrap();

    // A protected call with that token reaches the wrapped operation with
    // the created shop's id.
    let header = format!("Bearer {token}");
    let mut reached_with: Option<i32> = None;
    if let Ok(claims) = authenticate(SECRET, Some(&header), now) {
        reached_with = Some(claims.sub);
    }
    assert_eq!(reached_with, Some(shop.id));
}

#[test]
fn errors_map_to_the_documented_statuses() {
    assert_eq!(ServiceError::DuplicateIdentity.status_code(), 400);
    assert_eq!(ServiceError::InvalidCredentials.status_code(), 401);
    assert_eq!(ServiceError::InvalidToken.status_code(), 401);
    assert_eq!(ServiceError::MissingAuthorization.status_code(), 401);
    assert_eq!(ServiceError::StoreUnavailable.status_code(), 500);
    assert_eq!(ServiceError::InternalFailure.status_code(), 500);
}
