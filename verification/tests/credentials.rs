use shopcore::credentials::LoginCredentials;
use shopcore::credentials::Shop;
use shopcore::credentials::SignupData;
use shopcore::credentials::StoreOutcome;
use shopcore::credentials::complete_signup;
use shopcore::credentials::is_valid_password;
use shopcore::credentials::login_attempt;
use shopcore::credentials::prepare_signup;
use shopcore::errors::ServiceError;
use shopcore::hashing::hash_password;
use shopcore::token::validate;

const SECRET: &[u8] = b"a process-wide signing secret";

fn registered_shop(id: i32, email: &str, password: &str) -> Shop {
    Shop {
        id,
        name: "A".to_string(),
        email: email.to_string(),
        password: hash_password(password).unwrap(),
    }
}

#[test]
fn password_policy() {
    assert!(is_valid_password("Abcdef12"));
    assert!(is_valid_password("xY1"));
    assert!(!is_valid_password("abcdef12"));
    assert!(!is_valid_password("ABCDEF12"));
    assert!(!is_valid_password("Abcdefgh"));
    assert!(!is_valid_password("12345678"));
    assert!(!is_valid_password(""));
}

#[test]
fn signup_with_a_present_email_is_a_duplicate_and_creates_no_row() {
    let data = SignupData {
        name: "A".to_string(),
        email: "a@x.com".to_string(),
        password: "Abcdef12".to_string(),
    };
    let taken = registered_shop(1, "a@x.com", "Zyxwvu98");
    let r = prepare_signup(&data, Some(&taken));
    assert!(matches!(r, Err(ServiceError::DuplicateIdentity)));
}

#[test]
fn signup_hashes_the_password_into_the_new_row() {
    let data = SignupData {
        name: "A".to_string(),
        email: "a@x.com".to_string(),
        password: "Abcdef12".to_string(),
    };
    let row = prepare_signup(&data, None).unwrap();
    assert_eq!(row.name, "A");
    assert_eq!(row.email, "a@x.com");
    assert_ne!(row.password, "Abcdef12");
    assert_eq!(shopcore::hashing::verify_password("Abcdef12", &row.password), Ok(true));
}

#[test]
fn a_store_uniqueness_violation_is_a_duplicate_identity() {
    // The lost half of two concurrent signups with the same email: its
    // insert trips the store's constraint and must surface as a duplicate,
    // not as a generic failure.
    let r = complete_signup(StoreOutcome::UniqueViolation);
    assert!(matches!(r, Err(ServiceError::DuplicateIdentity)));
}

#[test]
fn a_successful_insert_hands_back_the_created_row() {
    let shop = registered_shop(5, "b@x.com", "Abcdef12");
    let created = complete_signup(StoreOutcome::Inserted(shop)).unwrap();
    assert_eq!(created.id, 5);
    assert_eq!(created.email, "b@x.com");
}

#[test]
fn any_other_store_failure_is_internal() {
    let r = complete_signup(StoreOutcome::Failure);
    assert!(matches!(r, Err(ServiceError::InternalFailure)));
}

#[test]
fn unknown_email_and_wrong_password_fail_identically() {
    let shop = registered_shop(3, "a@x.com", "Abcdef12");
    let wrong_password = login_attempt(Some(&shop), "Abcdef13", SECRET, 1000).unwrap_err();
    let unknown_email = login_attempt(None, "Abcdef12", SECRET, 1000).unwrap_err();
    assert_eq!(wrong_password, unknown_email);
    assert_eq!(wrong_password, ServiceError::InvalidCredentials);
    assert_eq!(wrong_password.status_code(), unknown_email.status_code());
}

#[test]
fn login_issues_a_day_long_token_bound_to_the_shop() {
    let shop = registered_shop(42, "a@x.com", "Abcdef12");
    let credentials = LoginCredentials {
        email: "a@x.com".to_string(),
        password: "Abcdef12".to_string(),
    };
    let token = login_attempt(Some(&shop), &credentials.password, SECRET, 1000).unwrap();
    let claims = validate(SECRET, &token, 1000).unwrap();
    assert_eq!(claims.sub, 42);
    assert_eq!(claims.exp, 1000 + 24 * 3600);
}

#[test]
fn login_with_correct_credentials_always_returns_a_token() {
    let shop = registered_shop(8, "a@x.com", "Abcdef12");
    let r = login_attempt(Some(&shop), "Abcdef12", SECRET, 1000);
    assert!(r.is_ok());
}

#[test]
fn either_digest_of_one_password_logs_its_owner_in() {
    let first = registered_shop(1, "a@x.com", "Abcdef12");
    let second = registered_shop(2, "b@x.com", "Abcdef12");
    assert_ne!(first.password, second.password);
    let token1 = login_attempt(Some(&first), "Abcdef12", SECRET, 1000).unwrap();
    let token2 = login_attempt(Some(&second), "Abcdef12", SECRET, 1000).unwrap();
    assert_eq!(validate(SECRET, &token1, 1000).unwrap().sub, 1);
    assert_eq!(validate(SECRET, &token2, 1000).unwrap().sub, 2);
}

#[test]
fn a_corrupt_stored_digest_is_an_internal_failure() {
    let shop = Shop {
        id: 9,
        name: "A".to_string(),
        email: "a@x.com".to_string(),
        password: "corrupt".to_string(),
    };
    let r = login_attempt(Some(&shop), "Abcdef12", SECRET, 1000);
    assert!(matches!(r, Err(ServiceError::InternalFailure)));
}

#[test]
fn the_profile_exposes_everything_but_the_digest() {
    let shop = registered_shop(7, "a@x.com", "Abcdef12");
    let profile = shop.profile();
    assert_eq!(profile.id, 7);
    assert_eq!(profile.name, "A");
    assert_eq!(profile.email, "a@x.com");
}
