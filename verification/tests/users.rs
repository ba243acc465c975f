use uuid::Uuid;
use voyage_atlas_api::api::controller::user::{
    follow_user, get_followers, get_following, get_users, login, register, unfollow_user,
};
use voyage_atlas_api::api::database::{insert_user, is_following, Store};
use voyage_atlas_api::api::models::error::ApiError;
use voyage_atlas_api::api::models::token::generate_token;
use voyage_atlas_api::api::models::{AuthUser, CreateUser, LoginInfo};

const SECRET: &[u8] = b"a secret of the test suite";

/// A bcrypt hash of "Password123!" at a low cost.
const PASSWORD_HASH: &str = "$2b$04$abcdefghijklmnopqrstuumbNOzV03V9tKSvHaJ6x1AUcLX8acgri";

struct TestAuthInfo {
    bearer: String,
    user: AuthUser,
}

impl TestAuthInfo {
    fn new(username: &str) -> Self {
        let id = Uuid::new_v4().to_string();
        let token = generate_token(id.clone(), SECRET).unwrap();
        TestAuthInfo {
            bearer: token,
            user: AuthUser {
                id,
                username: username.to_string(),
                name: format!("{} {}", username, "Tester"),
                description: String::new(),
                email: format!("{}@email", username),
            },
        }
    }

    fn generate() -> Self {
        Self::new(&Uuid::new_v4().to_string())
    }

    fn id(&self) -> u128 {
        Uuid::parse_str(&self.user.id).unwrap().as_u128()
    }

    fn store(&self, store: &mut Store) {
        let row = CreateUser {
            email: self.user.email.clone(),
            username: self.user.username.clone(),
            first_name: self.user.username.clone(),
            description: String::new(),
            last_name: "Tester".to_string(),
            password: String::new(),
        };
        insert_user(store, self.id(), PASSWORD_HASH.to_string(), &row).unwrap();
    }
}

struct TestApp {
    store: Store,
    auth_info: TestAuthInfo,
}

fn spawn_app() -> TestApp {
    let mut store = Store::new();
    let auth_info = TestAuthInfo::generate();
    auth_info.store(&mut store);
    TestApp { store, auth_info }
}

fn candidate(username: &str, password: &str, email: &str) -> CreateUser {
    CreateUser {
        email: email.to_string(),
        username: username.to_string(),
        first_name: "Test".to_string(),
        description: "A tester".to_string(),
        last_name: "User".to_string(),
        password: password.to_string(),
    }
}

fn post_user(app: &mut TestApp, new_user: CreateUser) -> Result<String, ApiError> {
    new_user.validate()?;
    register(new_user, &mut app.store, SECRET).map(|info| info.bearer)
}

#[test]
fn create_user() {
    let mut test_app = spawn_app();
    let res = post_user(&mut test_app, candidate("testuser", "Password123!", "email123@email.com"));
    let bearer = res.expect("registration is accepted");
    assert!(!bearer.is_empty());
}

#[test]
fn create_user_fails_invalid_data() {
    let mut test_app = spawn_app();
    let test_data = vec![
        (candidate("testuser", "Password123!", "email"), vec!["email"]),
        (candidate("testuser", "Password123", "email"), vec!["email", "password"]),
        (candidate("testuser", "Password123", "email@email.com"), vec!["password"]),
    ];
    for (data, expected_err) in test_data {
        let err = post_user(&mut test_app, data).err().expect("registration is refused");
        assert_eq!(err.status_code(), 400);
        let error = err.to_string();
        assert!(
            expected_err.iter().all(|e| error.contains(e)),
            "{}",
            format!("expected error to contain {:?}, got {:?}", expected_err, error)
        );
    }
}

#[test]
fn test_login() {
    let test_app = spawn_app();
    let res = login(
        LoginInfo { email: test_app.auth_info.user.email.clone(), password: "Password123!".to_string() },
        &test_app.store,
        SECRET,
    );
    let info = res.expect("login is accepted");
    assert!(!info.bearer.is_empty());
    assert_eq!(info.user.id, test_app.auth_info.user.id);
}

#[test]
fn test_login_fails() {
    let test_app = spawn_app();
    let test_data = vec![
        (("email@123.com".to_string(), "Password123!".to_string()), "Email was wrong"),
        ((test_app.auth_info.user.email.clone(), "password".to_string()), "Password was wrong"),
    ];
    for ((email, password), reason) in test_data {
        let err = login(LoginInfo { email, password }, &test_app.store, SECRET)
            .err()
            .expect("login is refused");
        assert_eq!(err.status_code(), 400);
        assert!(
            err.to_string() == "Email or Password is incorrect",
            "{}",
            format!("Login Validation Failed for: {reason}")
        );
    }
}

#[test]
fn test_follow_user() {
    let mut test_app = spawn_app();
    let new_user = TestAuthInfo::generate();
    new_user.store(&mut test_app.store);

    let res = follow_user(test_app.auth_info.id(), new_user.id(), &mut test_app.store);
    assert!(res.is_ok());
}

#[test]
fn test_follow_user_already_following_user() {
    let mut test_app = spawn_app();
    let new_user = TestAuthInfo::generate();
    new_user.store(&mut test_app.store);

    let res = follow_user(test_app.auth_info.id(), new_user.id(), &mut test_app.store);
    assert!(res.is_ok());
    let err = follow_user(test_app.auth_info.id(), new_user.id(), &mut test_app.store)
        .err()
        .expect("the second request is refused");
    assert_eq!(err.status_code(), 400);
    let error = err.to_string();
    assert!(
        error == "User is already following this user",
        "{}",
        format!("Expected error to be 'User is already following this user', got {}", error)
    );
}

#[test]
fn test_get_users_followers() {
    let mut test_app = spawn_app();
    let new_user = TestAuthInfo::generate();
    new_user.store(&mut test_app.store);

    let res = follow_user(test_app.auth_info.id(), new_user.id(), &mut test_app.store);
    assert!(res.is_ok());

    let followers = get_followers(new_user.id(), &test_app.store).unwrap();
    assert_eq!(followers.len(), 1);
    assert_eq!(followers[0].id, test_app.auth_info.user.id);
}

#[test]
fn test_get_users_following() {
    let mut test_app = spawn_app();
    let new_user = TestAuthInfo::generate();
    new_user.store(&mut test_app.store);

    let res = follow_user(test_app.auth_info.id(), new_user.id(), &mut test_app.store);
    assert!(res.is_ok());

    let following = get_following(test_app.auth_info.id(), &test_app.store).unwrap();
    assert_eq!(following.len(), 1);
    assert_eq!(following[0].id, new_user.user.id);
}

#[test]
fn test_unfollow_user() {
    let mut test_app = spawn_app();
    let new_user = TestAuthInfo::generate();
    new_user.store(&mut test_app.store);

    let res = follow_user(test_app.auth_info.id(), new_user.id(), &mut test_app.store);
    assert!(res.is_ok());

    let res = unfollow_user(test_app.auth_info.id(), new_user.id(), &mut test_app.store);
    assert!(res.is_ok());
    assert!(!is_following(&test_app.store, test_app.auth_info.id(), new_user.id()));
}

#[test]
fn test_unfollow_user_is_not_following_user() {
    let mut test_app = spawn_app();
    let new_user = TestAuthInfo::generate();
    new_user.store(&mut test_app.store);

    let err = unfollow_user(test_app.auth_info.id(), new_user.id(), &mut test_app.store)
        .err()
        .expect("the request is refused");
    assert_eq!(err.status_code(), 400);
    let error = err.to_string();
    assert!(
        error == "You are not following this user",
        "{}",
        format!("Expected error to be 'You are not following this user', got {}", error)
    );
}

#[test]
fn test_get_all_users() {
    let mut test_app = spawn_app();
    for _ in 0..15 {
        let new_user = TestAuthInfo::generate();
        new_user.store(&mut test_app.store);
    }

    let users = get_users(None, &test_app.store).unwrap();
    assert_eq!(users.len(), 16);
}

#[test]
fn test_get_users_query() {
    let mut test_app = spawn_app();
    for i in 0..10 {
        let new_user = TestAuthInfo::new(&format!("testuser{i}"));
        new_user.store(&mut test_app.store);
    }

    let users = get_users(Some("test".into()), &test_app.store).unwrap();
    assert_eq!(users.len(), 10);
}

#[test]
fn stored_tokens_of_the_helpers_are_bearers() {
    let info = TestAuthInfo::generate();
    assert_eq!(info.bearer.split('.').count(), 3);
}
