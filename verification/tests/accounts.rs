use voyage_atlas_api::api::controller::posts::{create_post_with, get_users_feed};
use voyage_atlas_api::api::controller::user::{
    check_names, follow_user, get_followers, get_following, hash_is_printable, login_at,
    register, register_with, unfollow_user,
};
use voyage_atlas_api::api::database::{
    get_user_by_email, get_user_by_id, get_user_by_username, insert_user, is_following, Store,
};
use voyage_atlas_api::api::models::error::ApiError;
use voyage_atlas_api::api::models::token::JwtPayload;
use voyage_atlas_api::api::models::{AuthInfo, AuthUser, CreatePost, CreateUser, LoginInfo};

const SECRET: &[u8] = b"a secret of the test suite";
const T: u64 = 1_700_000_000;

/// A bcrypt hash of "Password123!" at a low cost.
const PASSWORD_HASH: &str = "$2b$04$abcdefghijklmnopqrstuumbNOzV03V9tKSvHaJ6x1AUcLX8acgri";

fn candidate(username: &str, email: &str) -> CreateUser {
    CreateUser {
        email: email.to_string(),
        username: username.to_string(),
        first_name: "Ada".to_string(),
        description: "Counts".to_string(),
        last_name: "Lovelace".to_string(),
        password: "Password123!".to_string(),
    }
}

fn enrol(store: &mut Store, id: u128, username: &str, email: &str) -> Result<AuthInfo, ApiError> {
    register_with(candidate(username, email), id, Some(PASSWORD_HASH.to_string()), T, SECRET, store)
}

fn sign_in(store: &Store, email: &str, password: &str) -> Result<AuthInfo, ApiError> {
    login_at(LoginInfo { email: email.to_string(), password: password.to_string() }, T, SECRET, store)
}

fn refused<T>(r: Result<T, ApiError>) -> ApiError {
    r.err().expect("the request is refused")
}

#[test]
fn a_registration_hands_out_the_account_and_its_token() {
    let mut store = Store::new();
    let info = enrol(&mut store, 0x1234, "Ada", "Ada@Test.IO").unwrap();
    assert_eq!(info.user.id, "00000000-0000-0000-0000-000000001234");
    assert_eq!(info.user.username, "ada");
    assert_eq!(info.user.email, "ada@test.io");
    assert_eq!(info.user.name, "Ada Lovelace");
    assert_eq!(info.user.description, "Counts");
    let claims = JwtPayload::decode(&info.bearer, SECRET, T).unwrap();
    assert_eq!(claims.user_id, info.user.id);
    assert_eq!(claims.iss, T);
    assert_eq!(claims.exp, T + 30 * 86_400);
}

#[test]
fn a_username_or_an_email_is_registered_once_whatever_its_case() {
    let mut store = Store::new();
    enrol(&mut store, 1, "Ada", "ada@test.io").unwrap();
    for (username, email, text) in [
        ("Ada", "other@test.io", "Username already taken."),
        ("ada", "other@test.io", "Username already taken."),
        ("ADA", "other@test.io", "Username already taken."),
        ("ada", "ADA@test.io", "Username already taken."),
        ("grace", "ada@test.io", "Email already taken."),
        ("grace", "ADA@TEST.IO", "Email already taken."),
    ] {
        let err = refused(enrol(&mut store, 2, username, email));
        assert!(matches!(err, ApiError::BadRequest(_)));
        assert_eq!(err.status_code(), 400);
        assert_eq!(err.to_string(), text);
        assert!(get_user_by_id(&store, 2).is_none());
    }
    assert!(enrol(&mut store, 2, "grace", "grace@test.io").is_ok());
}

#[test]
fn the_names_are_held_to_the_store_before_anything_else() {
    let mut store = Store::new();
    enrol(&mut store, 1, "ada", "ada@test.io").unwrap();
    assert!(check_names(&candidate("grace", "grace@test.io"), &store).is_ok());
    assert_eq!(
        refused(check_names(&candidate("ADA", "ada@test.io"), &store)).to_string(),
        "Username already taken."
    );
    // a taken name is reported even where hashing failed or the id is taken
    let err = refused(register_with(candidate("ada", "x@test.io"), 1, None, T, SECRET, &mut store));
    assert_eq!(err.to_string(), "Username already taken.");
}

#[test]
fn a_registration_fails_where_hashing_failed_or_the_id_is_taken() {
    let mut store = Store::new();
    let err = refused(register_with(candidate("ada", "ada@test.io"), 1, None, T, SECRET, &mut store));
    assert_eq!(err.status_code(), 500);
    assert_eq!(
        err.to_string(),
        "Internal Service Error: Failed to hash password for new user."
    );
    assert!(get_user_by_id(&store, 1).is_none());

    enrol(&mut store, 1, "ada", "ada@test.io").unwrap();
    let err = refused(enrol(&mut store, 1, "grace", "grace@test.io"));
    assert_eq!(err.status_code(), 500);
    assert_eq!(err.to_string(), "Database Error: Failed to insert new user into database.");
    assert!(get_user_by_email(&store, "grace@test.io").is_none());
}

#[test]
fn an_account_that_cannot_get_its_token_is_registered_all_the_same() {
    let mut store = Store::new();
    let late = u64::MAX - 5;
    let err = refused(register_with(
        candidate("ada", "ada@test.io"),
        1,
        Some(PASSWORD_HASH.to_string()),
        late,
        SECRET,
        &mut store,
    ));
    assert_eq!(err.to_string(), "Internal Service Error: Failed to generate JWT.");
    assert!(get_user_by_id(&store, 1).is_some());
}

#[test]
fn a_registered_account_logs_in() {
    let mut store = Store::new();
    let made = register(candidate("Ada", "Ada@test.io"), &mut store, SECRET).unwrap();
    let info = sign_in(&store, "ada@TEST.io", "Password123!").unwrap();
    assert_eq!(info.user.id, made.user.id);
    assert_eq!(info.user.username, "ada");
    assert_eq!(info.user.email, "ada@test.io");
    assert_eq!(info.user.name, "Ada Lovelace");
    let claims = JwtPayload::decode(&info.bearer, SECRET, T).unwrap();
    assert_eq!(claims.user_id, made.user.id);
}

#[test]
fn a_login_that_fails_does_not_say_why() {
    let mut store = Store::new();
    enrol(&mut store, 1, "ada", "ada@test.io").unwrap();
    let unknown = refused(sign_in(&store, "nobody@test.io", "Password123!"));
    let wrong = refused(sign_in(&store, "ada@test.io", "Password123"));
    let empty = refused(sign_in(&store, "ada@test.io", ""));
    for err in [&unknown, &wrong, &empty] {
        assert!(matches!(err, ApiError::BadRequest(_)));
        assert_eq!(err.status_code(), 400);
        assert_eq!(err.to_string(), "Email or Password is incorrect");
    }
    assert!(sign_in(&store, "ada@test.io", "Password123!").is_ok());
}

#[test]
fn a_stored_hash_that_is_no_hash_matches_no_password() {
    let mut store = Store::new();
    for (id, hash) in [
        (1u128, ""),
        (2, "plain"),
        (3, "$2b$04$abcdefghijklmnopqrstu\u{80}mbNOzV03V9tKSvHaJ6x1AUcLX8acgri"),
        (4, "$2b$04$abcde\nghijklmnopqrstuumbNOzV03V9tKSvHaJ6x1AUcLX8acgri"),
        (5, "$2b$04$\u{7f}bcdefghijklmnopqrstuumbNOzV03V9tKSvHaJ6x1AUcLX8acgri"),
    ] {
        let email = format!("user{}@test.io", id);
        let row = candidate(&format!("user{}", id), &email);
        insert_user(&mut store, id, hash.to_string(), &row).unwrap();
        let err = refused(sign_in(&store, &email, "Password123!"));
        assert_eq!(err.to_string(), "Email or Password is incorrect");
    }
    assert!(hash_is_printable(PASSWORD_HASH));
    assert!(hash_is_printable(""));
    assert!(hash_is_printable(" ~"));
    assert!(!hash_is_printable("a\u{7f}"));
    assert!(!hash_is_printable("\u{1f}"));
    assert!(!hash_is_printable("\u{e9}"));
}

#[test]
fn an_account_is_found_by_its_id_its_username_and_its_email() {
    let mut store = Store::new();
    enrol(&mut store, 1, "Ada", "Ada@test.io").unwrap();
    enrol(&mut store, 2, "grace", "grace@test.io").unwrap();
    for user in [
        get_user_by_id(&store, 2).unwrap(),
        get_user_by_username(&store, "GRACE").unwrap(),
        get_user_by_email(&store, "Grace@Test.io").unwrap(),
    ] {
        assert_eq!(user.id, "00000000-0000-0000-0000-000000000002");
        assert_eq!(user.username, "grace");
        assert_eq!(user.email, "grace@test.io");
        assert_eq!(user.name, "Ada Lovelace");
        assert_eq!(user.description, "Counts");
        let principal: AuthUser = user.into();
        assert_eq!(principal.username, "grace");
    }
    assert!(get_user_by_id(&store, 3).is_none());
    assert!(get_user_by_username(&store, "nobody").is_none());
    assert!(get_user_by_email(&store, "nobody@test.io").is_none());
}

#[test]
fn the_hash_of_an_account_is_not_printed() {
    let mut store = Store::new();
    enrol(&mut store, 1, "ada", "ada@test.io").unwrap();
    let user = get_user_by_id(&store, 1).unwrap();
    let printed = format!("{:?}", user);
    assert!(printed.contains("ada@test.io"));
    assert!(!printed.contains(PASSWORD_HASH));
    assert!(!printed.contains("$2b$"));
}

#[test]
fn following_wants_both_accounts_and_no_edge() {
    let mut store = Store::new();
    enrol(&mut store, 1, "ada", "ada@test.io").unwrap();
    enrol(&mut store, 2, "grace", "grace@test.io").unwrap();
    for (a, b) in [(1, 3), (3, 1), (3, 4)] {
        let err = refused(follow_user(a, b, &mut store));
        assert!(matches!(err, ApiError::NotFound(_)));
        assert_eq!(err.status_code(), 404);
        assert_eq!(err.to_string(), "User does not exist");
        let err = refused(unfollow_user(a, b, &mut store));
        assert_eq!(err.to_string(), "User does not exist");
    }
    assert!(follow_user(1, 2, &mut store).is_ok());
    assert!(is_following(&store, 1, 2));
    assert!(!is_following(&store, 2, 1));
    assert_eq!(refused(follow_user(1, 2, &mut store)).status_code(), 400);
    assert!(follow_user(2, 1, &mut store).is_ok());
    assert!(unfollow_user(1, 2, &mut store).is_ok());
    assert!(!is_following(&store, 1, 2));
    assert!(is_following(&store, 2, 1));
    assert_eq!(
        refused(unfollow_user(1, 2, &mut store)).to_string(),
        "You are not following this user"
    );
    assert!(follow_user(1, 2, &mut store).is_ok());
}

#[test]
fn an_account_may_follow_itself() {
    let mut store = Store::new();
    enrol(&mut store, 1, "ada", "ada@test.io").unwrap();
    assert!(follow_user(1, 1, &mut store).is_ok());
    assert!(is_following(&store, 1, 1));
    assert_eq!(get_followers(1, &store).unwrap().len(), 1);
    assert_eq!(get_following(1, &store).unwrap().len(), 1);
    assert_eq!(refused(follow_user(1, 1, &mut store)).status_code(), 400);
}

#[test]
fn followers_and_followed_come_in_the_order_of_registration() {
    let mut store = Store::new();
    enrol(&mut store, 1, "ada", "ada@test.io").unwrap();
    enrol(&mut store, 2, "grace", "grace@test.io").unwrap();
    enrol(&mut store, 3, "edsger", "edsger@test.io").unwrap();
    follow_user(3, 1, &mut store).unwrap();
    follow_user(2, 1, &mut store).unwrap();
    follow_user(1, 3, &mut store).unwrap();
    follow_user(1, 2, &mut store).unwrap();
    let names = |list: Vec<AuthUser>| list.into_iter().map(|u| u.username).collect::<Vec<_>>();
    assert_eq!(names(get_followers(1, &store).unwrap()), vec!["grace", "edsger"]);
    assert_eq!(names(get_following(1, &store).unwrap()), vec!["grace", "edsger"]);
    assert_eq!(names(get_followers(2, &store).unwrap()), vec!["ada"]);
    assert_eq!(names(get_following(2, &store).unwrap()), vec!["ada"]);
    assert_eq!(names(get_followers(7, &store).unwrap()), Vec::<String>::new());
}

#[test]
fn two_users_and_three_posts() {
    let mut store = Store::new();
    let post = |title: &str| CreatePost {
        title: title.to_string(),
        location: "l".to_string(),
        content: "c".to_string(),
    };
    let first = CreateUser {
        email: "user1@test.io".to_string(),
        username: "user1".to_string(),
        first_name: "User".to_string(),
        description: String::new(),
        last_name: "One".to_string(),
        password: "Passw0rd!".to_string(),
    };
    assert!(first.validate().is_ok());
    let u1 = register(first, &mut store, SECRET).unwrap();
    let u1_id = uuid::Uuid::parse_str(&u1.user.id).unwrap().as_u128();

    let p = create_post_with(&mut store, u1_id, post("t"), 101, 1_000).unwrap();
    let shown = &voyage_atlas_api::api::controller::posts::get_users_post(&store, u1.user.id.clone())
        .unwrap()[0];
    assert_eq!(shown.id, p);
    assert_eq!((shown.title.as_str(), shown.location.as_str(), shown.content.as_str()), ("t", "l", "c"));
    assert_eq!(shown.author, u1.user.id);
    assert_eq!(shown.num_likes, 0);
    assert_eq!(shown.num_comments, 0);

    let second = CreateUser {
        email: "user2@test.io".to_string(),
        username: "user2".to_string(),
        first_name: "User".to_string(),
        description: String::new(),
        last_name: "Two".to_string(),
        password: "Passw0rd!".to_string(),
    };
    let u2 = register(second, &mut store, SECRET).unwrap();
    let u2_id = uuid::Uuid::parse_str(&u2.user.id).unwrap().as_u128();
    follow_user(u2_id, u1_id, &mut store).unwrap();

    let feed = get_users_feed(&store, u2_id).unwrap();
    assert_eq!(feed.len(), 1);
    assert_eq!(feed[0].id, p);

    let q = create_post_with(&mut store, u1_id, post("t2"), 102, 2_000).unwrap();
    let r = create_post_with(&mut store, u1_id, post("t3"), 103, 3_000).unwrap();
    let feed = get_users_feed(&store, u2_id).unwrap();
    let ids: Vec<&str> = feed.iter().map(|post| post.id.as_str()).collect();
    assert_eq!(ids, vec![r.as_str(), q.as_str(), p.as_str()]);
    assert_eq!(feed.iter().map(|post| post.created_at).collect::<Vec<_>>(), vec![3_000, 2_000, 1_000]);

    assert_eq!(get_users_feed(&store, u1_id).unwrap().len(), 0);
}

#[test]
fn an_account_is_shown_by_its_id() {
    let mut store = Store::new();
    enrol(&mut store, 1, "ada", "ada@test.io").unwrap();
    let shown = voyage_atlas_api::api::controller::user::get_user_by_id(1, &store).unwrap();
    assert_eq!(shown.username, "ada");
    assert_eq!(shown.id, "00000000-0000-0000-0000-000000000001");
    let err = refused(voyage_atlas_api::api::controller::user::get_user_by_id(2, &store));
    assert_eq!(err.status_code(), 404);
    assert_eq!(err.to_string(), "User does not exist");
}

#[test]
fn the_bearer_of_a_registration_and_of_a_login_reads_back_as_the_account() {
    let mut store = Store::new();
    let made = register(candidate("Ada", "Ada@test.io"), &mut store, SECRET).unwrap();
    let now = 1_700_000_000 + 400_000_000;
    let claims = JwtPayload::decode(&made.bearer, SECRET, made_at(&made.bearer)).unwrap();
    assert_eq!(claims.user_id, made.user.id);
    assert_eq!(claims.exp, claims.iss + 30 * 86_400);
    assert!(claims.iss > T && claims.iss < now);
    assert_eq!(get_user_by_id(&store, uuid::Uuid::parse_str(&made.user.id).unwrap().as_u128())
        .unwrap()
        .id, made.user.id);

    let info = voyage_atlas_api::api::controller::user::login(
        LoginInfo { email: "ADA@test.io".to_string(), password: "Password123!".to_string() },
        &store,
        SECRET,
    )
    .unwrap();
    let claims = JwtPayload::decode(&info.bearer, SECRET, made_at(&info.bearer)).unwrap();
    assert_eq!(claims.user_id, made.user.id);
    assert_eq!(info.user.email, "ada@test.io");
}

/// The time at which a bearer of this suite was issued.
fn made_at(bearer: &str) -> u64 {
    JwtPayload::decode(bearer, SECRET, 0).unwrap().iss
}

#[test]
fn a_stored_name_is_found_taken_in_any_case() {
    let mut store = Store::new();
    insert_user(&mut store, 1, PASSWORD_HASH.to_string(), &candidate("MiXeD", "Mixed@Test.IO"))
        .unwrap();
    let stored = get_user_by_id(&store, 1).unwrap();
    assert_eq!(stored.username, "mixed");
    assert_eq!(stored.email, "mixed@test.io");
    for name in ["mixed", "MIXED", "mIxEd"] {
        let err = refused(check_names(&candidate(name, "free@test.io"), &store));
        assert_eq!(err.to_string(), "Username already taken.");
        let err = refused(check_names(&candidate("free", &format!("{}@test.io", name)), &store));
        assert_eq!(err.to_string(), "Email already taken.");
    }
    let err = refused(insert_user(&mut store, 2, String::new(), &candidate("MIXED", "b@test.io")));
    assert_eq!(err.to_string(), "Database Error: Failed to insert new user into database.");
    let err = refused(insert_user(&mut store, 2, String::new(), &candidate("b", "MIXED@test.io")));
    assert_eq!(err.status_code(), 500);
    // names of other scripts are stored in lower case too
    insert_user(&mut store, 3, String::new(), &candidate("\u{c4}RGER", "\u{3a3}@test.io")).unwrap();
    let stored = get_user_by_id(&store, 3).unwrap();
    assert_eq!(stored.username, "\u{e4}rger");
    assert!(get_user_by_username(&store, "\u{c4}rger").is_some());
}
