use uuid::Uuid;
use voyage_atlas_api::api::controller::comments::{
    create_comment, create_comment_with, delete_comment, get_comments, reply_to_comment,
    reply_to_comment_with,
};
use voyage_atlas_api::api::controller::posts::{create_post, get_users_post};
use voyage_atlas_api::api::database::{get_comment_by_id, insert_user, Store};
use voyage_atlas_api::api::models::error::ApiError;
use voyage_atlas_api::api::models::{CreateComment, CreatePost, CreateUser};

/// A bcrypt hash of "Password123!" at a low cost.
const PASSWORD_HASH: &str = "$2b$04$abcdefghijklmnopqrstuumbNOzV03V9tKSvHaJ6x1AUcLX8acgri";

struct TestUser {
    id: Uuid,
}

impl TestUser {
    fn generate(store: &mut Store) -> Self {
        let id = Uuid::new_v4();
        let row = CreateUser {
            email: format!("{}@email", id),
            username: id.to_string(),
            first_name: "Test".to_string(),
            description: String::new(),
            last_name: "User".to_string(),
            password: String::new(),
        };
        insert_user(store, id.as_u128(), PASSWORD_HASH.to_string(), &row).unwrap();
        TestUser { id }
    }

    fn key(&self) -> u128 {
        self.id.as_u128()
    }
}

struct TestApp {
    store: Store,
    user: TestUser,
}

fn spawn_app() -> TestApp {
    let mut store = Store::new();
    let user = TestUser::generate(&mut store);
    TestApp { store, user }
}

fn key_of(id: &str) -> u128 {
    Uuid::parse_str(id).unwrap().as_u128()
}

fn first_post(app: &mut TestApp) -> u128 {
    let post = CreatePost {
        title: "My first post".to_string(),
        location: "location".to_string(),
        content: "content".to_string(),
    };
    key_of(&create_post(&mut app.store, app.user.key(), post).unwrap())
}

fn post_comment(app: &mut TestApp, user: u128, post: u128, comment: CreateComment) -> Result<String, ApiError> {
    comment.validate()?;
    create_comment(user, post, comment, &mut app.store)
}

#[test]
fn test_create_comment() {
    let mut test_app = spawn_app();
    let post_id = first_post(&mut test_app);
    let user = test_app.user.key();

    let res = post_comment(
        &mut test_app,
        user,
        post_id,
        CreateComment { comment: "My first comment".to_string() },
    );
    let comment_id = key_of(&res.unwrap());
    let comment = get_comment_by_id(comment_id, &test_app.store);
    assert!(comment.is_some());

    let post = get_users_post(&test_app.store, test_app.user.id.to_string()).unwrap();
    assert_eq!(post[0].num_comments, 1);
}

#[test]
fn test_create_comment_fails_post_dne() {
    let mut test_app = spawn_app();
    let user = test_app.user.key();
    let err = post_comment(
        &mut test_app,
        user,
        Uuid::new_v4().as_u128(),
        CreateComment { comment: "Comment".into() },
    )
    .err()
    .unwrap();
    assert_eq!(err.status_code(), 404);
    assert_eq!(err.to_string(), "Post does not exist");
}

#[test]
fn test_create_comment_fails_comment_too_short() {
    let mut test_app = spawn_app();
    let post_id = first_post(&mut test_app);
    let user = test_app.user.key();
    let err = post_comment(&mut test_app, user, post_id, CreateComment { comment: "".into() })
        .err()
        .unwrap();
    assert_eq!(err.status_code(), 400);
}

#[test]
fn test_create_comment_fails_comment_too_long() {
    let mut test_app = spawn_app();
    let post_id = first_post(&mut test_app);
    let user = test_app.user.key();
    let err = post_comment(&mut test_app, user, post_id, CreateComment { comment: "a".repeat(256) })
        .err()
        .unwrap();
    assert_eq!(err.status_code(), 400);
}

#[test]
fn test_get_comments_on_post() {
    let mut test_app = spawn_app();
    let post_id = first_post(&mut test_app);
    let user = test_app.user.key();
    for i in 0..5 {
        let res = post_comment(
            &mut test_app,
            user,
            post_id,
            CreateComment { comment: format!("Comment {}", i) },
        );
        assert!(res.is_ok());
    }
    let comments = get_comments(post_id, &test_app.store).unwrap();
    assert_eq!(comments.len(), 5);
}

#[test]
fn test_delete_comment() {
    let mut test_app = spawn_app();
    let post_id = first_post(&mut test_app);
    let user = test_app.user.key();
    let res = post_comment(&mut test_app, user, post_id, CreateComment { comment: "Comment".into() });
    let comment_id = key_of(&res.unwrap());

    let res = delete_comment(user, post_id, comment_id, &mut test_app.store);
    assert!(res.is_ok());
    let comments = get_comments(post_id, &test_app.store).unwrap();
    assert_eq!(comments.len(), 0);
}

#[test]
fn test_delete_comment_fails_comment_dne() {
    let mut test_app = spawn_app();
    let post_id = first_post(&mut test_app);
    let user = test_app.user.key();
    let err = delete_comment(user, post_id, Uuid::new_v4().as_u128(), &mut test_app.store)
        .err()
        .unwrap();
    assert_eq!(err.status_code(), 404);
    assert_eq!(err.to_string(), "Comment does not exist");
}

#[test]
fn test_delete_comment_fails_not_owner() {
    let mut test_app = spawn_app();
    let post_id = first_post(&mut test_app);
    let user = test_app.user.key();
    let res = post_comment(&mut test_app, user, post_id, CreateComment { comment: "Comment".into() });
    let comment_id = key_of(&res.unwrap());

    let other = TestUser::generate(&mut test_app.store);
    let err = delete_comment(other.key(), post_id, comment_id, &mut test_app.store).err().unwrap();
    assert_eq!(err.status_code(), 403);
    assert_eq!(err.to_string(), "You are not the owner of this comment");
    assert_eq!(get_comments(post_id, &test_app.store).unwrap().len(), 1);
}

#[test]
fn test_create_reply_comment() {
    let mut test_app = spawn_app();
    let post_id = first_post(&mut test_app);
    let user = test_app.user.key();
    let res = post_comment(&mut test_app, user, post_id, CreateComment { comment: "Comment".into() });
    let comment_text = res.unwrap();
    let comment_id = key_of(&comment_text);

    let res = reply_to_comment(
        user,
        post_id,
        comment_id,
        CreateComment { comment: "Reply comment".into() },
        &mut test_app.store,
    );
    assert!(res.is_ok());
    let comments = get_comments(post_id, &test_app.store).unwrap();
    assert_eq!(comments.len(), 2);
    assert_eq!(comments[0].comment, "Comment");
    assert_eq!(comments[1].comment, "Reply comment");
    assert_eq!(comments[0].parent_comment_id, None);
    assert_eq!(comments[1].parent_comment_id, Some(comment_text));
}

#[test]
fn test_create_reply_comment_fails_comment_dne() {
    let mut test_app = spawn_app();
    let post_id = first_post(&mut test_app);
    let err = reply_to_comment(
        test_app.user.key(),
        post_id,
        Uuid::new_v4().as_u128(),
        CreateComment { comment: "Reply comment".into() },
        &mut test_app.store,
    )
    .err()
    .unwrap();
    assert_eq!(err.status_code(), 404);
    assert_eq!(err.to_string(), "Comment does not exist");
}

#[test]
fn test_create_reply_comment_fails_post_dne() {
    let mut test_app = spawn_app();
    let err = reply_to_comment(
        test_app.user.key(),
        Uuid::new_v4().as_u128(),
        Uuid::new_v4().as_u128(),
        CreateComment { comment: "Reply comment".into() },
        &mut test_app.store,
    )
    .err()
    .unwrap();
    assert_eq!(err.status_code(), 404);
    assert_eq!(err.to_string(), "Post does not exist");
}

#[test]
fn comments_of_a_missing_post_are_not_found() {
    let test_app = spawn_app();
    let err = get_comments(9, &test_app.store).err().unwrap();
    assert_eq!(err.status_code(), 404);
    assert_eq!(err.to_string(), "Post does not exist");
}

#[test]
fn a_comment_of_an_unknown_user_is_not_found() {
    let mut test_app = spawn_app();
    let post_id = first_post(&mut test_app);
    let err = create_comment_with(
        77,
        post_id,
        CreateComment { comment: "Comment".into() },
        1,
        10,
        &mut test_app.store,
    )
    .err()
    .unwrap();
    assert_eq!(err.status_code(), 404);
    assert_eq!(err.to_string(), "User does not exist");
}

#[test]
fn a_comment_id_is_used_once() {
    let mut test_app = spawn_app();
    let post_id = first_post(&mut test_app);
    let user = test_app.user.key();
    let c = |text: &str| CreateComment { comment: text.to_string() };
    let id = create_comment_with(user, post_id, c("one"), 3, 10, &mut test_app.store).unwrap();
    assert_eq!(id, "00000000-0000-0000-0000-000000000003");
    let err = create_comment_with(user, post_id, c("two"), 3, 11, &mut test_app.store).err().unwrap();
    assert_eq!(err.to_string(), "Database Error: Failed to insert new comment into database.");
    let err = reply_to_comment_with(user, post_id, 3, c("three"), 3, 12, &mut test_app.store)
        .err()
        .unwrap();
    assert_eq!(err.status_code(), 500);
    let shown = get_comments(post_id, &test_app.store).unwrap();
    assert_eq!(shown.len(), 1);
    assert_eq!(shown[0].comment, "one");
    assert_eq!(shown[0].created_at, 10);
    assert_eq!(shown[0].user.id, test_app.user.id.to_string());
    assert_eq!(shown[0].user.name, "Test User");
}

#[test]
fn deleting_leaves_the_other_comments_in_their_order() {
    let mut test_app = spawn_app();
    let post_id = first_post(&mut test_app);
    let user = test_app.user.key();
    let c = |text: &str| CreateComment { comment: text.to_string() };
    create_comment_with(user, post_id, c("a"), 1, 10, &mut test_app.store).unwrap();
    create_comment_with(user, post_id, c("b"), 2, 11, &mut test_app.store).unwrap();
    create_comment_with(user, post_id, c("c"), 3, 12, &mut test_app.store).unwrap();
    delete_comment(user, post_id, 2, &mut test_app.store).unwrap();
    let texts: Vec<String> =
        get_comments(post_id, &test_app.store).unwrap().into_iter().map(|c| c.comment).collect();
    assert_eq!(texts, vec!["a".to_string(), "c".to_string()]);
    assert!(get_comment_by_id(2, &test_app.store).is_none());
}

#[test]
fn a_reply_may_be_answered_in_turn() {
    let mut test_app = spawn_app();
    let post_id = first_post(&mut test_app);
    let user = test_app.user.key();
    let c = |text: &str| CreateComment { comment: text.to_string() };
    create_comment_with(user, post_id, c("root"), 1, 10, &mut test_app.store).unwrap();
    reply_to_comment_with(user, post_id, 1, c("child"), 2, 11, &mut test_app.store).unwrap();
    reply_to_comment_with(user, post_id, 2, c("grandchild"), 3, 12, &mut test_app.store).unwrap();
    let shown = get_comments(post_id, &test_app.store).unwrap();
    let parents: Vec<Option<&str>> =
        shown.iter().map(|c| c.parent_comment_id.as_deref()).collect();
    assert_eq!(
        parents,
        vec![
            None,
            Some("00000000-0000-0000-0000-000000000001"),
            Some("00000000-0000-0000-0000-000000000002"),
        ]
    );
    // a reply outlives the comment it answers
    delete_comment(user, post_id, 1, &mut test_app.store).unwrap();
    let left = get_comments(post_id, &test_app.store).unwrap();
    assert_eq!(left.len(), 2);
    assert_eq!(left[0].comment, "child");
    assert_eq!(left[0].parent_comment_id.as_deref(), Some("00000000-0000-0000-0000-000000000001"));
}

#[test]
fn a_comment_is_counted_on_its_post_only() {
    let mut test_app = spawn_app();
    let post_id = first_post(&mut test_app);
    let other_post = first_post(&mut test_app);
    let user = test_app.user.key();
    let c = |text: &str| CreateComment { comment: text.to_string() };
    create_comment_with(user, post_id, c("one"), 1, 10, &mut test_app.store).unwrap();
    reply_to_comment_with(user, post_id, 1, c("two"), 2, 11, &mut test_app.store).unwrap();
    create_comment_with(user, other_post, c("three"), 3, 12, &mut test_app.store).unwrap();
    let posts = get_users_post(&test_app.store, test_app.user.id.to_string()).unwrap();
    let counts: Vec<u32> = posts.iter().map(|post| post.num_comments).collect();
    assert_eq!(counts, vec![2, 1]);
    assert_eq!(get_comments(other_post, &test_app.store).unwrap().len(), 1);
}
