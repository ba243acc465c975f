use uuid::Uuid;
use voyage_atlas_api::api::controller::posts::{
    create_post, create_post_with, get_likes_of_post, get_users_feed, get_users_post, like_a_post,
    unlike_a_post,
};
use voyage_atlas_api::api::controller::user::follow_user;
use voyage_atlas_api::api::database::{
    get_like_by_user_and_post, get_post_by_id, insert_user, Store,
};
use voyage_atlas_api::api::models::{CreatePost, CreateUser, Post};

/// A bcrypt hash of "Password123!" at a low cost.
const PASSWORD_HASH: &str = "$2b$04$abcdefghijklmnopqrstuumbNOzV03V9tKSvHaJ6x1AUcLX8acgri";

struct TestUser {
    id: Uuid,
}

impl TestUser {
    fn generate(store: &mut Store) -> Self {
        let id = Uuid::new_v4();
        let row = CreateUser {
            email: format!("{}@email", id),
            username: id.to_string(),
            first_name: "Test".to_string(),
            description: String::new(),
            last_name: "User".to_string(),
            password: String::new(),
        };
        insert_user(store, id.as_u128(), PASSWORD_HASH.to_string(), &row).unwrap();
        TestUser { id }
    }

    fn key(&self) -> u128 {
        self.id.as_u128()
    }
}

struct TestApp {
    store: Store,
    user: TestUser,
}

fn spawn_app() -> TestApp {
    let mut store = Store::new();
    let user = TestUser::generate(&mut store);
    TestApp { store, user }
}

fn body(title: &str) -> CreatePost {
    CreatePost {
        title: title.to_string(),
        location: "location".to_string(),
        content: "content".to_string(),
    }
}

fn key_of(id: &str) -> u128 {
    Uuid::parse_str(id).unwrap().as_u128()
}

#[test]
fn test_creating_a_post() {
    let mut test_app = spawn_app();
    let response = create_post(&mut test_app.store, test_app.user.key(), body("My first post"));
    let post_id = key_of(&response.unwrap());
    let post = get_post_by_id(&test_app.store, post_id);
    assert!(post.is_some());
}

#[test]
fn test_get_user_posts() {
    let mut test_app = spawn_app();
    for i in 0..5 {
        let response = create_post(
            &mut test_app.store,
            test_app.user.key(),
            body(&format!("My first post {}", i)),
        );
        assert!(response.is_ok());
    }
    let posts: Vec<Post> = get_users_post(&test_app.store, test_app.user.id.to_string()).unwrap();
    assert_eq!(posts.len(), 5);
    for post in posts {
        assert_eq!(post.num_likes, 0);
        assert_eq!(post.num_comments, 0);
    }
}

#[test]
fn test_get_user_posts_user_dne() {
    let test_app = spawn_app();
    let err = get_users_post(&test_app.store, Uuid::new_v4().to_string()).err().unwrap();
    assert_eq!(err.status_code(), 404);
    assert_eq!(err.to_string(), "User does not exist");
}

#[test]
fn test_get_user_posts_user_id_invalid() {
    let test_app = spawn_app();
    let err = get_users_post(&test_app.store, "dasfds".to_string()).err().unwrap();
    assert_eq!(err.status_code(), 400);
}

#[test]
fn test_get_a_users_feed() {
    let mut test_app = spawn_app();
    let user_to_follow = TestUser::generate(&mut test_app.store);

    let res = follow_user(test_app.user.key(), user_to_follow.key(), &mut test_app.store);
    assert!(res.is_ok());
    for i in 0..10 {
        let response = create_post(
            &mut test_app.store,
            user_to_follow.key(),
            body(&format!("My first post {}", i)),
        );
        assert!(response.is_ok());
    }
    let posts: Vec<Post> = get_users_feed(&test_app.store, test_app.user.key()).unwrap();
    assert_eq!(posts.len(), 10);
    let mut prev_post = &posts[0];
    for post in &posts[1..] {
        assert!(post.created_at <= prev_post.created_at);
        prev_post = post;
    }
}

#[test]
fn test_get_a_users_feed_not_following_anyone() {
    let test_app = spawn_app();
    let posts: Vec<Post> = get_users_feed(&test_app.store, test_app.user.key()).unwrap();
    assert_eq!(posts.len(), 0);
}

#[test]
fn test_liking_a_post() {
    let mut test_app = spawn_app();
    let response = create_post(&mut test_app.store, test_app.user.key(), body("My first post"));
    let post_id = key_of(&response.unwrap());
    let res = like_a_post(test_app.user.key(), post_id, &mut test_app.store);
    assert!(res.is_ok());
    let like = get_like_by_user_and_post(&test_app.store, test_app.user.key(), post_id);
    assert!(like.is_some());
}

#[test]
fn test_liking_a_post_fail_post_dne() {
    let mut test_app = spawn_app();
    let err = like_a_post(test_app.user.key(), Uuid::new_v4().as_u128(), &mut test_app.store)
        .err()
        .unwrap();
    assert_eq!(err.status_code(), 404);
    assert_eq!(err.to_string(), "Post does not exist");
}

#[test]
fn test_liking_a_post_fail_already_liked() {
    let mut test_app = spawn_app();
    let response = create_post(&mut test_app.store, test_app.user.key(), body("My first post"));
    let post_id = key_of(&response.unwrap());
    let res = like_a_post(test_app.user.key(), post_id, &mut test_app.store);
    assert!(res.is_ok());
    let err = like_a_post(test_app.user.key(), post_id, &mut test_app.store).err().unwrap();
    assert_eq!(err.status_code(), 400);
    assert_eq!(err.to_string(), "You have already liked this post");
}

#[test]
fn test_unliking_a_post() {
    let mut test_app = spawn_app();
    let response = create_post(&mut test_app.store, test_app.user.key(), body("My first post"));
    let post_id = key_of(&response.unwrap());
    let res = like_a_post(test_app.user.key(), post_id, &mut test_app.store);
    assert!(res.is_ok());
    let res = unlike_a_post(test_app.user.key(), post_id, &mut test_app.store);
    assert!(res.is_ok());
    let like = get_like_by_user_and_post(&test_app.store, test_app.user.key(), post_id);
    assert!(like.is_none());
}

#[test]
fn test_unliking_a_post_fail_post_dne() {
    let mut test_app = spawn_app();
    let err = unlike_a_post(test_app.user.key(), Uuid::new_v4().as_u128(), &mut test_app.store)
        .err()
        .unwrap();
    assert_eq!(err.status_code(), 404);
    assert_eq!(err.to_string(), "Post does not exist");
}

#[test]
fn test_unliking_a_post_fail_not_liked() {
    let mut test_app = spawn_app();
    let response = create_post(&mut test_app.store, test_app.user.key(), body("My first post"));
    let post_id = key_of(&response.unwrap());
    let err = unlike_a_post(test_app.user.key(), post_id, &mut test_app.store).err().unwrap();
    assert_eq!(err.status_code(), 400);
    assert_eq!(err.to_string(), "Post not liked");
}

#[test]
fn test_get_likes_for_a_post() {
    let mut test_app = spawn_app();
    let response = create_post(&mut test_app.store, test_app.user.key(), body("My first post"));
    let post_id = key_of(&response.unwrap());
    let res = like_a_post(test_app.user.key(), post_id, &mut test_app.store);
    assert!(res.is_ok());
    let likes = get_likes_of_post(post_id, &test_app.store).unwrap();
    assert_eq!(likes.len(), 1);
    assert_eq!(likes[0].user_id, test_app.user.id.to_string());
}

#[test]
fn likes_of_a_missing_post_are_not_found() {
    let test_app = spawn_app();
    let err = get_likes_of_post(7, &test_app.store).err().unwrap();
    assert_eq!(err.status_code(), 404);
    assert_eq!(err.to_string(), "Post does not exist");
}

#[test]
fn feed_of_a_missing_user_is_not_found() {
    let test_app = spawn_app();
    let err = get_users_feed(&test_app.store, 7).err().unwrap();
    assert_eq!(err.status_code(), 404);
    assert_eq!(err.to_string(), "User does not exist");
}

#[test]
fn a_like_raises_the_count_by_one_and_unliking_takes_it_back() {
    let mut test_app = spawn_app();
    let fan = TestUser::generate(&mut test_app.store);
    let post_id = 41;
    create_post_with(&mut test_app.store, test_app.user.key(), body("Counted"), post_id, 1_000)
        .unwrap();
    assert_eq!(get_post_by_id(&test_app.store, post_id).unwrap().num_likes, 0);
    like_a_post(test_app.user.key(), post_id, &mut test_app.store).unwrap();
    assert_eq!(get_post_by_id(&test_app.store, post_id).unwrap().num_likes, 1);
    like_a_post(fan.key(), post_id, &mut test_app.store).unwrap();
    assert_eq!(get_post_by_id(&test_app.store, post_id).unwrap().num_likes, 2);
    unlike_a_post(fan.key(), post_id, &mut test_app.store).unwrap();
    assert_eq!(get_post_by_id(&test_app.store, post_id).unwrap().num_likes, 1);
}

#[test]
fn a_post_id_is_used_once() {
    let mut test_app = spawn_app();
    let id = create_post_with(&mut test_app.store, test_app.user.key(), body("First"), 5, 10);
    assert_eq!(id.unwrap(), "00000000-0000-0000-0000-000000000005");
    let err = create_post_with(&mut test_app.store, test_app.user.key(), body("Second"), 5, 11)
        .err()
        .unwrap();
    assert_eq!(err.status_code(), 500);
    assert_eq!(err.to_string(), "Database Error: Failed to insert new post into database.");
    assert_eq!(get_post_by_id(&test_app.store, 5).unwrap().title, "First");
}

#[test]
fn the_feed_is_newest_first_and_orders_one_second_by_id() {
    let mut test_app = spawn_app();
    let author = TestUser::generate(&mut test_app.store);
    let stranger = TestUser::generate(&mut test_app.store);
    follow_user(test_app.user.key(), author.key(), &mut test_app.store).unwrap();
    create_post_with(&mut test_app.store, author.key(), body("old"), 30, 100).unwrap();
    create_post_with(&mut test_app.store, author.key(), body("new b"), 20, 300).unwrap();
    create_post_with(&mut test_app.store, stranger.key(), body("not mine"), 25, 400).unwrap();
    create_post_with(&mut test_app.store, author.key(), body("new a"), 10, 300).unwrap();
    create_post_with(&mut test_app.store, author.key(), body("middle"), 40, 200).unwrap();
    let feed = get_users_feed(&test_app.store, test_app.user.key()).unwrap();
    let titles: Vec<&str> = feed.iter().map(|post| post.title.as_str()).collect();
    assert_eq!(titles, vec!["new a", "new b", "middle", "old"]);
    assert!(feed.iter().all(|post| post.author == author.id.to_string()));
}

#[test]
fn each_post_gets_an_id_of_its_own() {
    let mut test_app = spawn_app();
    let first = create_post(&mut test_app.store, test_app.user.key(), body("First")).unwrap();
    let second = create_post(&mut test_app.store, test_app.user.key(), body("Second")).unwrap();
    assert_ne!(first, second);
    assert_eq!(first.len(), 36);
    assert_eq!(Uuid::parse_str(&first).unwrap().get_version_num(), 4);
    let shown = get_post_by_id(&test_app.store, key_of(&second)).unwrap();
    assert_eq!(shown.title, "Second");
    assert!(shown.created_at > 1_700_000_000);
}

#[test]
fn a_like_is_shown_with_its_time() {
    let mut test_app = spawn_app();
    create_post_with(&mut test_app.store, test_app.user.key(), body("Liked"), 9, 50).unwrap();
    voyage_atlas_api::api::controller::posts::like_a_post_at(
        test_app.user.key(),
        9,
        75,
        &mut test_app.store,
    )
    .unwrap();
    let like = get_like_by_user_and_post(&test_app.store, test_app.user.key(), 9).unwrap();
    assert_eq!(like.user_id, test_app.user.id.to_string());
    assert_eq!(like.post_id, "00000000-0000-0000-0000-000000000009");
    assert_eq!(like.created_at, 75);
    assert!(get_like_by_user_and_post(&test_app.store, 9, test_app.user.key()).is_none());
}

#[test]
fn a_like_wants_its_user() {
    let mut test_app = spawn_app();
    create_post_with(&mut test_app.store, test_app.user.key(), body("Liked"), 9, 50).unwrap();
    let err = like_a_post(1, 9, &mut test_app.store).err().unwrap();
    assert_eq!(err.status_code(), 404);
    assert_eq!(err.to_string(), "User does not exist");
    let err = unlike_a_post(1, 9, &mut test_app.store).err().unwrap();
    assert_eq!(err.to_string(), "User does not exist");
}
