//! What holds of the operations taken together.

use vstd::prelude::*;
use vstd::seq_lib::group_to_multiset_ensures;

use crate::api::controller::comments::{deleted, not_owner};
use crate::api::controller::posts::{liked, unliked};
use crate::api::controller::user::{
    already_following, email_taken, followed, logged_in, login_refused, not_following,
    password_matches, registered, unfollowed, username_taken,
};
use crate::api::database::users::lemma_feed_order_total;
use crate::api::database::{
    feed_key, newer_first, on_post, CommentRecord, FollowRow, LikeRow, StoreView, UserRecord,
};
use crate::api::models::token::issued_token;
use crate::api::vendor::uuid_text;
use crate::api::models::error::ApiErrorView;
use crate::api::models::token::{
    accepted_claims, authorized, decoded_token, invalid_token, JwtPayloadView, BEARER_PREFIX,
    CLOCK_LEEWAY_SECS, TOKEN_LIFETIME_SECS,
};
use crate::api::models::{AuthInfoView, CreateUserView, PostView};
use crate::api::vendor::{jwt_claims, lowercase};

verus! {

/// One day, in seconds.
pub const DAY_SECS: u64 = 86_400;

/// No two accounts are registered one after the other under one username or
/// one email, whatever the case of the letters: once a registration has
/// succeeded, another under its username or its email is refused as a bad
/// request, and it leaves the store as it was.
pub proof fn law_names_are_unique(
    s: StoreView,
    first: CreateUserView,
    first_id: u128,
    first_hash: Option<Seq<char>>,
    first_at: u64,
    second: CreateUserView,
    second_id: u128,
    second_hash: Option<Seq<char>>,
    second_at: u64,
    secret: Seq<u8>,
)
    requires
        s.wf(),
        registered(s, first, first_id, first_hash, first_at, secret).1 is Ok,
        lowercase(second.username) == lowercase(first.username) || lowercase(second.email)
            == lowercase(first.email),
    ensures
        ({
            let then = registered(s, first, first_id, first_hash, first_at, secret).0;
            let again = registered(then, second, second_id, second_hash, second_at, secret);
            &&& again.0 == then
            &&& again.1 == Err::<AuthInfoView, ApiErrorView>(username_taken()) || again.1 == Err::<
                AuthInfoView,
                ApiErrorView,
            >(email_taken())
            &&& again.1->Err_0.status() == 400
        }),
{
    let row = UserRecord::registered(first_id, first_hash->0, first);
    let then = s.with_user(row);
    let at = s.users.len() as int;
    assert(then.users[at] == row);
    if lowercase(second.username) == lowercase(first.username) {
        assert(then.username_at(at, lowercase(second.username)));
    } else {
        assert(then.email_at(at, lowercase(second.email)));
    }
}

/// A username is taken in whatever case it is written: where an account has
/// the username of a registration, the case of the letters of either left
/// aside, the registration is refused as a bad request with the message that
/// the username is taken, and the store stays as it was.
pub proof fn law_username_is_taken_in_any_case(
    s: StoreView,
    user: CreateUserView,
    user_id: u128,
    hash: Option<Seq<char>>,
    issued_at: u64,
    secret: Seq<u8>,
)
    requires
        s.wf(),
        s.holds_username(user.username),
    ensures
        registered(s, user, user_id, hash, issued_at, secret) == (
            s,
            Err::<AuthInfoView, ApiErrorView>(username_taken()),
        ),
        username_taken().status() == 400,
        username_taken().text() == "Username already taken."@,
{
}

/// An email is taken in whatever case it is written: where no account has
/// the username of a registration but one has its email, the case of the
/// letters left aside, the registration is refused as a bad request with the
/// message that the email is taken, and the store stays as it was.
pub proof fn law_email_is_taken_in_any_case(
    s: StoreView,
    user: CreateUserView,
    user_id: u128,
    hash: Option<Seq<char>>,
    issued_at: u64,
    secret: Seq<u8>,
)
    requires
        s.wf(),
        !s.holds_username(user.username),
        s.holds_email(user.email),
    ensures
        registered(s, user, user_id, hash, issued_at, secret) == (
            s,
            Err::<AuthInfoView, ApiErrorView>(email_taken()),
        ),
        email_taken().status() == 400,
        email_taken().text() == "Email already taken."@,
{
}

/// Names stay apart: whatever a registration comes to, the store is
/// afterwards as it should be, and no two of its accounts share a username
/// or an email, the case of the letters left aside.
pub proof fn law_registration_keeps_names_apart(
    s: StoreView,
    user: CreateUserView,
    user_id: u128,
    hash: Option<Seq<char>>,
    issued_at: u64,
    secret: Seq<u8>,
)
    requires
        s.wf(),
    ensures
        s.names_apart(),
        registered(s, user, user_id, hash, issued_at, secret).0.wf(),
        registered(s, user, user_id, hash, issued_at, secret).0.names_apart(),
{
    let then = registered(s, user, user_id, hash, issued_at, secret).0;
    s.lemma_names_apart();
    if then != s {
        s.lemma_user_added(UserRecord::registered(user_id, hash->0, user));
    }
    then.lemma_names_apart();
}

/// A login under an email that no account has and a login with a password
/// that is not the account's are refused alike: by the same kind of error
/// with the same message.
pub proof fn law_login_refusals_are_alike(
    s: StoreView,
    unknown_email: Seq<char>,
    any_password: Seq<char>,
    known_email: Seq<char>,
    wrong_password: Seq<char>,
    at: u64,
    secret: Seq<u8>,
)
    requires
        !s.has_email(lowercase(unknown_email)),
        s.has_email(lowercase(known_email)),
        !password_matches(wrong_password, s.user_mailed(lowercase(known_email)).password),
    ensures
        logged_in(s, unknown_email, any_password, at, secret) == logged_in(
            s,
            known_email,
            wrong_password,
            at,
            secret,
        ),
        logged_in(s, unknown_email, any_password, at, secret) == Err::<AuthInfoView, ApiErrorView>(
            login_refused(),
        ),
        login_refused().text() == "Email or Password is incorrect"@,
        login_refused().status() == 400,
{
}

/// A token holds for thirty days and the leeway: claims that were issued at
/// a time are taken at every time up to thirty days and one minute later, and
/// at no later time. So they are taken twenty-nine days after they were
/// issued, and refused thirty-one days after.
pub proof fn law_token_window(user_id: Seq<char>, issued_at: u64, now: u64)
    requires
        issued_at + TOKEN_LIFETIME_SECS <= u64::MAX,
    ensures
        ({
            let expires_at = (issued_at + TOKEN_LIFETIME_SECS) as u64;
            let taken = accepted_claims(Some(user_id), Some(issued_at), Some(expires_at), now);
            &&& now <= expires_at + CLOCK_LEEWAY_SECS ==> taken == Ok::<
                JwtPayloadView,
                ApiErrorView,
            >(JwtPayloadView { user_id, iss: issued_at, exp: expires_at })
            &&& now > expires_at + CLOCK_LEEWAY_SECS ==> taken == Err::<
                JwtPayloadView,
                ApiErrorView,
            >(invalid_token())
            &&& now == issued_at + 29 * DAY_SECS ==> taken is Ok
            &&& now == issued_at + 31 * DAY_SECS ==> taken is Err
            &&& invalid_token().status() == 401
        }),
{
}

/// The same of the token itself, and of a request that carries it: a token
/// that reads back as claims issued at a time is taken twenty-nine days
/// later and refused thirty-one days later, and so is the request whose
/// authorization header is `Bearer ` and the token.
pub proof fn law_token_expires(
    token: Seq<char>,
    secret: Seq<u8>,
    user_id: Seq<char>,
    issued_at: u64,
)
    requires
        issued_at + 31 * DAY_SECS <= u64::MAX,
        jwt_claims(token, secret) == Some(
            (Some(user_id), Some(issued_at), Some((issued_at + TOKEN_LIFETIME_SECS) as u64)),
        ),
    ensures
        ({
            let claims = JwtPayloadView {
                user_id,
                iss: issued_at,
                exp: (issued_at + TOKEN_LIFETIME_SECS) as u64,
            };
            let early = (issued_at + 29 * DAY_SECS) as u64;
            let late = (issued_at + 31 * DAY_SECS) as u64;
            let header = Some(BEARER_PREFIX@ + token);
            &&& decoded_token(token, secret, early) == Ok::<JwtPayloadView, ApiErrorView>(claims)
            &&& decoded_token(token, secret, late) == Err::<JwtPayloadView, ApiErrorView>(
                invalid_token(),
            )
            &&& authorized(header, secret, early) == Ok::<JwtPayloadView, ApiErrorView>(claims)
            &&& authorized(header, secret, late) == Err::<JwtPayloadView, ApiErrorView>(
                invalid_token(),
            )
        }),
{
    let header = BEARER_PREFIX@ + token;
    assert(header.subrange(0, BEARER_PREFIX@.len() as int) =~= BEARER_PREFIX@);
    assert(header.skip(BEARER_PREFIX@.len() as int) =~= token);
}

/// An edge of the follow relation is made once: after `follower` has come to
/// follow `followed`, the same request is refused as a bad request and leaves
/// the store as it was.
pub proof fn law_follow_twice_is_refused(s: StoreView, follower: u128, followed_id: u128)
    requires
        s.wf(),
        followed(s, follower, followed_id).1 is Ok,
    ensures
        ({
            let then = followed(s, follower, followed_id).0;
            &&& then.follows(follower, followed_id)
            &&& followed(then, follower, followed_id) == (
                then,
                Err::<(), ApiErrorView>(already_following()),
            )
            &&& already_following().status() == 400
        }),
{
    let then = s.with_follow(follower, followed_id);
    let edge = FollowRow { user_id: followed_id, follower_id: follower };
    assert(then.followers[s.followers.len() as int] == edge);
    assert(then.followers.contains(edge));
    lemma_users_kept(s, then, follower);
    lemma_users_kept(s, then, followed_id);
}

/// An edge that is not there cannot be removed: between two accounts of
/// which the first does not follow the second, a request to unfollow is
/// refused as a bad request and leaves the store as it was.
pub proof fn law_unfollow_needs_follow(s: StoreView, user: u128, followed_id: u128)
    requires
        s.has_user(user),
        s.has_user(followed_id),
        !s.follows(user, followed_id),
    ensures
        unfollowed(s, user, followed_id) == (s, Err::<(), ApiErrorView>(not_following())),
        not_following().status() == 400,
{
}

/// Whoever has come to follow an account and unfollows it follows it no
/// longer.
pub proof fn law_unfollow_undoes_follow(s: StoreView, follower: u128, followed_id: u128)
    requires
        s.wf(),
        followed(s, follower, followed_id).1 is Ok,
    ensures
        ({
            let then = followed(s, follower, followed_id).0;
            &&& unfollowed(then, follower, followed_id).1 is Ok
            &&& unfollowed(then, follower, followed_id).0 == s
        }),
{
    let then = s.with_follow(follower, followed_id);
    let edge = FollowRow { user_id: followed_id, follower_id: follower };
    let last = s.followers.len() as int;
    law_follow_twice_is_refused(s, follower, followed_id);
    assert(then.followers[last] == edge);
    let at = then.followers.index_of(edge);
    assert(0 <= at < then.followers.len() && then.followers[at] == edge);
    if at < last {
        assert(s.followers[at] == edge);
        assert(s.followers.contains(edge));
    }
    assert(then.followers.remove(last) =~= s.followers);
}

/// An account that is in a store is in every store with the same accounts.
proof fn lemma_users_kept(s: StoreView, then: StoreView, user: u128)
    requires
        then.users == s.users,
    ensures
        then.has_user(user) == s.has_user(user),
{
    if s.has_user(user) {
        let i = choose|i: int| s.user_at(i, user);
        assert(then.user_at(i, user));
    }
    if then.has_user(user) {
        let i = choose|i: int| then.user_at(i, user);
        assert(s.user_at(i, user));
    }
}

/// The same of posts.
proof fn lemma_posts_kept(s: StoreView, then: StoreView, post: u128)
    requires
        then.posts == s.posts,
    ensures
        then.has_post(post) == s.has_post(post),
{
    if s.has_post(post) {
        let i = choose|i: int| s.post_at(i, post);
        assert(then.post_at(i, post));
    }
    if then.has_post(post) {
        let i = choose|i: int| then.post_at(i, post);
        assert(s.post_at(i, post));
    }
}

/// What is picked from the start of a sequence is no more than what is
/// picked from the whole.
proof fn lemma_picked_grows<A, B>(s: Seq<A>, pick: spec_fn(A) -> Option<B>, i: int)
    requires
        0 <= i <= s.len(),
    ensures
        s.take(i).filter_map(pick).len() <= s.filter_map(pick).len(),
    decreases s.len() - i,
{
    if i == s.len() {
        assert(s.take(i) =~= s);
    } else {
        s.lemma_filter_map_take_succ(pick, i);
        lemma_picked_grows(s, pick, i + 1);
    }
}

/// What is picked from a sequence without one of its elements is what is
/// picked from the whole, without what was picked for that element: it
/// stood behind all that is picked from the elements before it.
proof fn lemma_picked_without<A, B>(s: Seq<A>, pick: spec_fn(A) -> Option<B>, i: int)
    requires
        0 <= i < s.len(),
    ensures
        s.remove(i).filter_map(pick) == (if pick(s[i]) is Some {
            s.filter_map(pick).remove(s.take(i).filter_map(pick).len() as int)
        } else {
            s.filter_map(pick)
        }),
    decreases s.len(),
{
    let last = s.len() - 1;
    let front = s.drop_last();
    assert(front =~= s.take(last));
    s.lemma_filter_map_take_succ(pick, last);
    assert(s.take(last + 1) =~= s);
    if i == last {
        assert(s.remove(i) =~= front);
        if pick(s[i]) is Some {
            assert(s.filter_map(pick).remove(front.filter_map(pick).len() as int)
                =~= front.filter_map(pick));
        }
    } else {
        let rest = s.remove(i);
        assert(rest.drop_last() =~= front.remove(i));
        assert(rest.take(last - 1) =~= front.remove(i));
        assert(rest.take(last) =~= rest);
        rest.lemma_filter_map_take_succ(pick, last - 1);
        assert(rest[last - 1] == s[last]);
        lemma_picked_without(front, pick, i);
        assert(front.take(i) =~= s.take(i));
        if pick(s[i]) is Some {
            let rank = s.take(i).filter_map(pick).len() as int;
            front.lemma_filter_map_take_succ(pick, i);
            lemma_picked_grows(front, pick, i + 1);
            assert(rank < front.filter_map(pick).len());
            assert(s.filter_map(pick).remove(rank) =~= front.filter_map(pick).remove(rank) + (
            match pick(s[last]) {
                Some(b) => seq![b],
                None => Seq::empty(),
            }));
        }
    }
}

/// Two ways to pick that agree on every element of a sequence pick the
/// same from it.
proof fn lemma_picked_alike<A, B>(
    s: Seq<A>,
    pick: spec_fn(A) -> Option<B>,
    other: spec_fn(A) -> Option<B>,
)
    requires
        forall|i: int| 0 <= i < s.len() ==> pick(#[trigger] s[i]) == other(s[i]),
    ensures
        s.filter_map(pick) == s.filter_map(other),
    decreases s.len(),
{
    if s.len() > 0 {
        assert(s.drop_last() =~= s.take(s.len() - 1));
        assert(s.take(s.len() as int) =~= s);
        s.lemma_filter_map_take_succ(pick, s.len() - 1);
        s.lemma_filter_map_take_succ(other, s.len() - 1);
        assert forall|i: int| 0 <= i < s.drop_last().len() implies pick(
            #[trigger] s.drop_last()[i],
        ) == other(s.drop_last()[i]) by {
            assert(s.drop_last()[i] == s[i]);
        }
        lemma_picked_alike(s.drop_last(), pick, other);
    }
}

/// The comments of a store whose authors have accounts are shown alike by
/// every store with the same accounts.
proof fn lemma_comments_shown_alike(
    s: StoreView,
    then: StoreView,
    rows: Seq<CommentRecord>,
    post: u128,
)
    requires
        s.users_unique(),
        then.users == s.users,
        forall|i: int| 0 <= i < rows.len() ==> s.has_user((#[trigger] rows[i]).user_id),
    ensures
        rows.filter_map(then.pick_comment_on(post)) == rows.filter_map(s.pick_comment_on(post)),
{
    assert forall|i: int| 0 <= i < rows.len() implies then.pick_comment_on(post)(
        #[trigger] rows[i],
    ) == s.pick_comment_on(post)(rows[i]) by {
        let author = rows[i].user_id;
        let at = choose|at: int| s.user_at(at, author);
        assert(then.user_at(at, author));
        s.lemma_user_found(at, author);
        then.lemma_user_found(at, author);
    }
    lemma_picked_alike(rows, then.pick_comment_on(post), s.pick_comment_on(post));
}

/// How many comments are shown on a comment's post before the comment
/// itself.
pub open spec fn shown_before(s: StoreView, comment: u128) -> int {
    s.comments.take(s.comment_index(comment)).filter_map(
        s.pick_comment_on(s.comment(comment).post_id),
    ).len() as int
}

/// A comment is deleted by its author and by nobody else: where the user,
/// the post and the comment exist, the request of another user is refused as
/// forbidden and leaves the store as it was, and the request of the author
/// succeeds, after which the comment is gone and every other comment is
/// where it was. The comments shown on the comment's post are then those
/// shown before without the comment at its place, and the comments shown on
/// every other post are those shown before.
pub proof fn law_only_the_author_deletes(s: StoreView, user: u128, post: u128, comment: u128)
    requires
        s.wf(),
        s.has_user(user),
        s.has_post(post),
        s.has_comment(comment),
    ensures
        s.comment(comment).user_id != user ==> deleted(s, user, post, comment) == (
            s,
            Err::<(), ApiErrorView>(not_owner()),
        ),
        not_owner().status() == 403,
        s.comment(comment).user_id == user ==> ({
            let then = deleted(s, user, post, comment).0;
            &&& deleted(s, user, post, comment).1 is Ok
            &&& !then.has_comment(comment)
            &&& then.comments == s.comments.remove(s.comment_index(comment))
            &&& forall|other: u128|
                other != comment ==> then.has_comment(other) == s.has_comment(other)
            &&& forall|other: u128|
                other != s.comment(comment).post_id ==> then.shown_comments(other)
                    == s.shown_comments(other)
            &&& then.shown_comments(s.comment(comment).post_id) == s.shown_comments(
                s.comment(comment).post_id,
            ).remove(shown_before(s, comment))
        }),
{
    if s.comment(comment).user_id == user {
        let at = s.comment_index(comment);
        let then = s.without_comment(comment);
        assert(s.comment_at(at, comment));
        assert forall|other: u128| true implies then.shown_comments(other) == (if other
            == s.comment(comment).post_id {
            s.shown_comments(other).remove(shown_before(s, comment))
        } else {
            s.shown_comments(other)
        }) by {
            assert forall|i: int| 0 <= i < then.comments.len() implies s.has_user(
                (#[trigger] then.comments[i]).user_id,
            ) by {
                let from = if i < at { i } else { i + 1 };
                assert(s.has_user(s.comments[from].user_id));
            }
            lemma_comments_shown_alike(s, then, then.comments, other);
            lemma_picked_without(s.comments, s.pick_comment_on(other), at);
        }
        if then.has_comment(comment) {
            let k = choose|k: int| then.comment_at(k, comment);
            let from = if k < at { k } else { k + 1 };
            assert(s.comments[from].id == comment);
            if from < at {
                assert(s.comments[from].id != s.comments[at].id);
            } else {
                assert(s.comments[at].id != s.comments[from].id);
            }
        }
        assert forall|other: u128| other != comment implies then.has_comment(other)
            == s.has_comment(other) by {
            if s.has_comment(other) {
                let k = choose|k: int| s.comment_at(k, other);
                let to = if k < at { k } else { k - 1 };
                assert(then.comment_at(to, other));
            }
            if then.has_comment(other) {
                let k = choose|k: int| then.comment_at(k, other);
                let from = if k < at { k } else { k + 1 };
                assert(s.comment_at(from, other));
            }
        }
    }
}

/// A like counts once: a like that is taken raises the number of likes of
/// the post by one, as long as the number fits in 32 bits, and taking the
/// like back brings the store back to where it was.
pub proof fn law_like_counts_once(s: StoreView, user: u128, post: u128, created_at: i64)
    requires
        s.wf(),
        liked(s, user, post, created_at).1 is Ok,
        s.likes_of(post).len() < u32::MAX,
    ensures
        ({
            let then = liked(s, user, post, created_at).0;
            &&& then.like_count(post) == s.like_count(post) + 1
            &&& then.shown(then.post(post)).num_likes == s.shown(s.post(post)).num_likes + 1
            &&& unliked(then, user, post) == (s, Ok::<(), ApiErrorView>(()))
        }),
{
    let row = LikeRow { user_id: user, post_id: post, created_at };
    let then = s.with_like(row);
    let last = s.likes.len() as int;
    s.likes.lemma_filter_push(row, on_post(post));
    lemma_users_kept(s, then, user);
    lemma_posts_kept(s, then, post);
    assert(then.like_at(last, user, post));
    let at = then.like_index(user, post);
    assert(then.like_at(at, user, post));
    if at < last {
        assert(s.like_at(at, user, post));
    }
    assert(then.likes.remove(last) =~= s.likes);
}

/// An account that was registered can log in: after a registration has
/// succeeded with a hash that the password matches, a login under the same
/// email and password is not refused; it comes to the token issued for it and
/// the account's public projection.
pub proof fn law_registered_account_logs_in(
    s: StoreView,
    user: CreateUserView,
    user_id: u128,
    hash: Seq<char>,
    registered_at: u64,
    login_at: u64,
    secret: Seq<u8>,
)
    requires
        s.wf(),
        registered(s, user, user_id, Some(hash), registered_at, secret).1 is Ok,
        password_matches(user.password, hash),
    ensures
        ({
            let then = registered(s, user, user_id, Some(hash), registered_at, secret).0;
            let row = UserRecord::registered(user_id, hash, user);
            logged_in(then, user.email, user.password, login_at, secret) == match issued_token(
                uuid_text(user_id),
                login_at,
                secret,
            ) {
                Ok(bearer) => Ok::<AuthInfoView, ApiErrorView>(
                    AuthInfoView { bearer, user: row.principal() },
                ),
                Err(e) => Err::<AuthInfoView, ApiErrorView>(e),
            }
        }),
{
    let row = UserRecord::registered(user_id, hash, user);
    let then = s.with_user(row);
    let at = s.users.len() as int;
    assert(then.users[at] == row);
    assert(then.email_at(at, lowercase(user.email)));
    let found = choose|i: int| then.email_at(i, lowercase(user.email));
    assert(then.email_at(found, lowercase(user.email)));
    if found < at {
        assert(s.email_at(found, lowercase(user.email)));
    }
}

/// Each post of a feed is a post of an account that the viewer follows: the
/// key at a place in the feed is the key of such a post, and the post is the
/// one that is shown there. The post's place in its table is handed back.
proof fn lemma_feed_entry(s: StoreView, viewer: u128, k: int) -> (i: int)
    requires
        s.wf(),
        0 <= k < s.feed_keys(viewer).len(),
    ensures
        0 <= i < s.posts.len(),
        s.follows(viewer, s.posts[i].author),
        s.feed_keys(viewer)[k] == (s.posts[i].created_at, s.posts[i].id),
        s.post(s.feed_keys(viewer)[k].1) == s.posts[i],
{
    broadcast use group_to_multiset_ensures;

    let wanted = s.by_followed(viewer);
    let rows = s.posts.filter(wanted);
    let picked = rows.map_values(feed_key());
    let keys = s.feed_keys(viewer);
    lemma_feed_order_total();
    picked.lemma_sort_by_ensures(newer_first());
    assert(keys.contains(keys[k]));
    assert(picked.to_multiset().count(keys[k]) > 0);
    assert(picked.contains(keys[k]));
    let j = choose|j: int| 0 <= j < picked.len() && picked[j] == keys[k];
    let row = rows[j];
    s.posts.lemma_filter_pred(wanted, j);
    assert(rows.contains(row));
    s.posts.lemma_filter_contains_rev(wanted, row);
    let i = choose|i: int| 0 <= i < s.posts.len() && s.posts[i] == row;
    s.lemma_post_found(i, row.id);
    i
}

/// Each post of an account that the viewer follows stands in the feed. Its
/// place there is handed back.
proof fn lemma_feed_holds(s: StoreView, viewer: u128, i: int) -> (k: int)
    requires
        s.wf(),
        0 <= i < s.posts.len(),
        s.follows(viewer, s.posts[i].author),
    ensures
        0 <= k < s.feed(viewer).len(),
        s.feed(viewer)[k] == s.shown(s.posts[i]),
{
    broadcast use group_to_multiset_ensures;

    let wanted = s.by_followed(viewer);
    let rows = s.posts.filter(wanted);
    let picked = rows.map_values(feed_key());
    let keys = s.feed_keys(viewer);
    let row = s.posts[i];
    lemma_feed_order_total();
    picked.lemma_sort_by_ensures(newer_first());
    s.posts.lemma_filter_contains(wanted, i);
    let j = choose|j: int| 0 <= j < rows.len() && rows[j] == row;
    assert(picked[j] == (row.created_at, row.id));
    assert(picked.contains((row.created_at, row.id)));
    assert(picked.to_multiset().count((row.created_at, row.id)) > 0);
    assert(keys.contains((row.created_at, row.id)));
    let k = choose|k: int| 0 <= k < keys.len() && keys[k] == (row.created_at, row.id);
    s.lemma_post_found(i, row.id);
    k
}

/// Whether a post as shown is a post of an account that the viewer follows.
pub open spec fn posted_by_followed(s: StoreView, viewer: u128, post: PostView) -> bool {
    exists|i: int|
        0 <= i < s.posts.len() && s.follows(viewer, s.posts[i].author) && post == s.shown(
            #[trigger] s.posts[i],
        )
}

/// The feed of a viewer is exactly what the accounts that the viewer follows
/// have posted, newest first: every post of the feed is a post of such an
/// account, every post of such an account is in the feed, the feed has as
/// many posts as they have made, and no post of the feed is older than one
/// that stands behind it.
pub proof fn law_feed_is_what_the_followed_posted(s: StoreView, viewer: u128)
    requires
        s.wf(),
    ensures
        forall|k: int|
            0 <= k < s.feed(viewer).len() ==> posted_by_followed(
                s,
                viewer,
                #[trigger] s.feed(viewer)[k],
            ),
        forall|i: int|
            0 <= i < s.posts.len() && s.follows(viewer, (#[trigger] s.posts[i]).author)
                ==> s.feed(viewer).contains(s.shown(s.posts[i])),
        s.feed(viewer).len() == s.posts.filter(s.by_followed(viewer)).len(),
        forall|a: int, b: int|
            0 <= a < b < s.feed(viewer).len() ==> (#[trigger] s.feed(viewer)[a]).created_at >= (
            #[trigger] s.feed(viewer)[b]).created_at,
{
    broadcast use group_to_multiset_ensures;

    let feed = s.feed(viewer);
    let keys = s.feed_keys(viewer);
    let picked = s.posts.filter(s.by_followed(viewer)).map_values(feed_key());
    lemma_feed_order_total();
    picked.lemma_sort_by_ensures(newer_first());
    assert(keys.len() == picked.len()) by {
        assert(keys.to_multiset().len() == picked.to_multiset().len());
    }
    assert forall|k: int| 0 <= k < feed.len() implies posted_by_followed(
        s,
        viewer,
        #[trigger] feed[k],
    ) by {
        let i = lemma_feed_entry(s, viewer, k);
        assert(feed[k] == s.shown(s.posts[i]));
    }
    assert forall|i: int|
        0 <= i < s.posts.len() && s.follows(
            viewer,
            (#[trigger] s.posts[i]).author,
        ) implies feed.contains(s.shown(s.posts[i])) by {
        let k = lemma_feed_holds(s, viewer, i);
        assert(feed[k] == s.shown(s.posts[i]));
    }
    assert forall|a: int, b: int| 0 <= a < b < feed.len() implies (#[trigger] feed[a]).created_at
        >= (#[trigger] feed[b]).created_at by {
        let i = lemma_feed_entry(s, viewer, a);
        let j = lemma_feed_entry(s, viewer, b);
        assert(newer_first()(keys[a], keys[b]));
    }
}

/// Who follows nobody has an empty feed.
pub proof fn law_feed_of_a_loner_is_empty(s: StoreView, viewer: u128)
    requires
        forall|row: FollowRow| s.followers.contains(row) ==> row.follower_id != viewer,
    ensures
        s.feed(viewer) == Seq::<PostView>::empty(),
{
    broadcast use group_to_multiset_ensures;

    let wanted = s.by_followed(viewer);
    let rows = s.posts.filter(wanted);
    let picked = rows.map_values(feed_key());
    if rows.len() > 0 {
        s.posts.lemma_filter_pred(wanted, 0);
        let edge = FollowRow { user_id: rows[0].author, follower_id: viewer };
        assert(s.followers.contains(edge));
    }
    lemma_feed_order_total();
    picked.lemma_sort_by_ensures(newer_first());
    assert(s.feed_keys(viewer).to_multiset().len() == picked.to_multiset().len());
    assert(s.feed(viewer) =~= Seq::<PostView>::empty());
}

} // verus!
