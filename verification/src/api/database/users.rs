//! The table of accounts and the table of the follow relation, and the
//! feed that is read from the latter and the table of posts.

use vstd::prelude::*;
use vstd::relations::{sorted_by, total_ordering};
use vstd::seq_lib::{group_to_multiset_ensures, lemma_sorted_unique};
use vstd::string::*;

use crate::api::database::pattern::{characters, parse_pattern, pattern_matches};
use crate::api::database::posts::post_of_row;
use crate::api::database::{
    feed_key, newer_first, pick_named_like, search_pattern, stands_before, FollowRow, Store,
    StoreView, UserRecord, UserRow,
};
use crate::api::models::error::{outcome, ApiError, ApiErrorView};
use crate::api::models::posts::post_views;
use crate::api::models::user::{optional_user, principal_views};
use crate::api::models::{AuthUser, CreateUser, Post, User};
use crate::api::vendor::{format_uuid, lowercase, seal, uuid_parsed};

verus! {

impl StoreView {
    /// Where no two accounts share an id, an account found under an id is
    /// the account with that id.
    pub proof fn lemma_user_found(self, i: int, id: u128)
        requires
            self.users_unique(),
            self.user_at(i, id),
        ensures
            self.has_user(id),
            self.user(id) == self.users[i],
    {
        let k = choose|k: int| self.user_at(k, id);
        assert(self.user_at(k, id));
        if k < i {
            assert(self.users[k].id != self.users[i].id);
        } else if i < k {
            assert(self.users[i].id != self.users[k].id);
        }
    }

    /// The same of a username.
    pub proof fn lemma_username_found(self, i: int, username: Seq<char>)
        requires
            self.users_unique(),
            self.username_at(i, username),
        ensures
            self.has_username(username),
            self.user_named(username) == self.users[i],
    {
        let k = choose|k: int| self.username_at(k, username);
        assert(self.username_at(k, username));
        if k < i {
            assert(self.users[k].id != self.users[i].id);
        } else if i < k {
            assert(self.users[i].id != self.users[k].id);
        }
    }

    /// The same of an email.
    pub proof fn lemma_email_found(self, i: int, email: Seq<char>)
        requires
            self.users_unique(),
            self.email_at(i, email),
        ensures
            self.has_email(email),
            self.user_mailed(email) == self.users[i],
    {
        let k = choose|k: int| self.email_at(k, email);
        assert(self.email_at(k, email));
        if k < i {
            assert(self.users[k].id != self.users[i].id);
        } else if i < k {
            assert(self.users[i].id != self.users[k].id);
        }
    }
}

/// The account that a row stands for.
fn user_of_row(row: &UserRow) -> (user: User)
    ensures
        user@ == row@.user(),
{
    User {
        id: format_uuid(row.id),
        username: row.username.clone(),
        email: row.email.clone(),
        password: seal(row.password.clone()),
        name: row.first_name.clone().concat(" ").concat(row.last_name.as_str()),
        description: row.description.clone(),
    }
}

/// The public projection of the account that a row stands for.
pub(super) fn principal_of_row(row: &UserRow) -> (principal: AuthUser)
    ensures
        principal@ == row@.principal(),
        uuid_parsed(principal.id@) == Some(row.id),
{
    AuthUser {
        id: format_uuid(row.id),
        username: row.username.clone(),
        name: row.first_name.clone().concat(" ").concat(row.last_name.as_str()),
        description: row.description.clone(),
        email: row.email.clone(),
    }
}

/// Where the account with the given id stands in its table.
pub(super) fn find_user(store: &Store, user_id: u128) -> (at: Option<usize>)
    requires
        store.wf(),
    ensures
        match at {
            Some(i) => store@.has_user(user_id) && i < store@.users.len() && store@.user(user_id)
                == store@.users[i as int] && store.users[i as int]@ == store@.users[i as int],
            None => !store@.has_user(user_id),
        },
{
    let mut i: usize = 0;
    while i < store.users.len()
        invariant
            store.wf(),
            i <= store.users.len(),
            forall|k: int| 0 <= k < i ==> !store@.user_at(k, user_id),
        decreases store.users.len() - i,
    {
        if store.users[i].id == user_id {
            proof {
                store@.lemma_user_found(i as int, user_id);
            }
            return Some(i);
        }
        i += 1;
    }
    None
}

/// The account with the given id, if there is one.
pub fn get_user_by_id(store: &Store, user_id: u128) -> (user: Option<User>)
    requires
        store.wf(),
    ensures
        optional_user(user) == (if store@.has_user(user_id) {
            Some(store@.user(user_id).user())
        } else {
            None
        }),
{
    match find_user(store, user_id) {
        Some(i) => Some(user_of_row(&store.users[i])),
        None => None,
    }
}

/// The account with the given username, whatever the case of its letters, if
/// there is one.
pub fn get_user_by_username(store: &Store, username: &str) -> (user: Option<User>)
    requires
        store.wf(),
    ensures
        optional_user(user) == (if store@.has_username(lowercase(username@)) {
            Some(store@.user_named(lowercase(username@)).user())
        } else {
            None
        }),
{
    let wanted = username.to_lowercase();
    let mut i: usize = 0;
    while i < store.users.len()
        invariant
            store.wf(),
            wanted@ == lowercase(username@),
            i <= store.users.len(),
            forall|k: int| 0 <= k < i ==> !store@.username_at(k, wanted@),
        decreases store.users.len() - i,
    {
        if store.users[i].username == wanted {
            proof {
                store@.lemma_username_found(i as int, wanted@);
            }
            return Some(user_of_row(&store.users[i]));
        }
        i += 1;
    }
    None
}

/// The account with the given email, whatever the case of its letters, if
/// there is one.
pub fn get_user_by_email(store: &Store, email: &str) -> (user: Option<User>)
    requires
        store.wf(),
    ensures
        optional_user(user) == (if store@.has_email(lowercase(email@)) {
            Some(store@.user_mailed(lowercase(email@)).user())
        } else {
            None
        }),
{
    let wanted = email.to_lowercase();
    let mut i: usize = 0;
    while i < store.users.len()
        invariant
            store.wf(),
            wanted@ == lowercase(email@),
            i <= store.users.len(),
            forall|k: int| 0 <= k < i ==> !store@.email_at(k, wanted@),
        decreases store.users.len() - i,
    {
        if store.users[i].email == wanted {
            proof {
                store@.lemma_email_found(i as int, wanted@);
            }
            return Some(user_of_row(&store.users[i]));
        }
        i += 1;
    }
    None
}

/// The failure to store a new account.
pub open spec fn user_insert_fault() -> ApiErrorView {
    ApiErrorView::Database("Failed to insert new user into database."@)
}

/// Stores a new account under the given id, with the given hash of its
/// credential; the username and the email are stored in lower case. The
/// store refuses a row whose id, username or email is taken, and one whose
/// names, once in lower case, would change if they were put in lower case
/// again.
pub fn insert_user(store: &mut Store, user_id: u128, password: String, user: &CreateUser) -> (r:
    Result<(), ApiError>)
    requires
        old(store).wf(),
    ensures
        final(store).wf(),
        ({
            let row = UserRecord::registered(user_id, password@, user@);
            if old(store)@.user_refused(row) {
                &&& outcome(r) == Err::<(), ApiErrorView>(user_insert_fault())
                &&& final(store)@ == old(store)@
            } else {
                &&& r is Ok
                &&& final(store)@ == old(store)@.with_user(row)
            }
        }),
{
    let username = user.username.as_str().to_lowercase();
    let email = user.email.as_str().to_lowercase();
    let ghost row = UserRecord::registered(user_id, password@, user@);
    if username.as_str().to_lowercase() != username || email.as_str().to_lowercase() != email {
        return Err(
            ApiError::Database(String::from_str("Failed to insert new user into database.")),
        );
    }
    let mut i: usize = 0;
    while i < store.users.len()
        invariant
            store.wf(),
            *store == *old(store),
            row == UserRecord::registered(user_id, password@, user@),
            row.is_normal(),
            username@ == row.username,
            email@ == row.email,
            i <= store.users.len(),
            forall|k: int| 0 <= k < i ==> !store@.clash_at(k, row),
        decreases store.users.len() - i,
    {
        if store.users[i].id == user_id || store.users[i].username == username
            || store.users[i].email == email {
            assert(store@.clash_at(i as int, row));
            return Err(
                ApiError::Database(String::from_str("Failed to insert new user into database.")),
            );
        }
        i += 1;
    }
    let new_row = UserRow {
        id: user_id,
        username,
        first_name: user.first_name.clone(),
        last_name: user.last_name.clone(),
        description: user.description.clone(),
        email,
        password,
    };
    assert(new_row@ == row);
    store.users.push(new_row);
    proof {
        assert(store@.users =~= old(store)@.users.push(row));
        assert(store@ == old(store)@.with_user(row));
        old(store)@.lemma_user_added(row);
    }
    Ok(())
}

impl StoreView {
    /// A store stays as it should be when it takes a row that it does not
    /// refuse.
    pub proof fn lemma_user_added(self, row: UserRecord)
        requires
            self.wf(),
            !self.user_refused(row),
        ensures
            self.with_user(row).wf(),
    {
        let next = self.with_user(row);
        assert forall|a: int, b: int| 0 <= a < b < next.users.len() implies {
            &&& (#[trigger] next.users[a]).id != (#[trigger] next.users[b]).id
            &&& next.users[a].username != next.users[b].username
            &&& next.users[a].email != next.users[b].email
        } by {
            if b == next.users.len() - 1 {
                assert(!self.clash_at(a, row));
            }
        }
        assert forall|i: int| 0 <= i < next.users.len() implies (
        #[trigger] next.users[i]).is_normal() by {
            if i < self.users.len() {
                assert(self.users[i].is_normal());
            }
        }
        self.lemma_authors_kept(next);
    }

    /// In a store whose names are in lower case and differ letter for
    /// letter, no two accounts share a name in any case of the letters.
    pub proof fn lemma_names_apart(self)
        requires
            self.users_unique(),
            self.users_normal(),
        ensures
            self.names_apart(),
    {
        assert forall|i: int, j: int| 0 <= i < j < self.users.len() implies {
            &&& lowercase((#[trigger] self.users[i]).username) != lowercase(
                (#[trigger] self.users[j]).username,
            )
            &&& lowercase(self.users[i].email) != lowercase(self.users[j].email)
        } by {
            assert(self.users[i].is_normal());
            assert(self.users[j].is_normal());
        }
    }
}

/// Whether `follower_id` follows `followed_id`.
pub fn is_following(store: &Store, follower_id: u128, followed_id: u128) -> (following: bool)
    requires
        store.wf(),
    ensures
        following == store@.follows(follower_id, followed_id),
{
    find_follow(store, follower_id, followed_id).is_some()
}

/// Where the edge from `follower_id` to `followed_id` stands in its table.
fn find_follow(store: &Store, follower_id: u128, followed_id: u128) -> (at: Option<usize>)
    requires
        store.wf(),
    ensures
        match at {
            Some(i) => {
                let edge = FollowRow { user_id: followed_id, follower_id };
                &&& store@.follows(follower_id, followed_id)
                &&& i < store@.followers.len()
                &&& store@.followers.index_of(edge) == i
            },
            None => !store@.follows(follower_id, followed_id),
        },
{
    let ghost edge = FollowRow { user_id: followed_id, follower_id };
    let mut i: usize = 0;
    while i < store.followers.len()
        invariant
            store.wf(),
            edge == (FollowRow { user_id: followed_id, follower_id }),
            i <= store.followers.len(),
            forall|k: int| 0 <= k < i ==> store@.followers[k] != edge,
        decreases store.followers.len() - i,
    {
        if store.followers[i].user_id == followed_id && store.followers[i].follower_id
            == follower_id {
            proof {
                let s = store@.followers;
                assert(s[i as int] == edge);
                assert(s.contains(edge));
                let k = s.index_of(edge);
                assert(0 <= k < s.len() && s[k] == edge);
                if k < i {
                    assert(s[k] != s[i as int]);
                } else if i < k {
                    assert(s[i as int] != s[k]);
                }
            }
            return Some(i);
        }
        i += 1;
    }
    None
}

/// The failure to store a new edge of the follow relation.
pub open spec fn follow_insert_fault() -> ApiErrorView {
    ApiErrorView::Database("Failed to insert new follower into database."@)
}

/// Stores the edge from `follower_id` to `followed_id`. The store refuses an
/// edge that it holds already.
pub fn follow_user(store: &mut Store, follower_id: u128, followed_id: u128) -> (r: Result<
    (),
    ApiError,
>)
    requires
        old(store).wf(),
    ensures
        final(store).wf(),
        if old(store)@.follows(follower_id, followed_id) {
            &&& outcome(r) == Err::<(), ApiErrorView>(follow_insert_fault())
            &&& final(store)@ == old(store)@
        } else {
            &&& r is Ok
            &&& final(store)@ == old(store)@.with_follow(follower_id, followed_id)
        },
{
    if is_following(store, follower_id, followed_id) {
        return Err(
            ApiError::Database(String::from_str("Failed to insert new follower into database.")),
        );
    }
    store.followers.push(FollowRow { user_id: followed_id, follower_id });
    proof {
        assert(store@ == old(store)@.with_follow(follower_id, followed_id));
        old(store)@.lemma_authors_kept(store@);
    }
    Ok(())
}

/// Removes the edge from `user_id` to `followed_id`, if the store holds it.
pub fn unfollow_user(store: &mut Store, user_id: u128, followed_id: u128)
    requires
        old(store).wf(),
    ensures
        final(store).wf(),
        final(store)@ == old(store)@.without_follow(user_id, followed_id),
{
    match find_follow(store, user_id, followed_id) {
        Some(i) => {
            store.followers.remove(i);
            proof {
                assert(store@ == old(store)@.without_follow(user_id, followed_id));
                old(store)@.lemma_authors_kept(store@);
            }
        },
        None => {},
    }
}

/// The accounts that follow the user, in the order in which they registered.
pub fn get_followers(store: &Store, user_id: u128) -> (followers: Vec<AuthUser>)
    requires
        store.wf(),
    ensures
        principal_views(followers@) == store@.followers_of(user_id),
{
    let mut followers: Vec<AuthUser> = Vec::new();
    let mut i: usize = 0;
    while i < store.users.len()
        invariant
            store.wf(),
            i <= store.users.len(),
            principal_views(followers@) == store@.users.take(i as int).filter_map(
                store@.pick_follower(user_id),
            ),
        decreases store.users.len() - i,
    {
        proof {
            store@.users.lemma_filter_map_take_succ(store@.pick_follower(user_id), i as int);
        }
        if is_following(store, store.users[i].id, user_id) {
            let ghost before = principal_views(followers@);
            let principal = principal_of_row(&store.users[i]);
            followers.push(principal);
            proof {
                assert(principal_views(followers@) =~= before + seq![principal@]);
            }
        }
        i += 1;
    }
    proof {
        assert(store@.users.take(i as int) =~= store@.users);
    }
    followers
}

/// The accounts that the user follows, in the order in which they
/// registered.
pub fn get_following(store: &Store, user_id: u128) -> (following: Vec<AuthUser>)
    requires
        store.wf(),
    ensures
        principal_views(following@) == store@.followed_by(user_id),
{
    let mut following: Vec<AuthUser> = Vec::new();
    let mut i: usize = 0;
    while i < store.users.len()
        invariant
            store.wf(),
            i <= store.users.len(),
            principal_views(following@) == store@.users.take(i as int).filter_map(
                store@.pick_followed(user_id),
            ),
        decreases store.users.len() - i,
    {
        proof {
            store@.users.lemma_filter_map_take_succ(store@.pick_followed(user_id), i as int);
        }
        if is_following(store, user_id, store.users[i].id) {
            let ghost before = principal_views(following@);
            let principal = principal_of_row(&store.users[i]);
            following.push(principal);
            proof {
                assert(principal_views(following@) =~= before + seq![principal@]);
            }
        }
        i += 1;
    }
    proof {
        assert(store@.users.take(i as int) =~= store@.users);
    }
    following
}

/// All accounts, in the order in which they registered.
pub fn get_all_users(store: &Store) -> (users: Vec<AuthUser>)
    requires
        store.wf(),
    ensures
        principal_views(users@) == store@.principals(),
{
    let mut users: Vec<AuthUser> = Vec::new();
    let mut i: usize = 0;
    while i < store.users.len()
        invariant
            store.wf(),
            i <= store.users.len(),
            users@.len() == i,
            forall|k: int| 0 <= k < i ==> (#[trigger] users@[k])@ == store@.users[k].principal(),
        decreases store.users.len() - i,
    {
        let principal = principal_of_row(&store.users[i]);
        users.push(principal);
        i += 1;
    }
    proof {
        assert(principal_views(users@) =~= store@.principals());
    }
    users
}

/// The accounts whose username holds the query, in the order in which they
/// registered. The query is put in lower case and read as a pattern: `%`
/// in it stands for any run of characters, `_` for any one character, and a
/// backslash takes the character behind it literally.
pub fn get_users_by_query(query: String, store: &Store) -> (users: Vec<AuthUser>)
    requires
        store.wf(),
    ensures
        principal_views(users@) == store@.found_by(query@),
{
    let pattern = String::from_str("%").concat(query.as_str().to_lowercase().as_str()).concat("%");
    let units = parse_pattern(pattern.as_str());
    let ghost pick = pick_named_like(search_pattern(query@));
    let mut users: Vec<AuthUser> = Vec::new();
    let mut i: usize = 0;
    while i < store.users.len()
        invariant
            store.wf(),
            i <= store.users.len(),
            units@ == search_pattern(query@),
            pick == pick_named_like(search_pattern(query@)),
            principal_views(users@) == store@.users.take(i as int).filter_map(pick),
        decreases store.users.len() - i,
    {
        proof {
            store@.users.lemma_filter_map_take_succ(pick, i as int);
        }
        let username = characters(store.users[i].username.as_str());
        if pattern_matches(&units, &username) {
            let ghost before = principal_views(users@);
            let principal = principal_of_row(&store.users[i]);
            users.push(principal);
            proof {
                assert(principal_views(users@) =~= before + seq![principal@]);
            }
        }
        i += 1;
    }
    proof {
        assert(store@.users.take(i as int) =~= store@.users);
    }
    users
}

/// The order of a feed is a total order.
pub proof fn lemma_feed_order_total()
    ensures
        total_ordering(newer_first()),
{
    let leq = newer_first();
    assert forall|a: (i64, u128), b: (i64, u128)| #[trigger] leq(a, b) && #[trigger] leq(b, a)
        implies a == b by {}
    assert forall|a: (i64, u128), b: (i64, u128), c: (i64, u128)| #[trigger]
        leq(a, b) && #[trigger] leq(b, c) implies leq(a, c) by {}
    assert forall|a: (i64, u128), b: (i64, u128)| #[trigger] leq(a, b) || #[trigger] leq(b, a) by {}
    assert forall|a: (i64, u128)| #[trigger] leq(a, a) by {}
}

/// The times and ids of a list of posts that are being ordered for a feed.
spec fn keys_of(order: Seq<(i64, u128, usize)>) -> Seq<(i64, u128)> {
    Seq::new(order.len(), |k: int| (order[k].0, order[k].1))
}

/// The feed of a user: the posts of the accounts that the user follows, each
/// with the number of its likes and of its comments, newest first; posts of
/// the same second stand in the order of their ids.
pub fn get_users_feed(store: &Store, user_id: u128) -> (feed: Vec<Post>)
    requires
        store.wf(),
    ensures
        post_views(feed@) == store@.feed(user_id),
{
    let ghost wanted = store@.by_followed(user_id);
    let mut order: Vec<(i64, u128, usize)> = Vec::new();
    let mut i: usize = 0;
    proof {
        let none = store@.posts.take(0);
        none.lemma_filter_len(wanted);
        assert(keys_of(order@) =~= none.filter(wanted).map_values(feed_key()));
    }
    while i < store.posts.len()
        invariant
            store.wf(),
            wanted == store@.by_followed(user_id),
            i <= store.posts.len(),
            sorted_by(keys_of(order@), newer_first()),
            keys_of(order@).to_multiset() == store@.posts.take(i as int).filter(wanted).map_values(
                feed_key(),
            ).to_multiset(),
            forall|k: int|
                0 <= k < order@.len() ==> {
                    &&& (#[trigger] order@[k]).2 < store@.posts.len()
                    &&& store@.posts[order@[k].2 as int].created_at == order@[k].0
                    &&& store@.posts[order@[k].2 as int].id == order@[k].1
                },
        decreases store.posts.len() - i,
    {
        let ghost seen = store@.posts.take(i as int);
        let ghost row = store@.posts[i as int];
        proof {
            assert(store@.posts.take(i + 1) =~= seen.push(row));
            seen.lemma_filter_push(row, wanted);
        }
        if is_following(store, user_id, store.posts[i].author) {
            let created_at = store.posts[i].created_at;
            let id = store.posts[i].id;
            let mut at: usize = 0;
            while at < order.len() && (order[at].0 > created_at || (order[at].0 == created_at
                && order[at].1 <= id))
                invariant
                    at <= order.len(),
                    forall|k: int|
                        0 <= k < at ==> stands_before(
                            #[trigger] keys_of(order@)[k],
                            (created_at, id),
                        ),
                decreases order.len() - at,
            {
                at += 1;
            }
            let ghost before = keys_of(order@);
            order.insert(at, (created_at, id, i));
            proof {
                broadcast use group_to_multiset_ensures;

                let key = (created_at, id);
                assert(keys_of(order@) =~= before.insert(at as int, key));
                assert(seen.push(row).filter(wanted).map_values(feed_key()) =~= seen.filter(
                    wanted,
                ).map_values(feed_key()).push(key));
                assert forall|a: int, b: int| 0 <= a < b < keys_of(order@).len() implies (
                #[trigger] newer_first()(keys_of(order@)[a], keys_of(order@)[b])) by {
                    let now = keys_of(order@);
                    if b < at {
                        assert(newer_first()(before[a], before[b]));
                    } else if b == at {
                        assert(stands_before(before[a], key));
                    } else if a < at {
                        assert(newer_first()(before[a], before[b - 1]));
                    } else if a == at {
                        assert(!stands_before(before[at as int], key));
                        if b - 1 > at {
                            assert(newer_first()(before[at as int], before[b - 1]));
                        }
                    } else {
                        assert(newer_first()(before[a - 1], before[b - 1]));
                    }
                }
            }
        }
        i += 1;
    }
    let ghost keys = keys_of(order@);
    proof {
        assert(store@.posts.take(i as int) =~= store@.posts);
        let picked = store@.posts.filter(wanted).map_values(feed_key());
        lemma_feed_order_total();
        picked.lemma_sort_by_ensures(newer_first());
        lemma_sorted_unique(keys, picked.sort_by(newer_first()), newer_first());
        assert(keys == store@.feed_keys(user_id));
    }
    let mut feed: Vec<Post> = Vec::new();
    let mut k: usize = 0;
    while k < order.len()
        invariant
            store.wf(),
            k <= order.len(),
            keys == keys_of(order@),
            feed@.len() == k,
            forall|j: int|
                0 <= j < order@.len() ==> {
                    &&& (#[trigger] order@[j]).2 < store@.posts.len()
                    &&& store@.posts[order@[j].2 as int].id == order@[j].1
                },
            forall|j: int|
                0 <= j < k ==> (#[trigger] feed@[j])@ == store@.shown(store@.post(keys[j].1)),
        decreases order.len() - k,
    {
        let at = order[k].2;
        proof {
            store@.lemma_post_found(at as int, order@[k as int].1);
        }
        let post = post_of_row(store, &store.posts[at]);
        feed.push(post);
        k += 1;
    }
    proof {
        assert(post_views(feed@) =~= store@.feed(user_id));
    }
    feed
}

} // verus!
