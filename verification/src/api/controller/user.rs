//! Accounts and the follow relation: registering, logging in, following,
//! unfollowing, and the lists of accounts.

use vstd::prelude::*;
use vstd::string::*;

use crate::api::database;
use crate::api::database::pattern::{char_at, characters};
use crate::api::database::{Store, StoreView, UserRecord};
use crate::api::models::error::{outcome, ApiError, ApiErrorView};
use crate::api::models::token::{
    clock, issue_token, issued_token, LATEST_TIME, TOKEN_LIFETIME_SECS,
};
use crate::api::models::user::principal_views;
use crate::api::models::{
    AuthInfo, AuthInfoView, AuthUser, AuthUserView, CreateUser, CreateUserView, LoginInfo,
};
use crate::api::vendor::{
    bcrypt_hash, bcrypt_matches, bcrypt_verify, expose, format_uuid, fresh_uuid, jwt_claims,
    lowercase,
    printable_ascii, uuid_text,
};

verus! {

/// The value of the outcome of a registration or a login.
pub open spec fn auth_result(r: Result<AuthInfo, ApiError>) -> Result<AuthInfoView, ApiErrorView> {
    match r {
        Ok(info) => Ok(info@),
        Err(e) => Err(e@),
    }
}

/// The value of the outcome of a query for accounts.
pub open spec fn principals_result(r: Result<Vec<AuthUser>, ApiError>) -> Result<
    Seq<AuthUserView>,
    ApiErrorView,
> {
    match r {
        Ok(list) => Ok(principal_views(list@)),
        Err(e) => Err(e@),
    }
}

pub open spec fn username_taken() -> ApiErrorView {
    ApiErrorView::BadRequest("Username already taken."@)
}

pub open spec fn email_taken() -> ApiErrorView {
    ApiErrorView::BadRequest("Email already taken."@)
}

pub open spec fn hashing_fault() -> ApiErrorView {
    ApiErrorView::InternalServer("Failed to hash password for new user."@)
}

/// The one answer to a login that fails, whether the email is unknown or the
/// password is wrong.
pub open spec fn login_refused() -> ApiErrorView {
    ApiErrorView::BadRequest("Email or Password is incorrect"@)
}

pub open spec fn user_missing() -> ApiErrorView {
    ApiErrorView::NotFound("User does not exist"@)
}

pub open spec fn already_following() -> ApiErrorView {
    ApiErrorView::BadRequest("User is already following this user"@)
}

pub open spec fn not_following() -> ApiErrorView {
    ApiErrorView::BadRequest("You are not following this user"@)
}

/// Why a registration is refused before anything is stored: the username
/// is tried first, then the email; each is taken if an account has it,
/// whatever the case of the letters of either.
pub open spec fn name_refusal(s: StoreView, user: CreateUserView) -> Option<ApiErrorView> {
    if s.holds_username(user.username) {
        Some(username_taken())
    } else if s.holds_email(user.email) {
        Some(email_taken())
    } else {
        None
    }
}

/// In a store whose names are in lower case, an account has a name in some
/// case of its letters just when the name in lower case is stored.
pub proof fn lemma_names_held(s: StoreView, name: Seq<char>)
    requires
        s.users_normal(),
    ensures
        s.holds_username(name) == s.has_username(lowercase(name)),
        s.holds_email(name) == s.has_email(lowercase(name)),
{
    if s.holds_username(name) {
        let i = choose|i: int|
            0 <= i < s.users.len() && lowercase((#[trigger] s.users[i]).username) == lowercase(
                name,
            );
        assert(s.users[i].is_normal());
        assert(s.username_at(i, lowercase(name)));
    }
    if s.has_username(lowercase(name)) {
        let i = choose|i: int| s.username_at(i, lowercase(name));
        assert(s.users[i].is_normal());
    }
    if s.holds_email(name) {
        let i = choose|i: int|
            0 <= i < s.users.len() && lowercase((#[trigger] s.users[i]).email) == lowercase(name);
        assert(s.users[i].is_normal());
        assert(s.email_at(i, lowercase(name)));
    }
    if s.has_email(lowercase(name)) {
        let i = choose|i: int| s.email_at(i, lowercase(name));
        assert(s.users[i].is_normal());
    }
}

/// What a registration comes to, given the id drawn for the account, the
/// hash made of its password (`None` where hashing failed) and the time.
/// The account is stored where the names are free, the hash was made, the
/// id is free and the names in lower case are their own lower-case form;
/// the token is issued after that, so that a failure to sign leaves the
/// account registered.
pub open spec fn registered(
    s: StoreView,
    user: CreateUserView,
    user_id: u128,
    hash: Option<Seq<char>>,
    issued_at: u64,
    secret: Seq<u8>,
) -> (StoreView, Result<AuthInfoView, ApiErrorView>) {
    if name_refusal(s, user) is Some {
        (s, Err(name_refusal(s, user)->0))
    } else if hash is None {
        (s, Err(hashing_fault()))
    } else if s.user_refused(UserRecord::registered(user_id, hash->0, user)) {
        (s, Err(database::users::user_insert_fault()))
    } else {
        let row = UserRecord::registered(user_id, hash->0, user);
        (
            s.with_user(row),
            match issued_token(uuid_text(user_id), issued_at, secret) {
                Ok(bearer) => Ok(AuthInfoView { bearer, user: row.principal() }),
                Err(e) => Err(e),
            },
        )
    }
}

/// The value of an optional hash.
pub open spec fn optional_hash(hash: Option<String>) -> Option<Seq<char>> {
    match hash {
        Some(text) => Some(text@),
        None => None,
    }
}

/// Holds a registration to the names in the store.
pub fn check_names(new_user: &CreateUser, store: &Store) -> (r: Result<(), ApiError>)
    requires
        store.wf(),
    ensures
        match name_refusal(store@, new_user@) {
            Some(e) => outcome(r) == Err::<(), ApiErrorView>(e),
            None => r is Ok,
        },
{
    proof {
        lemma_names_held(store@, new_user.username@);
        lemma_names_held(store@, new_user.email@);
    }
    if database::get_user_by_username(store, new_user.username.as_str()).is_some() {
        return Err(ApiError::BadRequest(String::from_str("Username already taken.")));
    }
    if database::get_user_by_email(store, new_user.email.as_str()).is_some() {
        return Err(ApiError::BadRequest(String::from_str("Email already taken.")));
    }
    Ok(())
}

/// Stores an account whose names are free and issues it a token.
fn enrol(
    new_user: CreateUser,
    user_id: u128,
    hash: Option<String>,
    issued_at: u64,
    secret: &[u8],
    store: &mut Store,
) -> (r: Result<AuthInfo, ApiError>)
    requires
        old(store).wf(),
        name_refusal(old(store)@, new_user@) is None,
    ensures
        final(store).wf(),
        (final(store)@, auth_result(r)) == registered(
            old(store)@,
            new_user@,
            user_id,
            optional_hash(hash),
            issued_at,
            secret@,
        ),
        r matches Ok(info) ==> jwt_claims(info.bearer@, secret@) == Some(
            (
                Some(uuid_text(user_id)),
                Some(issued_at),
                Some((issued_at + TOKEN_LIFETIME_SECS) as u64),
            ),
        ),
{
    let hash = match hash {
        Some(text) => text,
        None => {
            return Err(
                ApiError::InternalServer(
                    String::from_str("Failed to hash password for new user."),
                ),
            );
        },
    };
    let ghost row = UserRecord::registered(user_id, hash@, new_user@);
    proof {
        lemma_names_held(store@, new_user.username@);
        lemma_names_held(store@, new_user.email@);
        lemma_clash_is_of_id(store@, row);
    }
    let user = AuthUser {
        id: format_uuid(user_id),
        username: new_user.username.as_str().to_lowercase(),
        name: new_user.first_name.clone().concat(" ").concat(new_user.last_name.as_str()),
        description: new_user.description.clone(),
        email: new_user.email.as_str().to_lowercase(),
    };
    match database::insert_user(store, user_id, hash, &new_user) {
        Err(e) => {
            return Err(e);
        },
        Ok(()) => {},
    }
    let bearer = match issue_token(user.id.as_str(), issued_at, secret) {
        Ok(bearer) => bearer,
        Err(e) => {
            return Err(e);
        },
    };
    Ok(AuthInfo { bearer, user })
}

/// Registers an account under the given id, with the given hash of its
/// password (`None` where hashing failed), and issues it a token at the
/// given time. A token that was issued reads back as the account's id and
/// the time.
pub fn register_with(
    new_user: CreateUser,
    user_id: u128,
    hash: Option<String>,
    issued_at: u64,
    secret: &[u8],
    store: &mut Store,
) -> (r: Result<AuthInfo, ApiError>)
    requires
        old(store).wf(),
    ensures
        final(store).wf(),
        (final(store)@, auth_result(r)) == registered(
            old(store)@,
            new_user@,
            user_id,
            optional_hash(hash),
            issued_at,
            secret@,
        ),
        r matches Ok(info) ==> jwt_claims(info.bearer@, secret@) == Some(
            (
                Some(uuid_text(user_id)),
                Some(issued_at),
                Some((issued_at + TOKEN_LIFETIME_SECS) as u64),
            ),
        ),
{
    match check_names(&new_user, store) {
        Err(e) => Err(e),
        Ok(()) => enrol(new_user, user_id, hash, issued_at, secret, store),
    }
}

/// Where the names of a new row are free, the row clashes with the table of
/// accounts only by its id.
proof fn lemma_clash_is_of_id(s: StoreView, row: UserRecord)
    requires
        !s.has_username(row.username),
        !s.has_email(row.email),
    ensures
        s.user_clashes(row) == s.has_user(row.id),
{
    if s.user_clashes(row) {
        let i = choose|i: int| s.clash_at(i, row);
        assert(!s.username_at(i, row.username));
        assert(!s.email_at(i, row.email));
        assert(s.user_at(i, row.id));
    }
    if s.has_user(row.id) {
        let i = choose|i: int| s.user_at(i, row.id);
        assert(s.clash_at(i, row));
    }
}

/// Registers an account: draws an id for it, hashes its password and issues
/// it a token at the time the clock shows. The password is hashed only where
/// the names are free. The token reads back as the account's id and the
/// time.
pub fn register(new_user: CreateUser, store: &mut Store, secret: &[u8]) -> (r: Result<
    AuthInfo,
    ApiError,
>)
    requires
        old(store).wf(),
    ensures
        final(store).wf(),
        name_refusal(old(store)@, new_user@) matches Some(e) ==> auth_result(r) == Err::<
            AuthInfoView,
            ApiErrorView,
        >(e) && final(store)@ == old(store)@,
        name_refusal(old(store)@, new_user@) is None ==> exists|
            user_id: u128,
            hash: Option<Seq<char>>,
            issued_at: u64,
        |
            {
                &&& issued_at <= LATEST_TIME
                &&& hash matches Some(text) ==> printable_ascii(text) && bcrypt_matches(
                    new_user.password@,
                    text,
                )
                &&& (final(store)@, auth_result(r)) == #[trigger] registered(
                    old(store)@,
                    new_user@,
                    user_id,
                    hash,
                    issued_at,
                    secret@,
                )
            },
        r matches Ok(info) ==> exists|issued_at: u64| #[trigger]
            reads_back(info@, issued_at, secret@),
{
    match check_names(&new_user, store) {
        Err(e) => {
            return Err(e);
        },
        Ok(()) => {},
    }
    let user_id = fresh_uuid();
    let hash = match bcrypt_hash(new_user.password.as_str()) {
        Ok(text) => Some(text),
        Err(_) => None,
    };
    let issued_at = clock();
    let ghost hash_text: Option<Seq<char>> = optional_hash(hash);
    let r = enrol(new_user, user_id, hash, issued_at, secret, store);
    proof {
        assert((store@, auth_result(r)) == registered(
            old(store)@,
            new_user@,
            user_id,
            hash_text,
            issued_at,
            secret@,
        ));
        if r is Ok {
            assert(reads_back(r->Ok_0@, issued_at, secret@));
        }
    }
    r
}

/// Whether the bearer that was handed out reads back as claims issued to the
/// account at a time: the subject is the account's id, and the token expires
/// thirty days after it was issued.
pub open spec fn reads_back(info: AuthInfoView, issued_at: u64, secret: Seq<u8>) -> bool {
    jwt_claims(info.bearer, secret) == Some(
        (Some(info.user.id), Some(issued_at), Some((issued_at + TOKEN_LIFETIME_SECS) as u64)),
    )
}

/// Whether a stored hash can be handed to the hashing library: it is written
/// in printable ASCII.
pub fn hash_is_printable(hash: &str) -> (ok: bool)
    ensures
        ok == printable_ascii(hash@),
{
    let text = characters(hash);
    let mut i: usize = 0;
    while i < text.len()
        invariant
            text@ == hash@,
            i <= text.len(),
            forall|k: int| 0 <= k < i ==> 0x20 <= #[trigger] hash@[k] as u32 <= 0x7e,
        decreases text.len() - i,
    {
        let c = char_at(&text, i);
        if c < ' ' || c > '~' {
            return false;
        }
        i += 1;
    }
    true
}

/// Whether a password is the one that a stored hash was made of. A hash that
/// cannot be handed to the hashing library matches no password.
pub open spec fn password_matches(password: Seq<char>, hash: Seq<char>) -> bool {
    printable_ascii(hash) && bcrypt_matches(password, hash)
}

/// What a login comes to at a given time: the account is looked up by the
/// email, whatever the case of its letters, and the password is held to the
/// stored hash; where both succeed a token is issued to the account.
pub open spec fn logged_in(
    s: StoreView,
    email: Seq<char>,
    password: Seq<char>,
    issued_at: u64,
    secret: Seq<u8>,
) -> Result<AuthInfoView, ApiErrorView> {
    if !s.has_email(lowercase(email)) {
        Err(login_refused())
    } else {
        let row = s.user_mailed(lowercase(email));
        if !password_matches(password, row.password) {
            Err(login_refused())
        } else {
            match issued_token(uuid_text(row.id), issued_at, secret) {
                Ok(bearer) => Ok(AuthInfoView { bearer, user: row.principal() }),
                Err(e) => Err(e),
            }
        }
    }
}

/// Logs an account in at a given time.
pub fn login_at(credentials: LoginInfo, issued_at: u64, secret: &[u8], store: &Store) -> (r: Result<
    AuthInfo,
    ApiError,
>)
    requires
        store.wf(),
    ensures
        auth_result(r) == logged_in(
            store@,
            credentials.email@,
            credentials.password@,
            issued_at,
            secret@,
        ),
        r matches Ok(info) ==> jwt_claims(info.bearer@, secret@) == Some(
            (Some(info.user.id@), Some(issued_at), Some((issued_at + TOKEN_LIFETIME_SECS) as u64)),
        ),
{
    let user = match database::get_user_by_email(store, credentials.email.as_str()) {
        Some(user) => user,
        None => {
            return Err(ApiError::BadRequest(String::from_str("Email or Password is incorrect")));
        },
    };
    let hash = expose(&user.password);
    if !hash_is_printable(hash.as_str()) || !bcrypt_verify(
        credentials.password.as_str(),
        hash.as_str(),
    ) {
        return Err(ApiError::BadRequest(String::from_str("Email or Password is incorrect")));
    }
    let bearer = match issue_token(user.id.as_str(), issued_at, secret) {
        Ok(bearer) => bearer,
        Err(e) => {
            return Err(e);
        },
    };
    Ok(AuthInfo { bearer, user: user.into() })
}

/// Logs an account in at the time the clock shows. The token reads back as
/// the account's id and the time.
pub fn login(credentials: LoginInfo, store: &Store, secret: &[u8]) -> (r: Result<
    AuthInfo,
    ApiError,
>)
    requires
        store.wf(),
    ensures
        exists|issued_at: u64|
            {
                &&& issued_at <= LATEST_TIME
                &&& auth_result(r) == #[trigger] logged_in(
                    store@,
                    credentials.email@,
                    credentials.password@,
                    issued_at,
                    secret@,
                )
                &&& r matches Ok(info) ==> reads_back(info@, issued_at, secret@)
            },
        r matches Ok(info) ==> exists|issued_at: u64| #[trigger]
            reads_back(info@, issued_at, secret@),
{
    let issued_at = clock();
    let r = login_at(credentials, issued_at, secret, store);
    proof {
        if r is Ok {
            assert(reads_back(r->Ok_0@, issued_at, secret@));
        }
    }
    r
}

/// Why a request to follow is refused: both accounts must exist, and the
/// edge must not.
pub open spec fn follow_refusal(s: StoreView, follower: u128, followed: u128) -> Option<
    ApiErrorView,
> {
    if !s.has_user(follower) || !s.has_user(followed) {
        Some(user_missing())
    } else if s.follows(follower, followed) {
        Some(already_following())
    } else {
        None
    }
}

/// What a request to follow comes to.
pub open spec fn followed(s: StoreView, follower: u128, followed: u128) -> (
    StoreView,
    Result<(), ApiErrorView>,
) {
    match follow_refusal(s, follower, followed) {
        Some(e) => (s, Err(e)),
        None => (s.with_follow(follower, followed), Ok(())),
    }
}

/// Makes `follower_id` follow `followed_id`.
pub fn follow_user(follower_id: u128, followed_id: u128, store: &mut Store) -> (r: Result<
    (),
    ApiError,
>)
    requires
        old(store).wf(),
    ensures
        final(store).wf(),
        (final(store)@, outcome(r)) == followed(old(store)@, follower_id, followed_id),
{
    let follower = database::get_user_by_id(store, follower_id);
    let followed = database::get_user_by_id(store, followed_id);
    if follower.is_none() || followed.is_none() {
        return Err(ApiError::NotFound(String::from_str("User does not exist")));
    }
    if database::is_following(store, follower_id, followed_id) {
        return Err(ApiError::BadRequest(String::from_str("User is already following this user")));
    }
    database::follow_user(store, follower_id, followed_id)
}

/// The accounts that follow the user.
pub fn get_followers(user_id: u128, store: &Store) -> (r: Result<Vec<AuthUser>, ApiError>)
    requires
        store.wf(),
    ensures
        principals_result(r) == Ok::<Seq<AuthUserView>, ApiErrorView>(
            store@.followers_of(user_id),
        ),
{
    Ok(database::get_followers(store, user_id))
}

/// The accounts that the user follows.
pub fn get_following(user_id: u128, store: &Store) -> (r: Result<Vec<AuthUser>, ApiError>)
    requires
        store.wf(),
    ensures
        principals_result(r) == Ok::<Seq<AuthUserView>, ApiErrorView>(store@.followed_by(user_id)),
{
    Ok(database::get_following(store, user_id))
}

/// Why a request to unfollow is refused: both accounts must exist, and so
/// must the edge.
pub open spec fn unfollow_refusal(s: StoreView, user: u128, followed: u128) -> Option<
    ApiErrorView,
> {
    if !s.has_user(user) || !s.has_user(followed) {
        Some(user_missing())
    } else if !s.follows(user, followed) {
        Some(not_following())
    } else {
        None
    }
}

/// What a request to unfollow comes to.
pub open spec fn unfollowed(s: StoreView, user: u128, followed: u128) -> (
    StoreView,
    Result<(), ApiErrorView>,
) {
    match unfollow_refusal(s, user, followed) {
        Some(e) => (s, Err(e)),
        None => (s.without_follow(user, followed), Ok(())),
    }
}

/// Makes `user_id` follow `followed_id` no longer.
pub fn unfollow_user(user_id: u128, followed_id: u128, store: &mut Store) -> (r: Result<
    (),
    ApiError,
>)
    requires
        old(store).wf(),
    ensures
        final(store).wf(),
        (final(store)@, outcome(r)) == unfollowed(old(store)@, user_id, followed_id),
{
    let user = database::get_user_by_id(store, user_id);
    let followed_user = database::get_user_by_id(store, followed_id);
    if user.is_none() || followed_user.is_none() {
        return Err(ApiError::NotFound(String::from_str("User does not exist")));
    }
    if !database::is_following(store, user_id, followed_id) {
        return Err(ApiError::BadRequest(String::from_str("You are not following this user")));
    }
    database::unfollow_user(store, user_id, followed_id);
    Ok(())
}

/// The public projection of an account; the account must exist.
pub open spec fn user_shown(s: StoreView, user: u128) -> Result<AuthUserView, ApiErrorView> {
    if !s.has_user(user) {
        Err(user_missing())
    } else {
        Ok(s.user(user).principal())
    }
}

/// The public projection of the account with the given id.
pub fn get_user_by_id(user_id: u128, store: &Store) -> (r: Result<AuthUser, ApiError>)
    requires
        store.wf(),
    ensures
        match r {
            Ok(user) => user_shown(store@, user_id) == Ok::<AuthUserView, ApiErrorView>(user@),
            Err(e) => user_shown(store@, user_id) == Err::<AuthUserView, ApiErrorView>(e@),
        },
{
    match database::get_user_by_id(store, user_id) {
        Some(user) => Ok(user.into()),
        None => Err(ApiError::NotFound(String::from_str("User does not exist"))),
    }
}

/// The accounts that a search finds: all of them where no query is given,
/// else those whose username holds the query.
pub open spec fn users_shown(s: StoreView, query: Option<Seq<char>>) -> Seq<AuthUserView> {
    match query {
        Some(query) => s.found_by(query),
        None => s.principals(),
    }
}

/// The accounts that a search finds.
pub fn get_users(query: Option<String>, store: &Store) -> (r: Result<Vec<AuthUser>, ApiError>)
    requires
        store.wf(),
    ensures
        principals_result(r) == Ok::<Seq<AuthUserView>, ApiErrorView>(
            users_shown(store@, optional_hash(query)),
        ),
{
    match query {
        Some(query) => Ok(database::get_users_by_query(query, store)),
        None => Ok(database::get_all_users(store)),
    }
}

} // verus!
