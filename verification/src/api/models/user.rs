//! Accounts, what of them is public, and the rules that a registration is
//! held to.

use vstd::prelude::*;
use vstd::string::*;
use vstd::utf8::{encode_utf8, is_ascii_chars, is_ascii_chars_encode_utf8};
use vstd::std_specs::convert::FromSpecImpl;

use crate::api::models::error::{ApiError, ApiErrorView};
use crate::api::vendor::{
    char_is_alphanumeric, char_is_lowercase, char_is_numeric, char_is_uppercase, email_is_valid,
    secret_text, validate_email, validate_length, SecretText,
};

verus! {

/// An account as the store holds it; the hash of the credential stays sealed.
#[derive(Debug)]
pub struct User {
    pub id: String,
    pub username: String,
    pub email: String,
    pub password: SecretText,
    pub name: String,
    pub description: String,
}

/// The mathematical value of a [`User`].
pub struct UserView {
    pub id: Seq<char>,
    pub username: Seq<char>,
    pub email: Seq<char>,
    pub password: Seq<char>,
    pub name: Seq<char>,
    pub description: Seq<char>,
}

impl View for User {
    type V = UserView;

    open spec fn view(&self) -> UserView {
        UserView {
            id: self.id@,
            username: self.username@,
            email: self.email@,
            password: secret_text(self.password),
            name: self.name@,
            description: self.description@,
        }
    }
}

impl UserView {
    /// What of an account is public.
    pub open spec fn principal(self) -> AuthUserView {
        AuthUserView {
            id: self.id,
            username: self.username,
            name: self.name,
            description: self.description,
            email: self.email,
        }
    }
}

/// The public projection of an account: what a token stands for and what
/// other users get to see.
#[derive(Debug)]
pub struct AuthUser {
    pub id: String,
    pub username: String,
    pub name: String,
    pub description: String,
    pub email: String,
}

/// The mathematical value of an [`AuthUser`].
pub struct AuthUserView {
    pub id: Seq<char>,
    pub username: Seq<char>,
    pub name: Seq<char>,
    pub description: Seq<char>,
    pub email: Seq<char>,
}

impl View for AuthUser {
    type V = AuthUserView;

    open spec fn view(&self) -> AuthUserView {
        AuthUserView {
            id: self.id@,
            username: self.username@,
            name: self.name@,
            description: self.description@,
            email: self.email@,
        }
    }
}

/// The values of a list of principals.
pub open spec fn principal_views(list: Seq<AuthUser>) -> Seq<AuthUserView> {
    Seq::new(list.len(), |i: int| list[i]@)
}

/// The value of an optional account.
pub open spec fn optional_user(user: Option<User>) -> Option<UserView> {
    match user {
        Some(user) => Some(user@),
        None => None,
    }
}

impl From<User> for AuthUser {
    fn from(user: User) -> (principal: AuthUser) {
        AuthUser {
            id: user.id,
            username: user.username,
            name: user.name,
            description: user.description,
            email: user.email,
        }
    }
}

impl FromSpecImpl<User> for AuthUser {
    open spec fn obeys_from_spec() -> bool {
        true
    }

    open spec fn from_spec(user: User) -> AuthUser {
        AuthUser {
            id: user.id,
            username: user.username,
            name: user.name,
            description: user.description,
            email: user.email,
        }
    }
}

/// What a successful registration or login hands out: a token and the
/// principal it was issued to.
pub struct AuthInfo {
    pub bearer: String,
    pub user: AuthUser,
}

/// The mathematical value of an [`AuthInfo`].
pub struct AuthInfoView {
    pub bearer: Seq<char>,
    pub user: AuthUserView,
}

impl View for AuthInfo {
    type V = AuthInfoView;

    open spec fn view(&self) -> AuthInfoView {
        AuthInfoView { bearer: self.bearer@, user: self.user@ }
    }
}

/// The body of a login request.
pub struct LoginInfo {
    pub email: String,
    pub password: String,
}

/// The body of a registration request.
pub struct CreateUser {
    pub email: String,
    pub username: String,
    pub first_name: String,
    pub description: String,
    pub last_name: String,
    pub password: String,
}

/// The mathematical value of a [`CreateUser`].
pub struct CreateUserView {
    pub email: Seq<char>,
    pub username: Seq<char>,
    pub first_name: Seq<char>,
    pub description: Seq<char>,
    pub last_name: Seq<char>,
    pub password: Seq<char>,
}

impl View for CreateUser {
    type V = CreateUserView;

    open spec fn view(&self) -> CreateUserView {
        CreateUserView {
            email: self.email@,
            username: self.username@,
            first_name: self.first_name@,
            description: self.description@,
            last_name: self.last_name@,
            password: self.password@,
        }
    }
}

/// The first rule that a password breaks.
#[derive(Debug, Clone, Copy, PartialEq, Eq, Structural)]
pub enum PasswordFault {
    TooShort,
    NoDigit,
    NoLowercase,
    NoUppercase,
    NoSpecialCharacter,
}

impl PasswordFault {
    pub open spec fn text(self) -> Seq<char> {
        match self {
            PasswordFault::TooShort => "Password too short."@,
            PasswordFault::NoDigit => "Password must contain at least one digit."@,
            PasswordFault::NoLowercase => "Password must contain at least one lowercase letter."@,
            PasswordFault::NoUppercase => "Password must contain at least one uppercase letter."@,
            PasswordFault::NoSpecialCharacter =>
                "Password must contain at least one special character."@,
        }
    }

    /// The rule in words.
    pub fn message(&self) -> (text: String)
        ensures
            text@ == self.text(),
    {
        match self {
            PasswordFault::TooShort => String::from_str("Password too short."),
            PasswordFault::NoDigit => String::from_str("Password must contain at least one digit."),
            PasswordFault::NoLowercase => String::from_str(
                "Password must contain at least one lowercase letter.",
            ),
            PasswordFault::NoUppercase => String::from_str(
                "Password must contain at least one uppercase letter.",
            ),
            PasswordFault::NoSpecialCharacter => String::from_str(
                "Password must contain at least one special character.",
            ),
        }
    }
}

/// The shortest password accepted, in bytes of its UTF-8 form.
pub const MIN_PASSWORD_BYTES: usize = 8;

/// Whether a text holds a character of a class.
pub open spec fn has_some(text: Seq<char>, class: spec_fn(char) -> bool) -> bool {
    exists|i: int| 0 <= i < text.len() && class(#[trigger] text[i])
}

pub open spec fn digits() -> spec_fn(char) -> bool {
    |c: char| char_is_numeric(c)
}

pub open spec fn lowercase_letters() -> spec_fn(char) -> bool {
    |c: char| char_is_lowercase(c)
}

pub open spec fn uppercase_letters() -> spec_fn(char) -> bool {
    |c: char| char_is_uppercase(c)
}

pub open spec fn special_characters() -> spec_fn(char) -> bool {
    |c: char| !char_is_alphanumeric(c)
}

/// The password policy: the rules in the order in which they are tried.
pub open spec fn password_fault(password: Seq<char>) -> Option<PasswordFault> {
    if encode_utf8(password).len() < MIN_PASSWORD_BYTES {
        Some(PasswordFault::TooShort)
    } else if !has_some(password, digits()) {
        Some(PasswordFault::NoDigit)
    } else if !has_some(password, lowercase_letters()) {
        Some(PasswordFault::NoLowercase)
    } else if !has_some(password, uppercase_letters()) {
        Some(PasswordFault::NoUppercase)
    } else if !has_some(password, special_characters()) {
        Some(PasswordFault::NoSpecialCharacter)
    } else {
        None
    }
}

pub open spec fn ascii_digits() -> spec_fn(char) -> bool {
    |c: char| '0' <= c <= '9'
}

pub open spec fn ascii_small_letters() -> spec_fn(char) -> bool {
    |c: char| 'a' <= c <= 'z'
}

pub open spec fn ascii_capital_letters() -> spec_fn(char) -> bool {
    |c: char| 'A' <= c <= 'Z'
}

pub open spec fn ascii_special_characters() -> spec_fn(char) -> bool {
    |c: char| !('0' <= c <= '9' || 'a' <= c <= 'z' || 'A' <= c <= 'Z')
}

/// The password policy as it reads on a password of ASCII characters: at
/// least eight characters, one of them a digit, one a small letter, one a
/// capital letter, and one none of these.
pub open spec fn ascii_password_fault(password: Seq<char>) -> Option<PasswordFault> {
    if password.len() < MIN_PASSWORD_BYTES {
        Some(PasswordFault::TooShort)
    } else if !has_some(password, ascii_digits()) {
        Some(PasswordFault::NoDigit)
    } else if !has_some(password, ascii_small_letters()) {
        Some(PasswordFault::NoLowercase)
    } else if !has_some(password, ascii_capital_letters()) {
        Some(PasswordFault::NoUppercase)
    } else if !has_some(password, ascii_special_characters()) {
        Some(PasswordFault::NoSpecialCharacter)
    } else {
        None
    }
}

/// A text that is longer by one character holds a character of a class if
/// the shorter text does or the new character is of the class.
proof fn lemma_has_some_step(text: Seq<char>, i: int, class: spec_fn(char) -> bool)
    requires
        0 <= i < text.len(),
    ensures
        has_some(text.take(i + 1), class) == (has_some(text.take(i), class) || class(text[i])),
{
    let shorter = text.take(i);
    let longer = text.take(i + 1);
    assert(longer[i] == text[i]);
    if has_some(longer, class) && !class(text[i]) {
        let k = choose|k: int| 0 <= k < longer.len() && class(#[trigger] longer[k]);
        assert(shorter[k] == longer[k]);
    }
    if has_some(shorter, class) {
        let k = choose|k: int| 0 <= k < shorter.len() && class(#[trigger] shorter[k]);
        assert(longer[k] == shorter[k]);
    }
}

/// The four character classes of a password, found in one pass: whether it
/// holds a digit, a lower-case letter, an upper-case letter, a character
/// that is neither letter nor digit. On a password of ASCII characters the
/// classes are the ASCII ones.
fn scan_password(password: &str) -> (found: (bool, bool, bool, bool))
    ensures
        found.0 == has_some(password@, digits()),
        found.1 == has_some(password@, lowercase_letters()),
        found.2 == has_some(password@, uppercase_letters()),
        found.3 == has_some(password@, special_characters()),
        is_ascii_chars(password@) ==> {
            &&& found.0 == has_some(password@, ascii_digits())
            &&& found.1 == has_some(password@, ascii_small_letters())
            &&& found.2 == has_some(password@, ascii_capital_letters())
            &&& found.3 == has_some(password@, ascii_special_characters())
        },
{
    let n = password.unicode_len();
    let mut digit = false;
    let mut lower = false;
    let mut upper = false;
    let mut special = false;
    let mut i: usize = 0;
    while i < n
        invariant
            n == password@.len(),
            i <= n,
            digit == has_some(password@.take(i as int), digits()),
            lower == has_some(password@.take(i as int), lowercase_letters()),
            upper == has_some(password@.take(i as int), uppercase_letters()),
            special == has_some(password@.take(i as int), special_characters()),
            is_ascii_chars(password@) ==> {
                &&& digit == has_some(password@.take(i as int), ascii_digits())
                &&& lower == has_some(password@.take(i as int), ascii_small_letters())
                &&& upper == has_some(password@.take(i as int), ascii_capital_letters())
                &&& special == has_some(password@.take(i as int), ascii_special_characters())
            },
        decreases n - i,
    {
        let c = password.get_char(i);
        proof {
            lemma_has_some_step(password@, i as int, digits());
            lemma_has_some_step(password@, i as int, lowercase_letters());
            lemma_has_some_step(password@, i as int, uppercase_letters());
            lemma_has_some_step(password@, i as int, special_characters());
            lemma_has_some_step(password@, i as int, ascii_digits());
            lemma_has_some_step(password@, i as int, ascii_small_letters());
            lemma_has_some_step(password@, i as int, ascii_capital_letters());
            lemma_has_some_step(password@, i as int, ascii_special_characters());
        }
        digit = digit || c.is_numeric();
        lower = lower || c.is_lowercase();
        upper = upper || c.is_uppercase();
        special = special || !c.is_alphanumeric();
        i += 1;
    }
    proof {
        assert(password@.take(n as int) =~= password@);
    }
    (digit, lower, upper, special)
}

/// Holds a password to the policy: at least eight bytes, a digit, a
/// lower-case letter, an upper-case letter and a character that is neither
/// letter nor digit. The first rule broken, in that order, is reported. On
/// a password of ASCII characters the policy is the one that
/// [`ascii_password_fault`] spells out.
pub fn validate_password(password: &str) -> (r: Result<(), PasswordFault>)
    ensures
        match r {
            Ok(()) => password_fault(password@) is None,
            Err(fault) => password_fault(password@) == Some(fault),
        },
        is_ascii_chars(password@) ==> password_fault(password@) == ascii_password_fault(
            password@,
        ),
{
    proof {
        if is_ascii_chars(password@) {
            is_ascii_chars_encode_utf8(password@);
        }
    }
    if password.as_bytes().len() < MIN_PASSWORD_BYTES {
        return Err(PasswordFault::TooShort);
    }
    let (digit, lower, upper, special) = scan_password(password);
    if !digit {
        Err(PasswordFault::NoDigit)
    } else if !lower {
        Err(PasswordFault::NoLowercase)
    } else if !upper {
        Err(PasswordFault::NoUppercase)
    } else if !special {
        Err(PasswordFault::NoSpecialCharacter)
    } else {
        Ok(())
    }
}

/// Appends a field's name to a list of names that are parted by a comma and
/// a space, if the field is at fault.
pub open spec fn listed(names: Seq<char>, name: Seq<char>, at_fault: bool) -> Seq<char> {
    if !at_fault {
        names
    } else if names.len() == 0 {
        name
    } else {
        names + ", "@ + name
    }
}

/// [`listed`], on strings.
pub fn list_field(names: String, name: &str, at_fault: bool) -> (r: String)
    ensures
        r@ == listed(names@, name@, at_fault),
{
    if !at_fault {
        names
    } else if names.as_str().unicode_len() == 0 {
        proof {
            assert(names@ + name@ =~= name@);
        }
        names.concat(name)
    } else {
        names.concat(", ").concat(name)
    }
}

/// The fewest and the most characters of a username.
pub const MIN_USERNAME_CHARS: u64 = 3;

pub const MAX_USERNAME_CHARS: u64 = 20;

impl CreateUserView {
    pub open spec fn email_ok(self) -> bool {
        email_is_valid(self.email)
    }

    pub open spec fn username_ok(self) -> bool {
        MIN_USERNAME_CHARS <= self.username.len() <= MAX_USERNAME_CHARS
    }

    pub open spec fn password_ok(self) -> bool {
        password_fault(self.password) is None
    }

    pub open spec fn is_valid(self) -> bool {
        self.email_ok() && self.username_ok() && self.password_ok()
    }

    /// The names of the fields at fault, in the order email, username,
    /// password.
    pub open spec fn invalid_fields(self) -> Seq<char> {
        let email = listed(Seq::empty(), "email"@, !self.email_ok());
        let username = listed(email, "username"@, !self.username_ok());
        listed(username, "password"@, !self.password_ok())
    }
}

impl CreateUser {
    /// Holds a registration to the rules on its fields: the email must be an
    /// email address, the username three to twenty characters long, the
    /// password must meet the policy. A registration that breaks one is
    /// refused as a bad request whose message lists the fields at fault.
    pub fn validate(&self) -> (r: Result<(), ApiError>)
        ensures
            match r {
                Ok(()) => self@.is_valid(),
                Err(e) => !self@.is_valid() && e@ == ApiErrorView::BadRequest(
                    "Invalid fields: "@ + self@.invalid_fields(),
                ),
            },
    {
        let email_ok = validate_email(self.email.as_str());
        let username_ok = validate_length(
            self.username.as_str(),
            MIN_USERNAME_CHARS,
            MAX_USERNAME_CHARS,
        );
        let password_ok = validate_password(self.password.as_str()).is_ok();
        if email_ok && username_ok && password_ok {
            return Ok(());
        }
        let names = list_field(String::new(), "email", !email_ok);
        let names = list_field(names, "username", !username_ok);
        let names = list_field(names, "password", !password_ok);
        Err(ApiError::BadRequest(String::from_str("Invalid fields: ").concat(names.as_str())))
    }
}

} // verus!
