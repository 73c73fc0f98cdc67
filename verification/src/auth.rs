//! The authentication service: the rules of sign-up and login over the user
//! database and the password hasher.

use crate::hasher::{accepts, hash, verify, HashFailure};
use crate::store::{valid_store, User, UserDatabase};
use vstd::prelude::*;

verus! {

/// Why a sign-up was turned down.
#[derive(Clone, Copy, Debug, PartialEq, Eq, Structural)]
pub enum SignupError {
    /// No user name was given.
    EmptyUsername,
    /// The user name is taken.
    DuplicateUsername,
    /// No password was given.
    EmptyPassword,
    /// The password and its confirmation differ.
    PasswordMismatch,
    /// The password could not be hashed.
    HashFailure,
}

/// How a sign-up ended.
#[derive(Debug, PartialEq, Eq)]
pub enum SignupOutcome {
    /// The user was added to the database.
    Registered { username: String },
    /// Nothing was added.
    Rejected(SignupError),
}

/// Why a login was turned down.
#[derive(Clone, Copy, Debug, PartialEq, Eq, Structural)]
pub enum LoginError {
    /// The database has no such user.
    UnknownUser,
    /// The password does not fit the user's stored hash.
    WrongPassword,
}

/// How a login ended.
#[derive(Debug, PartialEq, Eq)]
pub enum LoginOutcome {
    /// The user proved who they are.
    Welcome { username: String },
    /// The login was turned down.
    Denied(LoginError),
}

/// Shown when a sign-up gives no user name.
pub const EMPTY_USERNAME_TEXT: &'static str = "아이디는 비워둘 수 없습니다.";

/// Shown when a sign-up asks for a user name that is taken.
pub const DUPLICATE_USERNAME_TEXT: &'static str = "이미 사용 중인 아이디입니다.";

/// Shown when a sign-up gives no password.
pub const EMPTY_PASSWORD_TEXT: &'static str = "비밀번호는 비워둘 수 없습니다.";

/// Shown when the confirmation of a sign-up differs from the password.
pub const PASSWORD_MISMATCH_TEXT: &'static str = "비밀번호가 일치하지 않습니다.";

/// Shown when the password of a sign-up could not be hashed.
pub const HASH_FAILURE_TEXT: &'static str = "오류 발생: 비밀번호를 해시할 수 없습니다.";

/// Shown when a login names a user that the database does not have.
pub const UNKNOWN_USER_TEXT: &'static str = "존재하지 않는 아이디입니다.";

/// Shown when a login gives a password that does not fit.
pub const WRONG_PASSWORD_TEXT: &'static str = "비밀번호가 틀렸습니다.";

/// Opens the greeting of a user by name.
pub const NAME_OPENING: &'static str = "'";

/// Closes the greeting of a user who has signed up.
pub const REGISTERED_CLOSING: &'static str = "'님, 회원가입이 완료되었습니다!";

/// Closes the greeting of a user who has logged in.
pub const WELCOME_CLOSING: &'static str = "'님, 환영합니다!";

impl SignupError {
    /// The message for this error.
    pub open spec fn text(self) -> Seq<char> {
        match self {
            SignupError::EmptyUsername => EMPTY_USERNAME_TEXT@,
            SignupError::DuplicateUsername => DUPLICATE_USERNAME_TEXT@,
            SignupError::EmptyPassword => EMPTY_PASSWORD_TEXT@,
            SignupError::PasswordMismatch => PASSWORD_MISMATCH_TEXT@,
            SignupError::HashFailure => HASH_FAILURE_TEXT@,
        }
    }

    /// The message for this error.
    pub fn message(self) -> (text: &'static str)
        ensures
            text@ == self.text(),
    {
        match self {
            SignupError::EmptyUsername => EMPTY_USERNAME_TEXT,
            SignupError::DuplicateUsername => DUPLICATE_USERNAME_TEXT,
            SignupError::EmptyPassword => EMPTY_PASSWORD_TEXT,
            SignupError::PasswordMismatch => PASSWORD_MISMATCH_TEXT,
            SignupError::HashFailure => HASH_FAILURE_TEXT,
        }
    }
}

impl LoginError {
    /// The message for this error.
    pub open spec fn text(self) -> Seq<char> {
        match self {
            LoginError::UnknownUser => UNKNOWN_USER_TEXT@,
            LoginError::WrongPassword => WRONG_PASSWORD_TEXT@,
        }
    }

    /// The message for this error.
    pub fn message(self) -> (text: &'static str)
        ensures
            text@ == self.text(),
    {
        match self {
            LoginError::UnknownUser => UNKNOWN_USER_TEXT,
            LoginError::WrongPassword => WRONG_PASSWORD_TEXT,
        }
    }
}

/// The rule on user names that `username` breaks, if it breaks one: it must
/// not be empty, and it must not be taken.
pub open spec fn username_rejection(db: Map<Seq<char>, Seq<char>>, username: Seq<char>) -> Option<
    SignupError,
> {
    if username.len() == 0 {
        Some(SignupError::EmptyUsername)
    } else if db.contains_key(username) {
        Some(SignupError::DuplicateUsername)
    } else {
        None
    }
}

/// The rule on passwords that `password` breaks, if it breaks it: it must not
/// be empty.
pub open spec fn password_rejection(password: Seq<char>) -> Option<SignupError> {
    if password.len() == 0 {
        Some(SignupError::EmptyPassword)
    } else {
        None
    }
}

/// The first rule that a sign-up breaks, if it breaks one: the user name is
/// looked at before the password, and the password before its confirmation.
pub open spec fn signup_rejection(
    db: Map<Seq<char>, Seq<char>>,
    username: Seq<char>,
    password: Seq<char>,
    password_confirm: Seq<char>,
) -> Option<SignupError> {
    if username_rejection(db, username) is Some {
        username_rejection(db, username)
    } else if password_rejection(password) is Some {
        password_rejection(password)
    } else if password != password_confirm {
        Some(SignupError::PasswordMismatch)
    } else {
        None
    }
}

/// What a sign-up comes to, given what the hasher answered (`None`: it
/// failed): the error if there is one, and the database afterwards.
pub open spec fn signup_effect(
    db: Map<Seq<char>, Seq<char>>,
    username: Seq<char>,
    password: Seq<char>,
    password_confirm: Seq<char>,
    hashed: Option<Seq<char>>,
) -> (Option<SignupError>, Map<Seq<char>, Seq<char>>) {
    match signup_rejection(db, username, password, password_confirm) {
        Some(error) => (Some(error), db),
        None => match hashed {
            None => (Some(SignupError::HashFailure), db),
            Some(hash) => (None, db.insert(username, hash)),
        },
    }
}

/// What holds of a sign-up with its outcome and the database before and
/// after: they are what [`signup_effect`] gives for the hasher's answer, and a
/// stored hash is one that the hasher accepts for the password.
pub open spec fn signup_post(
    before: Map<Seq<char>, Seq<char>>,
    after: Map<Seq<char>, Seq<char>>,
    username: Seq<char>,
    password: Seq<char>,
    password_confirm: Seq<char>,
    outcome: SignupOutcome,
) -> bool {
    &&& (outcome.error(), after) == signup_effect(
        before,
        username,
        password,
        password_confirm,
        if outcome.error() is None {
            Some(after[username])
        } else {
            None
        },
    )
    &&& outcome matches SignupOutcome::Registered { username: name } ==> {
        &&& name@ == username
        &&& after.contains_key(username)
        &&& accepts(password, after[username])
    }
}

/// Why a login is turned down, if it is: an unknown user before anything is
/// asked of the hasher, a password that the hasher does not accept after.
pub open spec fn login_denial(
    db: Map<Seq<char>, Seq<char>>,
    username: Seq<char>,
    password: Seq<char>,
) -> Option<LoginError> {
    if !db.contains_key(username) {
        Some(LoginError::UnknownUser)
    } else if !accepts(password, db[username]) {
        Some(LoginError::WrongPassword)
    } else {
        None
    }
}

impl SignupOutcome {
    /// The error of a sign-up that was turned down.
    pub open spec fn error(self) -> Option<SignupError> {
        match self {
            SignupOutcome::Registered { .. } => None,
            SignupOutcome::Rejected(error) => Some(error),
        }
    }

    /// The message for this outcome. It names the user and holds nothing of
    /// the password or its hash.
    pub open spec fn text(self) -> Seq<char> {
        match self {
            SignupOutcome::Registered { username } => NAME_OPENING@ + username@
                + REGISTERED_CLOSING@,
            SignupOutcome::Rejected(error) => error.text(),
        }
    }

    /// The message to show for this outcome.
    pub fn message(&self) -> (text: String)
        ensures
            text@ == self.text(),
    {
        match self {
            SignupOutcome::Registered { username } => {
                let mut text = String::from_str(NAME_OPENING);
                text.append(username.as_str());
                text.append(REGISTERED_CLOSING);
                text
            },
            SignupOutcome::Rejected(error) => String::from_str(error.message()),
        }
    }

    /// Whether the database changed and has to be saved.
    pub fn is_registered(&self) -> (yes: bool)
        ensures
            yes == (self.error() is None),
    {
        match self {
            SignupOutcome::Registered { .. } => true,
            SignupOutcome::Rejected(_) => false,
        }
    }
}

impl LoginOutcome {
    /// The error of a login that was turned down.
    pub open spec fn error(self) -> Option<LoginError> {
        match self {
            LoginOutcome::Welcome { .. } => None,
            LoginOutcome::Denied(error) => Some(error),
        }
    }

    /// The message for this outcome. It names the user and holds nothing of
    /// the password or its hash.
    pub open spec fn text(self) -> Seq<char> {
        match self {
            LoginOutcome::Welcome { username } => NAME_OPENING@ + username@ + WELCOME_CLOSING@,
            LoginOutcome::Denied(error) => error.text(),
        }
    }

    /// The message to show for this outcome.
    pub fn message(&self) -> (text: String)
        ensures
            text@ == self.text(),
    {
        match self {
            LoginOutcome::Welcome { username } => {
                let mut text = String::from_str(NAME_OPENING);
                text.append(username.as_str());
                text.append(WELCOME_CLOSING);
                text
            },
            LoginOutcome::Denied(error) => String::from_str(error.message()),
        }
    }

    /// Whether the user proved who they are.
    pub fn is_welcome(&self) -> (yes: bool)
        ensures
            yes == (self.error() is None),
    {
        match self {
            LoginOutcome::Welcome { .. } => true,
            LoginOutcome::Denied(_) => false,
        }
    }
}

/// Checks a user name against the rules on user names.
pub fn validate_username(db: &UserDatabase, username: &str) -> (broken: Option<SignupError>)
    ensures
        broken == username_rejection(db@, username@),
{
    if username.is_empty() {
        Some(SignupError::EmptyUsername)
    } else if db.contains_key(username) {
        Some(SignupError::DuplicateUsername)
    } else {
        None
    }
}

/// Checks a password against the rule on passwords.
pub fn validate_password(password: &str) -> (broken: Option<SignupError>)
    ensures
        broken == password_rejection(password@),
{
    if password.is_empty() {
        Some(SignupError::EmptyPassword)
    } else {
        None
    }
}

/// Checks a sign-up against the rules, without touching anything.
pub fn validate_signup(
    db: &UserDatabase,
    username: &str,
    password: &str,
    password_confirm: &str,
) -> (broken: Option<SignupError>)
    ensures
        broken == signup_rejection(db@, username@, password@, password_confirm@),
{
    if let Some(error) = validate_username(db, username) {
        Some(error)
    } else if let Some(error) = validate_password(password) {
        Some(error)
    } else if !password.eq(password_confirm) {
        Some(SignupError::PasswordMismatch)
    } else {
        None
    }
}

/// Ends a sign-up that broke no rule, with what the hasher answered: a hash
/// is stored under `username`, a failure leaves the database alone. The empty
/// user name is never stored.
pub fn conclude_signup(
    db: &mut UserDatabase,
    username: &str,
    hashed: Result<String, HashFailure>,
) -> (outcome: SignupOutcome)
    ensures
        match hashed {
            Err(_) => outcome == SignupOutcome::Rejected(SignupError::HashFailure) && final(db)@
                == old(db)@,
            Ok(hash) => if username@.len() == 0 {
                outcome == SignupOutcome::Rejected(SignupError::EmptyUsername) && final(db)@
                    == old(db)@
            } else {
                &&& outcome matches SignupOutcome::Registered { username: name }
                &&& name@ == username@
                &&& final(db)@ == old(db)@.insert(username@, hash@)
            },
        },
        valid_store(old(db)@) ==> valid_store(final(db)@),
{
    match hashed {
        Err(_) => SignupOutcome::Rejected(SignupError::HashFailure),
        Ok(password_hash) => {
            if db.insert(username.to_owned(), User { password_hash }) {
                SignupOutcome::Registered { username: username.to_owned() }
            } else {
                SignupOutcome::Rejected(SignupError::EmptyUsername)
            }
        },
    }
}

/// Signs a user up. A sign-up that breaks a rule is turned down with the
/// first rule it breaks and changes nothing. Otherwise the password is hashed:
/// if that fails, nothing changes either; if not, the database gains
/// `username` with a hash that the hasher accepts for `password`.
pub fn signup(
    db: &mut UserDatabase,
    username: &str,
    password: &str,
    password_confirm: &str,
) -> (outcome: SignupOutcome)
    ensures
        signup_post(old(db)@, final(db)@, username@, password@, password_confirm@, outcome),
        outcome.error() is Some ==> final(db)@ == old(db)@,
        password@ != password_confirm@ ==> final(db)@ == old(db)@,
        valid_store(old(db)@) ==> valid_store(final(db)@),
{
    match validate_signup(db, username, password, password_confirm) {
        Some(error) => SignupOutcome::Rejected(error),
        None => {
            let hashed = hash(password);
            conclude_signup(db, username, hashed)
        },
    }
}

/// Ends the login of a known user with what the hasher answered.
pub fn conclude_login(username: &str, fits: bool) -> (outcome: LoginOutcome)
    ensures
        fits ==> (outcome matches LoginOutcome::Welcome { username: name } && name@ == username@),
        !fits ==> outcome == LoginOutcome::Denied(LoginError::WrongPassword),
{
    if fits {
        LoginOutcome::Welcome { username: username.to_owned() }
    } else {
        LoginOutcome::Denied(LoginError::WrongPassword)
    }
}

/// Logs a user in. An unknown user is turned down at once; for a known one
/// the hasher decides whether the password fits the stored hash.
pub fn login(db: &UserDatabase, username: &str, password: &str) -> (outcome: LoginOutcome)
    ensures
        outcome.error() == login_denial(db@, username@, password@),
        outcome matches LoginOutcome::Welcome { username: name } ==> name@ == username@,
{
    match db.get(username) {
        None => LoginOutcome::Denied(LoginError::UnknownUser),
        Some(user) => conclude_login(username, verify(password, user.password_hash.as_str())),
    }
}

/// After a sign-up that broke no rule and stored `hash`, the user is in the
/// database under that hash, and a login of that user depends on the hasher
/// alone: it succeeds with every password that the hasher accepts for `hash`,
/// the password of the sign-up among them if the hasher made `hash` from it,
/// and fails as a wrong password with every other.
pub proof fn law_login_after_signup(
    db: Map<Seq<char>, Seq<char>>,
    username: Seq<char>,
    password: Seq<char>,
    hash: Seq<char>,
    attempt: Seq<char>,
)
    requires
        signup_rejection(db, username, password, password) is None,
    ensures
        ({
            let after = signup_effect(db, username, password, password, Some(hash)).1;
            &&& after.contains_key(username)
            &&& after[username] == hash
            &&& accepts(attempt, hash) ==> login_denial(after, username, attempt) is None
            &&& !accepts(attempt, hash) ==> login_denial(after, username, attempt) == Some(
                LoginError::WrongPassword,
            )
        }),
{
}

/// A login of a known user never fails as that of an unknown one: a password
/// that the hasher does not accept for the stored hash is a wrong password,
/// and the two failures are different values.
pub proof fn law_wrong_password_is_told_apart(
    db: Map<Seq<char>, Seq<char>>,
    username: Seq<char>,
    password: Seq<char>,
)
    requires
        db.contains_key(username),
    ensures
        login_denial(db, username, password) != Some(LoginError::UnknownUser),
        !accepts(password, db[username]) ==> login_denial(db, username, password) == Some(
            LoginError::WrongPassword,
        ),
        LoginError::WrongPassword != LoginError::UnknownUser,
{
}

/// Signing the same user up twice: whatever the hasher answers the second
/// time, the second sign-up is turned down as a duplicate and the database
/// stays as the first one left it.
pub proof fn law_second_signup_is_rejected(
    db: Map<Seq<char>, Seq<char>>,
    username: Seq<char>,
    password: Seq<char>,
    first_hash: Seq<char>,
    second_hash: Option<Seq<char>>,
)
    requires
        signup_effect(db, username, password, password, Some(first_hash)).0 is None,
    ensures
        ({
            let after = signup_effect(db, username, password, password, Some(first_hash)).1;
            signup_effect(after, username, password, password, second_hash) == (
                Some(SignupError::DuplicateUsername),
                after,
            )
        }),
{
}

/// A sign-up whose confirmation differs from the password never changes the
/// database, whatever else holds of it.
pub proof fn law_mismatch_changes_nothing(
    db: Map<Seq<char>, Seq<char>>,
    username: Seq<char>,
    password: Seq<char>,
    password_confirm: Seq<char>,
    hashed: Option<Seq<char>>,
)
    requires
        password != password_confirm,
    ensures
        signup_effect(db, username, password, password_confirm, hashed).0 is Some,
        signup_effect(db, username, password, password_confirm, hashed).1 == db,
{
}

/// Against the empty database every login is that of an unknown user. The
/// answer does not depend on the password, so the hasher is never consulted.
pub proof fn law_empty_database_knows_nobody(username: Seq<char>, password: Seq<char>)
    ensures
        login_denial(Map::empty(), username, password) == Some(LoginError::UnknownUser),
{
}

/// A sign-up keeps the database valid: no sign-up stores the empty user name.
pub proof fn law_signup_keeps_store_valid(
    db: Map<Seq<char>, Seq<char>>,
    username: Seq<char>,
    password: Seq<char>,
    password_confirm: Seq<char>,
    hashed: Option<Seq<char>>,
)
    requires
        valid_store(db),
    ensures
        valid_store(signup_effect(db, username, password, password_confirm, hashed).1),
{
}

} // verus!
