//! The two dialogues of the menu, prompt by prompt: each step takes the line
//! that the user typed and says what to ask next, or how the dialogue ended.

use crate::auth::{
    login, login_denial, password_rejection, signup, signup_post, signup_rejection,
    username_rejection, validate_password, validate_username, LoginOutcome, SignupOutcome,
};
use crate::store::{StoreError, UserDatabase};
use vstd::prelude::*;

verus! {

/// Heads the sign-up dialogue.
pub const SIGNUP_HEADER: &'static str = "--- 회원가입 ---\r\n";

/// Heads the login dialogue.
pub const LOGIN_HEADER: &'static str = "--- 로그인 ---\r\n";

/// Asks for the user name of a sign-up.
pub const NEW_USERNAME_PROMPT: &'static str = "사용할 아이디: ";

/// Asks for the user name of a login.
pub const USERNAME_PROMPT: &'static str = "아이디: ";

/// Asks for a password.
pub const PASSWORD_PROMPT: &'static str = "비밀번호: ";

/// Asks for the password once more.
pub const CONFIRMATION_PROMPT: &'static str = "비밀번호 확인: ";

/// Shown when the user database could not be loaded.
pub const LOAD_FAILURE_TEXT: &'static str = "사용자 정보를 불러올 수 없습니다.";

/// Shown when the user database could not be saved.
pub const SAVE_FAILURE_TEXT: &'static str = "사용자 정보를 저장할 수 없습니다.";

/// One question of a dialogue: the prompt, and whether the answer is typed
/// behind a mask.
#[derive(Clone, Copy, Debug, PartialEq, Eq)]
pub struct Question {
    pub prompt: &'static str,
    pub masked: bool,
}

/// Where a sign-up dialogue stands: the question that is open, with the
/// answers given so far.
#[derive(Debug, PartialEq, Eq)]
pub enum SignupStage {
    Username,
    Password { username: String },
    Confirmation { username: String, password: String },
}

/// What a step of the sign-up dialogue leads to.
#[derive(Debug, PartialEq, Eq)]
pub enum SignupStep {
    /// The next question is open.
    Ask(SignupStage),
    /// The dialogue is over.
    Done(SignupOutcome),
}

/// Where a login dialogue stands.
#[derive(Debug, PartialEq, Eq)]
pub enum LoginStage {
    Username,
    Password { username: String },
}

/// What a step of the login dialogue leads to.
#[derive(Debug, PartialEq, Eq)]
pub enum LoginStep {
    /// The next question is open.
    Ask(LoginStage),
    /// The dialogue is over.
    Done(LoginOutcome),
}

impl SignupStage {
    /// Whether the answer at this stage is typed behind a mask: everything
    /// but the user name is.
    pub open spec fn is_secret(self) -> bool {
        !(self is Username)
    }

    /// The prompt of this stage.
    pub open spec fn prompt(self) -> Seq<char> {
        match self {
            SignupStage::Username => NEW_USERNAME_PROMPT@,
            SignupStage::Password { .. } => PASSWORD_PROMPT@,
            SignupStage::Confirmation { .. } => CONFIRMATION_PROMPT@,
        }
    }

    /// The question to put to the user at this stage.
    pub fn question(&self) -> (q: Question)
        ensures
            q.prompt@ == self.prompt(),
            q.masked == self.is_secret(),
    {
        match self {
            SignupStage::Username => Question { prompt: NEW_USERNAME_PROMPT, masked: false },
            SignupStage::Password { .. } => Question { prompt: PASSWORD_PROMPT, masked: true },
            SignupStage::Confirmation { .. } => Question {
                prompt: CONFIRMATION_PROMPT,
                masked: true,
            },
        }
    }
}

impl LoginStage {
    /// Whether the answer at this stage is typed behind a mask.
    pub open spec fn is_secret(self) -> bool {
        !(self is Username)
    }

    /// The prompt of this stage.
    pub open spec fn prompt(self) -> Seq<char> {
        match self {
            LoginStage::Username => USERNAME_PROMPT@,
            LoginStage::Password { .. } => PASSWORD_PROMPT@,
        }
    }

    /// The question to put to the user at this stage.
    pub fn question(&self) -> (q: Question)
        ensures
            q.prompt@ == self.prompt(),
            q.masked == self.is_secret(),
    {
        match self {
            LoginStage::Username => Question { prompt: USERNAME_PROMPT, masked: false },
            LoginStage::Password { .. } => Question { prompt: PASSWORD_PROMPT, masked: true },
        }
    }
}

/// Takes the answer `line` to the open question of a sign-up. A user name or
/// a password that breaks a rule ends the dialogue at once, before anything
/// more is asked; the confirmation ends it with the sign-up itself. Only that
/// last step can change the database.
pub fn signup_step(db: &mut UserDatabase, stage: SignupStage, line: String) -> (step: SignupStep)
    ensures
        match stage {
            SignupStage::Username => {
                &&& final(db)@ == old(db)@
                &&& match username_rejection(old(db)@, line@) {
                    Some(error) => step == SignupStep::Done(SignupOutcome::Rejected(error)),
                    None => step == SignupStep::Ask(SignupStage::Password { username: line }),
                }
            },
            SignupStage::Password { username } => {
                &&& final(db)@ == old(db)@
                &&& match password_rejection(line@) {
                    Some(error) => step == SignupStep::Done(SignupOutcome::Rejected(error)),
                    None => step == SignupStep::Ask(
                        SignupStage::Confirmation { username, password: line },
                    ),
                }
            },
            SignupStage::Confirmation { username, password } => {
                &&& step matches SignupStep::Done(outcome)
                &&& signup_post(old(db)@, final(db)@, username@, password@, line@, outcome)
            },
        },
{
    match stage {
        SignupStage::Username => match validate_username(db, line.as_str()) {
            Some(error) => SignupStep::Done(SignupOutcome::Rejected(error)),
            None => SignupStep::Ask(SignupStage::Password { username: line }),
        },
        SignupStage::Password { username } => match validate_password(line.as_str()) {
            Some(error) => SignupStep::Done(SignupOutcome::Rejected(error)),
            None => SignupStep::Ask(SignupStage::Confirmation { username, password: line }),
        },
        SignupStage::Confirmation { username, password } => SignupStep::Done(
            signup(db, username.as_str(), password.as_str(), line.as_str()),
        ),
    }
}

/// Takes the answer `line` to the open question of a login. Both questions
/// are always asked; the password ends the dialogue with the login itself.
pub fn login_step(db: &UserDatabase, stage: LoginStage, line: String) -> (step: LoginStep)
    ensures
        match stage {
            LoginStage::Username => step == LoginStep::Ask(LoginStage::Password { username: line }),
            LoginStage::Password { username } => {
                &&& step matches LoginStep::Done(outcome)
                &&& outcome.error() == login_denial(db@, username@, line@)
                &&& outcome matches LoginOutcome::Welcome { username: name } ==> name@
                    == username@
            },
        },
{
    match stage {
        LoginStage::Username => LoginStep::Ask(LoginStage::Password { username: line }),
        LoginStage::Password { username } => LoginStep::Done(
            login(db, username.as_str(), line.as_str()),
        ),
    }
}

/// The message that closes a sign-up: that of its outcome, unless the user
/// was registered and the database could not be saved afterwards.
pub open spec fn signup_report_text(outcome: SignupOutcome, saved: Result<(), StoreError>) -> Seq<
    char,
> {
    if outcome.error() is None && saved is Err {
        SAVE_FAILURE_TEXT@
    } else {
        outcome.text()
    }
}

/// The message that closes a sign-up, given how saving the database went
/// (`Ok` also where there was nothing to save).
pub fn signup_report(outcome: &SignupOutcome, saved: Result<(), StoreError>) -> (text: String)
    ensures
        text@ == signup_report_text(*outcome, saved),
{
    if outcome.is_registered() && saved.is_err() {
        String::from_str(SAVE_FAILURE_TEXT)
    } else {
        outcome.message()
    }
}

/// A sign-up that the dialogue ends early is one that [`signup`] would turn
/// down with the same error, whatever were typed at the questions that the
/// dialogue did not ask.
pub proof fn law_early_rejection_agrees(
    db: Map<Seq<char>, Seq<char>>,
    username: Seq<char>,
    password: Seq<char>,
    password_confirm: Seq<char>,
)
    ensures
        username_rejection(db, username) is Some ==> signup_rejection(
            db,
            username,
            password,
            password_confirm,
        ) == username_rejection(db, username),
        username_rejection(db, username) is None && password_rejection(password) is Some
            ==> signup_rejection(db, username, password, password_confirm) == password_rejection(
            password,
        ),
{
}

} // verus!
