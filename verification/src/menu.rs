//! The menu controller: the states of the interactive loop, the choice that
//! a typed line stands for, and the texts that frame them.

use crate::line_reader::{is_first_enter, keys_before_enter, lemma_keys_before_enter, Key};
use crate::text::trimmed;
use vstd::prelude::*;

verus! {

/// The menu as it is drawn: the title, the three choices and the prompt.
pub const MENU_TEXT: &'static str =
    "--- Rust 로그인 시스템 (보안 강화) ---\r\n\r\n1. 로그인\r\n2. 회원가입\r\n3. 종료\r\n\r\n선택: ";

/// Shown when the typed line is none of the choices.
pub const INVALID_CHOICE_TEXT: &'static str = "잘못된 선택입니다. (1, 2, 3 중 하나)";

/// Stands before every message that waits for Enter.
pub const NOTICE_OPENING: &'static str = "\r\n";

/// Stands behind every message that waits for Enter.
pub const NOTICE_CLOSING: &'static str = " (계속하려면 Enter를 누르세요...)\r\n";

/// Where the interactive loop stands.
#[derive(Clone, Copy, Debug, PartialEq, Eq, Structural)]
pub enum MenuState {
    /// The menu is about to be drawn.
    MainMenu,
    /// The menu is on the screen and a line is being read.
    AwaitingChoice,
    /// The login dialogue runs.
    InLogin,
    /// The sign-up dialogue runs.
    InSignup,
    /// The loop is over.
    Terminated,
}

/// What a line typed at the menu asks for.
#[derive(Clone, Copy, Debug, PartialEq, Eq, Structural)]
pub enum MenuChoice {
    Login,
    Signup,
    Exit,
    Invalid,
}

/// What the driver of the loop does while the loop stands in a state.
#[derive(Clone, Copy, Debug, PartialEq, Eq, Structural)]
pub enum MenuAction {
    /// Clear the screen and draw the menu.
    Render,
    /// Read one line, unmasked.
    ReadChoice,
    /// Run the login dialogue, show its outcome and wait for Enter.
    RunLogin,
    /// Run the sign-up dialogue, show its outcome and wait for Enter.
    RunSignup,
    /// Leave the loop and restore the terminal.
    Stop,
}

/// What the driver reports back once it has done what a state asked for.
#[derive(Clone, Copy, Debug, PartialEq, Eq, Structural)]
pub enum MenuEvent {
    /// The menu was drawn.
    Rendered,
    /// A line was read; it stands for this choice.
    Chosen(MenuChoice),
    /// A dialogue ran to its end and the user pressed Enter.
    Completed,
}

/// Where the loop goes on an event, and whether the driver first has to tell
/// the user that the choice was invalid and wait for Enter.
#[derive(Clone, Copy, Debug, PartialEq, Eq, Structural)]
pub struct Transition {
    pub next: MenuState,
    pub report_invalid: bool,
}

/// The choice that a line stands for once the white space around it is gone.
pub open spec fn choice_of(text: Seq<char>) -> MenuChoice {
    if text == seq!['1'] {
        MenuChoice::Login
    } else if text == seq!['2'] {
        MenuChoice::Signup
    } else if text == seq!['3'] || text == seq!['q'] || text == seq!['Q'] {
        MenuChoice::Exit
    } else {
        MenuChoice::Invalid
    }
}

/// The choice that `text` stands for, taken as it is.
pub fn choice_of_text(text: &str) -> (choice: MenuChoice)
    ensures
        choice == choice_of(text@),
{
    proof {
        reveal_strlit("1");
        reveal_strlit("2");
        reveal_strlit("3");
        reveal_strlit("q");
        reveal_strlit("Q");
        assert("1"@ =~= seq!['1']);
        assert("2"@ =~= seq!['2']);
        assert("3"@ =~= seq!['3']);
        assert("q"@ =~= seq!['q']);
        assert("Q"@ =~= seq!['Q']);
    }
    if text.eq("1") {
        MenuChoice::Login
    } else if text.eq("2") {
        MenuChoice::Signup
    } else if text.eq("3") || text.eq("q") || text.eq("Q") {
        MenuChoice::Exit
    } else {
        MenuChoice::Invalid
    }
}

/// The choice that a typed line stands for. White space around the choice
/// does not count.
pub fn parse_choice(line: &str) -> (choice: MenuChoice)
    ensures
        choice == choice_of(trimmed(line@)),
{
    choice_of_text(line.trim())
}

impl MenuState {
    /// What the driver does in this state.
    pub open spec fn action_spec(self) -> MenuAction {
        match self {
            MenuState::MainMenu => MenuAction::Render,
            MenuState::AwaitingChoice => MenuAction::ReadChoice,
            MenuState::InLogin => MenuAction::RunLogin,
            MenuState::InSignup => MenuAction::RunSignup,
            MenuState::Terminated => MenuAction::Stop,
        }
    }

    /// Where the loop goes from this state on `event`. An event that the
    /// state does not wait for leaves the state as it is.
    pub open spec fn advance_spec(self, event: MenuEvent) -> Transition {
        match (self, event) {
            (MenuState::MainMenu, MenuEvent::Rendered) => Transition {
                next: MenuState::AwaitingChoice,
                report_invalid: false,
            },
            (MenuState::AwaitingChoice, MenuEvent::Chosen(MenuChoice::Login)) => Transition {
                next: MenuState::InLogin,
                report_invalid: false,
            },
            (MenuState::AwaitingChoice, MenuEvent::Chosen(MenuChoice::Signup)) => Transition {
                next: MenuState::InSignup,
                report_invalid: false,
            },
            (MenuState::AwaitingChoice, MenuEvent::Chosen(MenuChoice::Exit)) => Transition {
                next: MenuState::Terminated,
                report_invalid: false,
            },
            (MenuState::AwaitingChoice, MenuEvent::Chosen(MenuChoice::Invalid)) => Transition {
                next: MenuState::MainMenu,
                report_invalid: true,
            },
            (MenuState::InLogin, MenuEvent::Completed) => Transition {
                next: MenuState::MainMenu,
                report_invalid: false,
            },
            (MenuState::InSignup, MenuEvent::Completed) => Transition {
                next: MenuState::MainMenu,
                report_invalid: false,
            },
            _ => Transition { next: self, report_invalid: false },
        }
    }

    /// The state in which the loop starts.
    pub fn start() -> (state: Self)
        ensures
            state == MenuState::MainMenu,
    {
        MenuState::MainMenu
    }

    /// What the driver does in this state.
    pub fn action(self) -> (action: MenuAction)
        ensures
            action == self.action_spec(),
    {
        match self {
            MenuState::MainMenu => MenuAction::Render,
            MenuState::AwaitingChoice => MenuAction::ReadChoice,
            MenuState::InLogin => MenuAction::RunLogin,
            MenuState::InSignup => MenuAction::RunSignup,
            MenuState::Terminated => MenuAction::Stop,
        }
    }

    /// Where the loop goes from this state on `event`.
    pub fn advance(self, event: MenuEvent) -> (transition: Transition)
        ensures
            transition == self.advance_spec(event),
    {
        match self {
            MenuState::MainMenu => match event {
                MenuEvent::Rendered => Transition {
                    next: MenuState::AwaitingChoice,
                    report_invalid: false,
                },
                _ => Transition { next: self, report_invalid: false },
            },
            MenuState::AwaitingChoice => match event {
                MenuEvent::Chosen(choice) => match choice {
                    MenuChoice::Login => Transition {
                        next: MenuState::InLogin,
                        report_invalid: false,
                    },
                    MenuChoice::Signup => Transition {
                        next: MenuState::InSignup,
                        report_invalid: false,
                    },
                    MenuChoice::Exit => Transition {
                        next: MenuState::Terminated,
                        report_invalid: false,
                    },
                    MenuChoice::Invalid => Transition {
                        next: MenuState::MainMenu,
                        report_invalid: true,
                    },
                },
                _ => Transition { next: self, report_invalid: false },
            },
            MenuState::InLogin | MenuState::InSignup => match event {
                MenuEvent::Completed => Transition {
                    next: MenuState::MainMenu,
                    report_invalid: false,
                },
                _ => Transition { next: self, report_invalid: false },
            },
            MenuState::Terminated => Transition { next: self, report_invalid: false },
        }
    }
}

/// The text of a message that waits for Enter.
pub open spec fn notice_text(message: Seq<char>) -> Seq<char> {
    NOTICE_OPENING@ + message + NOTICE_CLOSING@
}

/// The text to show for `message` before waiting for Enter: the message on a
/// line of its own, followed by the hint that Enter goes on.
pub fn press_enter_to_continue(message: &str) -> (text: String)
    ensures
        text@ == notice_text(message@),
{
    let mut text = String::from_str(NOTICE_OPENING);
    text.append(message);
    text.append(NOTICE_CLOSING);
    text
}

/// How many of `keys` the wait for Enter takes, the Enter that ends it
/// included, or `None` if they hold no Enter and the wait goes on. Every key
/// but Enter is passed over.
pub fn wait_for_enter(keys: &[Key]) -> (taken: Option<usize>)
    ensures
        match taken {
            Some(n) => n == keys_before_enter(keys@) + 1 && n <= keys@.len(),
            None => keys_before_enter(keys@) == keys@.len(),
        },
{
    let mut i: usize = 0;
    while i < keys.len()
        invariant
            i <= keys.len(),
            forall|j: int| 0 <= j < i ==> keys@[j] != Key::Enter,
        decreases keys.len() - i,
    {
        match keys[i] {
            Key::Enter => {
                proof {
                    lemma_keys_before_enter(keys@, i as int);
                }
                return Some(i + 1);
            },
            _ => {},
        }
        i = i + 1;
    }
    proof {
        lemma_keys_before_enter(keys@, i as int);
    }
    None
}

/// The loop never leaves `Terminated`, and nothing is reported there.
pub proof fn law_terminated_is_final(event: MenuEvent)
    ensures
        MenuState::Terminated.advance_spec(event) == (Transition {
            next: MenuState::Terminated,
            report_invalid: false,
        }),
        MenuState::Terminated.action_spec() == MenuAction::Stop,
{
}

/// The loop ends only on the choice to exit, made at the menu.
pub proof fn law_only_exit_terminates(state: MenuState, event: MenuEvent)
    requires
        state != MenuState::Terminated,
        state.advance_spec(event).next == MenuState::Terminated,
    ensures
        state == MenuState::AwaitingChoice,
        event == MenuEvent::Chosen(MenuChoice::Exit),
{
}

/// Every dialogue, once completed, leads back to the menu; so does an
/// invalid choice, and only an invalid choice is reported.
pub proof fn law_back_to_menu(state: MenuState, event: MenuEvent)
    ensures
        (state == MenuState::InLogin || state == MenuState::InSignup) && event
            == MenuEvent::Completed ==> state.advance_spec(event).next == MenuState::MainMenu,
        state.advance_spec(event).report_invalid <==> state == MenuState::AwaitingChoice && event
            == MenuEvent::Chosen(MenuChoice::Invalid),
        state.advance_spec(event).report_invalid ==> state.advance_spec(event).next
            == MenuState::MainMenu,
{
}

} // verus!
