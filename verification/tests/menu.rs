use rust_user::line_reader::Key;
use rust_user::menu::{
    choice_of_text, parse_choice, press_enter_to_continue, wait_for_enter, MenuAction, MenuChoice,
    MenuEvent, MenuState, Transition, INVALID_CHOICE_TEXT, MENU_TEXT,
};

fn all_states() -> Vec<MenuState> {
    vec![
        MenuState::MainMenu,
        MenuState::AwaitingChoice,
        MenuState::InLogin,
        MenuState::InSignup,
        MenuState::Terminated,
    ]
}

fn all_events() -> Vec<MenuEvent> {
    vec![
        MenuEvent::Rendered,
        MenuEvent::Chosen(MenuChoice::Login),
        MenuEvent::Chosen(MenuChoice::Signup),
        MenuEvent::Chosen(MenuChoice::Exit),
        MenuEvent::Chosen(MenuChoice::Invalid),
        MenuEvent::Completed,
    ]
}

#[test]
fn choices_of_the_menu() {
    assert_eq!(parse_choice("1"), MenuChoice::Login);
    assert_eq!(parse_choice("2"), MenuChoice::Signup);
    assert_eq!(parse_choice("3"), MenuChoice::Exit);
    assert_eq!(parse_choice("q"), MenuChoice::Exit);
    assert_eq!(parse_choice("Q"), MenuChoice::Exit);
    assert_eq!(parse_choice(""), MenuChoice::Invalid);
    assert_eq!(parse_choice("4"), MenuChoice::Invalid);
    assert_eq!(parse_choice("11"), MenuChoice::Invalid);
    assert_eq!(parse_choice("quit"), MenuChoice::Invalid);
    assert_eq!(parse_choice("1 2"), MenuChoice::Invalid);
}

#[test]
fn white_space_around_a_choice_does_not_count() {
    assert_eq!(parse_choice(" 1"), MenuChoice::Login);
    assert_eq!(parse_choice("2  "), MenuChoice::Signup);
    assert_eq!(parse_choice("\tq\t"), MenuChoice::Exit);
    assert_eq!(parse_choice("   "), MenuChoice::Invalid);
}

#[test]
fn a_text_taken_as_it_is_keeps_its_white_space() {
    assert_eq!(choice_of_text("1"), MenuChoice::Login);
    assert_eq!(choice_of_text("2"), MenuChoice::Signup);
    assert_eq!(choice_of_text("3"), MenuChoice::Exit);
    assert_eq!(choice_of_text("q"), MenuChoice::Exit);
    assert_eq!(choice_of_text("Q"), MenuChoice::Exit);
    assert_eq!(choice_of_text(" 1"), MenuChoice::Invalid);
    assert_eq!(choice_of_text("1 "), MenuChoice::Invalid);
}

#[test]
fn the_loop_starts_at_the_menu() {
    assert_eq!(MenuState::start(), MenuState::MainMenu);
}

#[test]
fn actions_of_the_states() {
    assert_eq!(MenuState::MainMenu.action(), MenuAction::Render);
    assert_eq!(MenuState::AwaitingChoice.action(), MenuAction::ReadChoice);
    assert_eq!(MenuState::InLogin.action(), MenuAction::RunLogin);
    assert_eq!(MenuState::InSignup.action(), MenuAction::RunSignup);
    assert_eq!(MenuState::Terminated.action(), MenuAction::Stop);
}

#[test]
fn transitions_of_the_menu() {
    let plain = |next| Transition { next, report_invalid: false };
    assert_eq!(MenuState::MainMenu.advance(MenuEvent::Rendered), plain(MenuState::AwaitingChoice));
    assert_eq!(
        MenuState::AwaitingChoice.advance(MenuEvent::Chosen(MenuChoice::Login)),
        plain(MenuState::InLogin)
    );
    assert_eq!(
        MenuState::AwaitingChoice.advance(MenuEvent::Chosen(MenuChoice::Signup)),
        plain(MenuState::InSignup)
    );
    assert_eq!(
        MenuState::AwaitingChoice.advance(MenuEvent::Chosen(MenuChoice::Exit)),
        plain(MenuState::Terminated)
    );
    assert_eq!(
        MenuState::AwaitingChoice.advance(MenuEvent::Chosen(MenuChoice::Invalid)),
        Transition { next: MenuState::MainMenu, report_invalid: true }
    );
    assert_eq!(MenuState::InLogin.advance(MenuEvent::Completed), plain(MenuState::MainMenu));
    assert_eq!(MenuState::InSignup.advance(MenuEvent::Completed), plain(MenuState::MainMenu));
}

#[test]
fn an_event_out_of_place_changes_nothing() {
    let plain = |next| Transition { next, report_invalid: false };
    assert_eq!(MenuState::MainMenu.advance(MenuEvent::Completed), plain(MenuState::MainMenu));
    assert_eq!(
        MenuState::MainMenu.advance(MenuEvent::Chosen(MenuChoice::Exit)),
        plain(MenuState::MainMenu)
    );
    assert_eq!(
        MenuState::AwaitingChoice.advance(MenuEvent::Rendered),
        plain(MenuState::AwaitingChoice)
    );
    assert_eq!(MenuState::InLogin.advance(MenuEvent::Rendered), plain(MenuState::InLogin));
    assert_eq!(
        MenuState::InSignup.advance(MenuEvent::Chosen(MenuChoice::Login)),
        plain(MenuState::InSignup)
    );
}

#[test]
fn terminated_is_final() {
    for event in all_events() {
        assert_eq!(
            MenuState::Terminated.advance(event),
            Transition { next: MenuState::Terminated, report_invalid: false }
        );
    }
}

#[test]
fn only_the_choice_to_exit_terminates() {
    for state in all_states() {
        for event in all_events() {
            let t = state.advance(event);
            if t.next == MenuState::Terminated && state != MenuState::Terminated {
                assert_eq!(state, MenuState::AwaitingChoice);
                assert_eq!(event, MenuEvent::Chosen(MenuChoice::Exit));
            }
            if t.report_invalid {
                assert_eq!(event, MenuEvent::Chosen(MenuChoice::Invalid));
                assert_eq!(t.next, MenuState::MainMenu);
            }
        }
    }
}

#[test]
fn a_session_runs_through_the_states() {
    let mut state = MenuState::start();
    let events = [
        MenuEvent::Rendered,
        MenuEvent::Chosen(parse_choice("9")),
        MenuEvent::Rendered,
        MenuEvent::Chosen(parse_choice("2")),
        MenuEvent::Completed,
        MenuEvent::Rendered,
        MenuEvent::Chosen(parse_choice("1")),
        MenuEvent::Completed,
        MenuEvent::Rendered,
        MenuEvent::Chosen(parse_choice("Q")),
    ];
    let mut seen = vec![state];
    let mut reports = 0;
    for event in events {
        let t = state.advance(event);
        if t.report_invalid {
            reports += 1;
        }
        state = t.next;
        seen.push(state);
    }
    assert_eq!(reports, 1);
    assert_eq!(
        seen,
        vec![
            MenuState::MainMenu,
            MenuState::AwaitingChoice,
            MenuState::MainMenu,
            MenuState::AwaitingChoice,
            MenuState::InSignup,
            MenuState::MainMenu,
            MenuState::AwaitingChoice,
            MenuState::InLogin,
            MenuState::MainMenu,
            MenuState::AwaitingChoice,
            MenuState::Terminated,
        ]
    );
    assert_eq!(state.action(), MenuAction::Stop);
}

#[test]
fn notice_text_frames_the_message() {
    assert_eq!(
        press_enter_to_continue("비밀번호가 틀렸습니다."),
        "\r\n비밀번호가 틀렸습니다. (계속하려면 Enter를 누르세요...)\r\n"
    );
    assert_eq!(press_enter_to_continue(""), "\r\n (계속하려면 Enter를 누르세요...)\r\n");
}

#[test]
fn menu_texts() {
    assert_eq!(
        MENU_TEXT,
        "--- Rust 로그인 시스템 (보안 강화) ---\r\n\r\n1. 로그인\r\n2. 회원가입\r\n3. 종료\r\n\r\n선택: "
    );
    assert_eq!(INVALID_CHOICE_TEXT, "잘못된 선택입니다. (1, 2, 3 중 하나)");
}

#[test]
fn the_wait_ends_with_the_first_enter() {
    assert_eq!(wait_for_enter(&[Key::Enter]), Some(1));
    assert_eq!(wait_for_enter(&[Key::Char('x'), Key::Other, Key::Enter, Key::Enter]), Some(3));
    assert_eq!(wait_for_enter(&[Key::Char('x'), Key::Backspace]), None);
    assert_eq!(wait_for_enter(&[]), None);
}
