use rust_user::line_reader::{read_line, Echo, Key, LineEditor, MASK};

fn sample_keys() -> Vec<Key> {
    vec![Key::Char('a'), Key::Char('b'), Key::Backspace, Key::Char('c'), Key::Enter]
}

#[test]
fn plain_line_is_edited_and_echoed() {
    let t = read_line(&sample_keys(), false);
    assert!(t.complete);
    assert_eq!(t.line, "ac");
    assert_eq!(
        t.echoes,
        vec![Echo::Glyph('a'), Echo::Glyph('b'), Echo::Erase, Echo::Glyph('c'), Echo::NewLine]
    );
}

#[test]
fn masked_line_echoes_only_the_mask() {
    let t = read_line(&sample_keys(), true);
    assert!(t.complete);
    assert_eq!(t.line, "ac");
    assert_eq!(
        t.echoes,
        vec![Echo::Glyph('*'), Echo::Glyph('*'), Echo::Erase, Echo::Glyph('*'), Echo::NewLine]
    );
    for echo in t.echoes {
        assert!(!matches!(echo, Echo::Glyph('a') | Echo::Glyph('b') | Echo::Glyph('c')));
    }
}

#[test]
fn mask_is_an_asterisk() {
    assert_eq!(MASK, '*');
}

#[test]
fn backspace_on_an_empty_line_does_nothing() {
    let t = read_line(&[Key::Backspace, Key::Char('x'), Key::Backspace, Key::Backspace, Key::Enter], false);
    assert_eq!(t.line, "");
    assert_eq!(
        t.echoes,
        vec![Echo::Nothing, Echo::Glyph('x'), Echo::Erase, Echo::Nothing, Echo::NewLine]
    );
}

#[test]
fn other_keys_are_ignored() {
    let t = read_line(&[Key::Other, Key::Char('k'), Key::Other, Key::Enter], false);
    assert_eq!(t.line, "k");
    assert_eq!(t.echoes, vec![Echo::Nothing, Echo::Glyph('k'), Echo::Nothing, Echo::NewLine]);
}

#[test]
fn keys_behind_enter_are_left_alone() {
    let t = read_line(&[Key::Char('a'), Key::Enter, Key::Char('b'), Key::Enter], false);
    assert!(t.complete);
    assert_eq!(t.line, "a");
    assert_eq!(t.echoes.len(), 2);
}

#[test]
fn a_line_without_enter_is_incomplete() {
    let t = read_line(&[Key::Char('a'), Key::Char('b')], false);
    assert!(!t.complete);
    assert_eq!(t.line, "ab");
    assert_eq!(t.echoes, vec![Echo::Glyph('a'), Echo::Glyph('b')]);
}

#[test]
fn no_keys_give_an_empty_incomplete_line() {
    let t = read_line(&[], true);
    assert!(!t.complete);
    assert_eq!(t.line, "");
    assert!(t.echoes.is_empty());
}

#[test]
fn enter_alone_gives_the_empty_line() {
    let t = read_line(&[Key::Enter], false);
    assert!(t.complete);
    assert_eq!(t.line, "");
    assert_eq!(t.echoes, vec![Echo::NewLine]);
}

#[test]
fn editor_takes_keys_one_by_one() {
    let mut editor = LineEditor::new(true);
    assert!(editor.is_masked());
    assert!(!editor.is_finished());
    assert_eq!(editor.press(Key::Char('p')), Echo::Glyph('*'));
    assert_eq!(editor.press(Key::Char('*')), Echo::Glyph('*'));
    assert_eq!(editor.press(Key::Other), Echo::Nothing);
    assert_eq!(editor.press(Key::Enter), Echo::NewLine);
    assert!(editor.is_finished());
    assert_eq!(editor.press(Key::Char('z')), Echo::Nothing);
    assert_eq!(editor.press(Key::Backspace), Echo::Nothing);
    assert_eq!(editor.press(Key::Enter), Echo::Nothing);
    assert_eq!(editor.into_line(), "p*");
}

#[test]
fn plain_editor_shows_what_is_typed() {
    let mut editor = LineEditor::new(false);
    assert!(!editor.is_masked());
    assert_eq!(editor.press(Key::Char('한')), Echo::Glyph('한'));
    assert_eq!(editor.press(Key::Char('!')), Echo::Glyph('!'));
    assert_eq!(editor.press(Key::Backspace), Echo::Erase);
    assert_eq!(editor.into_line(), "한");
}
