//! The line editor behind every prompt: it turns key presses into an edited
//! line and says what the terminal has to show for each of them.

use vstd::prelude::*;

verus! {

/// The character shown in place of every typed character of a masked line.
pub const MASK: char = '*';

/// A key press, reduced to what the editor distinguishes.
#[derive(Clone, Copy, Debug, PartialEq, Eq, Structural)]
pub enum Key {
    /// Ends the line.
    Enter,
    /// Removes the last character of the line.
    Backspace,
    /// A printable character.
    Char(char),
    /// Any other key; the editor ignores it.
    Other,
}

/// What the terminal shows in answer to one key press.
#[derive(Clone, Copy, Debug, PartialEq, Eq, Structural)]
pub enum Echo {
    /// Nothing is written.
    Nothing,
    /// One glyph is written at the cursor.
    Glyph(char),
    /// The glyph left of the cursor is wiped: cursor left, a space, cursor left.
    Erase,
    /// The cursor moves to the start of the next line.
    NewLine,
}

/// The line after `key` was pressed on a line that held `buffer`.
pub open spec fn buffer_after(buffer: Seq<char>, key: Key) -> Seq<char> {
    match key {
        Key::Char(c) => buffer.push(c),
        Key::Backspace => if buffer.len() > 0 {
            buffer.drop_last()
        } else {
            buffer
        },
        Key::Enter | Key::Other => buffer,
    }
}

/// What the terminal shows when `key` is pressed on a line that holds `buffer`.
pub open spec fn echo_of(buffer: Seq<char>, key: Key, masked: bool) -> Echo {
    match key {
        Key::Char(c) => Echo::Glyph(
            if masked {
                MASK
            } else {
                c
            },
        ),
        Key::Backspace => if buffer.len() > 0 {
            Echo::Erase
        } else {
            Echo::Nothing
        },
        Key::Enter => Echo::NewLine,
        Key::Other => Echo::Nothing,
    }
}

/// The line that the keys `keys`, none of them Enter, leave behind.
pub open spec fn typed(keys: Seq<Key>) -> Seq<char>
    decreases keys.len(),
{
    if keys.len() == 0 {
        Seq::empty()
    } else {
        buffer_after(typed(keys.drop_last()), keys.last())
    }
}

/// The echo of each key of `keys`, pressed in turn on an empty line.
pub open spec fn echoes(keys: Seq<Key>, masked: bool) -> Seq<Echo> {
    Seq::new(keys.len(), |i: int| echo_of(typed(keys.take(i)), keys[i], masked))
}

/// The number of keys of `keys` that stand before its first Enter: all of
/// them when there is none.
pub open spec fn keys_before_enter(keys: Seq<Key>) -> int
    decreases keys.len(),
{
    if keys.len() == 0 || keys[0] == Key::Enter {
        0
    } else {
        1 + keys_before_enter(keys.drop_first())
    }
}

/// An editor for one line of input.
pub struct LineEditor {
    buffer: String,
    masked: bool,
    finished: bool,
}

impl LineEditor {
    /// The characters typed so far.
    pub closed spec fn buffer(&self) -> Seq<char> {
        self.buffer@
    }

    /// Whether typed characters are shown as [`MASK`].
    pub closed spec fn masked(&self) -> bool {
        self.masked
    }

    /// Whether Enter has ended the line.
    pub closed spec fn finished(&self) -> bool {
        self.finished
    }

    /// An editor on an empty line.
    pub fn new(masked: bool) -> (editor: Self)
        ensures
            editor.buffer() == Seq::<char>::empty(),
            editor.masked() == masked,
            !editor.finished(),
    {
        LineEditor { buffer: String::new(), masked, finished: false }
    }

    /// Takes one key press and returns what the terminal has to show for it.
    /// Once Enter has ended the line, further keys change and show nothing.
    pub fn press(&mut self, key: Key) -> (echo: Echo)
        ensures
            final(self).masked() == old(self).masked(),
            old(self).finished() ==> {
                &&& final(self).finished()
                &&& final(self).buffer() == old(self).buffer()
                &&& echo == Echo::Nothing
            },
            !old(self).finished() ==> {
                &&& final(self).finished() == (key == Key::Enter)
                &&& final(self).buffer() == buffer_after(old(self).buffer(), key)
                &&& echo == echo_of(old(self).buffer(), key, old(self).masked())
            },
    {
        if self.finished {
            return Echo::Nothing;
        }
        match key {
            Key::Enter => {
                self.finished = true;
                Echo::NewLine
            },
            Key::Backspace => {
                if self.buffer.as_str().is_empty() {
                    Echo::Nothing
                } else {
                    self.buffer.pop();
                    Echo::Erase
                }
            },
            Key::Char(c) => {
                self.buffer.push(c);
                if self.masked {
                    Echo::Glyph(MASK)
                } else {
                    Echo::Glyph(c)
                }
            },
            Key::Other => Echo::Nothing,
        }
    }

    /// Whether Enter has ended the line.
    pub fn is_finished(&self) -> (done: bool)
        ensures
            done == self.finished(),
    {
        self.finished
    }

    /// Whether typed characters are shown as [`MASK`].
    pub fn is_masked(&self) -> (masked: bool)
        ensures
            masked == self.masked(),
    {
        self.masked
    }

    /// The line as it stands.
    pub fn into_line(self) -> (line: String)
        ensures
            line@ == self.buffer(),
    {
        self.buffer
    }
}

/// What reading one line from a run of key presses comes to.
pub struct Transcript {
    /// The line as it stood when reading stopped.
    pub line: String,
    /// What the terminal showed, one entry for each key that was consumed.
    pub echoes: Vec<Echo>,
    /// Whether Enter ended the line; if not, the keys ran out first.
    pub complete: bool,
}

/// `n` is the place of the first Enter of `keys`, or their number if none is.
pub open spec fn is_first_enter(keys: Seq<Key>, n: int) -> bool {
    &&& 0 <= n <= keys.len()
    &&& forall|j: int| 0 <= j < n ==> keys[j] != Key::Enter
    &&& n < keys.len() ==> keys[n] == Key::Enter
}

/// [`keys_before_enter`] is the one place that [`is_first_enter`] describes.
pub proof fn lemma_keys_before_enter(keys: Seq<Key>, n: int)
    requires
        is_first_enter(keys, n),
    ensures
        keys_before_enter(keys) == n,
    decreases keys.len(),
{
    if keys.len() > 0 && keys[0] != Key::Enter {
        lemma_keys_before_enter(keys.drop_first(), n - 1);
    }
}

/// Pressing one more key extends [`typed`] and [`echoes`] by that key's effect.
pub proof fn lemma_one_more_key(keys: Seq<Key>, i: int, masked: bool)
    requires
        0 <= i < keys.len(),
    ensures
        typed(keys.take(i + 1)) == buffer_after(typed(keys.take(i)), keys[i]),
        echoes(keys.take(i + 1), masked) == echoes(keys.take(i), masked).push(
            echo_of(typed(keys.take(i)), keys[i], masked),
        ),
{
    assert forall|k: int| 0 <= k <= i implies #[trigger] keys.take(i + 1).take(k) == keys.take(
        k,
    ) by {}
    assert forall|k: int| 0 <= k < i implies #[trigger] keys.take(i).take(k) == keys.take(k) by {}
}

/// Reads one line from `keys`: the keys are pressed in turn on an empty line
/// until Enter ends it or the keys run out. Keys behind the first Enter are
/// left alone.
pub fn read_line(keys: &[Key], masked: bool) -> (t: Transcript)
    ensures
        t.complete == (keys_before_enter(keys@) < keys@.len()),
        t.line@ == typed(keys@.take(keys_before_enter(keys@))),
        t.echoes@ == echoes(
            keys@.take(
                if t.complete {
                    keys_before_enter(keys@) + 1
                } else {
                    keys_before_enter(keys@)
                },
            ),
            masked,
        ),
{
    let mut editor = LineEditor::new(masked);
    let mut shown: Vec<Echo> = Vec::new();
    let mut i: usize = 0;
    while i < keys.len() && !editor.is_finished()
        invariant
            i <= keys.len(),
            editor.masked() == masked,
            shown@ == echoes(keys@.take(i as int), masked),
            !editor.finished() ==> {
                &&& forall|j: int| 0 <= j < i ==> keys@[j] != Key::Enter
                &&& editor.buffer() == typed(keys@.take(i as int))
            },
            editor.finished() ==> {
                &&& is_first_enter(keys@, i - 1)
                &&& editor.buffer() == typed(keys@.take(i - 1))
            },
        decreases keys.len() - i,
    {
        proof {
            lemma_one_more_key(keys@, i as int, masked);
        }
        let echo = editor.press(keys[i]);
        shown.push(echo);
        i = i + 1;
    }
    let complete = editor.is_finished();
    proof {
        if complete {
            lemma_keys_before_enter(keys@, i - 1);
        } else {
            lemma_keys_before_enter(keys@, i as int);
        }
    }
    Transcript { line: editor.into_line(), echoes: shown, complete }
}

/// A masked line never shows a typed character: every glyph on the terminal
/// is [`MASK`], whatever was typed.
pub proof fn law_masked_echo_hides_input(keys: Seq<Key>, i: int)
    requires
        0 <= i < keys.len(),
    ensures
        echoes(keys, true)[i] matches Echo::Glyph(c) ==> c == MASK,
{
}

/// A plain line shows each typed character as it is, and a glyph appears
/// only for a character key.
pub proof fn law_plain_echo_shows_input(keys: Seq<Key>, i: int)
    requires
        0 <= i < keys.len(),
    ensures
        echoes(keys, false)[i] matches Echo::Glyph(c) ==> keys[i] == Key::Char(c),
        keys[i] matches Key::Char(c) ==> echoes(keys, false)[i] == Echo::Glyph(c),
{
}

/// Backspace on an empty line and every key that is neither a character,
/// Backspace nor Enter leave the line as it was and show nothing.
pub proof fn law_ignored_keys(buffer: Seq<char>, key: Key, masked: bool)
    requires
        key == Key::Other || (key == Key::Backspace && buffer.len() == 0),
    ensures
        buffer_after(buffer, key) == buffer,
        echo_of(buffer, key, masked) == Echo::Nothing,
{
}

/// A line is never longer than the number of keys that built it.
pub proof fn law_line_no_longer_than_keys(keys: Seq<Key>)
    ensures
        typed(keys).len() <= keys.len(),
    decreases keys.len(),
{
    if keys.len() > 0 {
        law_line_no_longer_than_keys(keys.drop_last());
    }
}

} // verus!
