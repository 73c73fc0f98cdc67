//! The tile map, the player that walks on it, and what the keys of the game
//! stand for.

use crate::line_reader::Key;
use crate::text::{decimal_text, push_decimal};
use vstd::prelude::*;

verus! {

/// Number of columns of the map.
pub const MAP_WIDTH: u16 = 16;

/// Number of rows of the map.
pub const MAP_HEIGHT: u16 = 16;

/// The tile on which the player stands.
pub const PLAYER_TILE: char = '@';

/// Every other tile.
pub const EMPTY_TILE: char = '.';

/// Ends every line of the screen.
pub const LINE_END: &'static str = "\r\n";

/// Opens the status line under the map.
pub const STATUS_OPENING: &'static str = "Status: ";

/// The status line while nothing else is to be said.
pub const HELP_TEXT: &'static str = "(wasd: 이동, t: 저장, y: 불러오기, q: 종료)";

/// The status after a step up.
pub const MOVED_UP_TEXT: &'static str = "Moved Up";

/// The status after a step left.
pub const MOVED_LEFT_TEXT: &'static str = "Moved Left";

/// The status after a step down.
pub const MOVED_DOWN_TEXT: &'static str = "Moved Down";

/// The status after a step right.
pub const MOVED_RIGHT_TEXT: &'static str = "Moved Right";

/// The status when there is no saved position to load.
pub const NO_SAVE_TEXT: &'static str = "저장된 파일이 없습니다. (t로 저장)";

/// Opens the status when the saved position cannot be read as one.
pub const BAD_FORMAT_OPENING: &'static str = "파일 형식 오류 (TOML 파싱 실패): ";

/// The status when the saved position lies off the map.
pub const OFF_MAP_TEXT: &'static str = "저장된 좌표가 맵을 벗어납니다.";

/// Opens the status when a key press could not be logged.
pub const LOG_FAILED_OPENING: &'static str = "로그 쓰기 실패: ";

/// Opens the status when the position could not be encoded.
pub const ENCODING_FAILED_OPENING: &'static str = "TOML 직렬화 실패: ";

/// Opens the status when the folder of the save file could not be made.
pub const FOLDER_FAILED_OPENING: &'static str = "폴더 생성 실패: ";

/// Opens the status when the save file could not be written.
pub const WRITE_FAILED_OPENING: &'static str = "파일 쓰기 실패: ";

/// Opens the status after a save.
pub const SAVED_OPENING: &'static str = "좌표 저장 완료: (";

/// Opens the status after a load.
pub const LOADED_OPENING: &'static str = "불러오기 완료! (";

/// Stands between the two coordinates of a position.
pub const POSITION_SEPARATOR: &'static str = ", ";

/// Closes a position.
pub const POSITION_CLOSING: &'static str = ")";

/// A player standing on one tile of the map.
#[derive(Clone, Copy, Debug, PartialEq, Eq, Structural)]
pub struct Player {
    pub x: u16,
    pub y: u16,
}

impl Player {
    /// Whether the player stands on the map.
    pub open spec fn on_map(self) -> bool {
        self.x < MAP_WIDTH && self.y < MAP_HEIGHT
    }

    /// A player on the starting tile, in the middle of the map.
    pub fn new() -> (p: Self)
        ensures
            p == (Player { x: 8, y: 8 }),
            p.on_map(),
    {
        Player { x: 8, y: 8 }
    }

    /// One tile up, unless the player stands in the top row.
    pub fn move_up(&mut self)
        ensures
            final(self).x == old(self).x,
            final(self).y == if old(self).y > 0 {
                old(self).y - 1
            } else {
                0
            },
            old(self).on_map() ==> final(self).on_map(),
    {
        if self.y > 0 {
            self.y -= 1;
        }
    }

    /// One tile down, unless the player stands in the bottom row or below
    /// the map.
    pub fn move_down(&mut self)
        ensures
            final(self).x == old(self).x,
            final(self).y == if old(self).y < MAP_HEIGHT - 1 {
                old(self).y + 1
            } else {
                old(self).y as int
            },
            old(self).on_map() ==> final(self).on_map(),
    {
        if self.y < MAP_HEIGHT - 1 {
            self.y += 1;
        }
    }

    /// One tile left, unless the player stands in the leftmost column.
    pub fn move_left(&mut self)
        ensures
            final(self).y == old(self).y,
            final(self).x == if old(self).x > 0 {
                old(self).x - 1
            } else {
                0
            },
            old(self).on_map() ==> final(self).on_map(),
    {
        if self.x > 0 {
            self.x -= 1;
        }
    }

    /// One tile right, unless the player stands in the rightmost column or
    /// right of the map.
    pub fn move_right(&mut self)
        ensures
            final(self).y == old(self).y,
            final(self).x == if old(self).x < MAP_WIDTH - 1 {
                old(self).x + 1
            } else {
                old(self).x as int
            },
            old(self).on_map() ==> final(self).on_map(),
    {
        if self.x < MAP_WIDTH - 1 {
            self.x += 1;
        }
    }
}

/// What a key of the game asks for.
#[derive(Clone, Copy, Debug, PartialEq, Eq, Structural)]
pub enum Command {
    MoveUp,
    MoveLeft,
    MoveDown,
    MoveRight,
    Save,
    Load,
    Quit,
    Ignore,
}

/// What `key` asks for: `w`, `a`, `s`, `d` walk, `t` saves, `y` loads, `q`
/// quits, and every other key is ignored.
pub open spec fn command_of(key: Key) -> Command {
    if key == Key::Char('w') {
        Command::MoveUp
    } else if key == Key::Char('a') {
        Command::MoveLeft
    } else if key == Key::Char('s') {
        Command::MoveDown
    } else if key == Key::Char('d') {
        Command::MoveRight
    } else if key == Key::Char('t') {
        Command::Save
    } else if key == Key::Char('y') {
        Command::Load
    } else if key == Key::Char('q') {
        Command::Quit
    } else {
        Command::Ignore
    }
}

/// What `key` asks for.
pub fn command_for(key: Key) -> (command: Command)
    ensures
        command == command_of(key),
{
    match key {
        Key::Char(c) => {
            if c == 'w' {
                Command::MoveUp
            } else if c == 'a' {
                Command::MoveLeft
            } else if c == 's' {
                Command::MoveDown
            } else if c == 'd' {
                Command::MoveRight
            } else if c == 't' {
                Command::Save
            } else if c == 'y' {
                Command::Load
            } else if c == 'q' {
                Command::Quit
            } else {
                Command::Ignore
            }
        },
        _ => Command::Ignore,
    }
}

/// Where `command` takes a player who stands at `player`.
pub open spec fn moved(player: Player, command: Command) -> Player {
    match command {
        Command::MoveUp => Player {
            x: player.x,
            y: if player.y > 0 {
                (player.y - 1) as u16
            } else {
                player.y
            },
        },
        Command::MoveDown => Player {
            x: player.x,
            y: if player.y < MAP_HEIGHT - 1 {
                (player.y + 1) as u16
            } else {
                player.y
            },
        },
        Command::MoveLeft => Player {
            x: if player.x > 0 {
                (player.x - 1) as u16
            } else {
                player.x
            },
            y: player.y,
        },
        Command::MoveRight => Player {
            x: if player.x < MAP_WIDTH - 1 {
                (player.x + 1) as u16
            } else {
                player.x
            },
            y: player.y,
        },
        _ => player,
    }
}

/// The status that a walking command leaves, and none for the others.
pub open spec fn move_status(command: Command) -> Option<Seq<char>> {
    match command {
        Command::MoveUp => Some(MOVED_UP_TEXT@),
        Command::MoveLeft => Some(MOVED_LEFT_TEXT@),
        Command::MoveDown => Some(MOVED_DOWN_TEXT@),
        Command::MoveRight => Some(MOVED_RIGHT_TEXT@),
        _ => None,
    }
}

/// Carries out a walking command and returns the status it leaves. Any other
/// command leaves the player where it stands and returns no status.
pub fn walk(player: &mut Player, command: Command) -> (status: Option<&'static str>)
    ensures
        *final(player) == moved(*old(player), command),
        match status {
            Some(text) => move_status(command) == Some(text@),
            None => move_status(command) is None,
        },
{
    match command {
        Command::MoveUp => {
            player.move_up();
            Some(MOVED_UP_TEXT)
        },
        Command::MoveLeft => {
            player.move_left();
            Some(MOVED_LEFT_TEXT)
        },
        Command::MoveDown => {
            player.move_down();
            Some(MOVED_DOWN_TEXT)
        },
        Command::MoveRight => {
            player.move_right();
            Some(MOVED_RIGHT_TEXT)
        },
        _ => None,
    }
}

/// What is left for the driver of the game to do after a key press.
#[derive(Clone, Copy, Debug, PartialEq, Eq, Structural)]
pub enum Request {
    /// Nothing but to draw the screen again.
    Nothing,
    /// Save the position and show how that went.
    Save,
    /// Load the saved position and show how that went.
    Load,
    /// Leave the game.
    Quit,
}

/// What a key press comes to: the status to show, and what is left to do.
#[derive(Debug, PartialEq, Eq)]
pub struct Turn {
    pub status: String,
    pub request: Request,
}

/// What `command` leaves for the driver to do.
pub open spec fn request_of(command: Command) -> Request {
    match command {
        Command::Save => Request::Save,
        Command::Load => Request::Load,
        Command::Quit => Request::Quit,
        _ => Request::Nothing,
    }
}

/// The status after `command`: that of the step if it is one, else the
/// failure to log the key if there was one, else the help line.
pub open spec fn turn_status(command: Command, log_error: Option<Seq<char>>) -> Seq<char> {
    match move_status(command) {
        Some(text) => text,
        None => match log_error {
            Some(why) => LOG_FAILED_OPENING@ + why,
            None => HELP_TEXT@,
        },
    }
}

/// The words of a logging failure, if there was one.
pub open spec fn words_of(log_error: Option<&str>) -> Option<Seq<char>> {
    match log_error {
        Some(why) => Some(why@),
        None => None,
    }
}

/// Takes one key press of the game: walks if the key says so, and returns
/// the status to show and what is left for the driver to do. `log_error`
/// holds the words of the error if the key press could not be logged.
pub fn take_turn(player: &mut Player, key: Key, log_error: Option<&str>) -> (turn: Turn)
    ensures
        *final(player) == moved(*old(player), command_of(key)),
        turn.status@ == turn_status(command_of(key), words_of(log_error)),
        turn.request == request_of(command_of(key)),
{
    let command = command_for(key);
    let status = match walk(player, command) {
        Some(text) => String::from_str(text),
        None => match log_error {
            Some(why) => {
                let mut status = String::from_str(LOG_FAILED_OPENING);
                status.append(why);
                status
            },
            None => String::from_str(HELP_TEXT),
        },
    };
    let request = match command {
        Command::Save => Request::Save,
        Command::Load => Request::Load,
        Command::Quit => Request::Quit,
        _ => Request::Nothing,
    };
    Turn { status, request }
}

/// Walking never leads off the map.
pub proof fn law_walking_stays_on_map(player: Player, command: Command)
    requires
        player.on_map(),
    ensures
        moved(player, command).on_map(),
{
}

/// The tile shown at column `x` of row `y`.
pub open spec fn tile(player: Player, x: int, y: int) -> char {
    if x == player.x && y == player.y {
        PLAYER_TILE
    } else {
        EMPTY_TILE
    }
}

/// The first `n` tiles of row `y`.
pub open spec fn tiles(player: Player, y: int, n: int) -> Seq<char> {
    Seq::new(n as nat, |x: int| tile(player, x, y))
}

/// The first `n` rows of the map, each ended by a line end.
pub open spec fn rows(player: Player, n: int) -> Seq<char>
    decreases n,
{
    if n <= 0 {
        Seq::empty()
    } else {
        rows(player, n - 1) + tiles(player, n - 1, MAP_WIDTH as int) + LINE_END@
    }
}

/// The whole screen: the map, row by row, and the status line under it.
pub open spec fn frame(player: Player, status: Seq<char>) -> Seq<char> {
    rows(player, MAP_HEIGHT as int) + STATUS_OPENING@ + status + LINE_END@
}

/// The text of the screen for a player and a status message.
pub fn draw_map(player: &Player, status_message: &str) -> (screen: String)
    ensures
        screen@ == frame(*player, status_message@),
{
    let mut screen = String::new();
    let mut y: u16 = 0;
    while y < MAP_HEIGHT
        invariant
            y <= MAP_HEIGHT,
            screen@ == rows(*player, y as int),
        decreases MAP_HEIGHT - y,
    {
        let mut x: u16 = 0;
        while x < MAP_WIDTH
            invariant
                y < MAP_HEIGHT,
                x <= MAP_WIDTH,
                screen@ == rows(*player, y as int) + tiles(*player, y as int, x as int),
            decreases MAP_WIDTH - x,
        {
            if x == player.x && y == player.y {
                screen.push(PLAYER_TILE);
            } else {
                screen.push(EMPTY_TILE);
            }
            x = x + 1;
        }
        screen.append(LINE_END);
        y = y + 1;
    }
    screen.append(STATUS_OPENING);
    screen.append(status_message);
    screen.append(LINE_END);
    screen
}

/// A position as the status line shows it: both coordinates in decimal,
/// in brackets.
pub open spec fn position_text(opening: Seq<char>, player: Player) -> Seq<char> {
    opening + decimal_text(player.x as nat) + POSITION_SEPARATOR@ + decimal_text(player.y as nat)
        + POSITION_CLOSING@
}

/// The status that names a position, behind `opening`.
fn position_status(opening: &str, player: &Player) -> (status: String)
    ensures
        status@ == position_text(opening@, *player),
{
    let mut status = String::from_str(opening);
    push_decimal(&mut status, player.x);
    status.append(POSITION_SEPARATOR);
    push_decimal(&mut status, player.y);
    status.append(POSITION_CLOSING);
    status
}

/// What an attempt to write the position to its file came to. The failures
/// carry the words of the error.
pub enum SaveAttempt {
    /// The position could not be encoded.
    EncodingFailed(String),
    /// The folder of the save file could not be made.
    FolderFailed(String),
    /// The save file could not be written.
    WriteFailed(String),
    /// The position is in the file.
    Written,
}

/// The status after an attempt to save the position of `player`.
pub open spec fn save_status(player: Player, attempt: SaveAttempt) -> Seq<char> {
    match attempt {
        SaveAttempt::EncodingFailed(why) => ENCODING_FAILED_OPENING@ + why@,
        SaveAttempt::FolderFailed(why) => FOLDER_FAILED_OPENING@ + why@,
        SaveAttempt::WriteFailed(why) => WRITE_FAILED_OPENING@ + why@,
        SaveAttempt::Written => position_text(SAVED_OPENING@, player),
    }
}

/// The status to show after an attempt to save the position of `player`.
pub fn save_coordinates(player: &Player, attempt: &SaveAttempt) -> (status: String)
    ensures
        status@ == save_status(*player, *attempt),
{
    match attempt {
        SaveAttempt::EncodingFailed(why) => {
            let mut status = String::from_str(ENCODING_FAILED_OPENING);
            status.append(why.as_str());
            status
        },
        SaveAttempt::FolderFailed(why) => {
            let mut status = String::from_str(FOLDER_FAILED_OPENING);
            status.append(why.as_str());
            status
        },
        SaveAttempt::WriteFailed(why) => {
            let mut status = String::from_str(WRITE_FAILED_OPENING);
            status.append(why.as_str());
            status
        },
        SaveAttempt::Written => position_status(SAVED_OPENING, player),
    }
}

/// What reading the save file came to, before the map has its say.
pub enum SavedCoordinates {
    /// There is no save file, or it could not be read.
    Missing,
    /// The file does not hold a position; the words of the error come along.
    Malformed(String),
    /// The position that the file holds.
    Position(Player),
}

/// The player that a save file gives, or the status that says why it gives
/// none. A position off the map is refused.
pub fn load_coordinates(saved: SavedCoordinates) -> (loaded: Result<Player, String>)
    ensures
        match saved {
            SavedCoordinates::Missing => loaded matches Err(status) && status@ == NO_SAVE_TEXT@,
            SavedCoordinates::Malformed(why) => loaded matches Err(status) && status@
                == BAD_FORMAT_OPENING@ + why@,
            SavedCoordinates::Position(player) => if player.on_map() {
                loaded == Ok::<Player, String>(player)
            } else {
                loaded matches Err(status) && status@ == OFF_MAP_TEXT@
            },
        },
{
    match saved {
        SavedCoordinates::Missing => Err(String::from_str(NO_SAVE_TEXT)),
        SavedCoordinates::Malformed(why) => {
            let mut status = String::from_str(BAD_FORMAT_OPENING);
            status.append(why.as_str());
            Err(status)
        },
        SavedCoordinates::Position(player) => {
            if player.x < MAP_WIDTH && player.y < MAP_HEIGHT {
                Ok(player)
            } else {
                Err(String::from_str(OFF_MAP_TEXT))
            }
        },
    }
}

/// The status to show after the position of `player` was loaded.
pub fn loaded_status(player: &Player) -> (status: String)
    ensures
        status@ == position_text(LOADED_OPENING@, *player),
{
    position_status(LOADED_OPENING, player)
}

} // verus!
