//! The key journal of the tile game: the texts that go into its log file.

use vstd::prelude::*;

verus! {

/// The folder of the log files.
pub const LOG_FOLDER: &'static str = "my_folder/log";

/// Stands between the folder and the time in the path of a log file.
pub const LOG_NAME_OPENING: &'static str = "/log_";

/// Ends the path of a log file.
pub const LOG_NAME_CLOSING: &'static str = ".toml";

/// Opens the first line of a log file.
pub const LOG_HEADER_OPENING: &'static str = "# Log file created at ";

/// Ends the first line of a log file and leaves one line empty.
pub const LOG_HEADER_CLOSING: &'static str = "\n\n";

/// Opens the entry of a key press, up to the time.
pub const ENTRY_OPENING: &'static str = "[[log_event]]\ntimestamp = \"";

/// Stands between the time and the key of an entry.
pub const ENTRY_MIDDLE: &'static str = "\"\nkey_pressed = \"";

/// Ends the entry of a key press and leaves one line empty.
pub const ENTRY_CLOSING: &'static str = "\"\n\n";

/// The path of the log file that is begun at `started`.
pub open spec fn log_path_text(started: Seq<char>) -> Seq<char> {
    LOG_FOLDER@ + LOG_NAME_OPENING@ + started + LOG_NAME_CLOSING@
}

/// The first line of a log file that is begun at `created`.
pub open spec fn log_header_text(created: Seq<char>) -> Seq<char> {
    LOG_HEADER_OPENING@ + created + LOG_HEADER_CLOSING@
}

/// The entry of the key `key_pressed`, pressed at `timestamp`.
pub open spec fn log_entry_text(timestamp: Seq<char>, key_pressed: Seq<char>) -> Seq<char> {
    ENTRY_OPENING@ + timestamp + ENTRY_MIDDLE@ + key_pressed + ENTRY_CLOSING@
}

/// What a new log file is called and what it begins with.
pub struct LogFile {
    pub path: String,
    pub header: String,
}

/// Names the log file of a run and writes its first line. `started` is the
/// time of the start as file names hold it, `created` the same time as the
/// file itself holds it.
pub fn setup_logging(started: &str, created: &str) -> (log: LogFile)
    ensures
        log.path@ == log_path_text(started@),
        log.header@ == log_header_text(created@),
{
    let mut path = String::from_str(LOG_FOLDER);
    path.append(LOG_NAME_OPENING);
    path.append(started);
    path.append(LOG_NAME_CLOSING);
    let mut header = String::from_str(LOG_HEADER_OPENING);
    header.append(created);
    header.append(LOG_HEADER_CLOSING);
    LogFile { path, header }
}

/// The entry to append to the log for one key press.
pub fn log_key_press(timestamp: &str, key_pressed: &str) -> (entry: String)
    ensures
        entry@ == log_entry_text(timestamp@, key_pressed@),
{
    let mut entry = String::from_str(ENTRY_OPENING);
    entry.append(timestamp);
    entry.append(ENTRY_MIDDLE);
    entry.append(key_pressed);
    entry.append(ENTRY_CLOSING);
    entry
}

} // verus!
