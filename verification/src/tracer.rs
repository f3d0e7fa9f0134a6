//! Naming the log files and recognising them when they are deleted.

use vstd::prelude::*;
use crate::text::{decimal, push_decimal, lemma_decimal_injective};

verus! {

/// How many rotated log files are kept.
pub const MAX_LOG_ARCHIVES: usize = 3;

/// The directory test logs are written to.
pub const TEST_LOG_DIRECTORY: &'static str = "/var/tmp";

/// The name log files of a process start with: the base name, "_PID" and the
/// process ID, so that processes do not share log files.
pub fn log_filename(log_basename: &str, pid: u32) -> (name: String)
    ensures
        name@ == log_basename@ + "_PID"@ + decimal(pid as nat),
{
    let mut name = String::from_str(log_basename);
    name.append("_PID");
    push_decimal(&mut name, pid as u64);
    name
}

/// The name of the current log file: the log file name and ".log".
pub fn log_file_name(log_filename: &str) -> (name: String)
    ensures
        name@ == log_filename@ + ".log"@,
{
    let mut name = String::from_str(log_filename);
    name.append(".log");
    name
}

/// The message of the error for logging that could not be set up.
pub fn logging_error_message(error_text: &str) -> (message: String)
    ensures
        message@ == "Error initializing logging: "@ + error_text@,
{
    let mut message = String::from_str("Error initializing logging: ");
    message.append(error_text);
    message
}

/// A file of the log directory belongs to the logger whose log file name
/// (the name without ".log") is `log_filename`: its name starts with the log
/// file's name `<log_filename>.log` (the file itself and any name that
/// extends it, such as `<log_filename>.log.1`), or it starts with
/// `<log_filename>.` and ends with ".log", as the hourly files
/// `<log_filename>.<date-hour>.log` of the rolling appender do.
pub open spec fn is_own_log_file(entry_name: Seq<char>, log_filename: Seq<char>) -> bool {
    ||| (log_filename + ".log"@).is_prefix_of(entry_name)
    ||| ((log_filename + "."@).is_prefix_of(entry_name) && ".log"@.is_suffix_of(entry_name))
}

fn starts_with(text: &str, prefix: &str) -> (r: bool)
    ensures
        r == prefix@.is_prefix_of(text@),
{
    let n = prefix.unicode_len();
    let m = text.unicode_len();
    if n > m {
        return false;
    }
    let mut i: usize = 0;
    while i < n
        invariant
            n == prefix@.len(),
            m == text@.len(),
            n <= m,
            i <= n,
            forall|j: int| 0 <= j < i ==> prefix@[j] == text@[j],
        decreases n - i,
    {
        if prefix.get_char(i) != text.get_char(i) {
            return false;
        }
        i = i + 1;
    }
    assert(prefix@ =~= text@.subrange(0, n as int));
    true
}

fn ends_with(text: &str, suffix: &str) -> (r: bool)
    ensures
        r == suffix@.is_suffix_of(text@),
{
    let n = suffix.unicode_len();
    let m = text.unicode_len();
    if n > m {
        return false;
    }
    let offset = m - n;
    let mut i: usize = 0;
    while i < n
        invariant
            n == suffix@.len(),
            m == text@.len(),
            n <= m,
            offset == m - n,
            i <= n,
            forall|j: int| 0 <= j < i ==> suffix@[j] == text@[offset + j],
        decreases n - i,
    {
        if suffix.get_char(i) != text.get_char(offset + i) {
            return false;
        }
        i = i + 1;
    }
    assert(suffix@ =~= text@.subrange(offset as int, m as int));
    true
}

/// Whether a file in the log directory, by its name, is one of the files of
/// the logger whose log file name is `log_filename`.
pub fn is_log_file_of(entry_name: &str, log_filename: &str) -> (own: bool)
    ensures
        own == is_own_log_file(entry_name@, log_filename@),
{
    let mut log_file = String::from_str(log_filename);
    log_file.append(".log");
    let mut prefix = String::from_str(log_filename);
    prefix.append(".");
    proof { reveal_strlit(".log"); }
    starts_with(entry_name, log_file.as_str())
        || (starts_with(entry_name, prefix.as_str()) && ends_with(entry_name, ".log"))
}

/// Processes with different IDs write to differently named log files.
pub proof fn law_log_filenames_differ_by_process(log_basename: Seq<char>, pid1: u32, pid2: u32)
    requires
        pid1 != pid2,
    ensures
        log_basename + "_PID"@ + decimal(pid1 as nat) != log_basename + "_PID"@ + decimal(pid2 as nat),
{
    let prefix = log_basename + "_PID"@;
    if prefix + decimal(pid1 as nat) == prefix + decimal(pid2 as nat) {
        assert((prefix + decimal(pid1 as nat)).skip(prefix.len() as int) =~= decimal(pid1 as nat));
        assert((prefix + decimal(pid2 as nat)).skip(prefix.len() as int) =~= decimal(pid2 as nat));
        lemma_decimal_injective(pid1 as nat, pid2 as nat);
    }
}

/// The files the rolling appender writes for a logger, named after its log
/// file name, a dot, the date and hour, and ".log", are the logger's own, and
/// so is every file whose name starts with the log file's name
/// `<log_filename>.log`: all are deleted when it closes.
pub proof fn law_rolled_log_files_are_own(log_filename: Seq<char>, date_hour: Seq<char>, rest: Seq<char>)
    ensures
        is_own_log_file(log_filename + "."@ + date_hour + ".log"@, log_filename),
        is_own_log_file(log_filename + ".log"@ + rest, log_filename),
{
    reveal_strlit(".log");
    reveal_strlit(".");
    let rolled = log_filename + "."@ + date_hour + ".log"@;
    assert((log_filename + "."@) =~= rolled.subrange(0, log_filename.len() + 1int));
    assert(".log"@ =~= rolled.subrange(rolled.len() - 4, rolled.len() as int));
    let extended = log_filename + ".log"@ + rest;
    assert((log_filename + ".log"@) =~= extended.subrange(0, log_filename.len() + 4int));
}

} // verus!
