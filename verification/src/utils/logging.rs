//! The lines that are reported and the counters that go with them.
//!
//! A line is built here and printed by the caller. Every piece of text that
//! goes into a line is cut to `MAX_LOG_LENGTH` bytes first.

use crate::text::{truncate_str, truncated};
use vstd::prelude::*;
use vstd::string::*;

verus! {

/// The number of bytes of a message that make it into a line.
pub const MAX_LOG_LENGTH: usize = 512;

/// How many lines of each kind were counted.
#[derive(Clone, Copy, Debug, PartialEq, Eq, Structural)]
pub struct LogCounters {
    pub debug: usize,
    pub allowed: usize,
    pub blocked: usize,
}

/// One more than `count`, starting over at zero after the largest value.
pub open spec fn bumped(count: usize) -> usize {
    if count == usize::MAX {
        0
    } else {
        (count + 1) as usize
    }
}

/// `message` as it appears in a line.
pub open spec fn shown(message: Seq<char>) -> Seq<char> {
    truncated(message, MAX_LOG_LENGTH as nat)
}

/// The line of a debug trace.
pub open spec fn debug_line(message: Seq<char>) -> Seq<char> {
    "[DEBUG] "@ + shown(message)
}

/// The line of an allowed request.
pub open spec fn allowed_line(context: Seq<char>, method: Seq<char>, url: Seq<char>) -> Seq<char> {
    "[+] "@ + shown(context) + ": "@ + shown(method) + " "@ + shown(url)
}

/// The line of a blocked request.
pub open spec fn blocked_line(context: Seq<char>, method: Seq<char>, url: Seq<char>) -> Seq<char> {
    "[-] "@ + shown(context) + ": "@ + shown(method) + " "@ + shown(url)
}

/// The line of a notice.
pub open spec fn info_line(message: Seq<char>) -> Seq<char> {
    "[*] "@ + shown(message)
}

/// The line of an error.
pub open spec fn error_line(message: Seq<char>) -> Seq<char> {
    "[!] Error: "@ + shown(message)
}

fn bump(count: usize) -> (next: usize)
    ensures
        next == bumped(count),
{
    if count == usize::MAX {
        0
    } else {
        count + 1
    }
}

fn event_line(mark: &str, context: &str, method: &str, url: &str) -> (line: String)
    ensures
        line@ == mark@ + shown(context@) + ": "@ + shown(method@) + " "@ + shown(url@),
{
    let mut line = String::from_str(mark);
    line.append(truncate_message(context));
    line.append(": ");
    line.append(truncate_message(method));
    line.append(" ");
    line.append(truncate_message(url));
    line
}

impl LogCounters {
    /// Counters that have counted nothing.
    pub fn new() -> (counters: LogCounters)
        ensures
            counters == (LogCounters { debug: 0, allowed: 0, blocked: 0 }),
    {
        LogCounters { debug: 0, allowed: 0, blocked: 0 }
    }
}

/// Cuts a message to at most `MAX_LOG_LENGTH` bytes, on a character boundary.
pub fn truncate_message(message: &str) -> (shortened: &str)
    ensures
        shortened@ == shown(message@),
{
    truncate_str(message, MAX_LOG_LENGTH)
}

/// A debug trace: counted and given a line in debug mode, dropped otherwise.
pub fn log_debug(counters: &mut LogCounters, debug_mode: bool, message: &str) -> (line: Option<
    String,
>)
    ensures
        debug_mode ==> line.is_some() && line.unwrap()@ == debug_line(message@) && *final(counters)
            == (LogCounters { debug: bumped(old(counters).debug), ..*old(counters) }),
        !debug_mode ==> line.is_none() && *final(counters) == *old(counters),
{
    if debug_mode {
        counters.debug = bump(counters.debug);
        let mut line = String::from_str("[DEBUG] ");
        line.append(truncate_message(message));
        Some(line)
    } else {
        None
    }
}

/// Counts an allowed request and gives its line.
pub fn log_allowed(counters: &mut LogCounters, context: &str, method: &str, url: &str) -> (line:
    String)
    ensures
        line@ == allowed_line(context@, method@, url@),
        *final(counters) == (LogCounters {
            allowed: bumped(old(counters).allowed),
            ..*old(counters)
        }),
{
    counters.allowed = bump(counters.allowed);
    event_line("[+] ", context, method, url)
}

/// Counts a blocked request and gives its line.
pub fn log_blocked(counters: &mut LogCounters, context: &str, method: &str, url: &str) -> (line:
    String)
    ensures
        line@ == blocked_line(context@, method@, url@),
        *final(counters) == (LogCounters {
            blocked: bumped(old(counters).blocked),
            ..*old(counters)
        }),
{
    counters.blocked = bump(counters.blocked);
    event_line("[-] ", context, method, url)
}

/// The line of a notice. Nothing is counted.
pub fn log_info(message: &str) -> (line: String)
    ensures
        line@ == info_line(message@),
{
    let mut line = String::from_str("[*] ");
    line.append(truncate_message(message));
    line
}

/// The line of an error. Nothing is counted.
pub fn log_error(message: &str) -> (line: String)
    ensures
        line@ == error_line(message@),
{
    let mut line = String::from_str("[!] Error: ");
    line.append(truncate_message(message));
    line
}

/// The counts so far: debug lines, allowed requests, blocked requests.
pub fn get_log_stats(counters: &LogCounters) -> (stats: (usize, usize, usize))
    ensures
        stats == (counters.debug, counters.allowed, counters.blocked),
{
    (counters.debug, counters.allowed, counters.blocked)
}

} // verus!
