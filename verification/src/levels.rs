//! Log verbosity levels and the parser that reads one from the
//! configuration's level string, case-insensitively.

use vstd::prelude::*;

verus! {

use vstd::string::StrSliceExecFns;

/// Verbosity of the daemon's log sink.
#[derive(Clone, Copy, Debug, PartialEq, Eq, Structural)]
pub enum LogLevel {
    Off,
    Error,
    Warn,
    Info,
    Debug,
    Trace,
}

/// ASCII upper-case image of one character; everything outside 'a'..'z'
/// is left alone.
pub open spec fn upper_char(c: char) -> char {
    if 'a' <= c && c <= 'z' {
        (((c as u8) - 32) as char)
    } else {
        c
    }
}

/// ASCII upper-case image of a character sequence.
pub open spec fn upper_seq(s: Seq<char>) -> Seq<char> {
    Seq::new(s.len(), |i: int| upper_char(s[i]))
}

fn upper_char_exec(c: char) -> (r: char)
    ensures
        r == upper_char(c),
{
    if 'a' <= c && c <= 'z' {
        ((c as u8) - 32) as char
    } else {
        c
    }
}

/// Compares `s` against an upper-case pattern, ignoring ASCII case.
fn eq_ignore_ascii_case(s: &str, pattern: &str) -> (r: bool)
    ensures
        r == (upper_seq(s@) == pattern@),
{
    let n = s.unicode_len();
    if n != pattern.unicode_len() {
        return false;
    }
    let mut i: usize = 0;
    while i < n
        invariant
            n == s@.len(),
            n == pattern@.len(),
            i <= n,
            forall|j: int| 0 <= j < i ==> upper_char(s@[j]) == pattern@[j],
        decreases n - i,
    {
        if upper_char_exec(s.get_char(i)) != pattern.get_char(i) {
            proof {
                assert(upper_seq(s@)[i as int] != pattern@[i as int]);
            }
            return false;
        }
        i = i + 1;
    }
    proof {
        assert(upper_seq(s@) =~= pattern@);
    }
    true
}

/// The level a configuration string selects, compared without regard to
/// ASCII case; anything unrecognised reads as `Info`.
pub open spec fn level_of(s: Seq<char>) -> LogLevel {
    let u = upper_seq(s);
    if u == "OFF"@ {
        LogLevel::Off
    } else if u == "ERROR"@ {
        LogLevel::Error
    } else if u == "WARN"@ {
        LogLevel::Warn
    } else if u == "INFO"@ {
        LogLevel::Info
    } else if u == "DEBUG"@ {
        LogLevel::Debug
    } else if u == "TRACE"@ {
        LogLevel::Trace
    } else {
        LogLevel::Info
    }
}

/// Parses a log-level string.
pub fn parse_level(level_str: &str) -> (r: LogLevel)
    ensures
        r == level_of(level_str@),
{
    if eq_ignore_ascii_case(level_str, "OFF") {
        LogLevel::Off
    } else if eq_ignore_ascii_case(level_str, "ERROR") {
        LogLevel::Error
    } else if eq_ignore_ascii_case(level_str, "WARN") {
        LogLevel::Warn
    } else if eq_ignore_ascii_case(level_str, "INFO") {
        LogLevel::Info
    } else if eq_ignore_ascii_case(level_str, "DEBUG") {
        LogLevel::Debug
    } else if eq_ignore_ascii_case(level_str, "TRACE") {
        LogLevel::Trace
    } else {
        LogLevel::Info
    }
}

} // verus!
