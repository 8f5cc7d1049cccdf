//! The layout of a log line.

use vstd::prelude::*;
use crate::host::HostIdentity;
use crate::text::{decimal, push_decimal, starts_with};

verus! {

/// What a log call hands over, as plain text and numbers.
pub struct LogEvent<'a> {
    /// The name of the level, as it is to be shown.
    pub level: &'a str,
    /// The time of the call, as it is to be shown.
    pub timestamp: &'a str,
    pub module_name: Option<&'a str>,
    pub file: Option<&'a str>,
    pub line: Option<u32>,
    pub message: &'a str,
}

/// The view of a text that may be missing.
pub open spec fn text_of(t: Option<&str>) -> Option<Seq<char>> {
    match t {
        Some(s) => Some(s@),
        None => None,
    }
}

/// How a source file is shown: an absolute path as a `file://` link, a
/// relative one as it is, an unknown one as `missing`.
pub open spec fn shown_file(file: Option<Seq<char>>, missing: Seq<char>) -> Seq<char> {
    match file {
        Some(path) => if "/"@.is_prefix_of(path) {
            "file://"@ + path
        } else {
            path
        },
        None => missing,
    }
}

/// One log line:
/// `[level] time host-ip module:line file:line message`.
pub open spec fn line_layout(
    level: Seq<char>,
    timestamp: Seq<char>,
    host: Seq<char>,
    ip: Seq<char>,
    module_name: Seq<char>,
    line: nat,
    file: Seq<char>,
    message: Seq<char>,
) -> Seq<char> {
    "["@ + level + "] "@ + timestamp + " "@ + host + "-"@ + ip + " "@ + module_name + ":"@
        + decimal(line) + " "@ + file + ":"@ + decimal(line) + " "@ + message
}

/// The line for `event` on `host`, where `missing` stands for a module path
/// or a file that is not known and 0 for a line number that is not known.
pub open spec fn event_line(host: HostIdentity, event: LogEvent, missing: Seq<char>) -> Seq<char> {
    line_layout(
        event.level@,
        event.timestamp@,
        host.name@,
        host.ip@,
        match event.module_name {
            Some(m) => m@,
            None => missing,
        },
        match event.line {
            Some(n) => n as nat,
            None => 0,
        },
        shown_file(text_of(event.file), missing),
        event.message@,
    )
}

/// Shows a source file: see [`shown_file`].
pub fn file_location(file: Option<&str>, missing: &str) -> (r: String)
    ensures
        r@ == shown_file(text_of(file), missing@),
{
    match file {
        Some(path) => {
            if starts_with(path, "/") {
                let mut out = "file://".to_owned();
                out.append(path);
                out
            } else {
                path.to_owned()
            }
        },
        None => missing.to_owned(),
    }
}

/// Lays out the line for `event` on `host`: see [`event_line`].
pub fn format_event(host: &HostIdentity, event: &LogEvent, missing: &str) -> (r: String)
    ensures
        r@ == event_line(*host, *event, missing@),
{
    let line: u32 = match event.line {
        Some(n) => n,
        None => 0,
    };
    let module_name: &str = match event.module_name {
        Some(m) => m,
        None => missing,
    };
    let file = file_location(event.file, missing);
    let mut out = "[".to_owned();
    out.append(event.level);
    out.append("] ");
    out.append(event.timestamp);
    out.append(" ");
    out.append(host.name.as_str());
    out.append("-");
    out.append(host.ip.as_str());
    out.append(" ");
    out.append(module_name);
    out.append(":");
    push_decimal(&mut out, line);
    out.append(" ");
    out.append(file.as_str());
    out.append(":");
    push_decimal(&mut out, line);
    out.append(" ");
    out.append(event.message);
    out
}

} // verus!
