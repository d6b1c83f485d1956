//! Diagnostic levels and the shape of a log line. The log sink itself (a
//! file appended to by a collaborator) is outside the library; the library
//! fixes what one leveled line looks like.

use vstd::prelude::*;
use vstd::string::StringExecFns;

use crate::strutil::{copy_str, push_char};

verus! {

/// Severity of one diagnostic line.
pub enum LogLevel {
    Info,
    Warning,
    Error,
    CriticalError,
    PluginFault,
}

/// The label a level prints as.
pub open spec fn level_label(l: LogLevel) -> Seq<char> {
    match l {
        LogLevel::Info => "Info"@,
        LogLevel::Warning => "Warning"@,
        LogLevel::Error => "ERROR"@,
        LogLevel::CriticalError => "CRITICAL"@,
        LogLevel::PluginFault => "PLUGIN ERROR"@,
    }
}

/// One log line: the timestamp, a tab, the level's label, a separator, the
/// message, and a final newline.
pub fn format_log_line(ltype: &LogLevel, timestamp: &str, msg: &str) -> (r: String)
    ensures
        r@ == timestamp@ + seq!['\t'] + level_label(*ltype) + seq![':', ' '] + msg@ + seq!['\n'],
{
    let mut r = copy_str(timestamp);
    push_char(&mut r, '\t');
    match ltype {
        LogLevel::Info => r.append("Info"),
        LogLevel::Warning => r.append("Warning"),
        LogLevel::Error => r.append("ERROR"),
        LogLevel::CriticalError => r.append("CRITICAL"),
        LogLevel::PluginFault => r.append("PLUGIN ERROR"),
    }
    push_char(&mut r, ':');
    push_char(&mut r, ' ');
    r.append(msg);
    push_char(&mut r, '\n');
    proof {
        assert(r@ =~= timestamp@ + seq!['\t'] + level_label(*ltype) + seq![':', ' '] + msg@
            + seq!['\n']);
    }
    r
}

} // verus!
