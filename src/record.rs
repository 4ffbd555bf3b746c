use vstd::prelude::*;
use vstd::string::StringExecFns;
use crate::level::{level_name, Level};

verus! {

/// `timestamp-[target][thread] -> {LEVEL} message`.
pub open spec fn record_text(
    timestamp: Seq<char>,
    target: Seq<char>,
    thread: Seq<char>,
    level: Level,
    message: Seq<char>,
) -> Seq<char> {
    timestamp + "-["@ + target + "]["@ + thread + "] -> {"@ + level_name(level) + "} "@ + message
}

/// The target printed for a record: nothing unless targets are shown, else
/// the record's target, or its module path where the target is empty.
pub open spec fn target_text(show: bool, target: Seq<char>, module: Option<Seq<char>>) -> Seq<char> {
    if !show {
        Seq::empty()
    } else if target.len() > 0 {
        target
    } else {
        match module {
            Some(p) => p,
            None => Seq::empty(),
        }
    }
}

/// The thread name printed for a record: nothing unless threads are shown.
pub open spec fn thread_text(show: bool, name: Seq<char>) -> Seq<char> {
    if show {
        name
    } else {
        Seq::empty()
    }
}

pub open spec fn opt_view(s: Option<&str>) -> Option<Seq<char>> {
    match s {
        Some(p) => Some(p@),
        None => None,
    }
}

/// Lays out one record as the line that every admitting sink receives.
pub fn record_line(timestamp: &str, target: &str, thread: &str, level: Level, message: &str) -> (r:
    String)
    ensures
        r@ == record_text(timestamp@, target@, thread@, level, message@),
{
    let mut out = String::new();
    out.append(timestamp);
    out.append("-[");
    out.append(target);
    out.append("][");
    out.append(thread);
    out.append("] -> {");
    out.append(level.as_str());
    out.append("} ");
    out.append(message);
    assert(out@ =~= record_text(timestamp@, target@, thread@, level, message@));
    out
}

/// Picks the target to print for a record.
pub fn select_target<'a>(show: bool, target: &'a str, module: Option<&'a str>) -> (r: &'a str)
    ensures
        r@ == target_text(show, target@, opt_view(module)),
{
    proof {
        reveal_strlit("");
    }
    if !show {
        ""
    } else if !target.is_empty() {
        target
    } else {
        match module {
            Some(p) => p,
            None => "",
        }
    }
}

} // verus!
