//! The session log: an explicitly constructed log object that collects
//! timestamped entries in order. Writing the collected entries to a file is
//! the caller's concern; the format of every entry is fixed here.
use vstd::prelude::*;

verus! {

/// The log: entries in the order they were recorded, oldest first.
pub struct QvaultLog {
    pub entries: Vec<String>,
}

/// Relies on chrono's `Utc::now` and `DateTime::to_rfc3339`, for the current
/// time rendered as RFC 3339 text. The result depends on the clock, so
/// nothing is promised of it.
#[verifier::external_body]
fn now_rfc3339() -> String {
    chrono::Utc::now().to_rfc3339()
}

/// Whether `entry` is `msg` at level `level` stamped with the timestamp text
/// `ts`: `"<ts> - [<level>] <msg>\n"`.
pub open spec fn stamped(entry: Seq<char>, level: Seq<char>, msg: Seq<char>, ts: Seq<char>) -> bool {
    entry == ts + " - ["@ + level + "] "@ + msg + "\n"@
}

/// Records `msg` at `level`: appends one entry in the fixed format, stamped
/// with the current time.
fn append_entry(log: &mut QvaultLog, level: &str, msg: &str)
    ensures
        final(log).entries@.len() == old(log).entries@.len() + 1,
        final(log).entries@.drop_last() == old(log).entries@,
        exists|ts: Seq<char>|
            stamped(final(log).entries@.last()@, level@, msg@, ts),
{
    let mut e = now_rfc3339();
    let ghost ts = e@;
    e.append(" - [");
    e.append(level);
    e.append("] ");
    e.append(msg);
    e.append("\n");
    proof {
        assert(e@ =~= ts + " - ["@ + level@ + "] "@ + msg@ + "\n"@);
        assert(stamped(e@, level@, msg@, ts));
    }
    let ghost prev = log.entries@;
    log.entries.push(e);
    proof {
        assert(log.entries@.drop_last() =~= prev);
        assert(log.entries@.last() == e);
        assert(stamped(log.entries@.last()@, level@, msg@, ts));
    }
}

/// A fresh, empty log. The log is created once at startup and handed to
/// every component that records events.
pub fn init_log() -> (r: QvaultLog)
    ensures
        r.entries@.len() == 0,
{
    QvaultLog { entries: Vec::new() }
}

/// Records `message` followed by `details` at the INFO level.
pub fn log_info(log: &mut QvaultLog, message: &str, details: &str)
    ensures
        final(log).entries@.len() == old(log).entries@.len() + 1,
        final(log).entries@.drop_last() == old(log).entries@,
        exists|ts: Seq<char>|
            stamped(final(log).entries@.last()@, "INFO"@, message@ + details@, ts),
{
    let mut msg = String::from_str(message);
    msg.append(details);
    append_entry(log, "INFO", msg.as_str());
}

/// Records `message` at the WARN level.
pub fn log_warn(log: &mut QvaultLog, message: String)
    ensures
        final(log).entries@.len() == old(log).entries@.len() + 1,
        final(log).entries@.drop_last() == old(log).entries@,
        exists|ts: Seq<char>|
            stamped(final(log).entries@.last()@, "WARN"@, message@, ts),
{
    append_entry(log, "WARN", message.as_str());
}

/// Records `message` at the ERROR level.
pub fn log_error(log: &mut QvaultLog, message: String)
    ensures
        final(log).entries@.len() == old(log).entries@.len() + 1,
        final(log).entries@.drop_last() == old(log).entries@,
        exists|ts: Seq<char>|
            stamped(final(log).entries@.last()@, "ERROR"@, message@, ts),
{
    append_entry(log, "ERROR", message.as_str());
}

} // verus!
