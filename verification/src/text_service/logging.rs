//! The diagnostic log and the start of the engine's process, as far as they decide something.

use vstd::prelude::*;
use vstd::string::*;
use crate::text::{joined, same_text};
use crate::text_service::feedback::{decimal, push_decimal};

verus! {

/// A log that is longer than this is put aside, in bytes.
pub const LOG_ROTATE_BYTES: u64 = 8388608;

/// Whether a switch in the environment is on: it is there, not empty, and not `0`.
pub fn log_enabled_from_env(value: Option<&str>) -> (r: bool)
    ensures
        r == (value is Some && value->0@.len() > 0 && value->0@ != "0"@),
{
    match value {
        Some(text) => !text.is_empty() && !same_text(text, "0"),
        None => false,
    }
}

/// A line of the log: the process, the time in milliseconds, and the message.
pub fn log_line(pid: u32, ts_ms: u64, msg: &str) -> (r: String)
    ensures
        r@ == "[pid "@ + decimal(pid as nat) + "] ts="@ + decimal(ts_ms as nat) + " "@ + msg@
            + "\n"@,
{
    let mut out = "[pid ".to_owned();
    push_decimal(&mut out, pid as u64);
    out.append("] ts=");
    push_decimal(&mut out, ts_ms);
    out.append(" ");
    out.append(msg);
    out.append("\n");
    out
}

/// Where a log of the given length is put aside to: one older log is kept. A log whose length is
/// not known, or that is not too long, stays.
pub fn rotate_log_if_larger_than(path: &str, len: Option<u64>, max: u64) -> (r: Option<String>)
    ensures
        r is Some == (len is Some && len->0 > max),
        r is Some ==> r->0@ == path@ + ".1"@,
{
    match len {
        Some(len) => if len > max {
            Some(joined(path, ".1"))
        } else {
            None
        },
        None => None,
    }
}

/// The place of the reports below the local data. An empty place is none: reports would end up
/// wherever the host program happens to run.
pub fn feedback_path(local_data: Option<&str>) -> (r: Option<String>)
    ensures
        r is Some == (local_data is Some && local_data->0@.len() > 0),
        r is Some ==> r->0@ == local_data->0@ + "\\nospacekey\\feedback.jsonl"@,
{
    match local_data {
        Some(dir) => if dir.is_empty() {
            None
        } else {
            Some(joined(dir, "\\nospacekey\\feedback.jsonl"))
        },
        None => None,
    }
}

/// A process without a window of its own.
pub const CREATE_NO_WINDOW: u32 = 0x0800_0000;

/// A process without a console.
pub const DETACHED_PROCESS: u32 = 0x0000_0008;

/// A process that does not end together with its parent's job.
pub const CREATE_BREAKAWAY_FROM_JOB: u32 = 0x0100_0000;

/// The system refused the access.
pub const ERROR_ACCESS_DENIED: i32 = 5;

/// The flags of the first attempt to start the engine.
pub fn first_spawn_flags() -> (r: u32)
    ensures
        r == CREATE_NO_WINDOW | DETACHED_PROCESS | CREATE_BREAKAWAY_FROM_JOB,
{
    CREATE_NO_WINDOW | DETACHED_PROCESS | CREATE_BREAKAWAY_FROM_JOB
}

/// The flags of a second attempt, where the first was refused. A job that lets nobody out refuses
/// every process that wants out; one inside the job is better than none.
pub fn second_spawn_flags(error: Option<i32>) -> (r: Option<u32>)
    ensures
        r == (if error == Some(ERROR_ACCESS_DENIED) {
            Some(CREATE_NO_WINDOW | DETACHED_PROCESS)
        } else {
            None
        }),
{
    match error {
        Some(code) => if code == ERROR_ACCESS_DENIED {
            Some(CREATE_NO_WINDOW | DETACHED_PROCESS)
        } else {
            None
        },
        None => None,
    }
}

/// A log is begun anew at eight mebibytes, and a process is started without a window, apart from
/// ours, out of its job where that is allowed.
pub proof fn a_process_is_started_apart()
    ensures
        LOG_ROTATE_BYTES == 8 * 1024 * 1024,
        CREATE_NO_WINDOW == 0x0800_0000 && DETACHED_PROCESS == 8,
        CREATE_BREAKAWAY_FROM_JOB == 0x0100_0000,
        ERROR_ACCESS_DENIED == 5,
{
}

} // verus!
