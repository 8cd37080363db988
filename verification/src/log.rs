//! The daemon's log: where it is, when it is rotated, and its lines.
use crate::config::lemma_own_names;
use crate::paths;
use crate::paths::placed;
use crate::text;
use crate::text::decimal_spec;
use vstd::prelude::*;

verus! {

/// How long the log grows before it is rotated.
pub const MAX_BYTES: u64 = 1_048_576;

/// The log in the daemon's directory, where that is known.
pub fn log_path(dir: Option<&str>) -> (r: Option<String>)
    ensures
        r is Some <==> dir is Some,
        r matches Some(path) ==> placed(dir->0@, "daemon.log"@, path@),
{
    match dir {
        Some(d) => {
            proof {
                lemma_own_names();
            }
            Some(paths::join(d, "daemon.log"))
        },
        None => None,
    }
}

/// The daemon's process file in its directory.
pub fn pid_path(dir: &str) -> (r: String)
    ensures
        placed(dir@, "daemon.pid"@, r@),
{
    proof {
        lemma_own_names();
    }
    paths::join(dir, "daemon.pid")
}

/// Whether a log of `length` bytes is rotated before the next line.
pub fn needs_rotation(length: u64) -> (r: bool)
    ensures
        r == rotation_spec(length),
{
    length > MAX_BYTES
}

/// A line of the log: the time, the process and the message.
pub fn line(stamp: &str, pid: u32, msg: &str) -> (r: String)
    ensures
        r@ == stamp@ + " pid="@ + decimal_spec(pid as nat) + " "@ + msg@ + "\n"@,
{
    let mut l = stamp.to_owned();
    l.append(" pid=");
    l.append(text::decimal(pid as u64).as_str());
    l.append(" ");
    l.append(msg);
    l.append("\n");
    l
}

/// Whether the log is put aside.
pub open spec fn rotation_spec(length: u64) -> bool {
    length > MAX_BYTES
}

/// The log is put aside once it is longer than a megabyte.
pub proof fn logs_stay_below_a_megabyte(length: u64)
    ensures
        rotation_spec(length) <==> length > 1024 * 1024,
{
}

} // verus!
