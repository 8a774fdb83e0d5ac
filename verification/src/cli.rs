//! The one invocation that the program recognises.

use vstd::prelude::*;
use vstd::string::StringExecFns;

verus! {

/// The flag that introduces the path of the monitor file.
pub const MONITOR_FILE_FLAG: &'static str = "-monitorFile";

/// The line printed for every other invocation.
pub const USAGE: &'static str =
    "Usage: process_monitor -monitorFile /path/to/given/monitors.json/file";

/// The arguments are the program's name, the flag and a path, and nothing
/// else.
pub open spec fn names_monitor_file(args: Seq<String>) -> bool {
    args.len() == 3 && args[1]@ == MONITOR_FILE_FLAG@
}

/// The path of the monitor file where the arguments name one, and `None`
/// for any other number of arguments or any other flag: the caller then
/// prints the usage line and neither loads nor runs anything.
pub fn process_command_line_args(args: Vec<String>) -> (path: Option<String>)
    ensures
        path is Some <==> names_monitor_file(args@),
        path matches Some(p) ==> p@ == args[2]@,
{
    if args.len() != 3 {
        return None;
    }
    let flag = String::from_str(MONITOR_FILE_FLAG);
    if args[1] == flag {
        Some(args[2].clone())
    } else {
        None
    }
}

} // verus!
