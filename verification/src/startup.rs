//! What the program decides when it starts: whether it was started only to
//! write the hosts entries, and when a failure of the local web service is
//! one that the user can mend.

use vstd::prelude::*;
use vstd::string::*;

use crate::text::{text_contains, text_holds};

verus! {

/// The port of the local web service.
pub const WEB_PORT: u16 = 80;

/// The number of workers of the local web service.
pub const WEB_WORKERS: u16 = 1;

/// The address that the local web service listens on.
pub fn web_address() -> (address: &'static str)
    ensures
        address@ == "127.0.0.1"@,
{
    "127.0.0.1"
}

/// The argument that asks the program to write the hosts entries and leave.
pub open spec fn write_hosts_flag() -> Seq<char> {
    "--write-hosts"@
}

/// Whether one of `args` is the request to write the hosts entries.
pub open spec fn asks_for_hosts_write(args: Seq<String>) -> bool {
    exists|i: int| 0 <= i < args.len() && (#[trigger] args[i])@ == write_hosts_flag()
}

/// Looks through the program's arguments for the request to write the hosts
/// entries.
pub fn wants_hosts_write(args: &Vec<String>) -> (asked: bool)
    ensures
        asked == asks_for_hosts_write(args@),
{
    let flag = String::from_str("--write-hosts");
    let mut i: usize = 0;
    while i < args.len()
        invariant
            i <= args@.len(),
            flag@ == write_hosts_flag(),
            forall|j: int| 0 <= j < i ==> (#[trigger] args@[j])@ != write_hosts_flag(),
        decreases args@.len() - i,
    {
        if args[i] == flag {
            return true;
        }
        i += 1;
    }
    false
}

/// The exit status of a run that only wrote the hosts entries.
pub fn hosts_write_status(written: bool) -> (status: i32)
    ensures
        status == if written {
            0i32
        } else {
            1i32
        },
{
    if written {
        0
    } else {
        1
    }
}

/// Whether the words of a failed start of the web service say that the port
/// is taken or may not be used: then the program tells the user and leaves.
pub open spec fn names_port_trouble(message: Seq<char>) -> bool {
    text_holds(message, "address already in use"@) || text_holds(message, "permission denied"@)
}

/// Reads the words of a failed start of the web service for trouble with the
/// port.
pub fn is_port_trouble(message: &str) -> (trouble: bool)
    ensures
        trouble == names_port_trouble(message@),
{
    text_contains(message, "address already in use") || text_contains(message, "permission denied")
}

} // verus!
