use vstd::prelude::*;

verus! {

/// Where a command path lands inside the root: the path with one leading
/// `/` taken off.
pub open spec fn path_in_root(command: Seq<char>) -> Seq<char> {
    if command.len() > 0 && command[0] == '/' {
        command.drop_first()
    } else {
        command
    }
}

/// The path, relative to the root, at which the target executable is placed.
pub fn root_relative_path(command: &str) -> (r: String)
    ensures
        r@ == path_in_root(command@),
{
    let n = command.unicode_len();
    if n > 0 && command.get_char(0) == '/' {
        let rest = command.substring_char(1, n);
        assert(rest@ =~= command@.drop_first());
        String::from_str(rest)
    } else {
        String::from_str(command)
    }
}

/// The directory that holds the null device placeholder, relative to the root.
pub fn device_dir() -> (r: &'static str)
    ensures
        r@ == "dev"@,
{
    "dev"
}

/// The null device placeholder, relative to the root.
pub fn null_device_path() -> (r: &'static str)
    ensures
        r@ == "dev/null"@,
{
    "dev/null"
}

/// The status a finished child is reported with: its own code, or 0 when
/// it ended without one (killed by a signal).
pub open spec fn status_of(code: Option<i32>) -> i32 {
    match code {
        Some(c) => c,
        None => 0,
    }
}

pub fn exit_status(code: Option<i32>) -> (r: i32)
    ensures
        r == status_of(code),
{
    match code {
        Some(c) => c,
        None => 0,
    }
}

} // verus!
