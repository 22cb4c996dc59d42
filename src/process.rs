use vstd::prelude::*;
use vstd::string::StringExecFns;

use crate::descriptor::{append_decimal, decimal};
use crate::error::VmError;

verus! {

/// The external tool that creates disk images.
pub const DISK_TOOL: &'static str = "qemu-img";

/// The external tool that attaches a display to a domain.
pub const VIEWER_TOOL: &'static str = "virt-viewer";

/// The arguments of the disk-creation tool: `create -f qcow2 <destination> <size>M`.
pub open spec fn disk_args_spec(size_mb: nat, destination: Seq<char>) -> Seq<Seq<char>> {
    seq!["create"@, "-f"@, "qcow2"@, destination, decimal(size_mb) + "M"@]
}

/// The arguments of the viewer: `--attach <name>`.
pub open spec fn viewer_args_spec(name: Seq<char>) -> Seq<Seq<char>> {
    seq!["--attach"@, name]
}

/// What an exit status means: success only on a status of zero.
pub open spec fn exit_ok(code: Option<i32>) -> bool {
    code == Some(0i32)
}

/// The arguments that create a qcow2 image of `size_mb` megabytes at `destination`.
pub fn create_disk_args(size_mb: u32, destination: &str) -> (r: Vec<String>)
    ensures
        r@.map_values(|a: String| a@) == disk_args_spec(size_mb as nat, destination@),
{
    let mut size = String::new();
    append_decimal(&mut size, size_mb as u64);
    size.append("M");
    let r = vec![
        String::from_str("create"),
        String::from_str("-f"),
        String::from_str("qcow2"),
        String::from_str(destination),
        size,
    ];
    assert(r@.map_values(|a: String| a@) =~= disk_args_spec(size_mb as nat, destination@));
    r
}

/// The arguments that attach the viewer to the domain `name`.
pub fn viewer_args(name: &str) -> (r: Vec<String>)
    ensures
        r@.map_values(|a: String| a@) == viewer_args_spec(name@),
{
    let r = vec![String::from_str("--attach"), String::from_str(name)];
    assert(r@.map_values(|a: String| a@) =~= viewer_args_spec(name@));
    r
}

/// The outcome of the disk-creation tool, given its exit code (none when it was
/// ended by a signal): a nonzero or missing code is a `DiskCreateError`.
pub fn disk_create_outcome(code: Option<i32>) -> (r: Result<(), VmError>)
    ensures
        exit_ok(code) ==> r is Ok,
        !exit_ok(code) ==> r == Err::<(), VmError>(VmError::DiskCreateError(code)),
{
    match code {
        Some(0) => Ok(()),
        _ => Err(VmError::DiskCreateError(code)),
    }
}

/// The outcome of the viewer, given its exit code: a nonzero or missing code is a
/// `ViewerError`.
pub fn viewer_outcome(code: Option<i32>) -> (r: Result<(), VmError>)
    ensures
        exit_ok(code) ==> r is Ok,
        !exit_ok(code) ==> r == Err::<(), VmError>(VmError::ViewerError(code)),
{
    match code {
        Some(0) => Ok(()),
        _ => Err(VmError::ViewerError(code)),
    }
}

} // verus!
