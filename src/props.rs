use vstd::prelude::*;
use vstd::string::StringExecFns;

use crate::config::{ConfigFile, valid_name, is_valid_name};
use crate::error::VmError;

verus! {

/// Memory given to a machine whose definition names none, in kilobytes (2 GiB).
pub const DEFAULT_MEMORY_KB: u64 = 2097152;

/// Processor count of a machine built from install media.
pub const ISO_CPUS: u32 = 2;

/// The fully resolved properties of a machine.
#[derive(Debug, Clone)]
pub struct VMProperties {
    pub name: String,
    pub cpus: u32,
    /// Memory in kilobytes.
    pub memory: u64,
    pub disk: Option<String>,
    pub iso: Option<String>,
}

/// Half the host's logical processors, at least one, capped to what a `u32` holds.
pub open spec fn default_cpus_spec(host_cpus: nat) -> nat {
    if host_cpus / 2 < 1 {
        1
    } else if host_cpus / 2 > u32::MAX {
        u32::MAX as nat
    } else {
        host_cpus / 2
    }
}

/// The processor count: the requested one when positive, else the host default.
pub open spec fn resolved_cpus(cpus: Option<u32>, host_cpus: nat) -> nat {
    match cpus {
        Some(c) => if c > 0 { c as nat } else { default_cpus_spec(host_cpus) },
        None => default_cpus_spec(host_cpus),
    }
}

pub open spec fn resolved_memory(memory: Option<u64>) -> nat {
    match memory {
        Some(m) => m as nat,
        None => DEFAULT_MEMORY_KB as nat,
    }
}

/// `<root>/<name>`: the machine's state directory.
pub open spec fn machine_dir_spec(root: Seq<char>, name: Seq<char>) -> Seq<char> {
    root + "/"@ + name
}

/// `<root>/<name>/disks`: where the machine's disk images live.
pub open spec fn disks_dir_spec(root: Seq<char>, name: Seq<char>) -> Seq<char> {
    machine_dir_spec(root, name) + "/disks"@
}

/// `<root>/<name>/disks/disk.img`: the machine's disk.
pub open spec fn disk_path_spec(root: Seq<char>, name: Seq<char>) -> Seq<char> {
    disks_dir_spec(root, name) + "/disk.img"@
}

/// What normalising a valid definition yields.
pub open spec fn normalized(p: VMProperties, c: ConfigFile, host_cpus: nat, root: Seq<char>) -> bool {
    &&& p.name@ == c.name@
    &&& p.cpus as nat == resolved_cpus(c.cpus, host_cpus)
    &&& p.memory as nat == resolved_memory(c.memory)
    &&& p.disk is Some
    &&& p.disk.unwrap()@ == disk_path_spec(root, c.name@)
    &&& p.iso == c.iso
}

/// With no processor count requested, a machine gets half the host's processors and
/// at least one; a positive request is taken as it stands.
pub proof fn lemma_cpu_resolution(cpus: Option<u32>, host_cpus: nat)
    ensures
        cpus is None ==> resolved_cpus(cpus, host_cpus) == default_cpus_spec(host_cpus),
        cpus is None && host_cpus / 2 <= u32::MAX ==> resolved_cpus(cpus, host_cpus) == if host_cpus
            / 2 >= 1 {
            host_cpus / 2
        } else {
            1
        },
        cpus is Some && cpus.unwrap() > 0 ==> resolved_cpus(cpus, host_cpus) == cpus.unwrap() as nat,
        resolved_cpus(cpus, host_cpus) >= 1,
{
}

/// Every normalised definition places its disk at `<root>/<name>/disks/disk.img`,
/// whatever disk strategy the definition asks for.
pub proof fn lemma_disk_path_layout(
    p: VMProperties,
    c: ConfigFile,
    host_cpus: nat,
    root: Seq<char>,
)
    requires
        normalized(p, c, host_cpus, root),
    ensures
        p.disk.unwrap()@ == root + "/"@ + c.name@ + "/disks"@ + "/disk.img"@,
{
}

/// Relies on num_cpus::get for the number of logical processors available to this
/// process, which is documented to be at least one; beyond that it depends on the
/// machine.
#[verifier::external_body]
pub(crate) fn host_cpus() -> (r: usize)
    ensures
        r >= 1,
{
    num_cpus::get()
}

/// The processor count for a machine whose definition requests none.
pub fn default_cpus(host_cpus: usize) -> (r: u32)
    ensures
        r as nat == default_cpus_spec(host_cpus as nat),
{
    let half = host_cpus / 2;
    if half == 0 {
        1
    } else if half > u32::MAX as usize {
        u32::MAX
    } else {
        half as u32
    }
}

/// The machine's state directory under `root`.
pub fn machine_dir(root: &str, name: &str) -> (r: String)
    ensures
        r@ == machine_dir_spec(root@, name@),
{
    let mut s = String::from_str(root);
    s.append("/");
    s.append(name);
    s
}

/// The directory that holds the machine's disk images.
pub fn disks_dir(root: &str, name: &str) -> (r: String)
    ensures
        r@ == disks_dir_spec(root@, name@),
{
    let mut s = machine_dir(root, name);
    s.append("/disks");
    s
}

/// The path of the machine's disk image.
pub fn disk_path(root: &str, name: &str) -> (r: String)
    ensures
        r@ == disk_path_spec(root@, name@),
{
    let mut s = disks_dir(root, name);
    s.append("/disk.img");
    s
}

/// Resolves a definition into machine properties, given the host's logical processor
/// count and the state root under which machine directories live.
pub fn normalize(config: &ConfigFile, host_cpus: usize, state_root: &str) -> (r: Result<
    VMProperties,
    VmError,
>)
    ensures
        r is Err <==> !valid_name(config.name@),
        r is Err ==> r == Err::<VMProperties, VmError>(VmError::InvalidDefinition),
        r is Ok ==> normalized(r.unwrap(), *config, host_cpus as nat, state_root@),
{
    if !is_valid_name(config.name.as_str()) {
        return Err(VmError::InvalidDefinition);
    }
    let cpus = match config.cpus {
        Some(c) => if c > 0 {
            c
        } else {
            default_cpus(host_cpus)
        },
        None => default_cpus(host_cpus),
    };
    let memory = match config.memory {
        Some(m) => m,
        None => DEFAULT_MEMORY_KB,
    };
    let iso = match &config.iso {
        Some(i) => Some(i.clone()),
        None => None,
    };
    Ok(
        VMProperties {
            name: config.name.clone(),
            cpus,
            memory,
            disk: Some(disk_path(state_root, config.name.as_str())),
            iso,
        },
    )
}

} // verus!
