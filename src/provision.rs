use vstd::prelude::*;

use crate::config::{ConfigFile, DiskSource, box_url_spec, chosen_source, is_valid_name, valid_name};
use crate::error::VmError;
use crate::props::{disk_path, disk_path_spec, disks_dir, disks_dir_spec};

verus! {

/// The disk work to do before a machine built from a definition can start.
#[derive(Debug, Clone)]
pub enum ProvisionStep {
    /// Fetch the archive at `url` and unpack it into the directory `into`.
    FetchAndUnpack { url: String, into: String },
    /// Copy the image at `from` to `to`, overwriting it.
    Copy { from: String, to: String },
    /// No disk is materialised.
    Nothing,
}

/// The step that provisioning a valid definition takes under `root`.
pub open spec fn provision_spec(c: ConfigFile, root: Seq<char>, step: ProvisionStep) -> bool {
    match chosen_source(c) {
        DiskSource::FetchBox(b) => match step {
            ProvisionStep::FetchAndUnpack { url, into } => url@ == box_url_spec(
                b.user@,
                b.box_name@,
                b.version@,
            ) && into@ == disks_dir_spec(root, c.name@),
            _ => false,
        },
        DiskSource::CopyImage(d) => match step {
            ProvisionStep::Copy { from, to } => from@ == d@ && to@ == disk_path_spec(
                root,
                c.name@,
            ),
            _ => false,
        },
        DiskSource::NoImage => step is Nothing,
    }
}

/// Plans the disk work for a definition under the state root: a box is fetched into
/// the machine's disk directory, else a local image is copied to its disk path, else
/// nothing is done.
pub fn provision_step(config: &ConfigFile, state_root: &str) -> (r: Result<ProvisionStep, VmError>)
    ensures
        r is Err <==> !valid_name(config.name@),
        r is Err ==> r == Err::<ProvisionStep, VmError>(VmError::InvalidDefinition),
        r is Ok ==> provision_spec(*config, state_root@, r.unwrap()),
{
    if !is_valid_name(config.name.as_str()) {
        return Err(VmError::InvalidDefinition);
    }
    let name = config.name.as_str();
    match config.disk_source() {
        DiskSource::FetchBox(b) => Ok(
            ProvisionStep::FetchAndUnpack { url: b.url(), into: disks_dir(state_root, name) },
        ),
        DiskSource::CopyImage(d) => Ok(ProvisionStep::Copy { from: d, to: disk_path(state_root, name) }),
        DiskSource::NoImage => Ok(ProvisionStep::Nothing),
    }
}

} // verus!
