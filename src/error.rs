use vstd::prelude::*;

verus! {

/// The ways provisioning and lifecycle operations fail.
#[derive(Debug, Clone, PartialEq, Eq)]
pub enum VmError {
    /// The machine name is empty, holds a path separator, or is `.` or `..`.
    InvalidDefinition,
    /// The box archive could not be fetched.
    BoxFetchError,
    /// The box archive could not be unpacked.
    BoxExtractError,
    /// The local image could not be copied.
    DiskCopyError,
    /// The disk-creation tool exited with the given status code, or with none.
    DiskCreateError(Option<i32>),
    /// The machine holds no descriptor to register.
    NoDescriptor,
    /// The machine holds no live domain handle.
    NoActiveDomain,
    /// The control plane refused to start the machine, with its error.
    BootError(String),
    /// The viewer exited with the given status code, or with none.
    ViewerError(Option<i32>),
    /// Any other control-plane failure, with the control plane's error.
    ControlPlaneError(String),
}

} // verus!
