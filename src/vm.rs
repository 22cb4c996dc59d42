use vstd::prelude::*;
use vstd::string::StringExecFns;

use crate::config::{ConfigFile, valid_name};
use crate::descriptor::{build_xml, descriptor_spec};
use crate::error::VmError;
use crate::props::{
    VMProperties, host_cpus, lemma_cpu_resolution, normalize, normalized, DEFAULT_MEMORY_KB,
    ISO_CPUS,
};

verus! {

/// Where a machine stands with the control plane.
#[derive(Clone, Copy, Debug, PartialEq, Eq, Structural)]
pub enum Lifecycle {
    /// A descriptor exists; no domain handle is held.
    Unbound,
    /// The domain is registered persistently and a handle is held.
    Defined,
    /// The domain was started and a handle is held.
    Running,
}

/// A call to make on the control plane on the machine's behalf.
#[derive(Debug, Clone)]
pub enum ControlRequest {
    /// Create and start a transient domain from this descriptor.
    CreateTransient(String),
    /// Register this descriptor persistently.
    Define(String),
    /// Start the domain whose handle is held.
    Start,
    /// Ask the domain whose handle is held to shut down gracefully.
    Shutdown,
}

/// A virtual machine: its properties, its descriptor while one is retained, and
/// where it stands with the control plane. The control-plane handle itself is
/// held by the caller, which performs each request this type issues.
pub struct VirtualMachine {
    xml: Option<String>,
    state: Lifecycle,
    properties: VMProperties,
}

/// What std's `Path::file_stem` gives for a path: its file name without the last
/// extension, or nothing when the path has no file name.
pub uninterp spec fn path_stem(path: Seq<char>) -> Option<Seq<char>>;

/// Relies on std::path::Path::file_stem for the file stem of `path`. A stem taken from a
/// `&str` is valid UTF-8, so it converts back without loss.
#[verifier::external_body]
fn file_stem(path: &str) -> (r: Option<String>)
    ensures
        r is None <==> path_stem(path@) is None,
        r is Some ==> r.unwrap()@ == path_stem(path@).unwrap(),
{
    std::path::Path::new(path).file_stem().and_then(|s| s.to_str()).map(|s| s.to_string())
}

/// The name of a machine built from install media whose file stem is `stem`: the stem
/// itself, or `default` when there is none.
pub open spec fn iso_name_spec(stem: Option<Seq<char>>) -> Seq<char> {
    match stem {
        Some(s) => s,
        None => "default"@,
    }
}

/// Names a machine after the file stem of its install media.
pub fn iso_name(stem: Option<&str>) -> (r: String)
    ensures
        r@ == iso_name_spec(
            match stem {
                Some(s) => Some(s@),
                None => None,
            },
        ),
{
    match stem {
        Some(s) => String::from_str(s),
        None => String::from_str("default"),
    }
}

impl VirtualMachine {
    pub closed spec fn xml_spec(&self) -> Option<Seq<char>> {
        match self.xml {
            Some(x) => Some(x@),
            None => None,
        }
    }

    pub closed spec fn state_spec(&self) -> Lifecycle {
        self.state
    }

    pub closed spec fn properties_spec(&self) -> VMProperties {
        self.properties
    }

    /// The request that booting issues: a transient creation from the descriptor when
    /// no handle is held, else a start of the held domain.
    pub closed spec fn boot_spec(&self) -> Result<ControlRequest, VmError> {
        if self.state == Lifecycle::Unbound {
            match self.xml {
                Some(x) => Ok(ControlRequest::CreateTransient(x)),
                None => Err(VmError::NoDescriptor),
            }
        } else {
            Ok(ControlRequest::Start)
        }
    }

    /// The answer to a shutdown: refused while no handle is held.
    pub open spec fn shutdown_spec(&self) -> Result<ControlRequest, VmError> {
        if self.state_spec() == Lifecycle::Unbound {
            Err(VmError::NoActiveDomain)
        } else {
            Ok(ControlRequest::Shutdown)
        }
    }

    /// Whether `req` is one that this machine may have issued in its present state.
    pub open spec fn permits(&self, req: ControlRequest) -> bool {
        match req {
            ControlRequest::CreateTransient(x) => self.state_spec() == Lifecycle::Unbound
                && self.xml_spec() == Some(x@),
            ControlRequest::Define(x) => self.xml_spec() == Some(x@),
            ControlRequest::Start => self.state_spec() != Lifecycle::Unbound,
            ControlRequest::Shutdown => self.state_spec() != Lifecycle::Unbound,
        }
    }

    /// The state after `req` succeeded.
    pub open spec fn state_after(&self, req: ControlRequest) -> Lifecycle {
        match req {
            ControlRequest::CreateTransient(_) => Lifecycle::Running,
            ControlRequest::Define(_) => if self.state_spec() == Lifecycle::Unbound {
                Lifecycle::Defined
            } else {
                self.state_spec()
            },
            ControlRequest::Start => Lifecycle::Running,
            ControlRequest::Shutdown => self.state_spec(),
        }
    }

    /// The descriptor retained after `req` succeeded: a transient creation consumes it.
    pub open spec fn xml_after(&self, req: ControlRequest) -> Option<Seq<char>> {
        match req {
            ControlRequest::CreateTransient(_) => None,
            _ => self.xml_spec(),
        }
    }

    /// The error reported when `req` failed with the control plane's error `cause`.
    pub open spec fn failure_of(req: ControlRequest, cause: String) -> VmError {
        match req {
            ControlRequest::CreateTransient(_) => VmError::BootError(cause),
            ControlRequest::Start => VmError::BootError(cause),
            _ => VmError::ControlPlaneError(cause),
        }
    }

    /// A machine with the given properties, its descriptor built, and no handle held.
    pub fn from_properties(properties: VMProperties) -> (r: Self)
        ensures
            r.state_spec() == Lifecycle::Unbound,
            r.xml_spec() == Some(descriptor_spec(properties)),
            r.properties_spec() == properties,
    {
        let xml = build_xml(&properties);
        VirtualMachine { xml: Some(xml), state: Lifecycle::Unbound, properties }
    }

    /// A machine that installs from the given media, named after its file stem, with
    /// two processors, 2 GiB of memory and the given disk.
    pub fn from_iso(iso: &str, disk: Option<&str>) -> (r: Self)
        ensures
            r.state_spec() == Lifecycle::Unbound,
            r.properties_spec().name@ == iso_name_spec(path_stem(iso@)),
            r.properties_spec().cpus == ISO_CPUS,
            r.properties_spec().memory == DEFAULT_MEMORY_KB,
            r.properties_spec().iso is Some && r.properties_spec().iso.unwrap()@ == iso@,
            disk is None ==> r.properties_spec().disk is None,
            disk is Some ==> r.properties_spec().disk is Some
                && r.properties_spec().disk.unwrap()@ == disk.unwrap()@,
            r.xml_spec() == Some(descriptor_spec(r.properties_spec())),
    {
        let stem = file_stem(iso);
        let name = match &stem {
            Some(st) => iso_name(Some(st.as_str())),
            None => iso_name(None),
        };
        let disk = match disk {
            Some(d) => Some(String::from_str(d)),
            None => None,
        };
        let properties = VMProperties {
            name,
            cpus: ISO_CPUS,
            memory: DEFAULT_MEMORY_KB,
            disk,
            iso: Some(String::from_str(iso)),
        };
        Self::from_properties(properties)
    }

    /// A machine built from a definition: normalised against the host's processor
    /// count and the state root, its descriptor built, no handle held.
    pub fn from_config(config: &ConfigFile, host_cpus: usize, state_root: &str) -> (r: Result<
        Self,
        VmError,
    >)
        ensures
            r is Err <==> !valid_name(config.name@),
            r is Err ==> r == Err::<Self, VmError>(VmError::InvalidDefinition),
            r is Ok ==> {
                let vm = r.unwrap();
                &&& normalized(vm.properties_spec(), *config, host_cpus as nat, state_root@)
                &&& vm.state_spec() == Lifecycle::Unbound
                &&& vm.xml_spec() == Some(descriptor_spec(vm.properties_spec()))
            },
    {
        match normalize(config, host_cpus, state_root) {
            Ok(p) => Ok(Self::from_properties(p)),
            Err(e) => Err(e),
        }
    }

    /// A machine built from a definition on this host: as `from_config`, with the
    /// host's logical processor count, whatever it is.
    pub fn from_config_on_host(config: &ConfigFile, state_root: &str) -> (r: Result<Self, VmError>)
        ensures
            r is Err <==> !valid_name(config.name@),
            r is Err ==> r == Err::<Self, VmError>(VmError::InvalidDefinition),
            r is Ok ==> {
                let vm = r.unwrap();
                &&& exists|h: nat| normalized(vm.properties_spec(), *config, h, state_root@)
                &&& vm.properties_spec().cpus >= 1
                &&& vm.state_spec() == Lifecycle::Unbound
                &&& vm.xml_spec() == Some(descriptor_spec(vm.properties_spec()))
            },
    {
        let host = host_cpus();
        let r = Self::from_config(config, host, state_root);
        proof {
            if r is Ok {
                let vm = r.unwrap();
                assert(normalized(vm.properties_spec(), *config, host as nat, state_root@));
                lemma_cpu_resolution(config.cpus, host as nat);
            }
        }
        r
    }

    /// The machine's name.
    pub fn name(&self) -> (r: &str)
        ensures
            r@ == self.properties_spec().name@,
    {
        self.properties.name.as_str()
    }

    /// Where the machine stands with the control plane.
    pub fn state(&self) -> (r: Lifecycle)
        ensures
            r == self.state_spec(),
    {
        self.state
    }

    /// The machine's properties.
    pub fn properties(&self) -> (r: &VMProperties)
        ensures
            *r == self.properties_spec(),
    {
        &self.properties
    }

    /// The retained descriptor, if any.
    pub fn descriptor(&self) -> (r: Option<&str>)
        ensures
            r is None <==> self.xml_spec() is None,
            r is Some ==> self.xml_spec() == Some(r.unwrap()@),
    {
        match &self.xml {
            Some(x) => Some(x.as_str()),
            None => None,
        }
    }

    /// The request that boots the machine.
    pub fn boot(&self) -> (r: Result<ControlRequest, VmError>)
        ensures
            r == self.boot_spec(),
            self.state_spec() == Lifecycle::Unbound && self.xml_spec() is None ==> r == Err::<
                ControlRequest,
                VmError,
            >(VmError::NoDescriptor),
            self.state_spec() == Lifecycle::Unbound && self.xml_spec() is Some ==> r is Ok
                && r.unwrap() is CreateTransient && Some(r.unwrap()->CreateTransient_0@)
                == self.xml_spec(),
            self.state_spec() != Lifecycle::Unbound ==> r is Ok && r.unwrap() is Start,
            r is Ok ==> self.permits(r.unwrap()),
    {
        match self.state {
            Lifecycle::Unbound => match &self.xml {
                Some(x) => Ok(ControlRequest::CreateTransient(x.clone())),
                None => Err(VmError::NoDescriptor),
            },
            _ => Ok(ControlRequest::Start),
        }
    }

    /// The request that registers the machine persistently.
    pub fn define(&self) -> (r: Result<ControlRequest, VmError>)
        ensures
            self.xml_spec() is None ==> r == Err::<ControlRequest, VmError>(
                VmError::NoDescriptor,
            ),
            self.xml_spec() is Some ==> r is Ok && r.unwrap() is Define && Some(
                r.unwrap()->Define_0@,
            ) == self.xml_spec(),
            r is Ok ==> self.permits(r.unwrap()),
    {
        match &self.xml {
            Some(x) => Ok(ControlRequest::Define(x.clone())),
            None => Err(VmError::NoDescriptor),
        }
    }

    /// The request that shuts the machine down.
    pub fn shutdown(&self) -> (r: Result<ControlRequest, VmError>)
        ensures
            r == self.shutdown_spec(),
            r is Ok ==> self.permits(r.unwrap()),
    {
        match self.state {
            Lifecycle::Unbound => Err(VmError::NoActiveDomain),
            _ => Ok(ControlRequest::Shutdown),
        }
    }

    /// Records the control plane's answer to a request this machine issued. On success
    /// the machine moves to the state the request leads to; on failure nothing changes
    /// and the request's error, carrying the control plane's, is returned.
    pub fn complete(&mut self, req: &ControlRequest, outcome: Result<(), String>) -> (r: Result<
        (),
        VmError,
    >)
        requires
            old(self).permits(*req),
        ensures
            outcome is Ok ==> r is Ok,
            outcome is Ok ==> final(self).state_spec() == old(self).state_after(*req),
            outcome is Ok ==> final(self).xml_spec() == old(self).xml_after(*req),
            outcome is Ok ==> final(self).properties_spec() == old(self).properties_spec(),
            outcome is Err ==> r == Err::<(), VmError>(Self::failure_of(*req, outcome->Err_0)),
            outcome is Err ==> *final(self) == *old(self),
    {
        if let Err(cause) = outcome {
            return match req {
                ControlRequest::CreateTransient(_) => Err(VmError::BootError(cause)),
                ControlRequest::Start => Err(VmError::BootError(cause)),
                _ => Err(VmError::ControlPlaneError(cause)),
            };
        }
        match req {
            ControlRequest::CreateTransient(_) => {
                self.state = Lifecycle::Running;
                self.xml = None;
            },
            ControlRequest::Define(_) => {
                if self.state == Lifecycle::Unbound {
                    self.state = Lifecycle::Defined;
                }
            },
            ControlRequest::Start => {
                self.state = Lifecycle::Running;
            },
            ControlRequest::Shutdown => {},
        }
        Ok(())
    }
}

/// Booting a machine that holds no handle asks for a transient domain built from its
/// descriptor, and once that succeeds the machine is running: it goes from unbound to
/// running in one step, never defined.
pub proof fn lemma_boot_from_unbound(vm: VirtualMachine)
    requires
        vm.state_spec() == Lifecycle::Unbound,
        vm.xml_spec() is Some,
    ensures
        vm.boot_spec() is Ok,
        vm.boot_spec().unwrap() is CreateTransient,
        Some(vm.boot_spec().unwrap()->CreateTransient_0@) == vm.xml_spec(),
        vm.permits(vm.boot_spec().unwrap()),
        vm.state_after(vm.boot_spec().unwrap()) == Lifecycle::Running,
{
}

/// Booting a defined machine starts the registered domain, keeps its descriptor, and
/// leaves it running.
pub proof fn lemma_boot_from_defined(vm: VirtualMachine)
    requires
        vm.state_spec() == Lifecycle::Defined,
    ensures
        vm.boot_spec() == Ok::<ControlRequest, VmError>(ControlRequest::Start),
        vm.permits(ControlRequest::Start),
        vm.state_after(ControlRequest::Start) == Lifecycle::Running,
        vm.xml_after(ControlRequest::Start) == vm.xml_spec(),
{
}

/// A machine that never had a define or boot succeed holds no handle, so a shutdown is
/// refused with `NoActiveDomain`; a refused request changes nothing.
pub proof fn lemma_shutdown_without_handle(vm: VirtualMachine)
    requires
        vm.state_spec() == Lifecycle::Unbound,
    ensures
        vm.shutdown_spec() == Err::<ControlRequest, VmError>(VmError::NoActiveDomain),
{
}

} // verus!
