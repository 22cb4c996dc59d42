use vman::config::{is_valid_name, ConfigFile, DiskSource, VagrantBox};
use vman::descriptor::build_xml;
use vman::error::VmError;
use vman::process::{
    create_disk_args, disk_create_outcome, viewer_args, viewer_outcome, DISK_TOOL, VIEWER_TOOL,
};
use vman::props::{
    default_cpus, disk_path, disks_dir, machine_dir, normalize, VMProperties, DEFAULT_MEMORY_KB,
};
use vman::provision::{provision_step, ProvisionStep};
use vman::vm::{iso_name, ControlRequest, Lifecycle, VirtualMachine};

fn definition(name: &str) -> ConfigFile {
    ConfigFile {
        name: name.to_string(),
        cpus: None,
        memory: None,
        disk: None,
        iso: None,
        vagrant_box: None,
        connection_uri: None,
    }
}

fn sample_box() -> VagrantBox {
    VagrantBox {
        user: "u".to_string(),
        box_name: "b".to_string(),
        version: "1.0".to_string(),
    }
}

fn props(name: &str) -> VMProperties {
    VMProperties {
        name: name.to_string(),
        cpus: 4,
        memory: 1048576,
        disk: Some("/s/vm/disks/disk.img".to_string()),
        iso: Some("/media/os.iso".to_string()),
    }
}

#[test]
fn cpus_default_to_half_the_host() {
    let p = normalize(&definition("web1"), 8, "/s").unwrap();
    assert_eq!(p.cpus, 4);
    let p = normalize(&definition("web1"), 1, "/s").unwrap();
    assert_eq!(p.cpus, 1);
    let p = normalize(&definition("web1"), 7, "/s").unwrap();
    assert_eq!(p.cpus, 3);
    assert_eq!(default_cpus(0), 1);
}

#[test]
fn explicit_cpus_are_kept() {
    let mut d = definition("web1");
    d.cpus = Some(6);
    assert_eq!(normalize(&d, 2, "/s").unwrap().cpus, 6);
    d.cpus = Some(0);
    assert_eq!(normalize(&d, 10, "/s").unwrap().cpus, 5);
}

#[test]
fn memory_defaults_in_kilobytes() {
    let mut d = definition("web1");
    assert_eq!(normalize(&d, 4, "/s").unwrap().memory, DEFAULT_MEMORY_KB);
    assert_eq!(DEFAULT_MEMORY_KB, 2097152);
    d.memory = Some(4096);
    assert_eq!(normalize(&d, 4, "/s").unwrap().memory, 4096);
}

#[test]
fn disk_path_is_fixed_for_every_strategy() {
    let mut d = definition("web1");
    let expected = "/s/web1/disks/disk.img";
    assert_eq!(normalize(&d, 4, "/s").unwrap().disk.unwrap(), expected);
    d.disk = Some("/img/base.qcow2".to_string());
    assert_eq!(normalize(&d, 4, "/s").unwrap().disk.unwrap(), expected);
    d.vagrant_box = Some(sample_box());
    assert_eq!(normalize(&d, 4, "/s").unwrap().disk.unwrap(), expected);
    assert_eq!(machine_dir(".vman", "a"), ".vman/a");
    assert_eq!(disks_dir(".vman", "a"), ".vman/a/disks");
    assert_eq!(disk_path(".vman", "a"), ".vman/a/disks/disk.img");
}

#[test]
fn iso_is_carried_over() {
    let mut d = definition("web1");
    d.iso = Some("/media/os.iso".to_string());
    assert_eq!(normalize(&d, 4, "/s").unwrap().iso, Some("/media/os.iso".to_string()));
}

#[test]
fn invalid_names_are_rejected() {
    assert_eq!(normalize(&definition(""), 4, "/s").err(), Some(VmError::InvalidDefinition));
    assert_eq!(normalize(&definition("a/b"), 4, "/s").err(), Some(VmError::InvalidDefinition));
    assert_eq!(normalize(&definition("a\\b"), 4, "/s").err(), Some(VmError::InvalidDefinition));
    assert_eq!(normalize(&definition("."), 4, "/s").err(), Some(VmError::InvalidDefinition));
    assert_eq!(normalize(&definition(".."), 4, "/s").err(), Some(VmError::InvalidDefinition));
    assert!(is_valid_name("web-1.local"));
    assert!(is_valid_name("..a"));
    assert!(is_valid_name(".x"));
    assert!(!is_valid_name(""));
    assert!(matches!(
        provision_step(&definition("x/y"), "/s"),
        Err(VmError::InvalidDefinition)
    ));
    assert!(matches!(
        VirtualMachine::from_config(&definition(""), 4, "/s"),
        Err(VmError::InvalidDefinition)
    ));
}

#[test]
fn box_wins_over_explicit_disk() {
    let mut d = definition("db1");
    d.disk = Some("/img/base.qcow2".to_string());
    d.vagrant_box = Some(sample_box());
    match d.disk_source() {
        DiskSource::FetchBox(b) => assert_eq!(b.version, "1.0"),
        _ => panic!("the box must be chosen"),
    }
    assert!(matches!(
        provision_step(&d, "/s").unwrap(),
        ProvisionStep::FetchAndUnpack { .. }
    ));
    d.vagrant_box = None;
    assert!(matches!(d.disk_source(), DiskSource::CopyImage(_)));
    d.disk = None;
    assert!(matches!(d.disk_source(), DiskSource::NoImage));
    assert!(matches!(provision_step(&d, "/s").unwrap(), ProvisionStep::Nothing));
}

#[test]
fn copy_scenario_targets_machine_disk() {
    let mut d = definition("web1");
    d.disk = Some("/img/base.qcow2".to_string());
    match provision_step(&d, ".vman").unwrap() {
        ProvisionStep::Copy { from, to } => {
            assert_eq!(from, "/img/base.qcow2");
            assert_eq!(to, ".vman/web1/disks/disk.img");
        }
        _ => panic!("a copy is expected and no fetch"),
    }
}

#[test]
fn box_scenario_fetches_registry_archive() {
    let mut d = definition("db1");
    d.vagrant_box = Some(sample_box());
    match provision_step(&d, ".vman").unwrap() {
        ProvisionStep::FetchAndUnpack { url, into } => {
            assert_eq!(
                url,
                "https://app.vagrantup.com/u/boxes/b/versions/1.0/providers/libvirt.box"
            );
            assert!(url.contains("u/boxes/b/versions/1.0/"));
            assert_eq!(into, ".vman/db1/disks");
        }
        _ => panic!("a fetch is expected"),
    }
    assert_eq!(
        sample_box().url(),
        "https://app.vagrantup.com/u/boxes/b/versions/1.0/providers/libvirt.box"
    );
}

#[test]
fn descriptor_is_deterministic() {
    assert_eq!(build_xml(&props("vm")), build_xml(&props("vm")));
    assert_ne!(build_xml(&props("vm")), build_xml(&props("vm2")));
}

#[test]
fn descriptor_maps_every_property() {
    let xml = build_xml(&props("vm"));
    assert!(xml.starts_with("<domain type='kvm'><name>vm</name>"));
    assert!(xml.contains("<memory unit='KiB'>1048576</memory>"));
    assert!(xml.contains("<vcpu>4</vcpu>"));
    assert!(xml.contains("<source file='/s/vm/disks/disk.img'/>"));
    assert!(xml.contains("<source file='/media/os.iso'/>"));
    assert!(xml.ends_with("</devices></domain>"));
    let mut bare = props("vm");
    bare.disk = None;
    bare.iso = None;
    bare.cpus = 10;
    bare.memory = 0;
    let xml = build_xml(&bare);
    assert!(!xml.contains("<disk"));
    assert!(xml.contains("<vcpu>10</vcpu>"));
    assert!(xml.contains("<memory unit='KiB'>0</memory>"));
}

#[test]
fn transient_boot_goes_straight_to_running() {
    let mut vm = VirtualMachine::from_properties(props("vm"));
    assert_eq!(vm.state(), Lifecycle::Unbound);
    let req = vm.boot().unwrap();
    match &req {
        ControlRequest::CreateTransient(x) => assert_eq!(x, &build_xml(&props("vm"))),
        _ => panic!("a transient creation is expected"),
    }
    assert_eq!(vm.complete(&req, Ok(())), Ok(()));
    assert_eq!(vm.state(), Lifecycle::Running);
    assert!(vm.descriptor().is_none());
    assert!(matches!(vm.define(), Err(VmError::NoDescriptor)));
}

#[test]
fn boot_after_define_starts_registered_domain() {
    let mut vm = VirtualMachine::from_properties(props("vm"));
    let req = vm.define().unwrap();
    assert!(matches!(req, ControlRequest::Define(_)));
    assert_eq!(vm.complete(&req, Ok(())), Ok(()));
    assert_eq!(vm.state(), Lifecycle::Defined);
    let req = vm.boot().unwrap();
    assert!(matches!(req, ControlRequest::Start));
    assert_eq!(vm.complete(&req, Ok(())), Ok(()));
    assert_eq!(vm.state(), Lifecycle::Running);
    assert!(vm.descriptor().is_some());
    let req = vm.shutdown().unwrap();
    assert!(matches!(req, ControlRequest::Shutdown));
    assert_eq!(vm.complete(&req, Ok(())), Ok(()));
}

#[test]
fn failed_requests_change_nothing() {
    let mut vm = VirtualMachine::from_properties(props("vm"));
    let req = vm.boot().unwrap();
    assert_eq!(
        vm.complete(&req, Err("no such host".to_string())),
        Err(VmError::BootError("no such host".to_string()))
    );
    assert_eq!(vm.state(), Lifecycle::Unbound);
    assert!(vm.descriptor().is_some());
    let req = vm.define().unwrap();
    assert_eq!(
        vm.complete(&req, Err("denied".to_string())),
        Err(VmError::ControlPlaneError("denied".to_string()))
    );
    assert_eq!(vm.state(), Lifecycle::Unbound);
}

#[test]
fn shutdown_without_handle_is_refused() {
    let vm = VirtualMachine::from_properties(props("vm"));
    assert!(matches!(vm.shutdown(), Err(VmError::NoActiveDomain)));
    assert_eq!(vm.state(), Lifecycle::Unbound);
}

#[test]
fn build_image_scenario() {
    let args = create_disk_args(10240, "./d.qcow2");
    assert_eq!(DISK_TOOL, "qemu-img");
    assert_eq!(args, vec!["create", "-f", "qcow2", "./d.qcow2", "10240M"]);
    assert_eq!(disk_create_outcome(Some(0)), Ok(()));
    let vm = VirtualMachine::from_iso("install.iso", Some("/abs/d.qcow2"));
    assert_eq!(vm.name(), "install");
    assert_eq!(vm.properties().cpus, 2);
    assert_eq!(vm.properties().memory, 2097152);
    assert_eq!(vm.properties().disk, Some("/abs/d.qcow2".to_string()));
    assert_eq!(vm.properties().iso, Some("install.iso".to_string()));
    assert!(matches!(vm.boot().unwrap(), ControlRequest::CreateTransient(_)));
    assert_eq!(VIEWER_TOOL, "virt-viewer");
    assert_eq!(viewer_args(vm.name()), vec!["--attach", "install"]);
}

#[test]
fn iso_names_follow_file_stem() {
    let name = |iso: &str| VirtualMachine::from_iso(iso, None).name().to_string();
    assert_eq!(name("/media/ubuntu-22.04.iso"), "ubuntu-22.04");
    assert_eq!(name("archive.tar.gz"), "archive.tar");
    assert_eq!(name("/x/.hidden"), ".hidden");
    assert_eq!(name("plain"), "plain");
    assert_eq!(name("/isos/"), "isos");
    assert_eq!(name("a/b/."), "b");
    assert_eq!(name(".."), "default");
    assert_eq!(name("/"), "default");
    assert_eq!(iso_name(Some("x")), "x");
    assert_eq!(iso_name(None), "default");
    assert_eq!(VirtualMachine::from_iso("", None).properties().disk, None);
}

#[test]
fn descriptor_escapes_markup() {
    let mut p = props("a&b");
    p.disk = Some("/d/it's<1>.img".to_string());
    p.iso = Some("/m/\"q\".iso".to_string());
    let xml = build_xml(&p);
    assert!(xml.contains("<name>a&amp;b</name>"));
    assert!(xml.contains("<source file='/d/it&apos;s&lt;1&gt;.img'/>"));
    assert!(xml.contains("<source file='/m/&quot;q&quot;.iso'/>"));
}

#[test]
fn exit_status_is_promoted_to_errors() {
    assert_eq!(disk_create_outcome(Some(1)), Err(VmError::DiskCreateError(Some(1))));
    assert_eq!(disk_create_outcome(None), Err(VmError::DiskCreateError(None)));
    assert_eq!(viewer_outcome(Some(0)), Ok(()));
    assert_eq!(viewer_outcome(Some(2)), Err(VmError::ViewerError(Some(2))));
}

#[test]
fn config_machine_is_unbound_with_descriptor() {
    let mut d = definition("web1");
    d.cpus = Some(3);
    let vm = VirtualMachine::from_config(&d, 8, "/s").unwrap();
    assert_eq!(vm.state(), Lifecycle::Unbound);
    assert_eq!(vm.name(), "web1");
    assert_eq!(vm.descriptor(), Some(build_xml(vm.properties()).as_str()));
    let on_host = VirtualMachine::from_config_on_host(&d, "/s").unwrap();
    assert_eq!(on_host.properties().cpus, 3);
    let auto = VirtualMachine::from_config_on_host(&definition("web2"), "/s").unwrap();
    assert!(auto.properties().cpus >= 1);
}
