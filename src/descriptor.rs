use vstd::prelude::*;
use vstd::string::StrSliceExecFns;
use vstd::string::StringExecFns;

use crate::props::VMProperties;

verus! {

/// The ten decimal digits, indexed by value.
pub open spec fn digit_chars() -> Seq<char> {
    "0123456789"@
}

/// The decimal rendering of `n`, most significant digit first, without leading zeros.
pub open spec fn decimal(n: nat) -> Seq<char>
    decreases n,
{
    if n < 10 {
        digit_chars().subrange(n as int, n as int + 1)
    } else {
        decimal(n / 10) + digit_chars().subrange((n % 10) as int, (n % 10) as int + 1)
    }
}

/// A character as it stands in descriptor text: the five markup characters become
/// entity references, every other character stands for itself.
pub open spec fn escape_char(c: char) -> Seq<char> {
    if c == '&' {
        "&amp;"@
    } else if c == '<' {
        "&lt;"@
    } else if c == '>' {
        "&gt;"@
    } else if c == '\'' {
        "&apos;"@
    } else if c == '"' {
        "&quot;"@
    } else {
        seq![c]
    }
}

/// Text made safe for the descriptor, character by character.
pub open spec fn escaped(s: Seq<char>) -> Seq<char>
    decreases s.len(),
{
    if s.len() == 0 {
        Seq::empty()
    } else {
        escaped(s.drop_last()) + escape_char(s.last())
    }
}

/// Appends `text` with its markup characters escaped.
pub fn append_escaped(s: &mut String, text: &str)
    ensures
        final(s)@ == old(s)@ + escaped(text@),
{
    let ghost start = s@;
    let n = text.unicode_len();
    let mut i: usize = 0;
    while i < n
        invariant
            n == text@.len(),
            i <= n,
            s@ == start + escaped(text@.subrange(0, i as int)),
        decreases n - i,
    {
        let c = text.get_char(i);
        if c == '&' {
            s.append("&amp;");
        } else if c == '<' {
            s.append("&lt;");
        } else if c == '>' {
            s.append("&gt;");
        } else if c == '\'' {
            s.append("&apos;");
        } else if c == '"' {
            s.append("&quot;");
        } else {
            s.append(text.substring_char(i, i + 1));
            assert(text@.subrange(i as int, i + 1) =~= seq![c]);
        }
        assert(text@.subrange(0, i + 1).drop_last() =~= text@.subrange(0, i as int));
        assert(s@ =~= start + escaped(text@.subrange(0, i + 1)));
        i = i + 1;
    }
    assert(text@.subrange(0, n as int) =~= text@);
}

/// The disk element of a descriptor, present when the machine has a disk.
pub open spec fn disk_element(disk: Option<String>) -> Seq<char> {
    match disk {
        Some(d) => "<disk type='file' device='disk'><driver name='qemu' type='qcow2'/><source file='"@
            + escaped(d@) + "'/><target dev='vda' bus='virtio'/></disk>"@,
        None => Seq::empty(),
    }
}

/// The CD-ROM element of a descriptor, present when the machine has install media.
pub open spec fn cdrom_element(iso: Option<String>) -> Seq<char> {
    match iso {
        Some(i) => "<disk type='file' device='cdrom'><driver name='qemu' type='raw'/><source file='"@
            + escaped(i@) + "'/><target dev='sda' bus='sata'/><readonly/></disk>"@,
        None => Seq::empty(),
    }
}

/// The domain descriptor of a machine: every property of it is mapped, and text
/// values are escaped.
pub open spec fn descriptor_spec(p: VMProperties) -> Seq<char> {
    "<domain type='kvm'><name>"@ + escaped(p.name@) + "</name><memory unit='KiB'>"@ + decimal(
        p.memory as nat,
    ) + "</memory><vcpu>"@ + decimal(p.cpus as nat)
        + "</vcpu><os><type arch='x86_64'>hvm</type><boot dev='hd'/><boot dev='cdrom'/></os><devices>"@
        + disk_element(p.disk) + cdrom_element(p.iso)
        + "<graphics type='spice' autoport='yes'/></devices></domain>"@
}

/// Two machines with the same properties get the same descriptor, character for character.
pub proof fn lemma_descriptor_deterministic(a: VMProperties, b: VMProperties)
    requires
        a.name@ == b.name@,
        a.cpus == b.cpus,
        a.memory == b.memory,
        a.disk == b.disk,
        a.iso == b.iso,
    ensures
        descriptor_spec(a) == descriptor_spec(b),
{
}

/// Appends the decimal rendering of `n`.
pub fn append_decimal(s: &mut String, n: u64)
    ensures
        final(s)@ == old(s)@ + decimal(n as nat),
    decreases n,
{
    let ghost start = s@;
    if n >= 10 {
        append_decimal(s, n / 10);
    }
    let digits: &str = "0123456789";
    proof {
        reveal_strlit("0123456789");
    }
    let d: usize = (n % 10) as usize;
    s.append(digits.substring_char(d, d + 1));
    assert(s@ =~= start + decimal(n as nat));
}

fn append_disk(s: &mut String, disk: &Option<String>)
    ensures
        final(s)@ == old(s)@ + disk_element(*disk),
{
    let ghost start = s@;
    match disk {
        Some(d) => {
            s.append(
                "<disk type='file' device='disk'><driver name='qemu' type='qcow2'/><source file='",
            );
            append_escaped(s, d.as_str());
            s.append("'/><target dev='vda' bus='virtio'/></disk>");
        },
        None => {},
    }
    assert(s@ =~= start + disk_element(*disk));
}

fn append_cdrom(s: &mut String, iso: &Option<String>)
    ensures
        final(s)@ == old(s)@ + cdrom_element(*iso),
{
    let ghost start = s@;
    match iso {
        Some(i) => {
            s.append(
                "<disk type='file' device='cdrom'><driver name='qemu' type='raw'/><source file='",
            );
            append_escaped(s, i.as_str());
            s.append("'/><target dev='sda' bus='sata'/><readonly/></disk>");
        },
        None => {},
    }
    assert(s@ =~= start + cdrom_element(*iso));
}

/// Renders a machine's properties as a libvirt domain descriptor.
pub fn build_xml(p: &VMProperties) -> (r: String)
    ensures
        r@ == descriptor_spec(*p),
{
    let mut s = String::from_str("<domain type='kvm'><name>");
    append_escaped(&mut s, p.name.as_str());
    s.append("</name><memory unit='KiB'>");
    append_decimal(&mut s, p.memory);
    s.append("</memory><vcpu>");
    append_decimal(&mut s, p.cpus as u64);
    s.append(
        "</vcpu><os><type arch='x86_64'>hvm</type><boot dev='hd'/><boot dev='cdrom'/></os><devices>",
    );
    append_disk(&mut s, &p.disk);
    append_cdrom(&mut s, &p.iso);
    s.append("<graphics type='spice' autoport='yes'/></devices></domain>");
    s
}

} // verus!
