use vstd::prelude::*;
use vstd::string::StrSliceExecFns;
use vstd::string::StringExecFns;

verus! {

/// A prebuilt, versioned disk image published on the box registry.
#[derive(Debug, Clone)]
pub struct VagrantBox {
    pub user: String,
    pub box_name: String,
    pub version: String,
}

/// A declarative machine definition, as read from a definition file.
#[derive(Debug, Clone)]
pub struct ConfigFile {
    pub name: String,
    pub cpus: Option<u32>,
    /// Memory in kilobytes.
    pub memory: Option<u64>,
    /// A local image to copy as the machine's disk.
    pub disk: Option<String>,
    /// Install media attached as a CD-ROM.
    pub iso: Option<String>,
    pub vagrant_box: Option<VagrantBox>,
    /// Control-plane endpoint; absent means the local default.
    pub connection_uri: Option<String>,
}

/// How the machine's disk image comes into existence.
#[derive(Debug, Clone)]
pub enum DiskSource {
    /// Fetch the box archive and unpack it into the machine's disk directory.
    FetchBox(VagrantBox),
    /// Copy the given local image, byte for byte, to the machine's disk path.
    CopyImage(String),
    /// Materialise nothing now.
    NoImage,
}

/// The archive address of a box on the registry.
pub open spec fn box_url_spec(user: Seq<char>, box_name: Seq<char>, version: Seq<char>) -> Seq<char> {
    "https://app.vagrantup.com/"@ + user + "/boxes/"@ + box_name + "/versions/"@ + version
        + "/providers/libvirt.box"@
}

/// The disk strategy of a definition: a box first, then an explicit image, else none.
pub open spec fn chosen_source(c: ConfigFile) -> DiskSource {
    match c.vagrant_box {
        Some(b) => DiskSource::FetchBox(b),
        None => match c.disk {
            Some(d) => DiskSource::CopyImage(d),
            None => DiskSource::NoImage,
        },
    }
}

/// A name is usable as a single directory component: non-empty, with no path
/// separator, and neither `.` nor `..`.
pub open spec fn valid_name(name: Seq<char>) -> bool {
    &&& name.len() > 0
    &&& forall|i: int| 0 <= i < name.len() ==> name[i] != '/' && name[i] != '\\'
    &&& name != seq!['.']
    &&& name != seq!['.', '.']
}

/// Whenever a definition names both a box and a local image, the box is fetched
/// and the image is never copied.
pub proof fn lemma_box_precedes_copy(c: ConfigFile)
    requires
        c.vagrant_box.is_some(),
        c.disk.is_some(),
    ensures
        chosen_source(c) is FetchBox,
        !(chosen_source(c) is CopyImage),
        chosen_source(c) == DiskSource::FetchBox(c.vagrant_box.unwrap()),
{
}

impl VagrantBox {
    /// The registry address of this box's libvirt archive.
    pub fn url(&self) -> (r: String)
        ensures
            r@ == box_url_spec(self.user@, self.box_name@, self.version@),
    {
        let mut s = String::from_str("https://app.vagrantup.com/");
        s.append(self.user.as_str());
        s.append("/boxes/");
        s.append(self.box_name.as_str());
        s.append("/versions/");
        s.append(self.version.as_str());
        s.append("/providers/libvirt.box");
        s
    }
}

impl ConfigFile {
    /// Picks the disk strategy, with a box taking precedence over a local image.
    pub fn disk_source(&self) -> (r: DiskSource)
        ensures
            r == chosen_source(*self),
    {
        match &self.vagrant_box {
            Some(b) => DiskSource::FetchBox(
                VagrantBox {
                    user: b.user.clone(),
                    box_name: b.box_name.clone(),
                    version: b.version.clone(),
                },
            ),
            None => match &self.disk {
                Some(d) => DiskSource::CopyImage(d.clone()),
                None => DiskSource::NoImage,
            },
        }
    }
}

/// Tells whether a machine name can serve as a directory component.
pub fn is_valid_name(name: &str) -> (r: bool)
    ensures
        r == valid_name(name@),
{
    let n = name.unicode_len();
    if n == 0 {
        return false;
    }
    let mut i: usize = 0;
    while i < n
        invariant
            n == name@.len(),
            i <= n,
            forall|j: int| 0 <= j < i ==> name@[j] != '/' && name@[j] != '\\',
        decreases n - i,
    {
        let c = name.get_char(i);
        if c == '/' || c == '\\' {
            return false;
        }
        i = i + 1;
    }
    if name.get_char(0) == '.' && (n == 1 || (n == 2 && name.get_char(1) == '.')) {
        assert(name@ =~= seq!['.'] || name@ =~= seq!['.', '.']);
        return false;
    }
    proof {
        if name@ == seq!['.'] {
            assert(name@[0] == '.');
        }
        if name@ == seq!['.', '.'] {
            assert(name@[0] == '.' && name@[1] == '.');
        }
    }
    true
}

} // verus!
