//! The device nodes and links every container gets.
use vstd::prelude::*;

use crate::config::spec::{DeviceConfig, DeviceKind};

verus! {

/// The manager of the container's `/dev`.
pub struct DevMgr;

/// The kind of file a device node is made as.
#[derive(Debug, Clone, Copy, PartialEq, Eq, Structural)]
pub enum NodeType {
    Char,
    Block,
    Fifo,
}

/// A device node to make: its path, kind, permission bits, device number
/// and owner.
#[derive(Debug, Clone)]
pub struct DeviceNode {
    pub path: String,
    pub node_type: NodeType,
    pub mode: u32,
    pub rdev: u64,
    pub uid: Option<u32>,
    pub gid: Option<u32>,
}

/// The device number that glibc's (and the `libc` crate's) `makedev`
/// builds on Linux from a major and a minor number.
pub open spec fn makedev_bits(major: u32, minor: u32) -> u64 {
    let ma = major as u64;
    let mi = minor as u64;
    ((ma & 0x00000fffu64) << 8u64) | ((ma & 0xfffff000u64) << 32u64) | (mi & 0x000000ffu64) | ((
    mi & 0xffffff00u64) << 12u64)
}

/// The Linux device number of a major and a minor number: the low twelve
/// bits of the major at bit 8 and the rest above bit 44, the low eight bits
/// of the minor at bit 0 and the rest from bit 20 (`makedev`'s layout).
fn device_number(major: u32, minor: u32) -> (r: u64)
    ensures
        r == makedev_bits(major, minor),
{
    let ma = major as u64;
    let mi = minor as u64;
    let dev: u64 = ((ma & 0x00000fffu64) << 8u64) | ((ma & 0xfffff000u64) << 32u64) | (mi
        & 0x000000ffu64) | ((mi & 0xffffff00u64) << 12u64);
    dev
}

/// The major and minor numbers can be read back from a device number:
/// the four parts of `makedev_bits` do not overlap.
pub proof fn law_device_number_keeps_parts(major: u32, minor: u32)
    ensures
        (((makedev_bits(major, minor) & 0x00000000000fff00u64) >> 8u64) | ((makedev_bits(
            major,
            minor,
        ) & 0xfffff00000000000u64) >> 32u64)) == major as u64,
        ((makedev_bits(major, minor) & 0x00000000000000ffu64) | ((makedev_bits(major, minor)
            & 0x00000ffffff00000u64) >> 12u64)) == minor as u64,
{
    let ma = major as u64;
    let mi = minor as u64;
    assert(ma <= 0xffff_ffffu64);
    assert(mi <= 0xffff_ffffu64);
    let d = makedev_bits(major, minor);
    assert(d == ((ma & 0x00000fffu64) << 8u64) | ((ma & 0xfffff000u64) << 32u64) | (mi
        & 0x000000ffu64) | ((mi & 0xffffff00u64) << 12u64));
    assert(ma <= 0xffff_ffffu64 && mi <= 0xffff_ffffu64 && d == ((ma & 0x00000fffu64) << 8u64)
        | ((ma & 0xfffff000u64) << 32u64) | (mi & 0x000000ffu64) | ((mi & 0xffffff00u64) << 12u64)
        ==> (((d & 0x00000000000fff00u64) >> 8u64) | ((d & 0xfffff00000000000u64) >> 32u64)) == ma
        && ((d & 0x00000000000000ffu64) | ((d & 0x00000ffffff00000u64) >> 12u64)) == mi)
        by (bit_vector);
}

/// How a configured device kind is made: block and FIFO devices as such,
/// every other kind as a character device.
pub open spec fn node_type_of(kind: DeviceKind) -> NodeType {
    match kind {
        DeviceKind::Block => NodeType::Block,
        DeviceKind::Fifo => NodeType::Fifo,
        _ => NodeType::Char,
    }
}

/// The node made for a configured device. The permission bits default to
/// `0600`; the major and minor numbers are cut to 32 bits.
pub open spec fn node_for(n: DeviceNode, d: DeviceConfig) -> bool {
    &&& n.path@ == d.path@
    &&& n.node_type == node_type_of(d.kind)
    &&& n.mode == match d.file_mode {
        Some(m) => m,
        None => 0o600u32,
    }
    &&& n.rdev == makedev_bits(d.major as u32, d.minor as u32)
    &&& n.uid == d.uid
    &&& n.gid == d.gid
}

/// One of the devices every container gets.
pub open spec fn is_default_device(d: DeviceConfig, path: Seq<char>, major: i64, minor: i64) -> bool {
    &&& d.path@ == path
    &&& d.kind == DeviceKind::Char
    &&& d.major == major
    &&& d.minor == minor
    &&& d.file_mode == Some(0o666u32)
    &&& d.uid is None
    &&& d.gid is None
}

/// The node made for one of the default devices.
pub open spec fn default_node(n: DeviceNode, path: Seq<char>, major: u32, minor: u32) -> bool {
    &&& n.path@ == path
    &&& n.node_type == NodeType::Char
    &&& n.mode == 0o666u32
    &&& n.rdev == makedev_bits(major, minor)
    &&& n.uid is None
    &&& n.gid is None
}

fn make_dev(path: &str, major: i64, minor: i64) -> (r: DeviceConfig)
    ensures
        is_default_device(r, path@, major, minor),
{
    DeviceConfig {
        path: String::from_str(path),
        kind: DeviceKind::Char,
        major,
        minor,
        file_mode: Some(0o666u32),
        uid: None,
        gid: None,
    }
}

impl DevMgr {
    /// The devices the OCI specification requires in every container: the
    /// character devices `null`, `zero`, `full`, `random`, `urandom`,
    /// `tty` and `ptmx`, all with mode `0666`.
    pub fn default_devices() -> (r: Vec<DeviceConfig>)
        ensures
            r@.len() == 7,
            is_default_device(r@[0], "/dev/null"@, 1, 3),
            is_default_device(r@[1], "/dev/zero"@, 1, 5),
            is_default_device(r@[2], "/dev/full"@, 1, 7),
            is_default_device(r@[3], "/dev/random"@, 1, 8),
            is_default_device(r@[4], "/dev/urandom"@, 1, 9),
            is_default_device(r@[5], "/dev/tty"@, 5, 0),
            is_default_device(r@[6], "/dev/ptmx"@, 5, 2),
    {
        let mut v: Vec<DeviceConfig> = Vec::new();
        v.push(make_dev("/dev/null", 1, 3));
        v.push(make_dev("/dev/zero", 1, 5));
        v.push(make_dev("/dev/full", 1, 7));
        v.push(make_dev("/dev/random", 1, 8));
        v.push(make_dev("/dev/urandom", 1, 9));
        v.push(make_dev("/dev/tty", 5, 0));
        v.push(make_dev("/dev/ptmx", 5, 2));
        v
    }

    /// The node to make for one configured device.
    pub fn device_node(d: &DeviceConfig) -> (r: DeviceNode)
        ensures
            node_for(r, *d),
    {
        let node_type = match d.kind {
            DeviceKind::Block => NodeType::Block,
            DeviceKind::Fifo => NodeType::Fifo,
            _ => NodeType::Char,
        };
        let mode = match d.file_mode {
            Some(m) => m,
            None => 0o600u32,
        };
        DeviceNode {
            path: d.path.clone(),
            node_type,
            mode,
            rdev: device_number(d.major as u32, d.minor as u32),
            uid: d.uid,
            gid: d.gid,
        }
    }

    /// The nodes to make: the default devices first, then the configured
    /// ones, in order.
    pub fn device_nodes(extra: Option<&Vec<DeviceConfig>>) -> (r: Vec<DeviceNode>)
        ensures
            r@.len() == 7 + match extra {
                Some(e) => e@.len() as int,
                None => 0,
            },
            default_node(r@[0], "/dev/null"@, 1, 3),
            default_node(r@[1], "/dev/zero"@, 1, 5),
            default_node(r@[2], "/dev/full"@, 1, 7),
            default_node(r@[3], "/dev/random"@, 1, 8),
            default_node(r@[4], "/dev/urandom"@, 1, 9),
            default_node(r@[5], "/dev/tty"@, 5, 0),
            default_node(r@[6], "/dev/ptmx"@, 5, 2),
            extra matches Some(e) ==> forall|i: int|
                0 <= i < e@.len() ==> #[trigger] node_for(r@[7 + i], e@[i]),
    {
        let defaults = Self::default_devices();
        let mut out: Vec<DeviceNode> = Vec::new();
        let mut i: usize = 0;
        while i < defaults.len()
            invariant
                i <= defaults@.len(),
                defaults@.len() == 7,
                out@.len() == i,
                forall|k: int| 0 <= k < i ==> #[trigger] node_for(out@[k], defaults@[k]),
            decreases defaults@.len() - i,
        {
            out.push(Self::device_node(&defaults[i]));
            i = i + 1;
        }
        assert(node_for(out@[0], defaults@[0]));
        assert(node_for(out@[1], defaults@[1]));
        assert(node_for(out@[2], defaults@[2]));
        assert(node_for(out@[3], defaults@[3]));
        assert(node_for(out@[4], defaults@[4]));
        assert(node_for(out@[5], defaults@[5]));
        assert(node_for(out@[6], defaults@[6]));
        let ghost first = out@;
        if let Some(e) = extra {
            let mut j: usize = 0;
            while j < e.len()
                invariant
                    j <= e@.len(),
                    out@.len() == 7 + j,
                    first.len() == 7,
                    forall|k: int| 0 <= k < 7 ==> out@[k] == first[k],
                    forall|k: int| 0 <= k < j ==> #[trigger] node_for(out@[7 + k], e@[k]),
                decreases e@.len() - j,
            {
                out.push(Self::device_node(&e[j]));
                j = j + 1;
            }
        }
        out
    }

    /// The links every container's `/dev` gets, as (target, link).
    pub fn dev_symlinks() -> (r: Vec<(String, String)>)
        ensures
            r@.len() == 5,
            r@[0].0@ == "/proc/self/fd"@ && r@[0].1@ == "/dev/fd"@,
            r@[1].0@ == "/proc/self/fd/0"@ && r@[1].1@ == "/dev/stdin"@,
            r@[2].0@ == "/proc/self/fd/1"@ && r@[2].1@ == "/dev/stdout"@,
            r@[3].0@ == "/proc/self/fd/2"@ && r@[3].1@ == "/dev/stderr"@,
            r@[4].0@ == "/dev/pts/ptmx"@ && r@[4].1@ == "/dev/ptmx"@,
    {
        let mut v: Vec<(String, String)> = Vec::new();
        v.push((String::from_str("/proc/self/fd"), String::from_str("/dev/fd")));
        v.push((String::from_str("/proc/self/fd/0"), String::from_str("/dev/stdin")));
        v.push((String::from_str("/proc/self/fd/1"), String::from_str("/dev/stdout")));
        v.push((String::from_str("/proc/self/fd/2"), String::from_str("/dev/stderr")));
        v.push((String::from_str("/dev/pts/ptmx"), String::from_str("/dev/ptmx")));
        v
    }
}

/// Block devices are made as block nodes, FIFOs as FIFOs, and every other
/// kind as a character device.
pub proof fn law_node_types(kind: DeviceKind)
    ensures
        node_type_of(DeviceKind::Block) == NodeType::Block,
        node_type_of(DeviceKind::Fifo) == NodeType::Fifo,
        node_type_of(DeviceKind::Char) == NodeType::Char,
        (kind != DeviceKind::Block && kind != DeviceKind::Fifo) ==> node_type_of(kind)
            == NodeType::Char,
{
}

} // verus!
