//! The container's user namespace: its uid and gid maps.
use vstd::prelude::*;

use crate::config::spec::IdMapping;
use crate::text::{concat2, i64_text, int_text, texts_view, u64_text};

verus! {

/// The manager of the container's user namespace.
pub struct UserMgr;

/// One step of writing the id maps of a child process.
#[derive(Debug, Clone)]
pub enum MapStep {
    /// Write `deny` to `setgroups` (failure is ignored).
    DenySetgroups { path: String },
    /// Write the map file directly (as root).
    WriteMap { path: String, content: String },
    /// Run the `newuidmap`/`newgidmap` helper (rootless).
    RunHelper { argv: Vec<String> },
}

/// One line of an id map: `container host size`.
pub open spec fn map_line(m: IdMapping) -> Seq<char> {
    int_text(m.container_id as int) + " "@ + int_text(m.host_id as int) + " "@ + int_text(
        m.size as int,
    ) + "\n"@
}

/// The contents of an id map file: one line per mapping.
pub open spec fn map_content(ms: Seq<IdMapping>) -> Seq<char>
    decreases ms.len(),
{
    if ms.len() == 0 {
        seq![]
    } else {
        map_content(ms.drop_last()) + map_line(ms.last())
    }
}

/// The arguments of the helper after the pid: three per mapping.
pub open spec fn map_args(ms: Seq<IdMapping>) -> Seq<Seq<char>>
    decreases ms.len(),
{
    if ms.len() == 0 {
        seq![]
    } else {
        map_args(ms.drop_last()) + seq![
            int_text(ms.last().container_id as int),
            int_text(ms.last().host_id as int),
            int_text(ms.last().size as int),
        ]
    }
}

/// `/proc/<pid>/<map_type>_map`.
pub open spec fn map_file(pid: i32, map_type: Seq<char>) -> Seq<char> {
    "/proc/"@ + int_text(pid as int) + "/"@ + map_type + "_map"@
}

/// `/proc/<pid>/setgroups`.
pub open spec fn setgroups_file(pid: i32) -> Seq<char> {
    "/proc/"@ + int_text(pid as int) + "/setgroups"@
}

/// The helper for a map type: `newuidmap` or `newgidmap`.
pub open spec fn helper_name(map_type: Seq<char>) -> Seq<char> {
    "new"@ + map_type + "map"@
}

pub open spec fn step_is_write(s: MapStep, pid: i32, map_type: Seq<char>, ms: Seq<IdMapping>) -> bool {
    s matches MapStep::WriteMap { path, content } && path@ == map_file(pid, map_type) && content@
        == map_content(ms)
}

pub open spec fn step_is_helper(s: MapStep, pid: i32, map_type: Seq<char>, ms: Seq<IdMapping>) -> bool {
    s matches MapStep::RunHelper { argv } && texts_view(argv@) == seq![
        helper_name(map_type),
        int_text(pid as int),
    ] + map_args(ms)
}

/// How one map is written: directly as root, else through the helper.
pub open spec fn step_writes_map(
    s: MapStep,
    pid: i32,
    map_type: Seq<char>,
    ms: Seq<IdMapping>,
    is_root: bool,
) -> bool {
    if is_root {
        step_is_write(s, pid, map_type, ms)
    } else {
        step_is_helper(s, pid, map_type, ms)
    }
}

impl UserMgr {
    /// The text of an id map file.
    pub fn map_content(mappings: &Vec<IdMapping>) -> (r: String)
        ensures
            r@ == map_content(mappings@),
    {
        let mut s = String::new();
        let mut i: usize = 0;
        while i < mappings.len()
            invariant
                i <= mappings@.len(),
                s@ == map_content(mappings@.take(i as int)),
            decreases mappings@.len() - i,
        {
            let m = mappings[i];
            let a = u64_text(m.container_id as u64);
            let b = u64_text(m.host_id as u64);
            let c = u64_text(m.size as u64);
            s.append(a.as_str());
            s.append(" ");
            s.append(b.as_str());
            s.append(" ");
            s.append(c.as_str());
            s.append("\n");
            assert(mappings@.take(i + 1).drop_last() =~= mappings@.take(i as int));
            i = i + 1;
        }
        assert(mappings@.take(mappings@.len() as int) =~= mappings@);
        s
    }

    /// The helper command for a map: the helper, the pid, then each
    /// mapping's three numbers.
    pub fn helper_argv(pid: i32, map_type: &str, mappings: &Vec<IdMapping>) -> (r: Vec<String>)
        ensures
            texts_view(r@) == seq![helper_name(map_type@), int_text(pid as int)] + map_args(
                mappings@,
            ),
    {
        let mut helper = concat2("new", map_type);
        helper.append("map");
        let mut v: Vec<String> = Vec::new();
        v.push(helper);
        v.push(i64_text(pid as i64));
        let ghost head = seq![helper_name(map_type@), int_text(pid as int)];
        assert(texts_view(v@) =~= head);
        let mut i: usize = 0;
        while i < mappings.len()
            invariant
                i <= mappings@.len(),
                texts_view(v@) == head + map_args(mappings@.take(i as int)),
            decreases mappings@.len() - i,
        {
            let m = mappings[i];
            let ghost before = texts_view(v@);
            v.push(u64_text(m.container_id as u64));
            v.push(u64_text(m.host_id as u64));
            v.push(u64_text(m.size as u64));
            assert(mappings@.take(i + 1).drop_last() =~= mappings@.take(i as int));
            assert(texts_view(v@) =~= before + seq![
                int_text(m.container_id as int),
                int_text(m.host_id as int),
                int_text(m.size as int),
            ]);
            i = i + 1;
        }
        assert(mappings@.take(mappings@.len() as int) =~= mappings@);
        v
    }

    /// The map file of a process.
    pub fn map_file(pid: i32, map_type: &str) -> (r: String)
        ensures
            r@ == map_file(pid, map_type@),
    {
        let p = i64_text(pid as i64);
        let mut s = concat2("/proc/", p.as_str());
        s.append("/");
        s.append(map_type);
        s.append("_map");
        s
    }

    /// The `setgroups` file of a process.
    pub fn setgroups_file(pid: i32) -> (r: String)
        ensures
            r@ == setgroups_file(pid),
    {
        let p = i64_text(pid as i64);
        let mut s = concat2("/proc/", p.as_str());
        s.append("/setgroups");
        s
    }

    /// How one map is written: as root, straight into the map file;
    /// otherwise through the setuid helper.
    pub fn write_id_map(pid: i32, map_type: &str, mappings: &Vec<IdMapping>, is_root: bool) -> (r:
        MapStep)
        ensures
            step_writes_map(r, pid, map_type@, mappings@, is_root),
    {
        if is_root {
            MapStep::WriteMap {
                path: Self::map_file(pid, map_type),
                content: Self::map_content(mappings),
            }
        } else {
            MapStep::RunHelper { argv: Self::helper_argv(pid, map_type, mappings) }
        }
    }

    /// The steps that map a child's user namespace: the uid map when given
    /// and not empty; then, for a non-empty gid map, `setgroups` denied
    /// (as root only) and the gid map.
    pub fn set_mappings(
        pid: i32,
        uid_mappings: Option<&Vec<IdMapping>>,
        gid_mappings: Option<&Vec<IdMapping>>,
        is_root: bool,
    ) -> (r: Vec<MapStep>)
        ensures
            ({
                let uid_steps: int = if uid_mappings matches Some(u) && u@.len() > 0 {
                    1
                } else {
                    0
                };
                let deny_steps: int = if gid_mappings matches Some(g) && g@.len() > 0 && is_root {
                    1
                } else {
                    0
                };
                let gid_steps: int = if gid_mappings matches Some(g) && g@.len() > 0 {
                    1
                } else {
                    0
                };
                &&& r@.len() == uid_steps + deny_steps + gid_steps
                &&& uid_steps == 1 ==> step_writes_map(
                    r@[0],
                    pid,
                    "uid"@,
                    uid_mappings->0@,
                    is_root,
                )
                &&& deny_steps == 1 ==> (r@[uid_steps] matches MapStep::DenySetgroups { path }
                    && path@ == setgroups_file(pid))
                &&& gid_steps == 1 ==> step_writes_map(
                    r@[uid_steps + deny_steps],
                    pid,
                    "gid"@,
                    gid_mappings->0@,
                    is_root,
                )
            }),
    {
        let mut steps: Vec<MapStep> = Vec::new();
        if let Some(u) = uid_mappings {
            if u.len() > 0 {
                steps.push(Self::write_id_map(pid, "uid", u, is_root));
            }
        }
        if let Some(g) = gid_mappings {
            if g.len() > 0 {
                if is_root {
                    steps.push(MapStep::DenySetgroups { path: Self::setgroups_file(pid) });
                }
                steps.push(Self::write_id_map(pid, "gid", g, is_root));
            }
        }
        steps
    }
}

/// User ids are mapped through `newuidmap` into `/proc/<pid>/uid_map`,
/// group ids through `newgidmap` into `/proc/<pid>/gid_map`.
pub proof fn law_map_helpers(pid: i32)
    ensures
        helper_name("uid"@) == "newuidmap"@,
        helper_name("gid"@) == "newgidmap"@,
        map_file(pid, "uid"@) == "/proc/"@ + int_text(pid as int) + "/uid_map"@,
        map_file(pid, "gid"@) == "/proc/"@ + int_text(pid as int) + "/gid_map"@,
{
    reveal_strlit("uid");
    reveal_strlit("gid");
    reveal_strlit("new");
    reveal_strlit("map");
    reveal_strlit("newuidmap");
    reveal_strlit("newgidmap");
    reveal_strlit("/");
    reveal_strlit("_map");
    reveal_strlit("/uid_map");
    reveal_strlit("/gid_map");
    assert("new"@ + "uid"@ + "map"@ =~= "newuidmap"@);
    assert("new"@ + "gid"@ + "map"@ =~= "newgidmap"@);
    assert("/"@ + "uid"@ + "_map"@ =~= "/uid_map"@);
    assert("/"@ + "gid"@ + "_map"@ =~= "/gid_map"@);
    let p = "/proc/"@ + int_text(pid as int);
    assert(p + "/"@ + "uid"@ + "_map"@ =~= p + "/uid_map"@);
    assert(p + "/"@ + "gid"@ + "_map"@ =~= p + "/gid_map"@);
}

} // verus!
