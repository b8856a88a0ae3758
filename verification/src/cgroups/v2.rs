//! The container's cgroup (v2): where it lives and what is written into
//! its control files.
use vstd::prelude::*;

use crate::config::spec::{CpuConfig, DeviceRule, MemoryConfig, ResourcesConfig};
use crate::text::{
    concat2, dec_digits, digits_value, i64_text, int_text, is_digit, join_path, path_join, split_whitespace, split_ws, texts_view,
    u64_text,
};

verus! {

/// The cgroup v2 mount point.
pub open spec fn cgroup_root() -> Seq<char> {
    "/sys/fs/cgroup"@
}

/// The cgroup under which the runtime puts its containers.
pub open spec fn kuro_cgroup() -> Seq<char> {
    path_join(cgroup_root(), "kuro"@)
}

/// The cgroup of one container.
pub struct CgroupMgr {
    path: String,
}

impl View for CgroupMgr {
    type V = Seq<char>;

    closed spec fn view(&self) -> Seq<char> {
        self.path@
    }
}

/// One write into a control file: the file's name, its full path and the
/// text to write.
#[derive(Debug, Clone)]
pub struct CgroupWrite {
    pub file: String,
    pub path: String,
    pub value: String,
}

/// A write taken as (file name, text).
pub open spec fn write_view(w: CgroupWrite) -> (Seq<char>, Seq<char>) {
    (w.file@, w.value@)
}

pub open spec fn writes_view(ws: Seq<CgroupWrite>) -> Seq<(Seq<char>, Seq<char>)> {
    ws.map_values(|w: CgroupWrite| write_view(w))
}

/// Every write goes to its file inside `dir`.
pub open spec fn writes_under(ws: Seq<CgroupWrite>, dir: Seq<char>) -> bool {
    forall|i: int| 0 <= i < ws.len() ==> (#[trigger] ws[i]).path@ == path_join(dir, ws[i].file@)
}

/// How a limit is written: `max` for a negative limit, else the number.
pub open spec fn limit_text(v: i64) -> Seq<char> {
    if v < 0 {
        "max"@
    } else {
        int_text(v as int)
    }
}

/// A write of `file` when the limit is set.
pub open spec fn opt_limit_write(file: Seq<char>, v: Option<i64>) -> Seq<(Seq<char>, Seq<char>)> {
    match v {
        Some(x) => seq![(file, limit_text(x))],
        None => seq![],
    }
}

pub open spec fn memory_writes(m: Option<MemoryConfig>) -> Seq<(Seq<char>, Seq<char>)> {
    match m {
        Some(m) => opt_limit_write("memory.max"@, m.limit) + opt_limit_write(
            "memory.swap.max"@,
            m.swap,
        ),
        None => seq![],
    }
}

/// The pids limit: `max` for zero or less.
pub open spec fn pids_writes(limit: Option<i64>) -> Seq<(Seq<char>, Seq<char>)> {
    match limit {
        Some(l) => seq![
            ("pids.max"@, if l <= 0 {
                "max"@
            } else {
                int_text(l as int)
            }),
        ],
        None => seq![],
    }
}

/// `shares - 2`, or 0 below 2.
pub open spec fn shares_above_min(shares: u64) -> int {
    if shares > 2 {
        shares - 2
    } else {
        0
    }
}

/// The cgroup v2 weight for cgroup v1 CPU shares.
pub open spec fn cpu_weight(shares: u64) -> int {
    1 + (shares_above_min(shares) * 9999) / 262142
}

/// The weight can be computed in 64 bits.
pub open spec fn weight_fits(shares: u64) -> bool {
    shares_above_min(shares) * 9999 <= u64::MAX
}

pub open spec fn cpu_writes(c: Option<CpuConfig>) -> Seq<(Seq<char>, Seq<char>)> {
    match c {
        Some(c) => {
            let max = match (c.quota, c.period) {
                (Some(q), Some(p)) => seq![
                    ("cpu.max"@, limit_text(q) + " "@ + int_text(p as int)),
                ],
                _ => seq![],
            };
            let weight = match c.shares {
                Some(s) => seq![("cpu.weight"@, int_text(cpu_weight(s)))],
                None => seq![],
            };
            let cpus = match c.cpus {
                Some(x) => seq![("cpuset.cpus"@, x@)],
                None => seq![],
            };
            let mems = match c.mems {
                Some(x) => seq![("cpuset.mems"@, x@)],
                None => seq![],
            };
            max + weight + cpus + mems
        },
        None => seq![],
    }
}

/// Every write that the resource limits call for, in order: memory, pids,
/// CPU bandwidth and weight, then CPU and memory placement.
pub open spec fn limit_writes(r: ResourcesConfig) -> Seq<(Seq<char>, Seq<char>)> {
    memory_writes(r.memory) + pids_writes(r.pids_limit) + cpu_writes(r.cpu)
}

/// The CPU shares, if given, can be turned into a weight without overflow.
pub open spec fn resources_fit(r: ResourcesConfig) -> bool {
    r.cpu matches Some(c) ==> (c.shares matches Some(s) ==> weight_fits(s))
}

/// The line `cgroup.subtree_control` is given to enable `words`.
pub open spec fn subtree_line(words: Seq<Seq<char>>) -> Seq<char>
    decreases words.len(),
{
    if words.len() == 0 {
        seq![]
    } else if words.len() == 1 {
        seq!['+'] + words[0]
    } else {
        subtree_line(words.drop_last()) + " +"@ + words.last()
    }
}

/// The text of a major or minor number in a device rule: empty when unset.
pub open spec fn opt_number_text(v: Option<i64>) -> Seq<char> {
    match v {
        Some(x) => int_text(x as int),
        None => seq![],
    }
}

/// The line written to `devices.allow` for a rule.
pub open spec fn device_rule_text(rule: DeviceRule) -> Seq<char> {
    (if rule.allow {
        "a"@
    } else {
        "b"@
    }) + " "@ + opt_number_text(rule.major) + ":"@ + opt_number_text(rule.minor) + " "@ + (
    match rule.access {
        Some(a) => a@,
        None => "rwm"@,
    })
}

fn push_write(out: &mut Vec<CgroupWrite>, dir: &str, file: &str, value: String)
    requires
        writes_under(old(out)@, dir@),
    ensures
        writes_view(final(out)@) == writes_view(old(out)@).push((file@, value@)),
        writes_under(final(out)@, dir@),
{
    let path = join_path(dir, file);
    let ghost before = old(out)@;
    out.push(CgroupWrite { file: String::from_str(file), path, value });
    assert(writes_view(out@) =~= writes_view(before).push((file@, value@)));
}

fn limit_value(v: i64) -> (r: String)
    ensures
        r@ == limit_text(v),
{
    if v < 0 {
        String::from_str("max")
    } else {
        i64_text(v)
    }
}

fn push_memory_writes(out: &mut Vec<CgroupWrite>, dir: &str, m: &Option<MemoryConfig>)
    requires
        writes_under(old(out)@, dir@),
    ensures
        writes_view(final(out)@) == writes_view(old(out)@) + memory_writes(*m),
        writes_under(final(out)@, dir@),
{
    let ghost w0 = writes_view(out@);
    if let Some(m) = m {
        if let Some(limit) = m.limit {
            push_write(out, dir, "memory.max", limit_value(limit));
        }
        if let Some(swap) = m.swap {
            push_write(out, dir, "memory.swap.max", limit_value(swap));
        }
    }
    assert(writes_view(out@) =~= w0 + memory_writes(*m));
}

fn push_pids_writes(out: &mut Vec<CgroupWrite>, dir: &str, limit: Option<i64>)
    requires
        writes_under(old(out)@, dir@),
    ensures
        writes_view(final(out)@) == writes_view(old(out)@) + pids_writes(limit),
        writes_under(final(out)@, dir@),
{
    let ghost w0 = writes_view(out@);
    if let Some(l) = limit {
        let v = if l <= 0 {
            String::from_str("max")
        } else {
            i64_text(l)
        };
        push_write(out, dir, "pids.max", v);
    }
    assert(writes_view(out@) =~= w0 + pids_writes(limit));
}

fn cpu_weight_value(s: u64) -> (r: u64)
    requires
        weight_fits(s),
    ensures
        r == cpu_weight(s),
{
    let above: u64 = if s > 2 {
        s - 2
    } else {
        0
    };
    1 + (above * 9999) / 262142
}

fn push_cpu_writes(out: &mut Vec<CgroupWrite>, dir: &str, c: &Option<CpuConfig>)
    requires
        writes_under(old(out)@, dir@),
        c matches Some(c) ==> (c.shares matches Some(s) ==> weight_fits(s)),
    ensures
        writes_view(final(out)@) == writes_view(old(out)@) + cpu_writes(*c),
        writes_under(final(out)@, dir@),
{
    let ghost w0 = writes_view(out@);
    if let Some(c) = c {
        if let (Some(q), Some(p)) = (c.quota, c.period) {
            let mut v = limit_value(q);
            v.append(" ");
            let pt = u64_text(p);
            v.append(pt.as_str());
            push_write(out, dir, "cpu.max", v);
        }
        let ghost w1 = writes_view(out@);
        if let Some(s) = c.shares {
            let weight = cpu_weight_value(s);
            push_write(out, dir, "cpu.weight", u64_text(weight));
        }
        let ghost w2 = writes_view(out@);
        if let Some(x) = &c.cpus {
            push_write(out, dir, "cpuset.cpus", x.clone());
        }
        let ghost w3 = writes_view(out@);
        if let Some(x) = &c.mems {
            push_write(out, dir, "cpuset.mems", x.clone());
        }
    }
    assert(writes_view(out@) =~= w0 + cpu_writes(*c));
}

impl CgroupMgr {
    /// The cgroup v2 mount point.
    pub fn root_dir() -> (r: String)
        ensures
            r@ == cgroup_root(),
    {
        String::from_str("/sys/fs/cgroup")
    }

    /// The cgroup under which the runtime puts its containers.
    pub fn base_dir() -> (r: String)
        ensures
            r@ == kuro_cgroup(),
    {
        join_path("/sys/fs/cgroup", "kuro")
    }

    /// The cgroup of `container_id`, under `/sys/fs/cgroup/kuro`.
    pub fn for_container(container_id: &str) -> (r: CgroupMgr)
        ensures
            r@ == path_join(kuro_cgroup(), container_id@),
    {
        let base = join_path("/sys/fs/cgroup", "kuro");
        CgroupMgr { path: join_path(base.as_str(), container_id) }
    }

    /// The directory of this cgroup.
    pub fn path(&self) -> (r: &String)
        ensures
            r@ == self@,
    {
        &self.path
    }

    /// The write that moves process `pid` into this cgroup.
    pub fn proc_write(&self, pid: i32) -> (r: CgroupWrite)
        ensures
            r.file@ == "cgroup.procs"@,
            r.path@ == path_join(self@, "cgroup.procs"@),
            r.value@ == int_text(pid as int),
    {
        CgroupWrite {
            file: String::from_str("cgroup.procs"),
            path: join_path(self.path.as_str(), "cgroup.procs"),
            value: i64_text(pid as i64),
        }
    }

    /// The writes that apply resource limits to this cgroup.
    pub fn limit_writes(&self, r: &ResourcesConfig) -> (ws: Vec<CgroupWrite>)
        requires
            resources_fit(*r),
        ensures
            writes_view(ws@) == limit_writes(*r),
            writes_under(ws@, self@),
    {
        let dir = self.path.as_str();
        let mut out: Vec<CgroupWrite> = Vec::new();
        assert(writes_view(out@) =~= Seq::<(Seq<char>, Seq<char>)>::empty());
        push_memory_writes(&mut out, dir, &r.memory);
        push_pids_writes(&mut out, dir, r.pids_limit);
        push_cpu_writes(&mut out, dir, &r.cpu);
        assert(writes_view(out@) =~= limit_writes(*r));
        out
    }

    /// The file that enables controllers for the children of `dir`.
    pub fn subtree_control_file(dir: &str) -> (r: String)
        ensures
            r@ == path_join(dir@, "cgroup.subtree_control"@),
    {
        join_path(dir, "cgroup.subtree_control")
    }

    /// The file that lists the controllers available in `dir`.
    pub fn controllers_file(dir: &str) -> (r: String)
        ensures
            r@ == path_join(dir@, "cgroup.controllers"@),
    {
        join_path(dir, "cgroup.controllers")
    }

    /// What to write to `cgroup.subtree_control` to enable every controller
    /// listed in `available` (the contents of `cgroup.controllers`):
    /// each name with a `+` before it, separated by spaces. Nothing is
    /// written when no controller is listed.
    pub fn subtree_control_line(available: &str) -> (r: Option<String>)
        ensures
            r is None <==> split_ws(available@).len() == 0,
            r matches Some(line) ==> line@ == subtree_line(split_ws(available@)),
    {
        let words = split_whitespace(available);
        if words.len() == 0 {
            return None;
        }
        proof {
            reveal_strlit("+");
        }
        let mut line = concat2("+", words[0].as_str());
        let mut i: usize = 1;
        assert(texts_view(words@).take(1).drop_last() =~= Seq::<Seq<char>>::empty());
        while i < words.len()
            invariant
                1 <= i <= words@.len(),
                line@ == subtree_line(texts_view(words@).take(i as int)),
            decreases words@.len() - i,
        {
            line.append(" +");
            line.append(words[i].as_str());
            let ghost t = texts_view(words@).take(i + 1);
            assert(t.drop_last() =~= texts_view(words@).take(i as int));
            i = i + 1;
        }
        assert(texts_view(words@).take(words@.len() as int) =~= texts_view(words@));
        Some(line)
    }

    /// The line written to `devices.allow` for one device rule: `a` to
    /// allow or `b` otherwise, `major:minor` (each empty when unset), and
    /// the access, `rwm` by default.
    pub fn device_rule_line(rule: &DeviceRule) -> (r: String)
        ensures
            r@ == device_rule_text(*rule),
    {
        let mut s = if rule.allow {
            String::from_str("a")
        } else {
            String::from_str("b")
        };
        s.append(" ");
        if let Some(m) = rule.major {
            let t = i64_text(m);
            s.append(t.as_str());
        }
        s.append(":");
        if let Some(m) = rule.minor {
            let t = i64_text(m);
            s.append(t.as_str());
        }
        s.append(" ");
        match &rule.access {
            Some(a) => s.append(a.as_str()),
            None => s.append("rwm"),
        }
        proof {
            assert(s@ =~= device_rule_text(*rule));
        }
        s
    }

    /// The `devices.allow` file of the cgroup at `cgroup_path`.
    pub fn devices_allow_file(cgroup_path: &str) -> (r: String)
        ensures
            r@ == path_join(cgroup_path@, "devices.allow"@),
    {
        join_path(cgroup_path, "devices.allow")
    }
}

/// A container with the fewest shares gets weight 1 and one with the most
/// gets 10000; every share count in between maps into that range.
pub proof fn law_cpu_weight_range(shares: u64)
    requires
        2 <= shares <= 262144,
    ensures
        1 <= cpu_weight(shares) <= 10000,
        shares == 2 ==> cpu_weight(shares) == 1,
        shares == 262144 ==> cpu_weight(shares) == 10000,
        weight_fits(shares),
{
    let a = shares_above_min(shares);
    assert(0 <= a <= 262142);
    assert(0 <= a * 9999 <= 262142 * 9999) by (nonlinear_arith)
        requires
            0 <= a <= 262142,
    ;
    assert((a * 9999) / 262142 <= 9999) by (nonlinear_arith)
        requires
            0 <= a * 9999 <= 262142 * 9999,
    ;
    assert((a * 9999) / 262142 >= 0) by (nonlinear_arith)
        requires
            0 <= a * 9999,
    ;
}

/// The pids limit is written to `pids.max` alone: a limit of zero or less
/// (unlimited) as `max`, a positive limit as a run of decimal digits that
/// reads back as the limit, so the value never carries a sign; no limit
/// writes nothing.
pub proof fn law_pids_limit_written(limit: Option<i64>)
    ensures
        limit is None ==> pids_writes(limit).len() == 0,
        limit matches Some(l) ==> ({
            let w = pids_writes(limit);
            &&& w.len() == 1
            &&& w[0].0 == "pids.max"@
            &&& l <= 0 ==> w[0].1 == "max"@
            &&& l > 0 ==> (w[0].1.len() > 0 && w[0].1[0] != '-' && (forall|i: int|
                0 <= i < w[0].1.len() ==> is_digit(#[trigger] w[0].1[i])) && digits_value(w[0].1)
                == l)
        }),
{
    if let Some(l) = limit {
        if l > 0 {
            crate::text::lemma_dec_digits_read_back(l as nat);
            assert(int_text(l as int) == dec_digits(l as nat));
            assert(is_digit(int_text(l as int)[0]));
        }
    }
}

/// A memory, swap or CPU quota limit is written as `max` when negative
/// (unlimited), else as a run of decimal digits that reads back as the
/// limit.
pub proof fn law_limit_text_reads_back(v: i64)
    ensures
        v < 0 ==> limit_text(v) == "max"@,
        v >= 0 ==> (limit_text(v).len() > 0 && (forall|i: int|
            0 <= i < limit_text(v).len() ==> is_digit(#[trigger] limit_text(v)[i]))
            && digits_value(limit_text(v)) == v),
{
    if v >= 0 {
        crate::text::lemma_dec_digits_read_back(v as nat);
    }
}

/// More CPU shares never give less weight, and any count of 2 shares or
/// fewer gives the least weight, 1.
pub proof fn law_cpu_weight_monotone(a: u64, b: u64)
    ensures
        a <= 2 ==> cpu_weight(a) == 1,
        a <= b ==> cpu_weight(a) <= cpu_weight(b),
        cpu_weight(a) >= 1,
{
    let x = shares_above_min(a);
    let y = shares_above_min(b);
    assert(0 <= x);
    if a <= b {
        assert(x <= y);
        assert(x * 9999 <= y * 9999) by (nonlinear_arith)
            requires
                0 <= x <= y,
        ;
        vstd::arithmetic::div_mod::lemma_div_is_ordered(x * 9999, y * 9999, 262142);
    }
    assert(0 <= x * 9999) by (nonlinear_arith)
        requires
            0 <= x,
    ;
    vstd::arithmetic::div_mod::lemma_div_is_ordered(0, x * 9999, 262142);
}

/// Memory limits go to `memory.max` and swap limits to `memory.swap.max`,
/// in that order; the CPU quota and period go together to `cpu.max` as
/// `<quota> <period>`, the weight to `cpu.weight`, and the CPU and memory
/// node lists to `cpuset.cpus` and `cpuset.mems`, in that order.
pub proof fn law_limit_files(m: MemoryConfig, c: CpuConfig)
    ensures
        memory_writes(Some(m)) == (match m.limit {
            Some(l) => seq![("memory.max"@, limit_text(l))],
            None => seq![],
        }) + (match m.swap {
            Some(w) => seq![("memory.swap.max"@, limit_text(w))],
            None => seq![],
        }),
        memory_writes(None) == Seq::<(Seq<char>, Seq<char>)>::empty(),
        cpu_writes(Some(c)) == (match (c.quota, c.period) {
            (Some(q), Some(p)) => seq![("cpu.max"@, limit_text(q) + seq![' '] + int_text(p as int))],
            _ => seq![],
        }) + (match c.shares {
            Some(s) => seq![("cpu.weight"@, int_text(cpu_weight(s)))],
            None => seq![],
        }) + (match c.cpus {
            Some(x) => seq![("cpuset.cpus"@, x@)],
            None => seq![],
        }) + (match c.mems {
            Some(x) => seq![("cpuset.mems"@, x@)],
            None => seq![],
        }),
        cpu_writes(None) == Seq::<(Seq<char>, Seq<char>)>::empty(),
{
    reveal_strlit(" ");
    assert(" "@ =~= seq![' ']);
}

} // verus!
