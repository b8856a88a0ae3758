//! The process's security settings: environment, resource limits,
//! capabilities and the seccomp actions.
use vstd::prelude::*;

use crate::config::spec::{CapabilityConfig, SeccompActionKind};
use crate::error::{ErrorView, KuroError};
use crate::text::{char_range, concat2, starts_with, str_eq, texts_view};

verus! {

/// The manager of the process's security settings.
pub struct SecMgr;

/// Position of the first `=` in `s`.
pub open spec fn eq_index(s: Seq<char>) -> Option<int>
    decreases s.len(),
{
    if s.len() == 0 {
        None
    } else if s[0] == '=' {
        Some(0)
    } else {
        match eq_index(s.drop_first()) {
            Some(k) => Some(k + 1),
            None => None,
        }
    }
}

/// `s` split at its first `=`, as `str::split_once('=')` does.
pub open spec fn split_at_eq(s: Seq<char>) -> Option<(Seq<char>, Seq<char>)> {
    match eq_index(s) {
        Some(k) => Some((s.take(k), s.skip(k + 1))),
        None => None,
    }
}

/// The `KEY=VALUE` entries of `vars` that hold an `=`, split, in order.
pub open spec fn env_pairs(vars: Seq<Seq<char>>) -> Seq<(Seq<char>, Seq<char>)>
    decreases vars.len(),
{
    if vars.len() == 0 {
        seq![]
    } else {
        match split_at_eq(vars.last()) {
            Some(p) => env_pairs(vars.drop_last()).push(p),
            None => env_pairs(vars.drop_last()),
        }
    }
}

pub open spec fn pairs_view(v: Seq<(String, String)>) -> Seq<(Seq<char>, Seq<char>)> {
    v.map_values(|p: (String, String)| (p.0@, p.1@))
}

proof fn lemma_eq_index_found(s: Seq<char>, i: int)
    requires
        0 <= i < s.len(),
        s[i] == '=',
        forall|k: int| 0 <= k < i ==> s[k] != '=',
    ensures
        eq_index(s) == Some(i),
    decreases i,
{
    if i > 0 {
        lemma_eq_index_found(s.drop_first(), i - 1);
    }
}

proof fn lemma_eq_index_none(s: Seq<char>)
    requires
        forall|k: int| 0 <= k < s.len() ==> s[k] != '=',
    ensures
        eq_index(s) is None,
    decreases s.len(),
{
    if s.len() > 0 {
        lemma_eq_index_none(s.drop_first());
    }
}

/// The resources a limit can be set on.
#[derive(Debug, Clone, Copy, PartialEq, Eq, Structural)]
pub enum RlimitResource {
    Nofile,
    Nproc,
    Memlock,
    Core,
    Stack,
    As,
    Cpu,
    Fsize,
    Data,
    Locks,
    Msgqueue,
    Nice,
    Rss,
    Rtprio,
    Rttime,
    Sigpending,
}

/// The resource a limit type names.
pub open spec fn rlimit_of(name: Seq<char>) -> Option<RlimitResource> {
    if name == "RLIMIT_NOFILE"@ {
        Some(RlimitResource::Nofile)
    } else if name == "RLIMIT_NPROC"@ {
        Some(RlimitResource::Nproc)
    } else if name == "RLIMIT_MEMLOCK"@ {
        Some(RlimitResource::Memlock)
    } else if name == "RLIMIT_CORE"@ {
        Some(RlimitResource::Core)
    } else if name == "RLIMIT_STACK"@ {
        Some(RlimitResource::Stack)
    } else if name == "RLIMIT_AS"@ {
        Some(RlimitResource::As)
    } else if name == "RLIMIT_CPU"@ {
        Some(RlimitResource::Cpu)
    } else if name == "RLIMIT_FSIZE"@ {
        Some(RlimitResource::Fsize)
    } else if name == "RLIMIT_DATA"@ {
        Some(RlimitResource::Data)
    } else if name == "RLIMIT_LOCKS"@ {
        Some(RlimitResource::Locks)
    } else if name == "RLIMIT_MSGQUEUE"@ {
        Some(RlimitResource::Msgqueue)
    } else if name == "RLIMIT_NICE"@ {
        Some(RlimitResource::Nice)
    } else if name == "RLIMIT_RSS"@ {
        Some(RlimitResource::Rss)
    } else if name == "RLIMIT_RTPRIO"@ {
        Some(RlimitResource::Rtprio)
    } else if name == "RLIMIT_RTTIME"@ {
        Some(RlimitResource::Rttime)
    } else if name == "RLIMIT_SIGPENDING"@ {
        Some(RlimitResource::Sigpending)
    } else {
        None
    }
}

/// The index of the capability that the `caps` crate reads from `name`.
pub uninterp spec fn caps_capability_index(name: Seq<char>) -> Option<u8>;

/// `<caps::Capability as FromStr>::from_str(name)` then `index()`: claims
/// that the answer is a function of the name.
#[verifier::external_body]
fn parse_capability(name: &str) -> (r: Option<u8>)
    ensures
        r == caps_capability_index(name@),
{
    match name.parse::<caps::Capability>() {
        Ok(c) => Some(c.index()),
        Err(_) => None,
    }
}

/// `caps::all()`, each capability taken by its index: claims what the
/// source shows, that it holds the forty-one capabilities whose indices
/// are 0 through 40, each once (in the set's own order).
#[verifier::external_body]
fn supported_capabilities() -> (r: Vec<u8>)
    ensures
        r@.no_duplicates(),
        forall|k: u8| r@.contains(k) <==> k <= 40,
{
    caps::all().iter().map(|c| c.index()).collect()
}

/// Whether `k` occurs in `v`.
fn contains_index(v: &Vec<u8>, k: u8) -> (r: bool)
    ensures
        r == v@.contains(k),
{
    let mut i: usize = 0;
    while i < v.len()
        invariant
            i <= v@.len(),
            forall|j: int| 0 <= j < i ==> v@[j] != k,
        decreases v@.len() - i,
    {
        if v[i] == k {
            return true;
        }
        i = i + 1;
    }
    false
}

/// A capability name without its `CAP_` prefix, when it has one.
pub open spec fn strip_cap(name: Seq<char>) -> Seq<char> {
    if name.len() >= 4 && name.take(4) == "CAP_"@ {
        name.skip(4)
    } else {
        name
    }
}

/// The canonical name of a capability: `CAP_` followed by the name without
/// any `CAP_` prefix it already has, so that `SYS_ADMIN` and
/// `CAP_SYS_ADMIN` name the same capability.
pub open spec fn cap_name(name: Seq<char>) -> Seq<char> {
    "CAP_"@ + strip_cap(name)
}

/// The set of capabilities that the names in a set read as, each once, in
/// the order of first reading; names that do not read as a capability are
/// left out.
pub open spec fn cap_indices(names: Seq<Seq<char>>) -> Seq<u8>
    decreases names.len(),
{
    if names.len() == 0 {
        seq![]
    } else {
        let before = cap_indices(names.drop_last());
        match caps_capability_index(cap_name(names.last())) {
            Some(k) => if before.contains(k) {
                before
            } else {
                before.push(k)
            },
            None => before,
        }
    }
}

/// A capability set read from names holds each capability once.
pub proof fn lemma_cap_indices_distinct(names: Seq<Seq<char>>)
    ensures
        cap_indices(names).no_duplicates(),
    decreases names.len(),
{
    if names.len() > 0 {
        let before = cap_indices(names.drop_last());
        lemma_cap_indices_distinct(names.drop_last());
        match caps_capability_index(cap_name(names.last())) {
            Some(k) => {
                if !before.contains(k) {
                    let after = before.push(k);
                    assert forall|a: int, b: int|
                        0 <= a < after.len() && 0 <= b < after.len() && a != b implies after[a]
                        != after[b] by {
                        if a < before.len() && b < before.len() {
                            assert(before[a] != before[b]);
                        } else if a == before.len() {
                            assert(after[b] == before[b]);
                        } else {
                            assert(after[a] == before[a]);
                        }
                    }
                }
            },
            None => {},
        }
    }
}

pub open spec fn opt_cap_indices(names: Option<Vec<String>>) -> Seq<u8> {
    match names {
        Some(v) => cap_indices(texts_view(v@)),
        None => seq![],
    }
}

/// The capability sets to apply, as capability indices. The ambient set is
/// only applied when it is not empty.
#[derive(Debug, Clone)]
pub struct CapabilityPlan {
    pub bounding: Vec<u8>,
    pub inheritable: Vec<u8>,
    pub permitted: Vec<u8>,
    pub effective: Vec<u8>,
    pub ambient: Option<Vec<u8>>,
}

/// A seccomp action as the filter applies it.
#[derive(Debug, Clone, Copy, PartialEq, Eq, Structural)]
pub enum SeccompAction {
    Allow,
    Errno(u16),
    KillThread,
    KillProcess,
    Trap,
}

/// How a configured seccomp action is applied, or the name of one that is
/// not supported.
pub open spec fn seccomp_action_of(k: SeccompActionKind) -> Result<SeccompAction, Seq<char>> {
    match k {
        SeccompActionKind::Allow => Ok(SeccompAction::Allow),
        SeccompActionKind::Errno => Ok(SeccompAction::Errno(1)),
        SeccompActionKind::Kill => Ok(SeccompAction::KillThread),
        SeccompActionKind::KillProcess => Ok(SeccompAction::KillProcess),
        SeccompActionKind::Log => Ok(SeccompAction::Allow),
        SeccompActionKind::Trap => Ok(SeccompAction::Trap),
        SeccompActionKind::KillThread => Err("ScmpActKillThread"@),
        SeccompActionKind::Notify => Err("ScmpActNotify"@),
        SeccompActionKind::Trace => Err("ScmpActTrace"@),
    }
}

impl SecMgr {
    /// Splits `KEY=VALUE` at the first `=`.
    pub fn split_env(var: &str) -> (r: Option<(String, String)>)
        ensures
            match (r, split_at_eq(var@)) {
                (Some(p), Some(q)) => p.0@ == q.0 && p.1@ == q.1,
                (None, None) => true,
                _ => false,
            },
    {
        let n = var.unicode_len();
        let mut i: usize = 0;
        while i < n
            invariant
                n == var@.len(),
                i <= n,
                forall|k: int| 0 <= k < i ==> var@[k] != '=',
            decreases n - i,
        {
            if var.get_char(i) == '=' {
                proof {
                    lemma_eq_index_found(var@, i as int);
                }
                let key = char_range(var, 0, i);
                let value = char_range(var, i + 1, n);
                assert(var@.subrange(0, i as int) =~= var@.take(i as int));
                assert(var@.subrange(i + 1, n as int) =~= var@.skip(i + 1));
                return Some((key, value));
            }
            i = i + 1;
        }
        proof {
            lemma_eq_index_none(var@);
        }
        None
    }

    /// The environment variables to set: each `KEY=VALUE` entry split at
    /// its first `=`, in order; entries without `=` are skipped.
    pub fn env_vars(vars: &Vec<String>) -> (r: Vec<(String, String)>)
        ensures
            pairs_view(r@) == env_pairs(texts_view(vars@)),
    {
        let ghost vs = texts_view(vars@);
        let mut out: Vec<(String, String)> = Vec::new();
        let mut i: usize = 0;
        assert(vs.take(0) =~= Seq::<Seq<char>>::empty());
        assert(pairs_view(out@) =~= Seq::<(Seq<char>, Seq<char>)>::empty());
        while i < vars.len()
            invariant
                vs == texts_view(vars@),
                i <= vars@.len(),
                pairs_view(out@) == env_pairs(vs.take(i as int)),
            decreases vars@.len() - i,
        {
            let ghost before = pairs_view(out@);
            assert(vs.take(i + 1).drop_last() =~= vs.take(i as int));
            assert(vs.take(i + 1).last() == vars@[i as int]@);
            match Self::split_env(vars[i].as_str()) {
                Some(p) => {
                    out.push(p);
                    assert(pairs_view(out@) =~= before.push((p.0@, p.1@)));
                },
                None => {},
            }
            i = i + 1;
        }
        assert(vs.take(vars@.len() as int) =~= vs);
        out
    }

    /// The resource a limit type names (such as `RLIMIT_NOFILE`), if it is
    /// one the runtime knows.
    pub fn rlimit_resource(name: &str) -> (r: Option<RlimitResource>)
        ensures
            r == rlimit_of(name@),
    {
        if str_eq(name, "RLIMIT_NOFILE") {
            Some(RlimitResource::Nofile)
        } else if str_eq(name, "RLIMIT_NPROC") {
            Some(RlimitResource::Nproc)
        } else if str_eq(name, "RLIMIT_MEMLOCK") {
            Some(RlimitResource::Memlock)
        } else if str_eq(name, "RLIMIT_CORE") {
            Some(RlimitResource::Core)
        } else if str_eq(name, "RLIMIT_STACK") {
            Some(RlimitResource::Stack)
        } else if str_eq(name, "RLIMIT_AS") {
            Some(RlimitResource::As)
        } else if str_eq(name, "RLIMIT_CPU") {
            Some(RlimitResource::Cpu)
        } else if str_eq(name, "RLIMIT_FSIZE") {
            Some(RlimitResource::Fsize)
        } else if str_eq(name, "RLIMIT_DATA") {
            Some(RlimitResource::Data)
        } else if str_eq(name, "RLIMIT_LOCKS") {
            Some(RlimitResource::Locks)
        } else if str_eq(name, "RLIMIT_MSGQUEUE") {
            Some(RlimitResource::Msgqueue)
        } else if str_eq(name, "RLIMIT_NICE") {
            Some(RlimitResource::Nice)
        } else if str_eq(name, "RLIMIT_RSS") {
            Some(RlimitResource::Rss)
        } else if str_eq(name, "RLIMIT_RTPRIO") {
            Some(RlimitResource::Rtprio)
        } else if str_eq(name, "RLIMIT_RTTIME") {
            Some(RlimitResource::Rttime)
        } else if str_eq(name, "RLIMIT_SIGPENDING") {
            Some(RlimitResource::Sigpending)
        } else {
            None
        }
    }

    /// The capability a configured name stands for, written with or
    /// without its `CAP_` prefix: the `caps` crate reads the name in its
    /// canonical `CAP_` form.
    pub fn capability_index(name: &str) -> (r: Option<u8>)
        ensures
            r == caps_capability_index(cap_name(name@)),
    {
        proof {
            reveal_strlit("CAP_");
        }
        let canonical = if starts_with(name, "CAP_") {
            assert(name@ =~= "CAP_"@ + name@.skip(4));
            String::from_str(name)
        } else {
            concat2("CAP_", name)
        };
        parse_capability(canonical.as_str())
    }

    /// The capabilities to drop from the bounding set so that it holds only
    /// `target`: every capability the `caps` crate supports that is not in
    /// `target`, each once.
    pub fn bounding_drops(target: &Vec<u8>) -> (r: Vec<u8>)
        ensures
            forall|k: u8| r@.contains(k) <==> (k <= 40 && !target@.contains(k)),
            r@.no_duplicates(),
    {
        let known = supported_capabilities();
        let mut out: Vec<u8> = Vec::new();
        let mut i: usize = 0;
        while i < known.len()
            invariant
                i <= known@.len(),
                known@.no_duplicates(),
                forall|k: u8| known@.contains(k) <==> k <= 40,
                forall|k: u8|
                    out@.contains(k) <==> (known@.take(i as int).contains(k) && !target@.contains(k)),
                out@.no_duplicates(),
            decreases known@.len() - i,
        {
            let k = known[i];
            let ghost before = out@;
            let ghost t0 = known@.take(i as int);
            let ghost t1 = known@.take(i + 1);
            assert(t1 =~= t0.push(k));
            assert(!t0.contains(k)) by {
                if t0.contains(k) {
                    let j = choose|j: int| 0 <= j < t0.len() && t0[j] == k;
                    assert(known@[j] == known@[i as int]);
                }
            }
            if !contains_index(target, k) {
                out.push(k);
                assert(out@ =~= before.push(k));
                assert forall|a: int, b: int|
                    0 <= a < out@.len() && 0 <= b < out@.len() && a != b implies out@[a]
                    != out@[b] by {
                    if a < before.len() && b < before.len() {
                        assert(before[a] != before[b]);
                    } else if a == before.len() {
                        assert(before[b] == out@[b]);
                    } else {
                        assert(before[a] == out@[a]);
                    }
                }
            }
            assert(!target@.contains(k) ==> out@ == before.push(k));
            assert(target@.contains(k) ==> out@ == before);
            assert forall|x: u8| out@.contains(x) <==> (t1.contains(x) && !target@.contains(x)) by {
                if x == k && !target@.contains(k) {
                    assert(out@[before.len() as int] == k);
                }
                if t1.contains(x) && x != k {
                    let j = choose|j: int| 0 <= j < t1.len() && t1[j] == x;
                    assert(t0[j] == x);
                }
                if t0.contains(x) {
                    let j = choose|j: int| 0 <= j < t0.len() && t0[j] == x;
                    assert(t1[j] == x);
                }
                if x == k {
                    assert(t1[i as int] == k);
                }
                if out@.contains(x) && !before.contains(x) {
                    let j = choose|j: int| 0 <= j < out@.len() && out@[j] == x;
                    if j < before.len() {
                        assert(before[j] == x);
                    }
                }
                if before.contains(x) {
                    let j = choose|j: int| 0 <= j < before.len() && before[j] == x;
                    assert(out@[j] == x);
                }
            }
            i = i + 1;
        }
        assert(known@.take(known@.len() as int) =~= known@);
        out
    }

    /// The capabilities of one configured set, each once, in the order of
    /// first reading.
    pub fn capability_set(names: &Option<Vec<String>>) -> (r: Vec<u8>)
        ensures
            r@ == opt_cap_indices(*names),
            r@.no_duplicates(),
    {
        let mut out: Vec<u8> = Vec::new();
        match names {
            None => {
                assert(out@ =~= Seq::<u8>::empty());
            },
            Some(v) => {
                let ghost vs = texts_view(v@);
                let mut i: usize = 0;
                assert(vs.take(0) =~= Seq::<Seq<char>>::empty());
                assert(out@ =~= Seq::<u8>::empty());
                while i < v.len()
                    invariant
                        vs == texts_view(v@),
                        i <= v@.len(),
                        out@ == cap_indices(vs.take(i as int)),
                    decreases v@.len() - i,
                {
                    assert(vs.take(i + 1).drop_last() =~= vs.take(i as int));
                    assert(vs.take(i + 1).last() == v@[i as int]@);
                    match Self::capability_index(v[i].as_str()) {
                        Some(k) => {
                            if !contains_index(&out, k) {
                                out.push(k);
                            }
                        },
                        None => {},
                    }
                    i = i + 1;
                }
                assert(vs.take(v@.len() as int) =~= vs);
                proof {
                    lemma_cap_indices_distinct(vs);
                }
            },
        }
        out
    }

    /// The capability sets of the process; the ambient set only when some
    /// ambient capability was read.
    pub fn capability_plan(caps: &CapabilityConfig) -> (r: CapabilityPlan)
        ensures
            r.bounding@ == opt_cap_indices(caps.bounding),
            r.inheritable@ == opt_cap_indices(caps.inheritable),
            r.permitted@ == opt_cap_indices(caps.permitted),
            r.effective@ == opt_cap_indices(caps.effective),
            opt_cap_indices(caps.ambient).len() == 0 ==> r.ambient is None,
            opt_cap_indices(caps.ambient).len() > 0 ==> (r.ambient matches Some(a) && a@
                == opt_cap_indices(caps.ambient)),
            r.bounding@.no_duplicates() && r.inheritable@.no_duplicates(),
            r.permitted@.no_duplicates() && r.effective@.no_duplicates(),
            r.ambient matches Some(a) ==> a@.no_duplicates(),
    {
        let ambient = Self::capability_set(&caps.ambient);
        CapabilityPlan {
            bounding: Self::capability_set(&caps.bounding),
            inheritable: Self::capability_set(&caps.inheritable),
            permitted: Self::capability_set(&caps.permitted),
            effective: Self::capability_set(&caps.effective),
            ambient: if ambient.len() == 0 {
                None
            } else {
                Some(ambient)
            },
        }
    }

    /// How a configured seccomp action is applied; `KillThread`, `Notify`
    /// and `Trace` are not supported.
    pub fn map_seccomp(action: SeccompActionKind) -> (r: Result<SeccompAction, KuroError>)
        ensures
            match seccomp_action_of(action) {
                Ok(a) => r == Ok::<SeccompAction, KuroError>(a),
                Err(name) => r matches Err(e) && e@ == ErrorView::Seccomp(
                    "Unsupported seccomp action: "@ + name,
                ),
            },
    {
        match action {
            SeccompActionKind::Allow => Ok(SeccompAction::Allow),
            SeccompActionKind::Errno => Ok(SeccompAction::Errno(1)),
            SeccompActionKind::Kill => Ok(SeccompAction::KillThread),
            SeccompActionKind::KillProcess => Ok(SeccompAction::KillProcess),
            SeccompActionKind::Log => Ok(SeccompAction::Allow),
            SeccompActionKind::Trap => Ok(SeccompAction::Trap),
            SeccompActionKind::KillThread => Err(
                KuroError::Seccomp(
                    concat2("Unsupported seccomp action: ", "ScmpActKillThread"),
                ),
            ),
            SeccompActionKind::Notify => Err(
                KuroError::Seccomp(concat2("Unsupported seccomp action: ", "ScmpActNotify")),
            ),
            SeccompActionKind::Trace => Err(
                KuroError::Seccomp(concat2("Unsupported seccomp action: ", "ScmpActTrace")),
            ),
        }
    }
}

/// A capability name reads the same with or without its `CAP_` prefix:
/// for a name that does not itself start with `CAP_`, writing `CAP_` in
/// front of it names the same capability.
pub proof fn law_cap_prefix_optional(name: Seq<char>)
    requires
        !(name.len() >= 4 && name.take(4) == "CAP_"@),
    ensures
        cap_name("CAP_"@ + name) == cap_name(name),
        caps_capability_index(cap_name("CAP_"@ + name)) == caps_capability_index(cap_name(name)),
{
    reveal_strlit("CAP_");
    let full = "CAP_"@ + name;
    assert(full.take(4) =~= "CAP_"@);
    assert(full.skip(4) =~= name);
}

/// Each limit type reads as the resource of the same name, and no two
/// names read as the same resource.
pub proof fn law_rlimit_names_match(a: Seq<char>, b: Seq<char>)
    ensures
        rlimit_of("RLIMIT_NOFILE"@) == Some(RlimitResource::Nofile),
        rlimit_of("RLIMIT_NPROC"@) == Some(RlimitResource::Nproc),
        rlimit_of("RLIMIT_MEMLOCK"@) == Some(RlimitResource::Memlock),
        rlimit_of("RLIMIT_CORE"@) == Some(RlimitResource::Core),
        rlimit_of("RLIMIT_STACK"@) == Some(RlimitResource::Stack),
        rlimit_of("RLIMIT_AS"@) == Some(RlimitResource::As),
        rlimit_of("RLIMIT_CPU"@) == Some(RlimitResource::Cpu),
        rlimit_of("RLIMIT_FSIZE"@) == Some(RlimitResource::Fsize),
        rlimit_of("RLIMIT_DATA"@) == Some(RlimitResource::Data),
        rlimit_of("RLIMIT_LOCKS"@) == Some(RlimitResource::Locks),
        rlimit_of("RLIMIT_MSGQUEUE"@) == Some(RlimitResource::Msgqueue),
        rlimit_of("RLIMIT_NICE"@) == Some(RlimitResource::Nice),
        rlimit_of("RLIMIT_RSS"@) == Some(RlimitResource::Rss),
        rlimit_of("RLIMIT_RTPRIO"@) == Some(RlimitResource::Rtprio),
        rlimit_of("RLIMIT_RTTIME"@) == Some(RlimitResource::Rttime),
        rlimit_of("RLIMIT_SIGPENDING"@) == Some(RlimitResource::Sigpending),
        (rlimit_of(a) is Some && rlimit_of(a) == rlimit_of(b)) ==> a == b,
{
    reveal_strlit("RLIMIT_NOFILE");
    reveal_strlit("RLIMIT_NPROC");
    reveal_strlit("RLIMIT_MEMLOCK");
    reveal_strlit("RLIMIT_CORE");
    reveal_strlit("RLIMIT_STACK");
    reveal_strlit("RLIMIT_AS");
    reveal_strlit("RLIMIT_CPU");
    reveal_strlit("RLIMIT_FSIZE");
    reveal_strlit("RLIMIT_DATA");
    reveal_strlit("RLIMIT_LOCKS");
    reveal_strlit("RLIMIT_MSGQUEUE");
    reveal_strlit("RLIMIT_NICE");
    reveal_strlit("RLIMIT_RSS");
    reveal_strlit("RLIMIT_RTPRIO");
    reveal_strlit("RLIMIT_RTTIME");
    reveal_strlit("RLIMIT_SIGPENDING");
    assert("RLIMIT_NOFILE"@.len() == 13 && "RLIMIT_NOFILE"@[7] == 'N');
    assert("RLIMIT_NOFILE"@[9] == 'F');
    assert("RLIMIT_NPROC"@.len() == 12 && "RLIMIT_NPROC"@[7] == 'N');
    assert("RLIMIT_NPROC"@[9] == 'R');
    assert("RLIMIT_MEMLOCK"@.len() == 14 && "RLIMIT_MEMLOCK"@[7] == 'M');
    assert("RLIMIT_MEMLOCK"@[9] == 'M');
    assert("RLIMIT_CORE"@.len() == 11 && "RLIMIT_CORE"@[7] == 'C');
    assert("RLIMIT_CORE"@[9] == 'R');
    assert("RLIMIT_STACK"@.len() == 12 && "RLIMIT_STACK"@[7] == 'S');
    assert("RLIMIT_STACK"@[9] == 'A');
    assert("RLIMIT_AS"@.len() == 9 && "RLIMIT_AS"@[7] == 'A');
    assert("RLIMIT_CPU"@.len() == 10 && "RLIMIT_CPU"@[7] == 'C');
    assert("RLIMIT_CPU"@[9] == 'U');
    assert("RLIMIT_FSIZE"@.len() == 12 && "RLIMIT_FSIZE"@[7] == 'F');
    assert("RLIMIT_FSIZE"@[9] == 'I');
    assert("RLIMIT_DATA"@.len() == 11 && "RLIMIT_DATA"@[7] == 'D');
    assert("RLIMIT_DATA"@[9] == 'T');
    assert("RLIMIT_LOCKS"@.len() == 12 && "RLIMIT_LOCKS"@[7] == 'L');
    assert("RLIMIT_LOCKS"@[9] == 'C');
    assert("RLIMIT_MSGQUEUE"@.len() == 15 && "RLIMIT_MSGQUEUE"@[7] == 'M');
    assert("RLIMIT_MSGQUEUE"@[9] == 'G');
    assert("RLIMIT_NICE"@.len() == 11 && "RLIMIT_NICE"@[7] == 'N');
    assert("RLIMIT_NICE"@[9] == 'C');
    assert("RLIMIT_RSS"@.len() == 10 && "RLIMIT_RSS"@[7] == 'R');
    assert("RLIMIT_RSS"@[9] == 'S');
    assert("RLIMIT_RTPRIO"@.len() == 13 && "RLIMIT_RTPRIO"@[7] == 'R');
    assert("RLIMIT_RTPRIO"@[9] == 'P');
    assert("RLIMIT_RTTIME"@.len() == 13 && "RLIMIT_RTTIME"@[7] == 'R');
    assert("RLIMIT_RTTIME"@[9] == 'T');
    assert("RLIMIT_SIGPENDING"@.len() == 17 && "RLIMIT_SIGPENDING"@[7] == 'S');
    assert("RLIMIT_SIGPENDING"@[9] == 'G');
}

/// The seccomp actions: `allow` and `log` let the call through, `errno`
/// fails it with EPERM (1), `kill` ends the thread and `kill_process` the
/// process, `trap` raises SIGSYS; `kill_thread`, `notify` and `trace` are
/// not supported.
pub proof fn law_seccomp_actions()
    ensures
        seccomp_action_of(SeccompActionKind::Allow) == Ok::<SeccompAction, Seq<char>>(SeccompAction::Allow),
        seccomp_action_of(SeccompActionKind::Log) == Ok::<SeccompAction, Seq<char>>(SeccompAction::Allow),
        seccomp_action_of(SeccompActionKind::Errno) == Ok::<SeccompAction, Seq<char>>(SeccompAction::Errno(1)),
        seccomp_action_of(SeccompActionKind::Kill) == Ok::<SeccompAction, Seq<char>>(SeccompAction::KillThread),
        seccomp_action_of(SeccompActionKind::KillProcess) == Ok::<SeccompAction, Seq<char>>(SeccompAction::KillProcess),
        seccomp_action_of(SeccompActionKind::Trap) == Ok::<SeccompAction, Seq<char>>(SeccompAction::Trap),
        seccomp_action_of(SeccompActionKind::KillThread) is Err,
        seccomp_action_of(SeccompActionKind::Notify) is Err,
        seccomp_action_of(SeccompActionKind::Trace) is Err,
{
}

proof fn lemma_eq_index_first(s: Seq<char>)
    ensures
        eq_index(s) matches Some(k) ==> (0 <= k < s.len() && s[k] == '=' && forall|j: int|
            0 <= j < k ==> s[j] != '='),
        eq_index(s) is None ==> forall|j: int| 0 <= j < s.len() ==> s[j] != '=',
    decreases s.len(),
{
    if s.len() > 0 && s[0] != '=' {
        lemma_eq_index_first(s.drop_first());
        assert forall|j: int| 1 <= j < s.len() implies s[j] == s.drop_first()[j - 1] by {}
    }
}

/// An environment entry splits exactly when it holds an `=`: the key is
/// everything before the first `=` (so it holds none), the value all after
/// it, and key, `=` and value give back the entry.
pub proof fn law_env_entry_split(var: Seq<char>)
    ensures
        split_at_eq(var) is Some <==> var.contains('='),
        split_at_eq(var) matches Some(p) ==> (!p.0.contains('=') && p.0 + seq!['='] + p.1 == var),
{
    lemma_eq_index_first(var);
    match eq_index(var) {
        Some(k) => {
            assert(var[k] == '=');
            let key = var.take(k);
            assert forall|j: int| 0 <= j < key.len() implies key[j] != '=' by {
                assert(key[j] == var[j]);
            }
            assert(key + seq!['='] + var.skip(k + 1) =~= var);
        },
        None => {},
    }
}

} // verus!
