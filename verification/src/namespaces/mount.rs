//! The container's mounts: mount options, the overlay root filesystem and
//! masked paths.
use vstd::prelude::*;

use crate::text::{concat2, join_path, path_join, str_eq, texts_view};

verus! {

/// The mount flags the runtime understands, each as a switch.
#[derive(Debug, Clone, Copy, PartialEq, Eq, Structural)]
pub struct MountFlagSet {
    pub rdonly: bool,
    pub nosuid: bool,
    pub nodev: bool,
    pub noexec: bool,
    pub bind: bool,
    pub rec: bool,
    pub remount: bool,
    pub private: bool,
    pub slave: bool,
    pub shared: bool,
}

/// A mount option, read.
#[derive(Debug, Clone, Copy, PartialEq, Eq, Structural)]
pub enum MountOption {
    Ro,
    Nosuid,
    Nodev,
    Noexec,
    Bind,
    Rbind,
    Rec,
    Remount,
    Private,
    Slave,
    Shared,
    /// Passed on to the filesystem as data.
    Data,
}

/// How one option text reads.
pub open spec fn option_kind(o: Seq<char>) -> MountOption {
    if o == "ro"@ {
        MountOption::Ro
    } else if o == "nosuid"@ {
        MountOption::Nosuid
    } else if o == "nodev"@ {
        MountOption::Nodev
    } else if o == "noexec"@ {
        MountOption::Noexec
    } else if o == "bind"@ {
        MountOption::Bind
    } else if o == "rbind"@ {
        MountOption::Rbind
    } else if o == "rec"@ {
        MountOption::Rec
    } else if o == "remount"@ {
        MountOption::Remount
    } else if o == "private"@ {
        MountOption::Private
    } else if o == "slave"@ {
        MountOption::Slave
    } else if o == "shared"@ {
        MountOption::Shared
    } else {
        MountOption::Data
    }
}

/// Whether some option among `opts` reads as `k`.
pub open spec fn has_option(opts: Seq<Seq<char>>, k: MountOption) -> bool {
    exists|i: int| 0 <= i < opts.len() && option_kind(#[trigger] opts[i]) == k
}

/// The flags that `opts` switch on; `rbind` switches on both `bind` and
/// `rec`.
pub open spec fn option_flags(opts: Seq<Seq<char>>) -> MountFlagSet {
    MountFlagSet {
        rdonly: has_option(opts, MountOption::Ro),
        nosuid: has_option(opts, MountOption::Nosuid),
        nodev: has_option(opts, MountOption::Nodev),
        noexec: has_option(opts, MountOption::Noexec),
        bind: has_option(opts, MountOption::Bind) || has_option(opts, MountOption::Rbind),
        rec: has_option(opts, MountOption::Rec) || has_option(opts, MountOption::Rbind),
        remount: has_option(opts, MountOption::Remount),
        private: has_option(opts, MountOption::Private),
        slave: has_option(opts, MountOption::Slave),
        shared: has_option(opts, MountOption::Shared),
    }
}

/// The options that are not flags, in order.
pub open spec fn data_options(opts: Seq<Seq<char>>) -> Seq<Seq<char>>
    decreases opts.len(),
{
    if opts.len() == 0 {
        seq![]
    } else if option_kind(opts.last()) == MountOption::Data {
        data_options(opts.drop_last()).push(opts.last())
    } else {
        data_options(opts.drop_last())
    }
}

/// Whether an option text is none of the flag names.
pub open spec fn not_a_flag_name(o: Seq<char>) -> bool {
    o != "ro"@ && o != "nosuid"@ && o != "nodev"@ && o != "noexec"@ && o != "bind"@ && o != "rbind"@ && o != "rec"@ && o != "remount"@ && o != "private"@ && o != "slave"@ && o != "shared"@
}

/// Each option text reads as the flag of exactly its own name; any other
/// text is filesystem data.
pub proof fn lemma_option_names(o: Seq<char>)
    ensures
        (option_kind(o) == MountOption::Ro) == (o == "ro"@),
        (option_kind(o) == MountOption::Nosuid) == (o == "nosuid"@),
        (option_kind(o) == MountOption::Nodev) == (o == "nodev"@),
        (option_kind(o) == MountOption::Noexec) == (o == "noexec"@),
        (option_kind(o) == MountOption::Bind) == (o == "bind"@),
        (option_kind(o) == MountOption::Rbind) == (o == "rbind"@),
        (option_kind(o) == MountOption::Rec) == (o == "rec"@),
        (option_kind(o) == MountOption::Remount) == (o == "remount"@),
        (option_kind(o) == MountOption::Private) == (o == "private"@),
        (option_kind(o) == MountOption::Slave) == (o == "slave"@),
        (option_kind(o) == MountOption::Shared) == (o == "shared"@),
        (option_kind(o) == MountOption::Data) == not_a_flag_name(o),
{
    reveal_strlit("ro");
    reveal_strlit("nosuid");
    reveal_strlit("nodev");
    reveal_strlit("noexec");
    reveal_strlit("bind");
    reveal_strlit("rbind");
    reveal_strlit("rec");
    reveal_strlit("remount");
    reveal_strlit("private");
    reveal_strlit("slave");
    reveal_strlit("shared");
    assert("ro"@.len() == 2 && "ro"@[0] == 'r');
    assert("nosuid"@.len() == 6 && "nosuid"@[0] == 'n');
    assert("nosuid"@[2] == 's');
    assert("nodev"@.len() == 5 && "nodev"@[0] == 'n');
    assert("nodev"@[2] == 'd');
    assert("noexec"@.len() == 6 && "noexec"@[0] == 'n');
    assert("noexec"@[2] == 'e');
    assert("bind"@.len() == 4 && "bind"@[0] == 'b');
    assert("bind"@[2] == 'n');
    assert("rbind"@.len() == 5 && "rbind"@[0] == 'r');
    assert("rbind"@[2] == 'i');
    assert("rec"@.len() == 3 && "rec"@[0] == 'r');
    assert("rec"@[2] == 'c');
    assert("remount"@.len() == 7 && "remount"@[0] == 'r');
    assert("remount"@[2] == 'm');
    assert("private"@.len() == 7 && "private"@[0] == 'p');
    assert("private"@[2] == 'i');
    assert("slave"@.len() == 5 && "slave"@[0] == 's');
    assert("slave"@[2] == 'a');
    assert("shared"@.len() == 6 && "shared"@[0] == 's');
    assert("shared"@[2] == 'a');
}

/// An option kind that only one text reads as is given exactly when that
/// text is.
proof fn lemma_has_option_literal(opts: Seq<Seq<char>>, k: MountOption, lit: Seq<char>)
    requires
        forall|o: Seq<char>| (#[trigger] option_kind(o) == k) == (o == lit),
    ensures
        has_option(opts, k) == (exists|i: int| 0 <= i < opts.len() && #[trigger] opts[i] == lit),
{
    if has_option(opts, k) {
        let i = choose|i: int| 0 <= i < opts.len() && option_kind(#[trigger] opts[i]) == k;
        assert(opts[i] == lit);
    }
    if exists|i: int| 0 <= i < opts.len() && #[trigger] opts[i] == lit {
        let i = choose|i: int| 0 <= i < opts.len() && #[trigger] opts[i] == lit;
        assert(option_kind(opts[i]) == k);
    }
}

/// A flag is switched on exactly when an option of its own name is given
/// (`rbind` switching on both `bind` and `rec`), so `rw` or any other text
/// never sets `rdonly`; every option that is not a flag name is kept, in
/// order, as filesystem data.
pub proof fn law_mount_options_read_literally(opts: Seq<Seq<char>>)
    ensures
        option_flags(opts).rdonly == (exists|i: int| 0 <= i < opts.len() && (#[trigger] opts[i] == "ro"@)),
        option_flags(opts).nosuid == (exists|i: int| 0 <= i < opts.len() && (#[trigger] opts[i] == "nosuid"@)),
        option_flags(opts).nodev == (exists|i: int| 0 <= i < opts.len() && (#[trigger] opts[i] == "nodev"@)),
        option_flags(opts).noexec == (exists|i: int| 0 <= i < opts.len() && (#[trigger] opts[i] == "noexec"@)),
        option_flags(opts).bind == (exists|i: int| 0 <= i < opts.len() && (#[trigger] opts[i] == "bind"@ || opts[i] == "rbind"@)),
        option_flags(opts).rec == (exists|i: int| 0 <= i < opts.len() && (#[trigger] opts[i] == "rec"@ || opts[i] == "rbind"@)),
        option_flags(opts).remount == (exists|i: int| 0 <= i < opts.len() && (#[trigger] opts[i] == "remount"@)),
        option_flags(opts).private == (exists|i: int| 0 <= i < opts.len() && (#[trigger] opts[i] == "private"@)),
        option_flags(opts).slave == (exists|i: int| 0 <= i < opts.len() && (#[trigger] opts[i] == "slave"@)),
        option_flags(opts).shared == (exists|i: int| 0 <= i < opts.len() && (#[trigger] opts[i] == "shared"@)),
        data_options(opts) == opts.filter(|o: Seq<char>| not_a_flag_name(o)),
    decreases opts.len(),
{
    assert forall|o: Seq<char>| (#[trigger] option_kind(o) == MountOption::Ro) == (o == "ro"@) by {
        lemma_option_names(o);
    }
    lemma_has_option_literal(opts, MountOption::Ro, "ro"@);
    assert forall|o: Seq<char>| (#[trigger] option_kind(o) == MountOption::Nosuid) == (o == "nosuid"@) by {
        lemma_option_names(o);
    }
    lemma_has_option_literal(opts, MountOption::Nosuid, "nosuid"@);
    assert forall|o: Seq<char>| (#[trigger] option_kind(o) == MountOption::Nodev) == (o == "nodev"@) by {
        lemma_option_names(o);
    }
    lemma_has_option_literal(opts, MountOption::Nodev, "nodev"@);
    assert forall|o: Seq<char>| (#[trigger] option_kind(o) == MountOption::Noexec) == (o == "noexec"@) by {
        lemma_option_names(o);
    }
    lemma_has_option_literal(opts, MountOption::Noexec, "noexec"@);
    assert forall|o: Seq<char>| (#[trigger] option_kind(o) == MountOption::Bind) == (o == "bind"@) by {
        lemma_option_names(o);
    }
    lemma_has_option_literal(opts, MountOption::Bind, "bind"@);
    assert forall|o: Seq<char>| (#[trigger] option_kind(o) == MountOption::Rbind) == (o == "rbind"@) by {
        lemma_option_names(o);
    }
    lemma_has_option_literal(opts, MountOption::Rbind, "rbind"@);
    assert forall|o: Seq<char>| (#[trigger] option_kind(o) == MountOption::Rec) == (o == "rec"@) by {
        lemma_option_names(o);
    }
    lemma_has_option_literal(opts, MountOption::Rec, "rec"@);
    assert forall|o: Seq<char>| (#[trigger] option_kind(o) == MountOption::Remount) == (o == "remount"@) by {
        lemma_option_names(o);
    }
    lemma_has_option_literal(opts, MountOption::Remount, "remount"@);
    assert forall|o: Seq<char>| (#[trigger] option_kind(o) == MountOption::Private) == (o == "private"@) by {
        lemma_option_names(o);
    }
    lemma_has_option_literal(opts, MountOption::Private, "private"@);
    assert forall|o: Seq<char>| (#[trigger] option_kind(o) == MountOption::Slave) == (o == "slave"@) by {
        lemma_option_names(o);
    }
    lemma_has_option_literal(opts, MountOption::Slave, "slave"@);
    assert forall|o: Seq<char>| (#[trigger] option_kind(o) == MountOption::Shared) == (o == "shared"@) by {
        lemma_option_names(o);
    }
    lemma_has_option_literal(opts, MountOption::Shared, "shared"@);
    reveal(Seq::filter);
    if opts.len() > 0 {
        law_mount_options_read_literally(opts.drop_last());
        lemma_option_names(opts.last());
    }
}

/// `parts` joined by commas.
pub open spec fn comma_joined(parts: Seq<Seq<char>>) -> Seq<char>
    decreases parts.len(),
{
    if parts.len() == 0 {
        seq![]
    } else if parts.len() == 1 {
        parts[0]
    } else {
        comma_joined(parts.drop_last()) + ","@ + parts.last()
    }
}

/// How a mount option reads.
pub fn read_option(o: &str) -> (r: MountOption)
    ensures
        r == option_kind(o@),
{
    if str_eq(o, "ro") {
        MountOption::Ro
    } else if str_eq(o, "nosuid") {
        MountOption::Nosuid
    } else if str_eq(o, "nodev") {
        MountOption::Nodev
    } else if str_eq(o, "noexec") {
        MountOption::Noexec
    } else if str_eq(o, "bind") {
        MountOption::Bind
    } else if str_eq(o, "rbind") {
        MountOption::Rbind
    } else if str_eq(o, "rec") {
        MountOption::Rec
    } else if str_eq(o, "remount") {
        MountOption::Remount
    } else if str_eq(o, "private") {
        MountOption::Private
    } else if str_eq(o, "slave") {
        MountOption::Slave
    } else if str_eq(o, "shared") {
        MountOption::Shared
    } else {
        MountOption::Data
    }
}

pub open spec fn no_flags() -> MountFlagSet {
    MountFlagSet {
        rdonly: false,
        nosuid: false,
        nodev: false,
        noexec: false,
        bind: false,
        rec: false,
        remount: false,
        private: false,
        slave: false,
        shared: false,
    }
}

/// `flags` with the switch of option `k` turned on.
pub open spec fn with_option(flags: MountFlagSet, k: MountOption) -> MountFlagSet {
    match k {
        MountOption::Ro => MountFlagSet { rdonly: true, ..flags },
        MountOption::Nosuid => MountFlagSet { nosuid: true, ..flags },
        MountOption::Nodev => MountFlagSet { nodev: true, ..flags },
        MountOption::Noexec => MountFlagSet { noexec: true, ..flags },
        MountOption::Bind => MountFlagSet { bind: true, ..flags },
        MountOption::Rbind => MountFlagSet { bind: true, rec: true, ..flags },
        MountOption::Rec => MountFlagSet { rec: true, ..flags },
        MountOption::Remount => MountFlagSet { remount: true, ..flags },
        MountOption::Private => MountFlagSet { private: true, ..flags },
        MountOption::Slave => MountFlagSet { slave: true, ..flags },
        MountOption::Shared => MountFlagSet { shared: true, ..flags },
        MountOption::Data => flags,
    }
}

proof fn lemma_flags_step(opts: Seq<Seq<char>>, i: int)
    requires
        0 <= i < opts.len(),
    ensures
        option_flags(opts.take(i + 1)) == with_option(
            option_flags(opts.take(i)),
            option_kind(opts[i]),
        ),
{
    let a = opts.take(i);
    let b = opts.take(i + 1);
    assert forall|k: MountOption| has_option(b, k) == (has_option(a, k) || option_kind(opts[i])
        == k) by {
        if has_option(b, k) {
            let j = choose|j: int| 0 <= j < b.len() && option_kind(#[trigger] b[j]) == k;
            if j < i {
                assert(a[j] == b[j]);
            }
        }
        if has_option(a, k) {
            let j = choose|j: int| 0 <= j < a.len() && option_kind(#[trigger] a[j]) == k;
            assert(b[j] == a[j]);
        }
        if option_kind(opts[i]) == k {
            assert(b[i] == opts[i]);
        }
    }
    assert(has_option(b, MountOption::Ro) == (has_option(a, MountOption::Ro) || option_kind(opts[i])
        == MountOption::Ro));
    assert(has_option(b, MountOption::Nosuid) == (has_option(a, MountOption::Nosuid)
        || option_kind(opts[i]) == MountOption::Nosuid));
    assert(has_option(b, MountOption::Nodev) == (has_option(a, MountOption::Nodev)
        || option_kind(opts[i]) == MountOption::Nodev));
    assert(has_option(b, MountOption::Noexec) == (has_option(a, MountOption::Noexec)
        || option_kind(opts[i]) == MountOption::Noexec));
    assert(has_option(b, MountOption::Bind) == (has_option(a, MountOption::Bind) || option_kind(
        opts[i],
    ) == MountOption::Bind));
    assert(has_option(b, MountOption::Rbind) == (has_option(a, MountOption::Rbind)
        || option_kind(opts[i]) == MountOption::Rbind));
    assert(has_option(b, MountOption::Rec) == (has_option(a, MountOption::Rec) || option_kind(
        opts[i],
    ) == MountOption::Rec));
    assert(has_option(b, MountOption::Remount) == (has_option(a, MountOption::Remount)
        || option_kind(opts[i]) == MountOption::Remount));
    assert(has_option(b, MountOption::Private) == (has_option(a, MountOption::Private)
        || option_kind(opts[i]) == MountOption::Private));
    assert(has_option(b, MountOption::Slave) == (has_option(a, MountOption::Slave)
        || option_kind(opts[i]) == MountOption::Slave));
    assert(has_option(b, MountOption::Shared) == (has_option(a, MountOption::Shared)
        || option_kind(opts[i]) == MountOption::Shared));
}

fn add_option(flags: MountFlagSet, k: MountOption) -> (r: MountFlagSet)
    ensures
        r == with_option(flags, k),
{
    let mut f = flags;
    match k {
        MountOption::Ro => f.rdonly = true,
        MountOption::Nosuid => f.nosuid = true,
        MountOption::Nodev => f.nodev = true,
        MountOption::Noexec => f.noexec = true,
        MountOption::Bind => f.bind = true,
        MountOption::Rbind => {
            f.bind = true;
            f.rec = true;
        },
        MountOption::Rec => f.rec = true,
        MountOption::Remount => f.remount = true,
        MountOption::Private => f.private = true,
        MountOption::Slave => f.slave = true,
        MountOption::Shared => f.shared = true,
        MountOption::Data => {},
    }
    f
}

/// The parts of a mount's overlay root filesystem.
#[derive(Debug, Clone)]
pub struct OverlayLayout {
    pub lower: String,
    pub upper: String,
    pub work: String,
    pub merged: String,
}

/// What masking a path does.
#[derive(Debug, Clone, Copy, PartialEq, Eq, Structural)]
pub enum MaskAction {
    /// The path does not exist: nothing to mask.
    Skip,
    /// A directory: mount an empty read-only tmpfs over it.
    EmptyTmpfs,
    /// A file: bind-mount `/dev/null` over it.
    BindDevNull,
}

/// The manager of the container's mount namespace.
pub struct MountMgr;

impl MountMgr {
    /// Reads a mount's options into flags and filesystem data: the flags
    /// that the options name, and the other options joined by commas.
    pub fn parse_mount_options(options: &Vec<String>) -> (r: (MountFlagSet, String))
        ensures
            r.0 == option_flags(texts_view(options@)),
            r.1@ == comma_joined(data_options(texts_view(options@))),
    {
        let ghost opts = texts_view(options@);
        let mut flags = MountFlagSet {
            rdonly: false,
            nosuid: false,
            nodev: false,
            noexec: false,
            bind: false,
            rec: false,
            remount: false,
            private: false,
            slave: false,
            shared: false,
        };
        let mut data: Vec<String> = Vec::new();
        let mut i: usize = 0;
        assert(opts.take(0) =~= Seq::<Seq<char>>::empty());
        assert(option_flags(opts.take(0)) == no_flags());
        while i < options.len()
            invariant
                opts == texts_view(options@),
                i <= options@.len(),
                flags == option_flags(opts.take(i as int)),
                texts_view(data@) == data_options(opts.take(i as int)),
            decreases options@.len() - i,
        {
            let k = read_option(options[i].as_str());
            proof {
                lemma_flags_step(opts, i as int);
            }
            flags = add_option(flags, k);
            let ghost before = texts_view(data@);
            let ghost t = opts.take(i + 1);
            assert(t.drop_last() =~= opts.take(i as int));
            assert(t.last() == options@[i as int]@);
            if k == MountOption::Data {
                data.push(options[i].clone());
                assert(texts_view(data@) =~= before.push(options@[i as int]@));
            }
            i = i + 1;
        }
        assert(opts.take(options@.len() as int) =~= opts);
        (flags, Self::join_commas(&data))
    }

    /// `parts` joined by commas.
    pub fn join_commas(parts: &Vec<String>) -> (r: String)
        ensures
            r@ == comma_joined(texts_view(parts@)),
    {
        if parts.len() == 0 {
            return String::new();
        }
        let mut s = parts[0].clone();
        let mut i: usize = 1;
        assert(texts_view(parts@).take(1) =~= seq![parts@[0]@]);
        while i < parts.len()
            invariant
                1 <= i <= parts@.len(),
                s@ == comma_joined(texts_view(parts@).take(i as int)),
            decreases parts@.len() - i,
        {
            s.append(",");
            s.append(parts[i].as_str());
            assert(texts_view(parts@).take(i + 1).drop_last() =~= texts_view(parts@).take(
                i as int,
            ));
            i = i + 1;
        }
        assert(texts_view(parts@).take(parts@.len() as int) =~= texts_view(parts@));
        s
    }

    /// The overlay of a container: `upper`, `work` and `merged` under
    /// `<bundle>/<id>`, over the configured root filesystem (`rootfs` when
    /// none is configured) as the lower layer.
    pub fn overlay_layout(bundle: &str, container_id: &str, root_path: Option<&str>) -> (r:
        OverlayLayout)
        ensures
            r.upper@ == path_join(path_join(bundle@, container_id@), "upper"@),
            r.work@ == path_join(path_join(bundle@, container_id@), "work"@),
            r.merged@ == path_join(path_join(bundle@, container_id@), "merged"@),
            r.lower@ == path_join(
                bundle@,
                match root_path {
                    Some(p) => p@,
                    None => "rootfs"@,
                },
            ),
    {
        let base = join_path(bundle, container_id);
        let lower = match root_path {
            Some(p) => join_path(bundle, p),
            None => join_path(bundle, "rootfs"),
        };
        OverlayLayout {
            lower,
            upper: join_path(base.as_str(), "upper"),
            work: join_path(base.as_str(), "work"),
            merged: join_path(base.as_str(), "merged"),
        }
    }

    /// The data of the overlay mount:
    /// `lowerdir=<lower>,upperdir=<upper>,workdir=<work>`.
    pub fn overlay_options(layout: &OverlayLayout) -> (r: String)
        ensures
            r@ == "lowerdir="@ + layout.lower@ + ",upperdir="@ + layout.upper@ + ",workdir="@
                + layout.work@,
    {
        let mut s = concat2("lowerdir=", layout.lower.as_str());
        s.append(",upperdir=");
        s.append(layout.upper.as_str());
        s.append(",workdir=");
        s.append(layout.work.as_str());
        s
    }

    /// Where the old root is put aside while pivoting into `root`.
    pub fn old_root_dir(root: &str) -> (r: String)
        ensures
            r@ == path_join(root@, "old_root"@),
    {
        join_path(root, "old_root")
    }

    /// How to mask a path: a missing path is left alone, a directory gets an
    /// empty read-only tmpfs, anything else gets `/dev/null`.
    pub fn mask_action(exists: bool, is_dir: bool) -> (r: MaskAction)
        ensures
            r == (if !exists {
                MaskAction::Skip
            } else if is_dir {
                MaskAction::EmptyTmpfs
            } else {
                MaskAction::BindDevNull
            }),
    {
        if !exists {
            MaskAction::Skip
        } else if is_dir {
            MaskAction::EmptyTmpfs
        } else {
            MaskAction::BindDevNull
        }
    }
}

} // verus!
