use vstd::prelude::*;
use vstd::string::StringExecFns;
use crate::action::{Action, MountFlags, Op, ops_of};
use crate::devnum::{dev_major, dev_minor, dev_number, lemma_dev_number_pair, make_dev};

verus! {

/// Read and write permission for the owning user only.
pub const OWNER_RW: u32 = 0o600;

/// The byte written to the handshake channel once the pivot is done.
pub const HANDSHAKE_BYTE: u8 = 10;

pub open spec fn flags_of(
    bind: bool,
    remount: bool,
    read_only: bool,
    nosuid: bool,
    nodev: bool,
    noexec: bool,
    relatime: bool,
    private: bool,
    recursive: bool,
) -> MountFlags {
    MountFlags { bind, remount, read_only, nosuid, nodev, noexec, relatime, private, recursive }
}

/// Flags of a hardened virtual file system: no set-user-ID, no devices, no
/// execution, relative access times.
pub open spec fn hardened(read_only: bool) -> MountFlags {
    flags_of(false, false, read_only, true, true, true, true, false, false)
}

pub open spec fn mount_op(
    target: Seq<char>,
    fstype: Option<Seq<char>>,
    flags: MountFlags,
    data: Option<Seq<char>>,
) -> Op {
    Op::Mount { source: None, target, fstype, flags, data }
}

pub open spec fn cgroup_dir(root: Seq<char>) -> Seq<char> {
    root + "/sys/fs/cgroup"@
}

/// The cgroup hierarchy under `<root>/sys/fs/cgroup`.
pub open spec fn cgroup_plan(root: Seq<char>) -> Seq<Op> {
    seq![
        mount_op(cgroup_dir(root), Some("tmpfs"@), hardened(false), None),
        Op::CreateDir { path: root + "/sys/fs/cgroup/memory"@ },
        Op::CreateDir { path: root + "/sys/fs/cgroup/cpu,cpuacct"@ },
        Op::CreateDir { path: root + "/sys/fs/cgroup/pids"@ },
        Op::Symlink { target: "cpu,cpuacct"@, link: root + "/sys/fs/cgroup/cpu"@ },
        mount_op(root + "/sys/fs/cgroup/memory"@, Some("cgroup"@), hardened(true), Some("memory"@)),
        mount_op(
            root + "/sys/fs/cgroup/cpu,cpuacct"@,
            Some("cgroup"@),
            hardened(true),
            Some("cpu,cpuacct"@),
        ),
        mount_op(root + "/sys/fs/cgroup/pids"@, Some("cgroup"@), hardened(true), Some("pids"@)),
        mount_op(
            cgroup_dir(root),
            None,
            flags_of(false, true, true, true, true, true, true, false, false),
            None,
        ),
    ]
}

/// The whole mount tree: the bind of the container root, the virtual file
/// systems, the cgroup hierarchy, and private propagation of the host root.
pub open spec fn mount_plan(root: Seq<char>, bind_root: Seq<char>) -> Seq<Op> {
    seq![
        Op::Mount {
            source: Some(root),
            target: bind_root,
            fstype: None,
            flags: flags_of(true, false, false, false, false, false, false, false, false),
            data: None,
        },
        mount_op(
            root + "/dev"@,
            Some("tmpfs"@),
            flags_of(false, false, false, true, false, false, false, false, false),
            None,
        ),
        mount_op(root + "/proc"@, Some("proc"@), hardened(false), None),
        mount_op(root + "/sys"@, Some("sysfs"@), hardened(true), None),
        mount_op(
            root + "/tmp"@,
            Some("tmpfs"@),
            flags_of(false, false, false, true, true, false, false, false, false),
            None,
        ),
    ] + cgroup_plan(root) + seq![
        mount_op(
            "/"@,
            None,
            flags_of(false, false, false, false, false, false, false, true, true),
            None,
        ),
    ]
}

pub open spec fn node_op(root: Seq<char>, name: Seq<char>, major: u64, minor: u64) -> Op {
    Op::MakeNode {
        path: root + name,
        major,
        minor,
        dev: dev_number(major, minor),
        mode: OWNER_RW,
    }
}

/// The four character devices under `<root>/dev`.
pub open spec fn node_plan(root: Seq<char>) -> Seq<Op> {
    seq![
        node_op(root, "/dev/null"@, 1, 3),
        node_op(root, "/dev/zero"@, 1, 5),
        node_op(root, "/dev/urandom"@, 1, 9),
        node_op(root, "/dev/tty"@, 5, 0),
    ]
}

pub open spec fn put_old_of(new_root: Seq<char>) -> Seq<char> {
    new_root + "/oldroot"@
}

/// The switch of the root directory to `new_root`, the old root going to
/// `<new_root>/oldroot`.
pub open spec fn pivot_plan(new_root: Seq<char>) -> Seq<Op> {
    seq![
        Op::CreateDir { path: put_old_of(new_root) },
        Op::RefreshMounts,
        Op::PivotRoot { new_root, put_old: put_old_of(new_root) },
    ]
}

pub open spec fn handshake_op() -> Op {
    Op::SignalHost { payload: seq![HANDSHAKE_BYTE] }
}

/// Everything before the privileges are reduced: mounts, devices, pivot and
/// the handshake.
pub open spec fn setup_plan(root: Seq<char>, bind_root: Seq<char>) -> Seq<Op> {
    mount_plan(root, bind_root) + node_plan(root) + pivot_plan(bind_root) + seq![handshake_op()]
}

fn join(root: &str, suffix: &str) -> (r: String)
    ensures
        r@ == root@ + suffix@,
{
    root.to_owned().concat(suffix)
}

fn text(s: &str) -> (r: Option<String>)
    ensures
        r is Some && r->0@ == s@,
{
    Some(s.to_owned())
}

fn make_flags(
    bind: bool,
    remount: bool,
    read_only: bool,
    nosuid: bool,
    nodev: bool,
    noexec: bool,
    relatime: bool,
    private: bool,
    recursive: bool,
) -> (r: MountFlags)
    ensures
        r == flags_of(bind, remount, read_only, nosuid, nodev, noexec, relatime, private, recursive),
{
    MountFlags { bind, remount, read_only, nosuid, nodev, noexec, relatime, private, recursive }
}

fn hardened_flags(read_only: bool) -> (r: MountFlags)
    ensures
        r == hardened(read_only),
{
    make_flags(false, false, read_only, true, true, true, true, false, false)
}

fn mount_action(
    target: String,
    fstype: Option<String>,
    flags: MountFlags,
    data: Option<String>,
) -> (r: Action)
    ensures
        r@ == mount_op(target@, crate::action::opt_view(fstype), flags, crate::action::opt_view(data)),
{
    Action::Mount { source: None, target, fstype, flags, data }
}

/// Appends the cgroup hierarchy under `<root>/sys/fs/cgroup` to `out`.
fn mount_cgroup(root: &str, out: &mut Vec<Action>)
    ensures
        ops_of(final(out)@) == ops_of(old(out)@) + cgroup_plan(root@),
{
    let ghost start = out@;
    out.push(mount_action(join(root, "/sys/fs/cgroup"), text("tmpfs"), hardened_flags(false), None));
    out.push(Action::CreateDir { path: join(root, "/sys/fs/cgroup/memory") });
    out.push(Action::CreateDir { path: join(root, "/sys/fs/cgroup/cpu,cpuacct") });
    out.push(Action::CreateDir { path: join(root, "/sys/fs/cgroup/pids") });
    out.push(
        Action::Symlink {
            target: "cpu,cpuacct".to_owned(),
            link: join(root, "/sys/fs/cgroup/cpu"),
        },
    );
    out.push(
        mount_action(
            join(root, "/sys/fs/cgroup/memory"),
            text("cgroup"),
            hardened_flags(true),
            text("memory"),
        ),
    );
    out.push(
        mount_action(
            join(root, "/sys/fs/cgroup/cpu,cpuacct"),
            text("cgroup"),
            hardened_flags(true),
            text("cpu,cpuacct"),
        ),
    );
    out.push(
        mount_action(
            join(root, "/sys/fs/cgroup/pids"),
            text("cgroup"),
            hardened_flags(true),
            text("pids"),
        ),
    );
    out.push(
        mount_action(
            join(root, "/sys/fs/cgroup"),
            None,
            make_flags(false, true, true, true, true, true, true, false, false),
            None,
        ),
    );
    assert(ops_of(out@) =~= ops_of(start) + cgroup_plan(root@));
}


/// The mount tree of the container: `root` is bound onto `bind_root`, the
/// virtual file systems and the cgroup hierarchy are mounted under `root`, and
/// the host root is made private, recursively.
pub fn mount_all(root: &str, bind_root: &str) -> (r: Vec<Action>)
    ensures
        ops_of(r@) == mount_plan(root@, bind_root@),
{
    let mut out: Vec<Action> = Vec::new();
    out.push(
        Action::Mount {
            source: Some(root.to_owned()),
            target: bind_root.to_owned(),
            fstype: None,
            flags: make_flags(true, false, false, false, false, false, false, false, false),
            data: None,
        },
    );
    out.push(
        mount_action(
            join(root, "/dev"),
            text("tmpfs"),
            make_flags(false, false, false, true, false, false, false, false, false),
            None,
        ),
    );
    out.push(mount_action(join(root, "/proc"), text("proc"), hardened_flags(false), None));
    out.push(mount_action(join(root, "/sys"), text("sysfs"), hardened_flags(true), None));
    out.push(
        mount_action(
            join(root, "/tmp"),
            text("tmpfs"),
            make_flags(false, false, false, true, true, false, false, false, false),
            None,
        ),
    );
    let ghost head = out@;
    mount_cgroup(root, &mut out);
    let ghost with_cgroup = out@;
    out.push(
        mount_action(
            "/".to_owned(),
            None,
            make_flags(false, false, false, false, false, false, false, true, true),
            None,
        ),
    );
    proof {
        assert(ops_of(out@) =~= ops_of(with_cgroup) + seq![out@.last()@]);
        assert(ops_of(head) =~= mount_plan(root@, bind_root@).subrange(0, 5));
    }
    assert(ops_of(out@) =~= mount_plan(root@, bind_root@));
    out
}

fn node_action(root: &str, name: &str, major: u64, minor: u64) -> (r: Action)
    ensures
        r@ == node_op(root@, name@, major, minor),
{
    Action::MakeNode { path: join(root, name), major, minor, dev: make_dev(major, minor), mode: OWNER_RW }
}

/// The character devices null (1, 3), zero (1, 5), urandom (1, 9) and
/// tty (5, 0) under `<root>/dev`, readable and writable by the owner only.
pub fn mknod_all(root: &str) -> (r: Vec<Action>)
    ensures
        ops_of(r@) == node_plan(root@),
{
    let mut out: Vec<Action> = Vec::new();
    out.push(node_action(root, "/dev/null", 1, 3));
    out.push(node_action(root, "/dev/zero", 1, 5));
    out.push(node_action(root, "/dev/urandom", 1, 9));
    out.push(node_action(root, "/dev/tty", 5, 0));
    assert(ops_of(out@) =~= node_plan(root@));
    out
}

/// The switch of the root directory to `tmp_root`: the directory
/// `<tmp_root>/oldroot` is created, the mount table refreshed, and the old
/// root put there by the pivot.
pub fn pivot_root(tmp_root: &str) -> (r: Vec<Action>)
    ensures
        ops_of(r@) == pivot_plan(tmp_root@),
{
    let put_old = join(tmp_root, "/oldroot");
    let mut out: Vec<Action> = Vec::new();
    out.push(Action::CreateDir { path: put_old.clone() });
    out.push(Action::RefreshMounts);
    out.push(Action::PivotRoot { new_root: tmp_root.to_owned(), put_old });
    assert(ops_of(out@) =~= pivot_plan(tmp_root@));
    out
}

/// The signal to the host that the pivot is done: one newline byte.
pub fn req_umount_bind() -> (r: Action)
    ensures
        r@ == handshake_op(),
{
    let payload: Vec<u8> = vec![HANDSHAKE_BYTE];
    proof {
        assert(payload@ =~= seq![HANDSHAKE_BYTE]);
    }
    Action::SignalHost { payload }
}

/// The actions from the first mount to the handshake, in the order in which
/// they must run.
pub fn setup_actions(root: &str, bind_root: &str) -> (r: Vec<Action>)
    ensures
        ops_of(r@) == setup_plan(root@, bind_root@),
{
    let mut out = mount_all(root, bind_root);
    let mut nodes = mknod_all(root);
    let mut pivot = pivot_root(bind_root);
    let ghost (a, b, c) = (out@, nodes@, pivot@);
    out.append(&mut nodes);
    out.append(&mut pivot);
    out.push(req_umount_bind());
    assert(ops_of(out@) =~= ops_of(a) + ops_of(b) + ops_of(c) + seq![handshake_op()]);
    out
}

/// Each of the four device nodes is a character device at its path under
/// `<root>/dev`, with its exact (major, minor) pair, a device number that
/// decodes to that pair, and read and write permission for the owner only.
pub proof fn lemma_device_nodes(root: Seq<char>)
    ensures
        node_plan(root).len() == 4,
        node_plan(root)[0] == node_op(root, "/dev/null"@, 1, 3),
        node_plan(root)[1] == node_op(root, "/dev/zero"@, 1, 5),
        node_plan(root)[2] == node_op(root, "/dev/urandom"@, 1, 9),
        node_plan(root)[3] == node_op(root, "/dev/tty"@, 5, 0),
        forall|i: int|
            0 <= i < 4 ==> match #[trigger] node_plan(root)[i] {
                Op::MakeNode { major, minor, dev, mode, .. } => dev_major(dev) == major
                    && dev_minor(dev) == minor && mode == 0o600,
                _ => false,
            },
{
    lemma_dev_number_pair(1, 3);
    lemma_dev_number_pair(1, 5);
    lemma_dev_number_pair(1, 9);
    lemma_dev_number_pair(5, 0);
}

/// The mount tree holds the cgroup directories `memory`, `cpu,cpuacct` and
/// `pids`, a link `cpu` to `cpu,cpuacct`, one controller mounted read-only on
/// each directory, and the cgroup tmpfs remounted read-only after all of them,
/// with no later mount on it.
pub proof fn lemma_cgroup_tree(root: Seq<char>, bind_root: Seq<char>)
    ensures
        ({
            let ops = mount_plan(root, bind_root);
            &&& ops.contains(Op::CreateDir { path: root + "/sys/fs/cgroup/memory"@ })
            &&& ops.contains(Op::CreateDir { path: root + "/sys/fs/cgroup/cpu,cpuacct"@ })
            &&& ops.contains(Op::CreateDir { path: root + "/sys/fs/cgroup/pids"@ })
            &&& ops.contains(
                Op::Symlink { target: "cpu,cpuacct"@, link: root + "/sys/fs/cgroup/cpu"@ },
            )
            &&& ops.contains(
                mount_op(
                    root + "/sys/fs/cgroup/memory"@,
                    Some("cgroup"@),
                    hardened(true),
                    Some("memory"@),
                ),
            )
            &&& ops.contains(
                mount_op(
                    root + "/sys/fs/cgroup/cpu,cpuacct"@,
                    Some("cgroup"@),
                    hardened(true),
                    Some("cpu,cpuacct"@),
                ),
            )
            &&& ops.contains(
                mount_op(
                    root + "/sys/fs/cgroup/pids"@,
                    Some("cgroup"@),
                    hardened(true),
                    Some("pids"@),
                ),
            )
            &&& exists|i: int, j: int|
                #![trigger ops[i], ops[j]]
                0 <= i < j < ops.len() && ops[i] == mount_op(
                    cgroup_dir(root),
                    Some("tmpfs"@),
                    hardened(false),
                    None,
                ) && (ops[j] matches Op::Mount { target, flags, .. } && target
                    == cgroup_dir(root) && flags.remount && flags.read_only) && forall|k: int|
                    j < k < ops.len() ==> !(#[trigger] ops[k] matches Op::Mount { target, .. }
                        && target == cgroup_dir(root))
        }),
{
    let ops = mount_plan(root, bind_root);
    assert(ops[6] == Op::CreateDir { path: root + "/sys/fs/cgroup/memory"@ });
    assert(ops[7] == Op::CreateDir { path: root + "/sys/fs/cgroup/cpu,cpuacct"@ });
    assert(ops[8] == Op::CreateDir { path: root + "/sys/fs/cgroup/pids"@ });
    assert(ops[9] == Op::Symlink { target: "cpu,cpuacct"@, link: root + "/sys/fs/cgroup/cpu"@ });
    assert(ops[10] == mount_op(
        root + "/sys/fs/cgroup/memory"@,
        Some("cgroup"@),
        hardened(true),
        Some("memory"@),
    ));
    assert(ops[11] == mount_op(
        root + "/sys/fs/cgroup/cpu,cpuacct"@,
        Some("cgroup"@),
        hardened(true),
        Some("cpu,cpuacct"@),
    ));
    assert(ops[12] == mount_op(
        root + "/sys/fs/cgroup/pids"@,
        Some("cgroup"@),
        hardened(true),
        Some("pids"@),
    ));
    assert(ops[5] == mount_op(cgroup_dir(root), Some("tmpfs"@), hardened(false), None));
    assert(ops[13] matches Op::Mount { target, flags, .. } && target == cgroup_dir(root)
        && flags.remount && flags.read_only);
    assert forall|k: int| 13 < k < ops.len() implies !(#[trigger] ops[k] matches Op::Mount {
        target,
        ..
    } && target == cgroup_dir(root)) by {
        assert(k == 14);
        assert(ops[14] == mount_op(
            "/"@,
            None,
            flags_of(false, false, false, false, false, false, false, true, true),
            None,
        ));
        reveal_strlit("/sys/fs/cgroup");
        reveal_strlit("/");
        assert(cgroup_dir(root).len() == root.len() + 14);
        assert(cgroup_dir(root) != "/"@);
    }
}

/// The container root is first bound onto `bind_root`, and the pivot makes
/// `bind_root` the new root with the old one at `<bind_root>/oldroot`, a
/// directory created just before.
pub proof fn lemma_pivot_onto_bound_root(root: Seq<char>, bind_root: Seq<char>)
    ensures
        ({
            let ops = setup_plan(root, bind_root);
            &&& ops[0] == (Op::Mount {
                source: Some(root),
                target: bind_root,
                fstype: None,
                flags: flags_of(true, false, false, false, false, false, false, false, false),
                data: None,
            })
            &&& ops[ops.len() - 4] == (Op::CreateDir { path: bind_root + "/oldroot"@ })
            &&& ops[ops.len() - 2] == (Op::PivotRoot {
                new_root: bind_root,
                put_old: bind_root + "/oldroot"@,
            })
        }),
{
    let ops = setup_plan(root, bind_root);
    assert(ops.len() == 23);
    assert(ops[0] == mount_plan(root, bind_root)[0]);
}

/// The handshake is the last action of the setup, right after the pivot, and
/// the only one that writes to the handshake channel; it writes one byte.
pub proof fn lemma_handshake_once(root: Seq<char>, bind_root: Seq<char>)
    ensures
        ({
            let ops = setup_plan(root, bind_root);
            &&& ops.last() == handshake_op()
            &&& ops[ops.len() - 2] is PivotRoot
            &&& forall|i: int| 0 <= i < ops.len() - 1 ==> !(#[trigger] ops[i] is SignalHost)
        }),
        handshake_op()->payload.len() == 1,
{
    let ops = setup_plan(root, bind_root);
    assert(ops.len() == 23);
    assert forall|i: int| 0 <= i < ops.len() - 1 implies !(#[trigger] ops[i] is SignalHost) by {
        if i < 15 {
            assert(ops[i] == mount_plan(root, bind_root)[i]);
        } else if i < 19 {
            assert(ops[i] == node_plan(root)[i - 15]);
        } else {
            assert(ops[i] == pivot_plan(bind_root)[i - 19]);
        }
    }
}

} // verus!
