use cntr::action::{Action, CapSetKind};
use cntr::filter::{act_errno, limit_syscall, ACT_ALLOW};
use cntr::mounts::{mknod_all, mount_all, pivot_root, req_umount_bind, setup_actions};
use cntr::privilege::limit_caps;
use cntr::runner::{Runner, Step};
use cntr::shell::{split_command, PidRegistry};

fn mount_targets(actions: &[Action]) -> Vec<String> {
    let mut out = Vec::new();
    for a in actions {
        if let Action::Mount { target, .. } = a {
            out.push(target.clone());
        }
    }
    out
}

/// Runs the actions, reporting success for each, except the one at `fail_at`.
fn drive(actions: Vec<Action>, fail_at: Option<usize>) -> (Vec<Action>, Step) {
    let mut runner = Runner::new(actions);
    let mut seen = Vec::new();
    let mut ok = true;
    loop {
        match runner.next(ok) {
            Step::Run(a) => {
                ok = fail_at != Some(seen.len());
                seen.push(a);
            }
            other => return (seen, other),
        }
    }
}

fn count_signals(actions: &[Action]) -> usize {
    actions.iter().filter(|a| matches!(a, Action::SignalHost { .. })).count()
}

#[test]
fn mount_plan_binds_then_mounts_under_root() {
    let plan = mount_all("/c", "/b");
    assert_eq!(plan.len(), 15);
    match &plan[0] {
        Action::Mount { source, target, fstype, flags, data } => {
            assert_eq!(source.as_deref(), Some("/c"));
            assert_eq!(target, "/b");
            assert!(fstype.is_none() && data.is_none());
            assert!(flags.bind && !flags.recursive && !flags.read_only);
        }
        other => panic!("unexpected {:?}", other),
    }
    let targets = mount_targets(&plan);
    assert_eq!(&targets[1..5], &["/c/dev", "/c/proc", "/c/sys", "/c/tmp"]);
    match &plan[3] {
        Action::Mount { fstype, flags, .. } => {
            assert_eq!(fstype.as_deref(), Some("sysfs"));
            assert!(flags.read_only && flags.nosuid && flags.nodev && flags.noexec);
        }
        other => panic!("unexpected {:?}", other),
    }
    match plan.last().unwrap() {
        Action::Mount { target, flags, .. } => {
            assert_eq!(target, "/");
            assert!(flags.private && flags.recursive);
        }
        other => panic!("unexpected {:?}", other),
    }
}

#[test]
fn cgroup_tree_is_built_and_made_read_only() {
    let plan = mount_all("/c", "/b");
    let mut dirs = Vec::new();
    let mut links = Vec::new();
    for a in &plan {
        match a {
            Action::CreateDir { path } => dirs.push(path.clone()),
            Action::Symlink { target, link } => links.push((target.clone(), link.clone())),
            _ => {}
        }
    }
    assert_eq!(
        dirs,
        vec![
            "/c/sys/fs/cgroup/memory".to_string(),
            "/c/sys/fs/cgroup/cpu,cpuacct".to_string(),
            "/c/sys/fs/cgroup/pids".to_string(),
        ]
    );
    assert_eq!(links, vec![("cpu,cpuacct".to_string(), "/c/sys/fs/cgroup/cpu".to_string())]);
    let mut last_on_cgroup = None;
    let mut controllers = Vec::new();
    for a in &plan {
        if let Action::Mount { target, fstype, flags, data, .. } = a {
            if target == "/c/sys/fs/cgroup" {
                last_on_cgroup = Some(*flags);
            }
            if fstype.as_deref() == Some("cgroup") {
                assert!(flags.read_only);
                controllers.push(data.clone().unwrap());
            }
        }
    }
    assert_eq!(controllers, vec!["memory", "cpu,cpuacct", "pids"]);
    let f = last_on_cgroup.unwrap();
    assert!(f.remount && f.read_only);
}

#[test]
fn device_nodes_have_exact_numbers() {
    let nodes = mknod_all("/c");
    let expected = [
        ("/c/dev/null", 1u64, 3u64, 259u64),
        ("/c/dev/zero", 1, 5, 261),
        ("/c/dev/urandom", 1, 9, 265),
        ("/c/dev/tty", 5, 0, 1280),
    ];
    assert_eq!(nodes.len(), 4);
    for (a, (p, ma, mi, dev)) in nodes.iter().zip(expected.iter()) {
        match a {
            Action::MakeNode { path, major, minor, dev: d, mode } => {
                assert_eq!(path, p);
                assert_eq!((*major, *minor, *d, *mode), (*ma, *mi, *dev, 0o600));
            }
            other => panic!("unexpected {:?}", other),
        }
    }
}

#[test]
fn pivot_puts_old_root_under_new_root() {
    let plan = pivot_root("/b");
    assert_eq!(plan.len(), 3);
    assert!(matches!(&plan[0], Action::CreateDir { path } if path == "/b/oldroot"));
    assert!(matches!(&plan[1], Action::RefreshMounts));
    assert!(matches!(&plan[2], Action::PivotRoot { new_root, put_old }
        if new_root == "/b" && put_old == "/b/oldroot"));
}

#[test]
fn handshake_is_one_newline() {
    match req_umount_bind() {
        Action::SignalHost { payload } => assert_eq!(payload, vec![b'\n']),
        other => panic!("unexpected {:?}", other),
    }
}

#[test]
fn caps_drop_only_what_is_not_allowed() {
    let plan = limit_caps(&vec![0, 1, 2, 5, 21], &vec![0, 5, 7]);
    assert!(matches!(plan[0], Action::ClearCaps { set: CapSetKind::Inheritable }));
    assert!(matches!(plan[1], Action::ClearCaps { set: CapSetKind::Ambient }));
    let dropped: Vec<u8> = plan[2..]
        .iter()
        .map(|a| match a {
            Action::DropBounding { cap } => *cap,
            other => panic!("unexpected {:?}", other),
        })
        .collect();
    assert_eq!(dropped, vec![1, 2, 21]);
}

#[test]
fn caps_with_everything_allowed_only_clear() {
    assert_eq!(limit_caps(&vec![3, 4], &vec![4, 3]).len(), 2);
    assert_eq!(limit_caps(&vec![], &vec![]).len(), 2);
    assert_eq!(limit_caps(&vec![9], &vec![]).len(), 3);
}

#[test]
fn filter_denies_by_default_and_allows_whitelist() {
    assert_eq!(act_errno(1), 0x0005_0001);
    assert_eq!(act_errno(0x1_0002), 0x0005_0002);
    let plan = limit_syscall(&vec![0, 1, 60]);
    assert_eq!(plan.len(), 5);
    assert!(matches!(plan[0], Action::FilterInit { default_action: 0x0005_0001 }));
    assert!(matches!(plan[1], Action::FilterAllow { syscall: 0 }));
    assert!(matches!(plan[2], Action::FilterAllow { syscall: 1 }));
    assert!(matches!(plan[3], Action::FilterAllow { syscall: 60 }));
    assert!(matches!(plan[4], Action::FilterLoad));
    assert_ne!(ACT_ALLOW, act_errno(1));
}

#[test]
fn setup_signals_host_once_after_pivot() {
    let (seen, end) = drive(setup_actions("/c", "/b"), None);
    assert!(matches!(end, Step::Complete));
    assert_eq!(seen.len(), 23);
    assert_eq!(count_signals(&seen), 1);
    assert!(matches!(seen[21], Action::PivotRoot { .. }));
    assert!(matches!(seen[22], Action::SignalHost { .. }));
}

#[test]
fn failure_before_pivot_sends_no_signal() {
    for fail_at in [0usize, 7, 16, 21] {
        let (seen, end) = drive(setup_actions("/c", "/b"), Some(fail_at));
        assert!(matches!(end, Step::Abort));
        assert_eq!(seen.len(), fail_at + 1);
        assert_eq!(count_signals(&seen), 0);
    }
}

#[test]
fn aborted_runner_stays_aborted() {
    let mut runner = Runner::new(pivot_root("/b"));
    assert!(matches!(runner.next(true), Step::Run(_)));
    assert!(matches!(runner.next(false), Step::Abort));
    assert!(matches!(runner.next(true), Step::Abort));
}

#[test]
fn full_bootstrap_scenario() {
    let mut all = setup_actions("/c", "/b");
    all.extend(limit_caps(&vec![0, 1, 2, 3], &vec![0, 3]));
    all.extend(limit_syscall(&vec![0, 1, 231]));
    let (seen, end) = drive(all, None);
    assert!(matches!(end, Step::Complete));
    assert_eq!(count_signals(&seen), 1);
    assert!(seen.iter().any(|a| matches!(a, Action::MakeNode { path, major: 1, minor: 3, .. }
        if path == "/c/dev/null")));
    let dropped: Vec<u8> = seen
        .iter()
        .filter_map(|a| match a {
            Action::DropBounding { cap } => Some(*cap),
            _ => None,
        })
        .collect();
    assert_eq!(dropped, vec![1, 2]);
    assert!(matches!(seen.last(), Some(Action::FilterLoad)));
}

#[test]
fn registry_hands_out_and_forgets() {
    let mut r = PidRegistry::new();
    r.record(10);
    r.record(42);
    assert_eq!(r.len(), 2);
    assert_eq!(r.take_all(), vec![10, 42]);
    assert_eq!(r.len(), 0);
    assert_eq!(r.take_all(), Vec::<u32>::new());
}

#[test]
fn split_command_words() {
    let words = vec!["ls".to_string(), "-l".to_string(), "/tmp".to_string()];
    let (prog, args) = split_command(&words);
    assert_eq!(prog, "ls");
    assert_eq!(args, vec!["-l".to_string(), "/tmp".to_string()]);
    let (prog, args) = split_command(&vec![]);
    assert_eq!(prog, "");
    assert!(args.is_empty());
}
