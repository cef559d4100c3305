use vstd::prelude::*;

verus! {

/// The mount flags that the bootstrap uses, one field per flag.
#[derive(Clone, Copy, Debug, PartialEq, Eq, Structural)]
pub struct MountFlags {
    pub bind: bool,
    pub remount: bool,
    pub read_only: bool,
    pub nosuid: bool,
    pub nodev: bool,
    pub noexec: bool,
    pub relatime: bool,
    pub private: bool,
    pub recursive: bool,
}

/// A capability set that the bootstrap clears entirely.
#[derive(Clone, Copy, Debug, PartialEq, Eq, Structural)]
pub enum CapSetKind {
    Inheritable,
    Ambient,
}

/// One kernel operation of the bootstrap, as plain values.
#[derive(Debug)]
pub enum Action {
    Mount {
        source: Option<String>,
        target: String,
        fstype: Option<String>,
        flags: MountFlags,
        data: Option<String>,
    },
    CreateDir { path: String },
    Symlink { target: String, link: String },
    /// A character device node.
    MakeNode { path: String, major: u64, minor: u64, dev: u64, mode: u32 },
    /// Refresh the mount table so that path lookups see the new mounts.
    RefreshMounts,
    PivotRoot { new_root: String, put_old: String },
    /// Write these bytes to the handshake channel.
    SignalHost { payload: Vec<u8> },
    ClearCaps { set: CapSetKind },
    DropBounding { cap: u8 },
    FilterInit { default_action: u32 },
    FilterAllow { syscall: i32 },
    FilterLoad,
}

/// The mathematical value of an `Action`.
pub ghost enum Op {
    Mount {
        source: Option<Seq<char>>,
        target: Seq<char>,
        fstype: Option<Seq<char>>,
        flags: MountFlags,
        data: Option<Seq<char>>,
    },
    CreateDir { path: Seq<char> },
    Symlink { target: Seq<char>, link: Seq<char> },
    MakeNode { path: Seq<char>, major: u64, minor: u64, dev: u64, mode: u32 },
    RefreshMounts,
    PivotRoot { new_root: Seq<char>, put_old: Seq<char> },
    SignalHost { payload: Seq<u8> },
    ClearCaps { set: CapSetKind },
    DropBounding { cap: u8 },
    FilterInit { default_action: u32 },
    FilterAllow { syscall: i32 },
    FilterLoad,
}

pub open spec fn opt_view(o: Option<String>) -> Option<Seq<char>> {
    match o {
        Some(s) => Some(s@),
        None => None,
    }
}

impl View for Action {
    type V = Op;

    open spec fn view(&self) -> Op {
        match self {
            Action::Mount { source, target, fstype, flags, data } => Op::Mount {
                source: opt_view(*source),
                target: target@,
                fstype: opt_view(*fstype),
                flags: *flags,
                data: opt_view(*data),
            },
            Action::CreateDir { path } => Op::CreateDir { path: path@ },
            Action::Symlink { target, link } => Op::Symlink { target: target@, link: link@ },
            Action::MakeNode { path, major, minor, dev, mode } => Op::MakeNode {
                path: path@,
                major: *major,
                minor: *minor,
                dev: *dev,
                mode: *mode,
            },
            Action::RefreshMounts => Op::RefreshMounts,
            Action::PivotRoot { new_root, put_old } => Op::PivotRoot {
                new_root: new_root@,
                put_old: put_old@,
            },
            Action::SignalHost { payload } => Op::SignalHost { payload: payload@ },
            Action::ClearCaps { set } => Op::ClearCaps { set: *set },
            Action::DropBounding { cap } => Op::DropBounding { cap: *cap },
            Action::FilterInit { default_action } => Op::FilterInit {
                default_action: *default_action,
            },
            Action::FilterAllow { syscall } => Op::FilterAllow { syscall: *syscall },
            Action::FilterLoad => Op::FilterLoad,
        }
    }
}

/// The values of a sequence of actions.
pub open spec fn ops_of(v: Seq<Action>) -> Seq<Op> {
    v.map_values(|a: Action| a@)
}

} // verus!
