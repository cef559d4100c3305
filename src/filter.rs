use vstd::prelude::*;
use crate::action::{Action, Op, ops_of};

verus! {

/// The filter action that lets a syscall through.
pub const ACT_ALLOW: u32 = 0x7fff_0000;

/// The errno that a syscall outside the whitelist fails with.
pub const DENY_ERRNO: u32 = 1;

/// The filter action that fails a syscall with errno `e`, the low sixteen bits
/// of `e` standing beside the action code.
pub open spec fn errno_action(e: u32) -> u32 {
    0x0005_0000u32 | (e & 0xffffu32)
}

/// The filter action that fails a syscall with errno `e`.
pub fn act_errno(e: u32) -> (r: u32)
    ensures
        r == errno_action(e),
{
    0x0005_0000u32 | (e & 0xffffu32)
}

pub open spec fn allow_op(syscall: i32) -> Op {
    Op::FilterAllow { syscall }
}

/// A default-deny filter: every syscall fails with `DENY_ERRNO` but those of
/// the whitelist, which are allowed with no constraint on their arguments;
/// then the filter is loaded.
pub open spec fn filter_plan(whitelist: Seq<i32>) -> Seq<Op> {
    seq![Op::FilterInit { default_action: errno_action(DENY_ERRNO) }] + whitelist.map_values(
        |s: i32| allow_op(s),
    ) + seq![Op::FilterLoad]
}

/// What a filter built by `ops` does with `syscall`: the action of the first
/// action that initialises the filter, unless a rule allows the syscall.
pub open spec fn verdict(ops: Seq<Op>, syscall: i32) -> u32 {
    if exists|i: int| 0 <= i < ops.len() && ops[i] == allow_op(syscall) {
        ACT_ALLOW
    } else {
        match ops[0] {
            Op::FilterInit { default_action } => default_action,
            _ => ACT_ALLOW,
        }
    }
}

/// The default-deny syscall filter for `whitelist`.
pub fn limit_syscall(whitelist: &Vec<i32>) -> (r: Vec<Action>)
    ensures
        ops_of(r@) == filter_plan(whitelist@),
{
    let mut out: Vec<Action> = Vec::new();
    out.push(Action::FilterInit { default_action: act_errno(DENY_ERRNO) });
    let mut i: usize = 0;
    while i < whitelist.len()
        invariant
            i <= whitelist.len(),
            ops_of(out@) == seq![Op::FilterInit { default_action: errno_action(DENY_ERRNO) }]
                + whitelist@.subrange(0, i as int).map_values(|s: i32| allow_op(s)),
        decreases whitelist.len() - i,
    {
        let ghost before = out@;
        let s = whitelist[i];
        out.push(Action::FilterAllow { syscall: s });
        assert(ops_of(out@) =~= ops_of(before).push(allow_op(s)));
        assert(whitelist@.subrange(0, i + 1) =~= whitelist@.subrange(0, i as int).push(s));
        i = i + 1;
        assert(ops_of(out@) =~= seq![Op::FilterInit { default_action: errno_action(DENY_ERRNO) }]
            + whitelist@.subrange(0, i as int).map_values(|s: i32| allow_op(s)));
    }
    let ghost body = out@;
    out.push(Action::FilterLoad);
    assert(whitelist@.subrange(0, whitelist.len() as int) =~= whitelist@);
    assert(ops_of(out@) =~= ops_of(body) + seq![Op::FilterLoad]);
    out
}

/// Under the filter, a syscall of the whitelist is allowed and any other fails
/// with errno `DENY_ERRNO` rather than ending the process.
pub proof fn lemma_filter_verdict(whitelist: Seq<i32>, syscall: i32)
    ensures
        verdict(filter_plan(whitelist), syscall) == if whitelist.contains(syscall) {
            ACT_ALLOW
        } else {
            errno_action(DENY_ERRNO)
        },
        errno_action(DENY_ERRNO) == 0x0005_0001u32,
{
    let ops = filter_plan(whitelist);
    assert(errno_action(DENY_ERRNO) == 0x0005_0001u32) by (bit_vector);
    if whitelist.contains(syscall) {
        let k = choose|k: int| 0 <= k < whitelist.len() && whitelist[k] == syscall;
        assert(ops[k + 1] == allow_op(syscall));
    } else {
        assert forall|i: int| 0 <= i < ops.len() implies ops[i] != allow_op(syscall) by {
            if 1 <= i < ops.len() - 1 {
                assert(whitelist[i - 1] != syscall);
            }
        }
    }
}

} // verus!
