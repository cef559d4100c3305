use vstd::prelude::*;
use crate::action::{Action, CapSetKind, Op, ops_of};

verus! {

/// The capabilities of `bounding` that `allow` does not list, in the order of
/// `bounding`.
pub open spec fn drops_of(bounding: Seq<u8>, allow: Seq<u8>) -> Seq<u8>
    decreases bounding.len(),
{
    if bounding.len() == 0 {
        Seq::empty()
    } else {
        let rest = drops_of(bounding.drop_last(), allow);
        if allow.contains(bounding.last()) {
            rest
        } else {
            rest.push(bounding.last())
        }
    }
}

pub open spec fn drop_op(cap: u8) -> Op {
    Op::DropBounding { cap }
}

/// Clearing the inheritable and ambient sets, then dropping from the bounding
/// set each capability that the allow-list does not hold.
pub open spec fn caps_plan(bounding: Seq<u8>, allow: Seq<u8>) -> Seq<Op> {
    seq![
        Op::ClearCaps { set: CapSetKind::Inheritable },
        Op::ClearCaps { set: CapSetKind::Ambient },
    ] + drops_of(bounding, allow).map_values(|c: u8| drop_op(c))
}

/// The capabilities that a sequence of actions drops from the bounding set.
pub open spec fn dropped_caps(ops: Seq<Op>) -> Set<u8> {
    Set::new(|c: u8| exists|i: int| 0 <= i < ops.len() && ops[i] == drop_op(c))
}

/// Whether a sequence of actions clears `set` before any capability is dropped
/// from the bounding set.
pub open spec fn clears_first(ops: Seq<Op>, set: CapSetKind) -> bool {
    exists|i: int|
        0 <= i < ops.len() && ops[i] == (Op::ClearCaps { set }) && forall|j: int|
            0 <= j < i ==> !(ops[j] is DropBounding)
}

fn is_allowed(allow: &Vec<u8>, cap: u8) -> (r: bool)
    ensures
        r == allow@.contains(cap),
{
    let mut i: usize = 0;
    while i < allow.len()
        invariant
            i <= allow.len(),
            forall|j: int| 0 <= j < i ==> allow@[j] != cap,
        decreases allow.len() - i,
    {
        if allow[i] == cap {
            return true;
        }
        i = i + 1;
    }
    false
}

/// The reduction of the capabilities to `allow`, given the bounding set as it
/// was read: the inheritable and ambient sets are cleared, then every
/// capability of `bounding` that `allow` does not hold is dropped.
pub fn limit_caps(bounding: &Vec<u8>, allow: &Vec<u8>) -> (r: Vec<Action>)
    ensures
        ops_of(r@) == caps_plan(bounding@, allow@),
{
    let mut out: Vec<Action> = Vec::new();
    out.push(Action::ClearCaps { set: CapSetKind::Inheritable });
    out.push(Action::ClearCaps { set: CapSetKind::Ambient });
    let ghost clears = ops_of(out@);
    let mut i: usize = 0;
    while i < bounding.len()
        invariant
            i <= bounding.len(),
            clears == seq![
                Op::ClearCaps { set: CapSetKind::Inheritable },
                Op::ClearCaps { set: CapSetKind::Ambient },
            ],
            ops_of(out@) == clears + drops_of(bounding@.subrange(0, i as int), allow@).map_values(
                |c: u8| drop_op(c),
            ),
        decreases bounding.len() - i,
    {
        let cap = bounding[i];
        let ghost before = out@;
        assert(bounding@.subrange(0, i + 1).drop_last() =~= bounding@.subrange(0, i as int));
        if !is_allowed(allow, cap) {
            out.push(Action::DropBounding { cap });
            assert(ops_of(out@) =~= ops_of(before).push(drop_op(cap)));
        }
        i = i + 1;
        assert(ops_of(out@) =~= clears + drops_of(bounding@.subrange(0, i as int), allow@).map_values(
            |c: u8| drop_op(c),
        ));
    }
    assert(bounding@.subrange(0, bounding.len() as int) =~= bounding@);
    out
}

/// A capability is dropped exactly when the bounding set holds it and the
/// allow-list does not.
pub proof fn lemma_drops_of_members(bounding: Seq<u8>, allow: Seq<u8>, c: u8)
    ensures
        drops_of(bounding, allow).contains(c) <==> (bounding.contains(c) && !allow.contains(c)),
    decreases bounding.len(),
{
    if bounding.len() > 0 {
        let init = bounding.drop_last();
        let last = bounding.last();
        let rest = drops_of(init, allow);
        lemma_drops_of_members(init, allow, c);
        if bounding.contains(c) && c != last {
            let k = choose|k: int| 0 <= k < bounding.len() && bounding[k] == c;
            assert(init[k] == c);
        }
        if init.contains(c) {
            let k = choose|k: int| 0 <= k < init.len() && init[k] == c;
            assert(bounding[k] == c);
        }
        assert(bounding[bounding.len() - 1] == last);
        if !allow.contains(last) {
            let d = rest.push(last);
            assert(d[d.len() - 1] == last);
            if rest.contains(c) {
                let k = choose|k: int| 0 <= k < rest.len() && rest[k] == c;
                assert(d[k] == c);
            }
            if d.contains(c) && c != last {
                let k = choose|k: int| 0 <= k < d.len() && d[k] == c;
                assert(rest[k] == c);
            }
        }
    }
}

/// After the reduction the inheritable and ambient sets are cleared before
/// anything is dropped, and the bounding set that remains is the one read
/// before, intersected with the allow-list, so within the allow-list.
pub proof fn lemma_caps_reduced(bounding: Seq<u8>, allow: Seq<u8>)
    ensures
        clears_first(caps_plan(bounding, allow), CapSetKind::Inheritable),
        clears_first(caps_plan(bounding, allow), CapSetKind::Ambient),
        bounding.to_set().difference(dropped_caps(caps_plan(bounding, allow))) == bounding.to_set().intersect(
            allow.to_set(),
        ),
        bounding.to_set().difference(dropped_caps(caps_plan(bounding, allow))).subset_of(
            allow.to_set(),
        ),
{
    let ops = caps_plan(bounding, allow);
    let d = drops_of(bounding, allow);
    assert(ops[0] == (Op::ClearCaps { set: CapSetKind::Inheritable }));
    assert(ops[1] == (Op::ClearCaps { set: CapSetKind::Ambient }));
    assert forall|c: u8| #[trigger] dropped_caps(ops).contains(c) == d.contains(c) by {
        lemma_drops_of_members(bounding, allow, c);
        if d.contains(c) {
            let k = choose|k: int| 0 <= k < d.len() && d[k] == c;
            assert(ops[k + 2] == drop_op(c));
        }
        if dropped_caps(ops).contains(c) {
            let i = choose|i: int| 0 <= i < ops.len() && ops[i] == drop_op(c);
            assert(i >= 2);
            assert(d[i - 2] == c);
        }
    }
    assert forall|c: u8| #[trigger] bounding.to_set().difference(dropped_caps(ops)).contains(c)
        == bounding.to_set().intersect(allow.to_set()).contains(c) by {
        lemma_drops_of_members(bounding, allow, c);
    }
    assert(bounding.to_set().difference(dropped_caps(ops)) =~= bounding.to_set().intersect(
        allow.to_set(),
    ));
}

} // verus!
