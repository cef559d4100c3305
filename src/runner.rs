use vstd::prelude::*;
use crate::action::{Action, Op, ops_of};
use crate::mounts::{lemma_handshake_once, setup_plan};

verus! {

/// What the runner asks for next.
#[derive(Debug)]
pub enum Step {
    /// Perform this action and report whether it succeeded.
    Run(Action),
    /// Every action succeeded.
    Complete,
    /// An action failed: nothing more may run.
    Abort,
}

/// Hands out a sequence of actions one at a time, each only after every
/// earlier one was reported to have succeeded, and stops for good at the first
/// failure.
pub struct Runner {
    steps: Vec<Action>,
    pos: usize,
    aborted: bool,
    pending: bool,
}

impl Runner {
    /// The actions to run.
    pub closed spec fn plan(&self) -> Seq<Op> {
        ops_of(self.steps@)
    }

    /// How many actions were handed out.
    pub closed spec fn handed_out(&self) -> nat {
        self.pos as nat
    }

    /// How many actions were reported to have succeeded; they are the first
    /// ones handed out.
    pub closed spec fn succeeded(&self) -> nat {
        if self.pending {
            (self.pos - 1) as nat
        } else {
            self.pos as nat
        }
    }

    pub closed spec fn aborted(&self) -> bool {
        self.aborted
    }

    pub closed spec fn wf(&self) -> bool {
        &&& self.pos <= self.steps@.len()
        &&& self.pending ==> self.pos > 0
    }

    pub fn new(steps: Vec<Action>) -> (r: Runner)
        ensures
            r.wf(),
            r.plan() == ops_of(steps@),
            r.handed_out() == 0,
            r.succeeded() == 0,
            !r.aborted(),
    {
        Runner { steps, pos: 0, aborted: false, pending: false }
    }

    /// Takes the outcome of the action handed out last (ignored when none is
    /// pending) and says what to do next.
    pub fn next(&mut self, previous_ok: bool) -> (r: Step)
        requires
            old(self).wf(),
        ensures
            final(self).wf(),
            final(self).plan() == old(self).plan(),
            r is Abort <==> (old(self).aborted() || (old(self).succeeded()
                < old(self).handed_out() && !previous_ok)),
            r is Abort ==> final(self).aborted() && final(self).handed_out() == old(
                self,
            ).handed_out(),
            !(r is Abort) ==> !final(self).aborted(),
            r is Complete <==> (!(r is Abort) && old(self).handed_out() == old(self).plan().len()),
            r is Complete ==> final(self).succeeded() == final(self).plan().len(),
            r is Run ==> {
                &&& r->Run_0@ == old(self).plan()[old(self).handed_out() as int]
                &&& final(self).succeeded() == old(self).handed_out()
                &&& final(self).handed_out() == old(self).handed_out() + 1
            },
    {
        if self.aborted {
            return Step::Abort;
        }
        if self.pending {
            if previous_ok {
                self.pending = false;
            } else {
                self.aborted = true;
                return Step::Abort;
            }
        }
        if self.pos < self.steps.len() {
            let a = self.steps[self.pos].clone_action();
            self.pos = self.pos + 1;
            self.pending = true;
            Step::Run(a)
        } else {
            Step::Complete
        }
    }
}

impl Action {
    /// A copy of the action.
    pub fn clone_action(&self) -> (r: Action)
        ensures
            r@ == self@,
    {
        match self {
            Action::Mount { source, target, fstype, flags, data } => Action::Mount {
                source: clone_opt(source),
                target: target.clone(),
                fstype: clone_opt(fstype),
                flags: *flags,
                data: clone_opt(data),
            },
            Action::CreateDir { path } => Action::CreateDir { path: path.clone() },
            Action::Symlink { target, link } => Action::Symlink {
                target: target.clone(),
                link: link.clone(),
            },
            Action::MakeNode { path, major, minor, dev, mode } => Action::MakeNode {
                path: path.clone(),
                major: *major,
                minor: *minor,
                dev: *dev,
                mode: *mode,
            },
            Action::RefreshMounts => Action::RefreshMounts,
            Action::PivotRoot { new_root, put_old } => Action::PivotRoot {
                new_root: new_root.clone(),
                put_old: put_old.clone(),
            },
            Action::SignalHost { payload } => Action::SignalHost { payload: payload.clone() },
            Action::ClearCaps { set } => Action::ClearCaps { set: *set },
            Action::DropBounding { cap } => Action::DropBounding { cap: *cap },
            Action::FilterInit { default_action } => Action::FilterInit {
                default_action: *default_action,
            },
            Action::FilterAllow { syscall } => Action::FilterAllow { syscall: *syscall },
            Action::FilterLoad => Action::FilterLoad,
        }
    }
}

fn clone_opt(o: &Option<String>) -> (r: Option<String>)
    ensures
        crate::action::opt_view(r) == crate::action::opt_view(*o),
{
    match o {
        Some(s) => Some(s.clone()),
        None => None,
    }
}

/// A runner over the setup actions has handed out the handshake only if it is
/// the last action and every action before it, the pivot included, was
/// reported to have succeeded; no later report can take it back.
pub proof fn lemma_handshake_after_success(r: Runner, root: Seq<char>, bind_root: Seq<char>)
    requires
        r.wf(),
        r.plan() == setup_plan(root, bind_root),
        r.handed_out() > 0,
        r.plan()[r.handed_out() - 1] is SignalHost,
    ensures
        r.handed_out() == r.plan().len(),
        r.succeeded() + 1 >= r.plan().len(),
        r.plan()[r.plan().len() - 2] is PivotRoot,
{
    lemma_handshake_once(root, bind_root);
}

} // verus!
