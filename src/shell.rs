use vstd::prelude::*;

verus! {

/// The processes that the shell started and has not yet interrupted.
pub struct PidRegistry {
    pids: Vec<u32>,
}

impl PidRegistry {
    /// The recorded process identifiers, oldest first.
    pub closed spec fn pids(&self) -> Seq<u32> {
        self.pids@
    }

    pub fn new() -> (r: PidRegistry)
        ensures
            r.pids() == Seq::<u32>::empty(),
    {
        PidRegistry { pids: Vec::new() }
    }

    /// Records a started process.
    pub fn record(&mut self, pid: u32)
        ensures
            final(self).pids() == old(self).pids().push(pid),
    {
        self.pids.push(pid);
    }

    /// Hands out every recorded process, oldest first, and forgets them.
    pub fn take_all(&mut self) -> (r: Vec<u32>)
        ensures
            r@ == old(self).pids(),
            final(self).pids() == Seq::<u32>::empty(),
    {
        let mut taken: Vec<u32> = Vec::new();
        std::mem::swap(&mut taken, &mut self.pids);
        taken
    }

    pub fn len(&self) -> (r: usize)
        ensures
            r == self.pids().len(),
    {
        self.pids.len()
    }
}

/// The program of a command line and its arguments: the first word, or the
/// empty string for an empty line, and the words after it.
pub fn split_command(words: &Vec<String>) -> (r: (String, Vec<String>))
    ensures
        r.0@ == (if words@.len() > 0 {
            words@[0]@
        } else {
            ""@
        }),
        r.1@.len() == (if words@.len() > 0 {
            words@.len() - 1
        } else {
            0
        }),
        forall|i: int| 0 <= i < r.1@.len() ==> (#[trigger] r.1@[i])@ == words@[i + 1]@,
{
    if words.len() == 0 {
        return ("".to_owned(), Vec::new());
    }
    let prog = words[0].clone();
    let mut rest: Vec<String> = Vec::new();
    let mut i: usize = 1;
    while i < words.len()
        invariant
            1 <= i <= words.len(),
            rest@.len() == i - 1,
            forall|j: int| 0 <= j < rest@.len() ==> (#[trigger] rest@[j])@ == words@[j + 1]@,
        decreases words.len() - i,
    {
        rest.push(words[i].clone());
        i = i + 1;
    }
    (prog, rest)
}

} // verus!
