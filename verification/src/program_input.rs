//! A fuzz test case: an ordered sequence of instructions.

use vstd::prelude::*;
use crate::instructions::Instruction;

verus! {

/// One fuzz test case.  Stored by the corpus once accepted; mutation
/// produces a new program rather than editing a stored one in place.
#[derive(Clone, PartialEq, Eq, Debug)]
pub struct ProgramInput {
    pub insts: Vec<Instruction>,
}

impl ProgramInput {
    /// Every instruction of the program is well formed.
    pub open spec fn wf(self) -> bool {
        forall|i: int| 0 <= i < self.insts@.len() ==> (#[trigger] self.insts@[i]).wf()
    }

    pub fn new(insts: Vec<Instruction>) -> (p: ProgramInput)
        ensures
            p.insts == insts,
    {
        ProgramInput { insts }
    }

    /// The program's instructions, in order.
    pub fn insts(&self) -> (r: &Vec<Instruction>)
        ensures
            r == &self.insts,
    {
        &self.insts
    }

    /// The cost proxy of one execution: instruction count plus one time
    /// unit.  Deliberately replaces wall-clock timing, which in this domain
    /// is dominated by fixed harness overhead and unstable across runs and
    /// cores.
    pub fn cost(&self) -> (c: u64)
        requires
            self.insts@.len() < u64::MAX,
        ensures
            c == self.insts@.len() + 1,
    {
        (self.insts.len() as u64) + 1
    }
}

} // verus!
