//! One instruction word together with the handlers that can run it.

use vstd::prelude::*;
use crate::semantics::{and_spec, not_spec, br_spec, jsr_spec};
use crate::vm::VM;

verus! {

/// An instruction word, ready to be run on a machine.
pub struct Operations {
    instruction: u16,
}

impl Operations {
    /// The instruction word.
    pub closed spec fn spec_instruction(&self) -> u16 {
        self.instruction
    }

    pub fn new(instruction: u16) -> (r: Operations)
        ensures
            r.spec_instruction() == instruction,
    {
        Operations { instruction }
    }

    pub fn instruction(&self) -> (r: u16)
        ensures
            r == self.spec_instruction(),
    {
        self.instruction
    }

    /// Runs the word as AND.
    pub fn and(&self, vm: &mut VM)
        requires
            old(vm).wf(),
        ensures
            final(vm).wf(),
            final(vm)@ == and_spec(old(vm)@, self.spec_instruction()),
    {
        vm.and(self.instruction);
    }

    /// Runs the word as NOT.
    pub fn not(&self, vm: &mut VM)
        requires
            old(vm).wf(),
        ensures
            final(vm).wf(),
            final(vm)@ == not_spec(old(vm)@, self.spec_instruction()),
    {
        vm.not(self.instruction);
    }

    /// Runs the word as BR.
    pub fn branch(&self, vm: &mut VM)
        requires
            old(vm).wf(),
        ensures
            final(vm).wf(),
            final(vm)@ == br_spec(old(vm)@, self.spec_instruction()),
    {
        vm.branch(self.instruction);
    }

    /// Runs the word as JSR or JSRR.
    pub fn jump(&self, vm: &mut VM)
        requires
            old(vm).wf(),
        ensures
            final(vm).wf(),
            final(vm)@ == jsr_spec(old(vm)@, self.spec_instruction()),
    {
        vm.jump(self.instruction);
    }
}

} // verus!
