//! Heuristically biased random generation of architecturally valid
//! instructions.
//!
//! The generator statistically favors reuse of previously observed operand
//! values and powers of two, both of which expose more interesting
//! control and data flow than uniform random immediates, while every value
//! it emits stays within its operand slot's range.

use vstd::prelude::*;
use vstd::arithmetic::power2::*;
use libafl_bolts::rands::Xoshiro256PlusPlusRand;
use crate::instructions::{max_value_spec, Argument, ArgumentSpec, Instruction, InstructionTemplate};
use crate::rng::{rand_below, rand_next};

verus! {

/// Generates random instructions, biased toward operand-value reuse and
/// powers of two.
///
/// Behavior is a pure function of the construction-time configuration, the
/// forwarded argument history and the supplied random source: with the same
/// random-source state, the same `forward_args` history and the same
/// template set, the output is identical.
pub struct InstGenerator {
    /// Previously forwarded arguments the generator tries to reuse; appended
    /// to without deduplication or eviction.
    pub known_args: Vec<Argument>,
    /// Chance (0-100) of reusing a known argument value.
    pub reuse_chance: u64,
    /// Chance (0-100) of choosing a power of two as argument value.
    pub power_of_two_chance: u64,
}

impl InstGenerator {
    /// Both chances are percentages and every recorded argument fits its
    /// slot.
    pub open spec fn wf(self) -> bool {
        &&& self.reuse_chance <= 100
        &&& self.power_of_two_chance <= 100
        &&& forall|i: int|
            0 <= i < self.known_args@.len() ==> (#[trigger] self.known_args@[i]).wf()
    }

    /// Both bias chances default to 50 and are simultaneously forced to 0
    /// when biasing is disabled; the switch is an explicit constructor
    /// parameter.
    pub fn new(biasing: bool) -> (g: Self)
        ensures
            g.wf(),
            g.known_args@.len() == 0,
            g.reuse_chance == (if biasing { 50u64 } else { 0u64 }),
            g.power_of_two_chance == (if biasing { 50u64 } else { 0u64 }),
    {
        InstGenerator {
            known_args: Vec::new(),
            reuse_chance: if biasing { 50 } else { 0 },
            power_of_two_chance: if biasing { 50 } else { 0 },
        }
    }

    /// Appends a batch of arguments to the reuse pool, in order, without
    /// deduplication.
    pub fn forward_args(&mut self, args: &[Argument])
        requires
            old(self).wf(),
            forall|i: int| 0 <= i < args@.len() ==> (#[trigger] args@[i]).wf(),
        ensures
            final(self).wf(),
            final(self).known_args@ == old(self).known_args@ + args@,
            final(self).reuse_chance == old(self).reuse_chance,
            final(self).power_of_two_chance == old(self).power_of_two_chance,
    {
        let mut i: usize = 0;
        while i < args.len()
            invariant
                i <= args@.len(),
                self.known_args@ =~= old(self).known_args@ + args@.subrange(0, i as int),
                self.reuse_chance == old(self).reuse_chance,
                self.power_of_two_chance == old(self).power_of_two_chance,
                old(self).wf(),
                forall|j: int| 0 <= j < args@.len() ==> (#[trigger] args@[j]).wf(),
            decreases args@.len() - i,
        {
            self.known_args.push(args[i]);
            i += 1;
        }
        proof {
            assert(self.known_args@ =~= old(self).known_args@ + args@);
            assert forall|k: int| 0 <= k < self.known_args@.len() implies (#[trigger] self
                .known_args@[k]).wf() by {
                if k < old(self).known_args@.len() {
                    assert(self.known_args@[k] == old(self).known_args@[k]);
                } else {
                    assert(self.known_args@[k] == args@[k - old(self).known_args@.len()]);
                }
            }
        }
    }

    /// Draws one argument for the given slot.
    ///
    /// With probability `reuse_chance` percent, a previously forwarded value
    /// whose slot has the *same bit-width* (not the same slot identity) is
    /// reinterpreted for this slot; otherwise, with probability
    /// `power_of_two_chance` percent a power of two below the slot's bound,
    /// and otherwise a uniform value in `[0, max_value]` inclusive.
    /// Whichever path is taken, the value fits the slot.
    pub fn generate_argument(&self, rand: &mut Xoshiro256PlusPlusRand, arg: ArgumentSpec) -> (a:
        Argument)
        requires
            self.wf(),
            arg.wf(),
        ensures
            a.slot == arg,
            a.value <= max_value_spec(arg.width),
            a.wf(),
    {
        let u = rand_below(rand, 100);
        if (u as u64) < self.reuse_chance {
            let mut options: Vec<u32> = Vec::new();
            let mut i: usize = 0;
            while i < self.known_args.len()
                invariant
                    self.wf(),
                    arg.wf(),
                    i <= self.known_args@.len(),
                    forall|j: int|
                        0 <= j < options@.len() ==> (#[trigger] options@[j]) <= max_value_spec(
                            arg.width,
                        ),
                decreases self.known_args@.len() - i,
            {
                let ka = self.known_args[i];
                if ka.slot.width == arg.width {
                    options.push(ka.value);
                }
                i += 1;
            }
            if options.len() > 0 {
                let k = rand_below(rand, options.len());
                return Argument::new(arg, options[k]);
            }
        }
        let u2 = rand_below(rand, 100);
        if (u2 as u64) < self.power_of_two_chance {
            let k = rand_below(rand, arg.width as usize);
            let v: u32 = 1u32 << (k as u32);
            proof {
                vstd::bits::lemma_u32_pow2_no_overflow(k as nat);
                vstd::bits::lemma_u32_shl_is_mul(1u32, k as u32);
                lemma_pow2_strictly_increases(k as nat, arg.width as nat);
            }
            Argument::new(arg, v)
        } else {
            let m = arg.max_value();
            let m64: u64 = m as u64;
            let d = rand_next(rand);
            let masked: u64 = d & m64;
            proof {
                assert(d & m64 <= m64) by (bit_vector);
            }
            Argument::new(arg, masked as u32)
        }
    }

    /// Chooses one template uniformly from the non-empty set and fills each
    /// of its operand slots in declared order.
    pub fn generate_instruction(
        &self,
        rand: &mut Xoshiro256PlusPlusRand,
        insts: &Vec<InstructionTemplate>,
    ) -> (inst: Instruction)
        requires
            self.wf(),
            insts@.len() > 0,
            forall|i: int| 0 <= i < insts@.len() ==> (#[trigger] insts@[i]).wf(),
        ensures
            inst.wf(),
            exists|i: int| 0 <= i < insts@.len() && inst.template.equiv(#[trigger] insts@[i]),
    {
        let idx = rand_below(rand, insts.len());
        let template = insts[idx].duplicate();
        let mut arguments: Vec<Argument> = Vec::new();
        let mut i: usize = 0;
        while i < template.operands.len()
            invariant
                self.wf(),
                template.wf(),
                i == arguments@.len(),
                i <= template.operands@.len(),
                forall|k: int|
                    0 <= k < arguments@.len() ==> (#[trigger] arguments@[k]).slot
                        == template.operands@[k] && arguments@[k].wf(),
            decreases template.operands@.len() - i,
        {
            let slot = template.operands[i];
            let a = self.generate_argument(rand, slot);
            arguments.push(a);
            i += 1;
        }
        let inst = Instruction::new(template, arguments);
        proof {
            assert(inst.template.equiv(insts@[idx as int]));
        }
        inst
    }

    /// Produces `number` independently generated instructions from the same
    /// template set and reuse pool.
    pub fn generate_instructions(
        &self,
        rand: &mut Xoshiro256PlusPlusRand,
        insts: &Vec<InstructionTemplate>,
        number: u32,
    ) -> (result: Vec<Instruction>)
        requires
            self.wf(),
            insts@.len() > 0,
            forall|i: int| 0 <= i < insts@.len() ==> (#[trigger] insts@[i]).wf(),
        ensures
            result@.len() == number,
            forall|k: int|
                0 <= k < result@.len() ==> (#[trigger] result@[k]).wf() && exists|i: int|
                    0 <= i < insts@.len() && result@[k].template.equiv(#[trigger] insts@[i]),
    {
        let mut result: Vec<Instruction> = Vec::new();
        let mut n: u32 = 0;
        while n < number
            invariant
                self.wf(),
                insts@.len() > 0,
                forall|i: int| 0 <= i < insts@.len() ==> (#[trigger] insts@[i]).wf(),
                n == result@.len(),
                n <= number,
                forall|k: int|
                    0 <= k < result@.len() ==> (#[trigger] result@[k]).wf() && exists|i: int|
                        0 <= i < insts@.len() && result@[k].template.equiv(#[trigger] insts@[i]),
            decreases number - n,
        {
            let inst = self.generate_instruction(rand, insts);
            result.push(inst);
            n += 1;
        }
        result
    }
}

} // verus!
