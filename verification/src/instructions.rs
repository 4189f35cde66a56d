//! Static description of the instruction set: operand slots, instruction
//! templates, and the concrete values bound to them.
//!
//! Operand slots and templates are built once at startup and shared
//! read-only; arguments, instructions and programs are value-like and
//! independently owned.

use vstd::prelude::*;
use vstd::arithmetic::power2::*;

verus! {

/// One operand slot's encoding rule: a slot identity and a bit-width.
///
/// Two slots that happen to share a bit-width are distinct (identity is the
/// `id` field); they are only *compatible* for value reuse.
#[derive(Clone, Copy, PartialEq, Eq, Structural, Debug)]
pub struct ArgumentSpec {
    pub id: u32,
    pub width: u32,
}

/// The largest value an operand of the given bit-width can carry:
/// 2^width - 1.
pub open spec fn max_value_spec(width: u32) -> nat {
    (pow2(width as nat) - 1) as nat
}

impl ArgumentSpec {
    /// A slot is well formed when its width is positive and its values fit
    /// a 32-bit argument.
    pub open spec fn wf(self) -> bool {
        1 <= self.width <= 32
    }

    /// The slot's bit-width.
    pub fn length(&self) -> (w: u32)
        ensures
            w == self.width,
    {
        self.width
    }

    /// The largest value an operand bound to this slot can carry.
    pub fn max_value(&self) -> (m: u32)
        requires
            self.wf(),
        ensures
            m == max_value_spec(self.width),
            m >= 1,
    {
        proof {
            lemma2_to64();
        }
        if self.width == 32 {
            u32::MAX
        } else {
            assert((1u64 << self.width) == pow2(self.width as nat)) by {
                vstd::bits::lemma_u64_shl_is_mul(1u64, self.width as u64);
                vstd::bits::lemma_u64_pow2_no_overflow(self.width as nat);
            }
            assert(pow2(self.width as nat) < pow2(32)) by {
                lemma_pow2_strictly_increases(self.width as nat, 32nat);
            }
            ((1u64 << self.width) - 1) as u32
        }
    }
}

/// A concrete operand value bound to one slot.
///
/// The value never exceeds the slot's maximum; constructing an argument out
/// of range is a caller error, ruled out by the constructor's precondition.
#[derive(Clone, Copy, PartialEq, Eq, Structural, Debug)]
pub struct Argument {
    pub slot: ArgumentSpec,
    pub value: u32,
}

impl Argument {
    /// The argument's value fits its slot.
    pub open spec fn wf(self) -> bool {
        &&& self.slot.wf()
        &&& self.value <= max_value_spec(self.slot.width)
    }

    pub fn new(slot: ArgumentSpec, value: u32) -> (a: Argument)
        requires
            slot.wf(),
            value <= max_value_spec(slot.width),
        ensures
            a.slot == slot,
            a.value == value,
            a.wf(),
    {
        Argument { slot, value }
    }

    /// The slot this argument is bound to.
    pub fn slot(&self) -> (s: ArgumentSpec)
        ensures
            s == self.slot,
    {
        self.slot
    }

    /// The concrete operand value.
    pub fn value(&self) -> (v: u32)
        ensures
            v == self.value,
    {
        self.value
    }
}

/// One opcode definition: a mnemonic, a template identity, and the ordered
/// list of operand slots an instruction of this opcode fills.
#[derive(Clone, PartialEq, Eq, Debug)]
pub struct InstructionTemplate {
    pub id: u32,
    pub mnemonic: &'static str,
    pub operands: Vec<ArgumentSpec>,
}

impl InstructionTemplate {
    /// Every operand slot of the template is well formed.
    pub open spec fn wf(self) -> bool {
        forall|i: int|
            0 <= i < self.operands@.len() ==> (#[trigger] self.operands@[i]).wf()
    }

    /// The template's operand slots, in declared order.
    pub fn operands(&self) -> (ops: &Vec<ArgumentSpec>)
        ensures
            ops == &self.operands,
    {
        &self.operands
    }

    /// Two templates describe the same opcode: same identity, mnemonic and
    /// operand slots.  An owned copy of a template is `equiv` to the
    /// original, though the two are distinct values.
    pub open spec fn equiv(self, other: InstructionTemplate) -> bool {
        &&& self.id == other.id
        &&& self.mnemonic == other.mnemonic
        &&& self.operands@ == other.operands@
    }

    /// An owned copy of this template.
    pub fn duplicate(&self) -> (t: Self)
        ensures
            t.equiv(*self),
    {
        let mut ops: Vec<ArgumentSpec> = Vec::new();
        let mut i: usize = 0;
        while i < self.operands.len()
            invariant
                i <= self.operands@.len(),
                ops@ =~= self.operands@.subrange(0, i as int),
            decreases self.operands@.len() - i,
        {
            ops.push(self.operands[i]);
            i += 1;
        }
        proof {
            assert(ops@ =~= self.operands@);
        }
        InstructionTemplate { id: self.id, mnemonic: self.mnemonic, operands: ops }
    }
}

/// One emitted instruction: a template together with one argument per
/// operand slot, in the template's declared order.
#[derive(Clone, PartialEq, Eq, Debug)]
pub struct Instruction {
    pub template: InstructionTemplate,
    pub arguments: Vec<Argument>,
}

impl Instruction {
    /// The arguments line up with the template: one per slot, each bound to
    /// that slot and within its range.
    pub open spec fn wf(self) -> bool {
        &&& self.template.wf()
        &&& self.arguments@.len() == self.template.operands@.len()
        &&& forall|k: int|
            0 <= k < self.arguments@.len() ==> (#[trigger] self.arguments@[k]).slot
                == self.template.operands@[k] && self.arguments@[k].wf()
    }

    /// Mismatched arity or an out-of-range argument is a caller error, ruled
    /// out by the precondition rather than checked at run time.
    pub fn new(template: InstructionTemplate, arguments: Vec<Argument>) -> (inst: Instruction)
        requires
            template.wf(),
            arguments@.len() == template.operands@.len(),
            forall|k: int|
                0 <= k < arguments@.len() ==> (#[trigger] arguments@[k]).slot
                    == template.operands@[k] && arguments@[k].wf(),
        ensures
            inst.template == template,
            inst.arguments == arguments,
            inst.wf(),
    {
        Instruction { template, arguments }
    }

    /// The instruction's template.
    pub fn template(&self) -> (t: &InstructionTemplate)
        ensures
            t == &self.template,
    {
        &self.template
    }

    /// The instruction's arguments, in operand order.
    pub fn arguments(&self) -> (args: &Vec<Argument>)
        ensures
            args == &self.arguments,
    {
        &self.arguments
    }
}

/// Destination register slot.
pub fn rd() -> (s: ArgumentSpec)
    ensures
        s.id == 0,
        s.width == 6,
        s.wf(),
{
    ArgumentSpec { id: 0, width: 6 }
}

/// First source register slot.
pub fn rs1() -> (s: ArgumentSpec)
    ensures
        s.id == 1,
        s.width == 6,
        s.wf(),
{
    ArgumentSpec { id: 1, width: 6 }
}

/// Second source register slot.
pub fn rs2() -> (s: ArgumentSpec)
    ensures
        s.id == 2,
        s.width == 6,
        s.wf(),
{
    ArgumentSpec { id: 2, width: 6 }
}

/// Twelve-bit immediate slot.
pub fn imm12() -> (s: ArgumentSpec)
    ensures
        s.id == 3,
        s.width == 12,
        s.wf(),
{
    ArgumentSpec { id: 3, width: 12 }
}

/// Twenty-bit upper-immediate slot.
pub fn imm20() -> (s: ArgumentSpec)
    ensures
        s.id == 4,
        s.width == 20,
        s.wf(),
{
    ArgumentSpec { id: 4, width: 20 }
}

/// Shift-amount slot.
pub fn shamt() -> (s: ArgumentSpec)
    ensures
        s.id == 5,
        s.width == 6,
        s.wf(),
{
    ArgumentSpec { id: 5, width: 6 }
}

fn r_template(id: u32, mnemonic: &'static str) -> (t: InstructionTemplate)
    ensures
        t.wf(),
        t.id == id,
        t.operands@.len() == 3,
        t.operands@[0].id == 0,
{
    InstructionTemplate { id, mnemonic, operands: vec![rd(), rs1(), rs2()] }
}

fn i_template(id: u32, mnemonic: &'static str) -> (t: InstructionTemplate)
    ensures
        t.wf(),
        t.id == id,
        t.operands@.len() == 3,
        t.operands@[0].id == 0,
{
    InstructionTemplate { id, mnemonic, operands: vec![rd(), rs1(), imm12()] }
}

fn u_template(id: u32, mnemonic: &'static str) -> (t: InstructionTemplate)
    ensures
        t.wf(),
        t.id == id,
        t.operands@.len() == 2,
        t.operands@[0].id == 0,
{
    InstructionTemplate { id, mnemonic, operands: vec![rd(), imm20()] }
}

fn s_template(id: u32, mnemonic: &'static str) -> (t: InstructionTemplate)
    ensures
        t.wf(),
        t.id == id,
        t.operands@.len() == 3,
{
    InstructionTemplate { id, mnemonic, operands: vec![rs1(), rs2(), imm12()] }
}

fn shift_template(id: u32, mnemonic: &'static str) -> (t: InstructionTemplate)
    ensures
        t.wf(),
        t.id == id,
        t.operands@.len() == 3,
        t.operands@[0].id == 0,
{
    InstructionTemplate { id, mnemonic, operands: vec![rd(), rs1(), shamt()] }
}

/// The baseline 64-bit instruction set the generator draws from.
pub fn riscv_g() -> (ts: Vec<InstructionTemplate>)
    ensures
        ts@.len() > 0,
        forall|i: int| 0 <= i < ts@.len() ==> (#[trigger] ts@[i]).wf(),
{
    let mut ts: Vec<InstructionTemplate> = Vec::new();
    ts.push(u_template(0, "lui"));
    ts.push(u_template(1, "auipc"));
    ts.push(i_template(2, "jalr"));
    ts.push(s_template(3, "beq"));
    ts.push(s_template(4, "bne"));
    ts.push(s_template(5, "blt"));
    ts.push(s_template(6, "bge"));
    ts.push(i_template(7, "lb"));
    ts.push(i_template(8, "lh"));
    ts.push(i_template(9, "lw"));
    ts.push(i_template(10, "ld"));
    ts.push(s_template(11, "sb"));
    ts.push(s_template(12, "sh"));
    ts.push(s_template(13, "sw"));
    ts.push(s_template(14, "sd"));
    ts.push(i_template(15, "addi"));
    ts.push(i_template(16, "slti"));
    ts.push(i_template(17, "andi"));
    ts.push(i_template(18, "ori"));
    ts.push(i_template(19, "xori"));
    ts.push(shift_template(20, "slli"));
    ts.push(shift_template(21, "srli"));
    ts.push(shift_template(22, "srai"));
    ts.push(r_template(23, "add"));
    ts.push(r_template(24, "sub"));
    ts.push(r_template(25, "sll"));
    ts.push(r_template(26, "slt"));
    ts.push(r_template(27, "xor"));
    ts.push(r_template(28, "srl"));
    ts.push(r_template(29, "sra"));
    ts.push(r_template(30, "or"));
    ts.push(r_template(31, "and"));
    ts.push(r_template(32, "mul"));
    ts.push(r_template(33, "div"));
    ts.push(r_template(34, "rem"));
    ts
}

} // verus!
