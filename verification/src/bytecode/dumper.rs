//! The trace facility: prints the bytecode of a function, one line per
//! instruction, and then its registers with their types.
//!
//! A line reads `<position>: <name> <operands>`. The position is the index
//! of the instruction, right-aligned in three columns. A register prints as
//! `r<index>`, a constant of the pool as `@<index>`, the target of a jump as
//! `#<position>`.
use vstd::prelude::*;

use crate::bytecode::{Bytecode, BytecodeFunction, BytecodeOffset, ConstPoolIdx, Layout, Register};
use crate::text::{
    decimal, hexadecimal, pad_left, push_decimal, push_decimal_padded, push_hexadecimal,
    push_signed_decimal, signed_decimal,
};
use crate::ty::BytecodeType;
use crate::vm::{ClassDefId, FctDefId, FieldId, GlobalId};

verus! {

/// A register in a trace: `r` and its index.
pub open spec fn reg_text(r: Register) -> Seq<char> {
    seq!['r'] + decimal(r.0 as nat)
}

/// The start of a line: the position in three columns, a colon, a space
/// and the name of the instruction.
pub open spec fn start_text(pos: int, name: Seq<char>) -> Seq<char> {
    pad_left(decimal(pos as nat), 3) + seq![':', ' '] + name
}

/// The operands of an instruction at position `pos`, as printed behind its
/// name.
pub open spec fn operands_text(pos: int, layout: Layout) -> Seq<char> {
    match layout {
        Layout::Inst => Seq::empty(),
        Layout::Reg3(r1, r2, r3) => seq![' '] + reg_text(r1) + seq![',', ' '] + reg_text(r2)
            + seq![',', ' '] + reg_text(r3),
        Layout::Reg2(r1, r2) => seq![' '] + reg_text(r1) + seq![',', ' '] + reg_text(r2),
        Layout::Reg2Cls(r1, r2, cls) => seq![' '] + reg_text(r1) + seq![',', ' '] + reg_text(r2)
            + seq![',', ' '] + decimal(cls.0 as nat),
        Layout::Reg1(r1) => seq![' '] + reg_text(r1),
        Layout::Reg1Cls(r1, cls) => seq![' '] + reg_text(r1) + seq![',', ' '] + decimal(
            cls.0 as nat,
        ),
        Layout::Reg1Idx(r1, idx) => seq![' '] + reg_text(r1) + seq![',', ' ', '@'] + decimal(
            idx.0 as nat,
        ),
        Layout::Idx(idx) => seq![' ', '@'] + decimal(idx.0 as nat),
        Layout::Reg1U32(r1, value) => seq![' '] + reg_text(r1) + seq![',', ' ', '0', 'x']
            + hexadecimal(value as nat) + seq!['/'] + decimal(value as nat),
        Layout::Jump(offset) => seq![' ', '#'] + signed_decimal(pos + offset),
        Layout::Reg1Jump(r1, offset) => seq![' '] + reg_text(r1) + seq![',', ' ', '#']
            + signed_decimal(pos + offset),
        Layout::Field(r1, r2, cls, field) => seq![' '] + reg_text(r1) + seq![',', ' '] + reg_text(
            r2,
        ) + seq![',', ' '] + decimal(cls.0 as nat) + seq![':'] + decimal(field.0 as nat),
        Layout::Global(r1, gid) => seq![' '] + reg_text(r1) + seq![',', ' '] + decimal(
            gid.0 as nat,
        ),
        Layout::FctVoid(fid, cnt) => seq![' '] + decimal(fid.0 as nat) + seq![',', ' '] + decimal(
            cnt as nat,
        ),
        Layout::Fct(r1, fid, cnt) => seq![' '] + reg_text(r1) + seq![',', ' '] + decimal(
            fid.0 as nat,
        ) + seq![',', ' '] + decimal(cnt as nat),
        Layout::New(r1, cls) => seq![' '] + reg_text(r1) + seq![',', ' '] + decimal(cls.0 as nat),
        Layout::NewArray(r1, cls, length) => seq![' '] + reg_text(r1) + seq![',', ' '] + decimal(
            cls.0 as nat,
        ) + seq![',', ' '] + reg_text(length),
    }
}

/// A line of the trace: start, operands, line break.
pub open spec fn entry_text(pos: int, name: Seq<char>, layout: Layout) -> Seq<char> {
    start_text(pos, name) + operands_text(pos, layout) + seq!['\n']
}

/// The line of the trace for the instruction `inst` at position `pos`.
pub open spec fn line_text(pos: int, inst: Bytecode) -> Seq<char> {
    entry_text(pos, inst.mnemonic(), inst.layout())
}

/// The lines of the first `n` instructions of `code`.
pub open spec fn code_text(code: Seq<Bytecode>, n: nat) -> Seq<char>
    decreases n,
{
    if n == 0 {
        Seq::empty()
    } else {
        code_text(code, (n - 1) as nat) + line_text(n - 1, code[n - 1])
    }
}

/// The first `n` registers with their types: for each a space, its index,
/// an equals sign and the name of its type.
pub open spec fn registers_text(registers: Seq<BytecodeType>, n: nat) -> Seq<char>
    decreases n,
{
    if n == 0 {
        Seq::empty()
    } else {
        registers_text(registers, (n - 1) as nat) + seq![' '] + decimal((n - 1) as nat)
            + seq!['='] + registers[n - 1].name()
    }
}

/// The trace of a function: the lines of its instructions, then one line
/// with its registers.
pub open spec fn trace_text(bc: &BytecodeFunction) -> Seq<char> {
    code_text(bc.code@, bc.code@.len()) + "Registers:"@ + registers_text(
        bc.registers@,
        bc.registers@.len(),
    ) + seq!['\n']
}

/// The trace of the bytecode `bc`.
pub fn dump(bc: &BytecodeFunction) -> (trace: String)
    requires
        bc.code@.len() <= u32::MAX,
    ensures
        trace@ == trace_text(bc),
{
    let mut visitor = BytecodeDumper { bc, pos: BytecodeOffset(0), w: String::new() };
    read(bc.code(), &mut visitor);
    let mut w = visitor.w;
    w.append("Registers:");

    let registers = bc.registers();
    let mut idx: usize = 0;
    while idx < registers.len()
        invariant
            idx <= registers@.len(),
            registers@ == bc.registers@,
            w@ == code_text(bc.code@, bc.code@.len()) + "Registers:"@ + registers_text(
                bc.registers@,
                idx as nat,
            ),
        decreases registers@.len() - idx,
    {
        w.push(' ');
        push_decimal(&mut w, idx as u64);
        w.push('=');
        w.append(registers[idx].as_str());
        proof {
            let head = code_text(bc.code@, bc.code@.len()) + "Registers:"@;
            let regs = registers_text(bc.registers@, idx as nat);
            assert(w@ =~= head + (regs + seq![' '] + decimal(idx as nat) + seq!['=']
                + registers@[idx as int].name()));
        }
        idx += 1;
    }

    w.push('\n');
    w
}

/// Walks the instructions of `code` in order: tells the visitor the
/// position of each, then the instruction itself.
pub fn read(code: &Vec<Bytecode>, visitor: &mut BytecodeDumper)
    requires
        code@.len() <= u32::MAX,
    ensures
        final(visitor).w@ == old(visitor).w@ + code_text(code@, code@.len()),
        final(visitor).bc == old(visitor).bc,
{
    let mut idx: usize = 0;
    while idx < code.len()
        invariant
            idx <= code@.len() <= u32::MAX,
            visitor.w@ == old(visitor).w@ + code_text(code@, idx as nat),
            visitor.bc == old(visitor).bc,
        decreases code@.len() - idx,
    {
        visitor.visit_instruction(BytecodeOffset(idx as u32));
        visitor.visit(&code[idx]);
        proof {
            assert(visitor.w@ =~= old(visitor).w@ + (code_text(code@, idx as nat) + line_text(
                idx as int,
                code@[idx as int],
            )));
        }
        idx += 1;
    }
}

/// Writes `r` and the index of the register `r1`.
fn push_register(w: &mut String, r1: Register)
    ensures
        final(w)@ == old(w)@ + reg_text(r1),
{
    w.push('r');
    push_decimal(w, r1.0 as u64);
    proof {
        assert(w@ =~= old(w)@ + reg_text(r1));
    }
}

/// Writes a comma and a space.
fn push_comma(w: &mut String)
    ensures
        final(w)@ == old(w)@ + seq![',', ' '],
{
    w.push(',');
    w.push(' ');
    proof {
        assert(w@ =~= old(w)@ + seq![',', ' ']);
    }
}

/// The visitor that writes the trace.
pub struct BytecodeDumper<'a> {
    /// The function that is traced.
    pub bc: &'a BytecodeFunction,
    /// The position of the instruction that is visited.
    pub pos: BytecodeOffset,
    /// What has been written.
    pub w: String,
}

impl<'a> BytecodeDumper<'a> {
    /// A visitor for `bc` that stands at position zero and has written
    /// nothing.
    pub fn new(bc: &'a BytecodeFunction) -> (visitor: BytecodeDumper<'a>)
        ensures
            visitor.bc == bc,
            visitor.pos.0 == 0,
            visitor.w@ == Seq::<char>::empty(),
    {
        BytecodeDumper { bc, pos: BytecodeOffset(0), w: String::new() }
    }

    /// Writes the line of an instruction without operands.
    fn emit_inst(&mut self, name: &str)
        ensures
            final(self).w@ == old(self).w@ + entry_text(old(self).pos.0 as int, name@, Layout::Inst),
            final(self).pos == old(self).pos,
            final(self).bc == old(self).bc,
    {
        self.emit_start(name);
        self.w.push('\n');
        proof {
            assert(self.w@ =~= old(self).w@ + entry_text(
                old(self).pos.0 as int,
                name@,
                Layout::Inst,
            ));
        }
    }

    /// Writes the line of an instruction with three registers.
    fn emit_reg3(&mut self, name: &str, r1: Register, r2: Register, r3: Register)
        ensures
            final(self).w@ == old(self).w@ + entry_text(
                old(self).pos.0 as int,
                name@,
                Layout::Reg3(r1, r2, r3),
            ),
            final(self).pos == old(self).pos,
            final(self).bc == old(self).bc,
    {
        self.emit_start(name);
        self.w.push(' ');
        push_register(&mut self.w, r1);
        push_comma(&mut self.w);
        push_register(&mut self.w, r2);
        push_comma(&mut self.w);
        push_register(&mut self.w, r3);
        self.w.push('\n');
        proof {
            assert(self.w@ =~= old(self).w@ + entry_text(
                old(self).pos.0 as int,
                name@,
                Layout::Reg3(r1, r2, r3),
            ));
        }
    }

    /// Writes the line of an instruction with two registers.
    fn emit_reg2(&mut self, name: &str, r1: Register, r2: Register)
        ensures
            final(self).w@ == old(self).w@ + entry_text(
                old(self).pos.0 as int,
                name@,
                Layout::Reg2(r1, r2),
            ),
            final(self).pos == old(self).pos,
            final(self).bc == old(self).bc,
    {
        self.emit_start(name);
        self.w.push(' ');
        push_register(&mut self.w, r1);
        push_comma(&mut self.w);
        push_register(&mut self.w, r2);
        self.w.push('\n');
        proof {
            assert(self.w@ =~= old(self).w@ + entry_text(
                old(self).pos.0 as int,
                name@,
                Layout::Reg2(r1, r2),
            ));
        }
    }

    /// Writes the line of an instruction with two registers and a class.
    fn emit_reg2_cls(&mut self, name: &str, r1: Register, r2: Register, cls_id: ClassDefId)
        ensures
            final(self).w@ == old(self).w@ + entry_text(
                old(self).pos.0 as int,
                name@,
                Layout::Reg2Cls(r1, r2, cls_id),
            ),
            final(self).pos == old(self).pos,
            final(self).bc == old(self).bc,
    {
        self.emit_start(name);
        self.w.push(' ');
        push_register(&mut self.w, r1);
        push_comma(&mut self.w);
        push_register(&mut self.w, r2);
        push_comma(&mut self.w);
        push_decimal(&mut self.w, cls_id.to_usize() as u64);
        self.w.push('\n');
        proof {
            assert(self.w@ =~= old(self).w@ + entry_text(
                old(self).pos.0 as int,
                name@,
                Layout::Reg2Cls(r1, r2, cls_id),
            ));
        }
    }

    /// Writes the line of an instruction with one register.
    fn emit_reg1(&mut self, name: &str, r1: Register)
        ensures
            final(self).w@ == old(self).w@ + entry_text(
                old(self).pos.0 as int,
                name@,
                Layout::Reg1(r1),
            ),
            final(self).pos == old(self).pos,
            final(self).bc == old(self).bc,
    {
        self.emit_start(name);
        self.w.push(' ');
        push_register(&mut self.w, r1);
        self.w.push('\n');
        proof {
            assert(self.w@ =~= old(self).w@ + entry_text(
                old(self).pos.0 as int,
                name@,
                Layout::Reg1(r1),
            ));
        }
    }

    /// Writes the line of an instruction with a register and a class.
    fn emit_reg1_cls(&mut self, name: &str, r1: Register, cls_id: ClassDefId)
        ensures
            final(self).w@ == old(self).w@ + entry_text(
                old(self).pos.0 as int,
                name@,
                Layout::Reg1Cls(r1, cls_id),
            ),
            final(self).pos == old(self).pos,
            final(self).bc == old(self).bc,
    {
        self.emit_start(name);
        self.w.push(' ');
        push_register(&mut self.w, r1);
        push_comma(&mut self.w);
        push_decimal(&mut self.w, cls_id.to_usize() as u64);
        self.w.push('\n');
        proof {
            assert(self.w@ =~= old(self).w@ + entry_text(
                old(self).pos.0 as int,
                name@,
                Layout::Reg1Cls(r1, cls_id),
            ));
        }
    }

    /// Writes the line of an instruction with a register and a constant of the pool.
    fn emit_reg1_idx(&mut self, name: &str, r1: Register, idx: ConstPoolIdx)
        ensures
            final(self).w@ == old(self).w@ + entry_text(
                old(self).pos.0 as int,
                name@,
                Layout::Reg1Idx(r1, idx),
            ),
            final(self).pos == old(self).pos,
            final(self).bc == old(self).bc,
    {
        self.emit_start(name);
        self.w.push(' ');
        push_register(&mut self.w, r1);
        self.w.push(',');
        self.w.push(' ');
        self.w.push('@');
        push_decimal(&mut self.w, idx.to_usize() as u64);
        self.w.push('\n');
        proof {
            assert(self.w@ =~= old(self).w@ + entry_text(
                old(self).pos.0 as int,
                name@,
                Layout::Reg1Idx(r1, idx),
            ));
        }
    }

    /// Writes the line of an instruction with a constant of the pool.
    fn emit_idx(&mut self, name: &str, idx: ConstPoolIdx)
        ensures
            final(self).w@ == old(self).w@ + entry_text(
                old(self).pos.0 as int,
                name@,
                Layout::Idx(idx),
            ),
            final(self).pos == old(self).pos,
            final(self).bc == old(self).bc,
    {
        self.emit_start(name);
        self.w.push(' ');
        self.w.push('@');
        push_decimal(&mut self.w, idx.to_usize() as u64);
        self.w.push('\n');
        proof {
            assert(self.w@ =~= old(self).w@ + entry_text(
                old(self).pos.0 as int,
                name@,
                Layout::Idx(idx),
            ));
        }
    }

    /// Writes the line of an instruction with a register and a number, which is shown in
    /// hexadecimal and in decimal.
    fn emit_reg1_u32(&mut self, name: &str, r1: Register, value: u32)
        ensures
            final(self).w@ == old(self).w@ + entry_text(
                old(self).pos.0 as int,
                name@,
                Layout::Reg1U32(r1, value),
            ),
            final(self).pos == old(self).pos,
            final(self).bc == old(self).bc,
    {
        self.emit_start(name);
        self.w.push(' ');
        push_register(&mut self.w, r1);
        self.w.push(',');
        self.w.push(' ');
        self.w.push('0');
        self.w.push('x');
        push_hexadecimal(&mut self.w, value as u64);
        self.w.push('/');
        push_decimal(&mut self.w, value as u64);
        self.w.push('\n');
        proof {
            assert(self.w@ =~= old(self).w@ + entry_text(
                old(self).pos.0 as int,
                name@,
                Layout::Reg1U32(r1, value),
            ));
        }
    }

    /// Writes the line of a jump on the value of a register over the distance `offset`: the
    /// register and the position that the jump leads to.
    fn emit_reg1_jump(&mut self, name: &str, r1: Register, offset: i64)
        requires
            -0x1_0000_0000 < offset < 0x1_0000_0000,
        ensures
            final(self).w@ == old(self).w@ + entry_text(
                old(self).pos.0 as int,
                name@,
                Layout::Reg1Jump(r1, offset as int),
            ),
            final(self).pos == old(self).pos,
            final(self).bc == old(self).bc,
    {
        self.emit_start(name);
        let bc_target: i64 = self.pos.to_u32() as i64 + offset;
        self.w.push(' ');
        push_register(&mut self.w, r1);
        self.w.push(',');
        self.w.push(' ');
        self.w.push('#');
        push_signed_decimal(&mut self.w, bc_target);
        self.w.push('\n');
        proof {
            assert(self.w@ =~= old(self).w@ + entry_text(
                old(self).pos.0 as int,
                name@,
                Layout::Reg1Jump(r1, offset as int),
            ));
        }
    }

    /// Writes the line of a jump over the distance `offset`: the position that it leads to.
    fn emit_jump(&mut self, name: &str, offset: i64)
        requires
            -0x1_0000_0000 < offset < 0x1_0000_0000,
        ensures
            final(self).w@ == old(self).w@ + entry_text(
                old(self).pos.0 as int,
                name@,
                Layout::Jump(offset as int),
            ),
            final(self).pos == old(self).pos,
            final(self).bc == old(self).bc,
    {
        self.emit_start(name);
        let bc_target: i64 = self.pos.to_u32() as i64 + offset;
        self.w.push(' ');
        self.w.push('#');
        push_signed_decimal(&mut self.w, bc_target);
        self.w.push('\n');
        proof {
            assert(self.w@ =~= old(self).w@ + entry_text(
                old(self).pos.0 as int,
                name@,
                Layout::Jump(offset as int),
            ));
        }
    }

    /// Writes the line of an instruction with two registers and a field of a class.
    fn emit_field(&mut self, name: &str, r1: Register, r2: Register, cid: ClassDefId, fid: FieldId)
        ensures
            final(self).w@ == old(self).w@ + entry_text(
                old(self).pos.0 as int,
                name@,
                Layout::Field(r1, r2, cid, fid),
            ),
            final(self).pos == old(self).pos,
            final(self).bc == old(self).bc,
    {
        self.emit_start(name);
        self.w.push(' ');
        push_register(&mut self.w, r1);
        push_comma(&mut self.w);
        push_register(&mut self.w, r2);
        push_comma(&mut self.w);
        push_decimal(&mut self.w, cid.to_usize() as u64);
        self.w.push(':');
        push_decimal(&mut self.w, fid.to_usize() as u64);
        self.w.push('\n');
        proof {
            assert(self.w@ =~= old(self).w@ + entry_text(
                old(self).pos.0 as int,
                name@,
                Layout::Field(r1, r2, cid, fid),
            ));
        }
    }

    /// Writes the line of an instruction with a register and a global variable.
    fn emit_global(&mut self, name: &str, r1: Register, gid: GlobalId)
        ensures
            final(self).w@ == old(self).w@ + entry_text(
                old(self).pos.0 as int,
                name@,
                Layout::Global(r1, gid),
            ),
            final(self).pos == old(self).pos,
            final(self).bc == old(self).bc,
    {
        self.emit_start(name);
        self.w.push(' ');
        push_register(&mut self.w, r1);
        push_comma(&mut self.w);
        push_decimal(&mut self.w, gid.to_usize() as u64);
        self.w.push('\n');
        proof {
            assert(self.w@ =~= old(self).w@ + entry_text(
                old(self).pos.0 as int,
                name@,
                Layout::Global(r1, gid),
            ));
        }
    }

    /// Writes the line of a call without a result.
    fn emit_fct_void(&mut self, name: &str, fid: FctDefId, cnt: u32)
        ensures
            final(self).w@ == old(self).w@ + entry_text(
                old(self).pos.0 as int,
                name@,
                Layout::FctVoid(fid, cnt),
            ),
            final(self).pos == old(self).pos,
            final(self).bc == old(self).bc,
    {
        self.emit_start(name);
        self.w.push(' ');
        push_decimal(&mut self.w, fid.to_usize() as u64);
        push_comma(&mut self.w);
        push_decimal(&mut self.w, cnt as u64);
        self.w.push('\n');
        proof {
            assert(self.w@ =~= old(self).w@ + entry_text(
                old(self).pos.0 as int,
                name@,
                Layout::FctVoid(fid, cnt),
            ));
        }
    }

    /// Writes the line of a call with a result.
    fn emit_fct(&mut self, name: &str, r1: Register, fid: FctDefId, cnt: u32)
        ensures
            final(self).w@ == old(self).w@ + entry_text(
                old(self).pos.0 as int,
                name@,
                Layout::Fct(r1, fid, cnt),
            ),
            final(self).pos == old(self).pos,
            final(self).bc == old(self).bc,
    {
        self.emit_start(name);
        self.w.push(' ');
        push_register(&mut self.w, r1);
        push_comma(&mut self.w);
        push_decimal(&mut self.w, fid.to_usize() as u64);
        push_comma(&mut self.w);
        push_decimal(&mut self.w, cnt as u64);
        self.w.push('\n');
        proof {
            assert(self.w@ =~= old(self).w@ + entry_text(
                old(self).pos.0 as int,
                name@,
                Layout::Fct(r1, fid, cnt),
            ));
        }
    }

    /// Writes the line of the creation of an object.
    fn emit_new(&mut self, name: &str, r1: Register, cls: ClassDefId)
        ensures
            final(self).w@ == old(self).w@ + entry_text(
                old(self).pos.0 as int,
                name@,
                Layout::New(r1, cls),
            ),
            final(self).pos == old(self).pos,
            final(self).bc == old(self).bc,
    {
        self.emit_start(name);
        self.w.push(' ');
        push_register(&mut self.w, r1);
        push_comma(&mut self.w);
        push_decimal(&mut self.w, cls.to_usize() as u64);
        self.w.push('\n');
        proof {
            assert(self.w@ =~= old(self).w@ + entry_text(
                old(self).pos.0 as int,
                name@,
                Layout::New(r1, cls),
            ));
        }
    }

    /// Writes the line of the creation of an array.
    fn emit_new_array(&mut self, name: &str, r1: Register, cls: ClassDefId, length: Register)
        ensures
            final(self).w@ == old(self).w@ + entry_text(
                old(self).pos.0 as int,
                name@,
                Layout::NewArray(r1, cls, length),
            ),
            final(self).pos == old(self).pos,
            final(self).bc == old(self).bc,
    {
        self.emit_start(name);
        self.w.push(' ');
        push_register(&mut self.w, r1);
        push_comma(&mut self.w);
        push_decimal(&mut self.w, cls.to_usize() as u64);
        push_comma(&mut self.w);
        push_register(&mut self.w, length);
        self.w.push('\n');
        proof {
            assert(self.w@ =~= old(self).w@ + entry_text(
                old(self).pos.0 as int,
                name@,
                Layout::NewArray(r1, cls, length),
            ));
        }
    }

    /// Writes the start of a line: the position and the name of the instruction.
    fn emit_start(&mut self, name: &str)
        ensures
            final(self).w@ == old(self).w@ + start_text(old(self).pos.0 as int, name@),
            final(self).pos == old(self).pos,
            final(self).bc == old(self).bc,
    {
        push_decimal_padded(&mut self.w, self.pos.to_usize() as u64, 3);
        self.w.push(':');
        self.w.push(' ');
        self.w.append(name);
        proof {
            assert(self.w@ =~= old(self).w@ + start_text(old(self).pos.0 as int, name@));
        }
    }

    /// Takes note of the position of the instruction that comes next.
    pub fn visit_instruction(&mut self, offset: BytecodeOffset)
        ensures
            final(self).pos == offset,
            final(self).w == old(self).w,
            final(self).bc == old(self).bc,
    {
        self.pos = offset;
    }

    /// Writes the line of the instruction `inst`.
    pub fn visit(&mut self, inst: &Bytecode)
        ensures
            final(self).w@ == old(self).w@ + line_text(old(self).pos.0 as int, *inst),
            final(self).pos == old(self).pos,
            final(self).bc == old(self).bc,
    {
        match *inst {
            Bytecode::AddInt(dest, lhs, rhs) => self.visit_add_int(dest, lhs, rhs),
            Bytecode::AddLong(dest, lhs, rhs) => self.visit_add_long(dest, lhs, rhs),
            Bytecode::AddFloat(dest, lhs, rhs) => self.visit_add_float(dest, lhs, rhs),
            Bytecode::AddDouble(dest, lhs, rhs) => self.visit_add_double(dest, lhs, rhs),
            Bytecode::SubInt(dest, lhs, rhs) => self.visit_sub_int(dest, lhs, rhs),
            Bytecode::SubLong(dest, lhs, rhs) => self.visit_sub_long(dest, lhs, rhs),
            Bytecode::SubFloat(dest, lhs, rhs) => self.visit_sub_float(dest, lhs, rhs),
            Bytecode::SubDouble(dest, lhs, rhs) => self.visit_sub_double(dest, lhs, rhs),
            Bytecode::NegInt(dest, src) => self.visit_neg_int(dest, src),
            Bytecode::NegLong(dest, src) => self.visit_neg_long(dest, src),
            Bytecode::NegFloat(dest, src) => self.visit_neg_float(dest, src),
            Bytecode::NegDouble(dest, src) => self.visit_neg_double(dest, src),
            Bytecode::MulInt(dest, lhs, rhs) => self.visit_mul_int(dest, lhs, rhs),
            Bytecode::MulLong(dest, lhs, rhs) => self.visit_mul_long(dest, lhs, rhs),
            Bytecode::MulFloat(dest, lhs, rhs) => self.visit_mul_float(dest, lhs, rhs),
            Bytecode::MulDouble(dest, lhs, rhs) => self.visit_mul_double(dest, lhs, rhs),
            Bytecode::DivInt(dest, lhs, rhs) => self.visit_div_int(dest, lhs, rhs),
            Bytecode::DivLong(dest, lhs, rhs) => self.visit_div_long(dest, lhs, rhs),
            Bytecode::DivFloat(dest, lhs, rhs) => self.visit_div_float(dest, lhs, rhs),
            Bytecode::DivDouble(dest, lhs, rhs) => self.visit_div_double(dest, lhs, rhs),
            Bytecode::ModInt(dest, lhs, rhs) => self.visit_mod_int(dest, lhs, rhs),
            Bytecode::ModLong(dest, lhs, rhs) => self.visit_mod_long(dest, lhs, rhs),
            Bytecode::AndInt(dest, lhs, rhs) => self.visit_and_int(dest, lhs, rhs),
            Bytecode::AndLong(dest, lhs, rhs) => self.visit_and_long(dest, lhs, rhs),
            Bytecode::OrInt(dest, lhs, rhs) => self.visit_or_int(dest, lhs, rhs),
            Bytecode::OrLong(dest, lhs, rhs) => self.visit_or_long(dest, lhs, rhs),
            Bytecode::XorInt(dest, lhs, rhs) => self.visit_xor_int(dest, lhs, rhs),
            Bytecode::XorLong(dest, lhs, rhs) => self.visit_xor_long(dest, lhs, rhs),
            Bytecode::NotBool(dest, src) => self.visit_not_bool(dest, src),
            Bytecode::NotInt(dest, src) => self.visit_not_int(dest, src),
            Bytecode::NotLong(dest, src) => self.visit_not_long(dest, src),
            Bytecode::ShlInt(dest, lhs, rhs) => self.visit_shl_int(dest, lhs, rhs),
            Bytecode::ShrInt(dest, lhs, rhs) => self.visit_shr_int(dest, lhs, rhs),
            Bytecode::SarInt(dest, lhs, rhs) => self.visit_sar_int(dest, lhs, rhs),
            Bytecode::ShlLong(dest, lhs, rhs) => self.visit_shl_long(dest, lhs, rhs),
            Bytecode::ShrLong(dest, lhs, rhs) => self.visit_shr_long(dest, lhs, rhs),
            Bytecode::SarLong(dest, lhs, rhs) => self.visit_sar_long(dest, lhs, rhs),
            Bytecode::RolInt(dest, lhs, rhs) => self.visit_rol_int(dest, lhs, rhs),
            Bytecode::RorInt(dest, lhs, rhs) => self.visit_ror_int(dest, lhs, rhs),
            Bytecode::RolLong(dest, lhs, rhs) => self.visit_rol_long(dest, lhs, rhs),
            Bytecode::RorLong(dest, lhs, rhs) => self.visit_ror_long(dest, lhs, rhs),
            Bytecode::ReinterpretIntAsFloat(dest, src) => {
                self.visit_reinterpret_int_as_float(dest, src)
            },
            Bytecode::ReinterpretFloatAsInt(dest, src) => {
                self.visit_reinterpret_float_as_int(dest, src)
            },
            Bytecode::ReinterpretDoubleAsLong(dest, src) => {
                self.visit_reinterpret_double_as_long(dest, src)
            },
            Bytecode::ReinterpretLongAsDouble(dest, src) => {
                self.visit_reinterpret_long_as_double(dest, src)
            },
            Bytecode::ExtendByteToChar(dest, src) => self.visit_extend_byte_to_char(dest, src),
            Bytecode::ExtendByteToInt(dest, src) => self.visit_extend_byte_to_int(dest, src),
            Bytecode::ExtendByteToLong(dest, src) => self.visit_extend_byte_to_long(dest, src),
            Bytecode::ExtendIntToLong(dest, src) => self.visit_extend_int_to_long(dest, src),
            Bytecode::ExtendCharToLong(dest, src) => self.visit_extend_char_to_long(dest, src),
            Bytecode::CastCharToInt(dest, src) => self.visit_cast_char_to_int(dest, src),
            Bytecode::CastIntToByte(dest, src) => self.visit_cast_int_to_byte(dest, src),
            Bytecode::CastIntToChar(dest, src) => self.visit_cast_int_to_char(dest, src),
            Bytecode::CastInt64ToByte(dest, src) => self.visit_cast_int64_to_byte(dest, src),
            Bytecode::CastInt64ToChar(dest, src) => self.visit_cast_int64_to_char(dest, src),
            Bytecode::CastInt64ToInt(dest, src) => self.visit_cast_int64_to_int(dest, src),
            Bytecode::ConvertIntToFloat(dest, src) => self.visit_convert_int_to_float(dest, src),
            Bytecode::ConvertIntToDouble(dest, src) => self.visit_convert_int_to_double(dest, src),
            Bytecode::ConvertLongToFloat(dest, src) => self.visit_convert_long_to_float(dest, src),
            Bytecode::ConvertLongToDouble(dest, src) => {
                self.visit_convert_long_to_double(dest, src)
            },
            Bytecode::TruncateFloatToInt(dest, src) => self.visit_truncate_float_to_int(dest, src),
            Bytecode::TruncateFloatToLong(dest, src) => {
                self.visit_truncate_float_to_long(dest, src)
            },
            Bytecode::TruncateDoubleToInt(dest, src) => {
                self.visit_truncate_double_to_int(dest, src)
            },
            Bytecode::TruncateDoubleToLong(dest, src) => {
                self.visit_truncate_double_to_long(dest, src)
            },
            Bytecode::InstanceOf(dest, src, cls_id) => self.visit_instance_of(dest, src, cls_id),
            Bytecode::CheckedCast(src, cls_id) => self.visit_checked_cast(src, cls_id),
            Bytecode::MovBool(dest, src) => self.visit_mov_bool(dest, src),
            Bytecode::MovByte(dest, src) => self.visit_mov_byte(dest, src),
            Bytecode::MovChar(dest, src) => self.visit_mov_char(dest, src),
            Bytecode::MovInt(dest, src) => self.visit_mov_int(dest, src),
            Bytecode::MovInt64(dest, src) => self.visit_mov_int64(dest, src),
            Bytecode::MovFloat(dest, src) => self.visit_mov_float(dest, src),
            Bytecode::MovDouble(dest, src) => self.visit_mov_double(dest, src),
            Bytecode::MovPtr(dest, src) => self.visit_mov_ptr(dest, src),
            Bytecode::LoadFieldBool(dest, obj, cls, field) => {
                self.visit_load_field_bool(dest, obj, cls, field)
            },
            Bytecode::LoadFieldUInt8(dest, obj, cls, field) => {
                self.visit_load_field_uint8(dest, obj, cls, field)
            },
            Bytecode::LoadFieldChar(dest, obj, cls, field) => {
                self.visit_load_field_char(dest, obj, cls, field)
            },
            Bytecode::LoadFieldInt(dest, obj, cls, field) => {
                self.visit_load_field_int(dest, obj, cls, field)
            },
            Bytecode::LoadFieldInt64(dest, obj, cls, field) => {
                self.visit_load_field_int64(dest, obj, cls, field)
            },
            Bytecode::LoadFieldFloat(dest, obj, cls, field) => {
                self.visit_load_field_float(dest, obj, cls, field)
            },
            Bytecode::LoadFieldDouble(dest, obj, cls, field) => {
                self.visit_load_field_double(dest, obj, cls, field)
            },
            Bytecode::LoadFieldPtr(dest, obj, cls, field) => {
                self.visit_load_field_ptr(dest, obj, cls, field)
            },
            Bytecode::StoreFieldBool(src, obj, cls, field) => {
                self.visit_store_field_bool(src, obj, cls, field)
            },
            Bytecode::StoreFieldUInt8(src, obj, cls, field) => {
                self.visit_store_field_uint8(src, obj, cls, field)
            },
            Bytecode::StoreFieldChar(src, obj, cls, field) => {
                self.visit_store_field_char(src, obj, cls, field)
            },
            Bytecode::StoreFieldInt(src, obj, cls, field) => {
                self.visit_store_field_int(src, obj, cls, field)
            },
            Bytecode::StoreFieldInt64(src, obj, cls, field) => {
                self.visit_store_field_int64(src, obj, cls, field)
            },
            Bytecode::StoreFieldFloat(src, obj, cls, field) => {
                self.visit_store_field_float(src, obj, cls, field)
            },
            Bytecode::StoreFieldDouble(src, obj, cls, field) => {
                self.visit_store_field_double(src, obj, cls, field)
            },
            Bytecode::StoreFieldPtr(src, obj, cls, field) => {
                self.visit_store_field_ptr(src, obj, cls, field)
            },
            Bytecode::LoadGlobalBool(dest, glob) => self.visit_load_global_bool(dest, glob),
            Bytecode::LoadGlobalByte(dest, glob) => self.visit_load_global_byte(dest, glob),
            Bytecode::LoadGlobalChar(dest, glob) => self.visit_load_global_char(dest, glob),
            Bytecode::LoadGlobalInt(dest, glob) => self.visit_load_global_int(dest, glob),
            Bytecode::LoadGlobalLong(dest, glob) => self.visit_load_global_long(dest, glob),
            Bytecode::LoadGlobalFloat(dest, glob) => self.visit_load_global_float(dest, glob),
            Bytecode::LoadGlobalDouble(dest, glob) => self.visit_load_global_double(dest, glob),
            Bytecode::LoadGlobalPtr(dest, glob) => self.visit_load_global_ptr(dest, glob),
            Bytecode::StoreGlobalBool(src, glob) => self.visit_store_global_bool(src, glob),
            Bytecode::StoreGlobalByte(src, glob) => self.visit_store_global_byte(src, glob),
            Bytecode::StoreGlobalChar(src, glob) => self.visit_store_global_char(src, glob),
            Bytecode::StoreGlobalInt(src, glob) => self.visit_store_global_int(src, glob),
            Bytecode::StoreGlobalLong(src, glob) => self.visit_store_global_long(src, glob),
            Bytecode::StoreGlobalFloat(src, glob) => self.visit_store_global_float(src, glob),
            Bytecode::StoreGlobalDouble(src, glob) => self.visit_store_global_double(src, glob),
            Bytecode::StoreGlobalPtr(src, glob) => self.visit_store_global_ptr(src, glob),
            Bytecode::PushRegister(src) => self.visit_push_register(src),
            Bytecode::ConstNil(dest) => self.visit_const_nil(dest),
            Bytecode::ConstTrue(dest) => self.visit_const_true(dest),
            Bytecode::ConstFalse(dest) => self.visit_const_false(dest),
            Bytecode::ConstZeroByte(dest) => self.visit_const_zero_byte(dest),
            Bytecode::ConstZeroChar(dest) => self.visit_const_zero_char(dest),
            Bytecode::ConstZeroInt(dest) => self.visit_const_zero_int(dest),
            Bytecode::ConstZeroLong(dest) => self.visit_const_zero_long(dest),
            Bytecode::ConstZeroFloat(dest) => self.visit_const_zero_float(dest),
            Bytecode::ConstZeroDouble(dest) => self.visit_const_zero_double(dest),
            Bytecode::ConstChar(dest, value) => self.visit_const_char(dest, value),
            Bytecode::ConstUInt8(dest, value) => self.visit_const_uint8(dest, value),
            Bytecode::ConstInt(dest, value) => self.visit_const_int(dest, value),
            Bytecode::ConstInt64(dest, value) => self.visit_const_int64(dest, value),
            Bytecode::ConstFloat(dest, value) => self.visit_const_float(dest, value),
            Bytecode::ConstDouble(dest, value) => self.visit_const_double(dest, value),
            Bytecode::ConstString(dest, value) => self.visit_const_string(dest, value),
            Bytecode::TestEqPtr(dest, lhs, rhs) => self.visit_test_eq_ptr(dest, lhs, rhs),
            Bytecode::TestNePtr(dest, lhs, rhs) => self.visit_test_ne_ptr(dest, lhs, rhs),
            Bytecode::TestEqBool(dest, lhs, rhs) => self.visit_test_eq_bool(dest, lhs, rhs),
            Bytecode::TestNeBool(dest, lhs, rhs) => self.visit_test_ne_bool(dest, lhs, rhs),
            Bytecode::TestEqByte(dest, lhs, rhs) => self.visit_test_eq_byte(dest, lhs, rhs),
            Bytecode::TestNeByte(dest, lhs, rhs) => self.visit_test_ne_byte(dest, lhs, rhs),
            Bytecode::TestGtByte(dest, lhs, rhs) => self.visit_test_gt_byte(dest, lhs, rhs),
            Bytecode::TestGeByte(dest, lhs, rhs) => self.visit_test_ge_byte(dest, lhs, rhs),
            Bytecode::TestLtByte(dest, lhs, rhs) => self.visit_test_lt_byte(dest, lhs, rhs),
            Bytecode::TestLeByte(dest, lhs, rhs) => self.visit_test_le_byte(dest, lhs, rhs),
            Bytecode::TestEqChar(dest, lhs, rhs) => self.visit_test_eq_char(dest, lhs, rhs),
            Bytecode::TestNeChar(dest, lhs, rhs) => self.visit_test_ne_char(dest, lhs, rhs),
            Bytecode::TestGtChar(dest, lhs, rhs) => self.visit_test_gt_char(dest, lhs, rhs),
            Bytecode::TestGeChar(dest, lhs, rhs) => self.visit_test_ge_char(dest, lhs, rhs),
            Bytecode::TestLtChar(dest, lhs, rhs) => self.visit_test_lt_char(dest, lhs, rhs),
            Bytecode::TestLeChar(dest, lhs, rhs) => self.visit_test_le_char(dest, lhs, rhs),
            Bytecode::TestEqEnum(dest, lhs, rhs) => self.visit_test_eq_enum(dest, lhs, rhs),
            Bytecode::TestNeEnum(dest, lhs, rhs) => self.visit_test_ne_enum(dest, lhs, rhs),
            Bytecode::TestEqInt(dest, lhs, rhs) => self.visit_test_eq_int(dest, lhs, rhs),
            Bytecode::TestNeInt(dest, lhs, rhs) => self.visit_test_ne_int(dest, lhs, rhs),
            Bytecode::TestGtInt(dest, lhs, rhs) => self.visit_test_gt_int(dest, lhs, rhs),
            Bytecode::TestGeInt(dest, lhs, rhs) => self.visit_test_ge_int(dest, lhs, rhs),
            Bytecode::TestLtInt(dest, lhs, rhs) => self.visit_test_lt_int(dest, lhs, rhs),
            Bytecode::TestLeInt(dest, lhs, rhs) => self.visit_test_le_int(dest, lhs, rhs),
            Bytecode::TestEqInt64(dest, lhs, rhs) => self.visit_test_eq_int64(dest, lhs, rhs),
            Bytecode::TestNeInt64(dest, lhs, rhs) => self.visit_test_ne_int64(dest, lhs, rhs),
            Bytecode::TestGtInt64(dest, lhs, rhs) => self.visit_test_gt_int64(dest, lhs, rhs),
            Bytecode::TestGeInt64(dest, lhs, rhs) => self.visit_test_ge_int64(dest, lhs, rhs),
            Bytecode::TestLtInt64(dest, lhs, rhs) => self.visit_test_lt_int64(dest, lhs, rhs),
            Bytecode::TestLeInt64(dest, lhs, rhs) => self.visit_test_le_int64(dest, lhs, rhs),
            Bytecode::TestEqFloat(dest, lhs, rhs) => self.visit_test_eq_float(dest, lhs, rhs),
            Bytecode::TestNeFloat(dest, lhs, rhs) => self.visit_test_ne_float(dest, lhs, rhs),
            Bytecode::TestGtFloat(dest, lhs, rhs) => self.visit_test_gt_float(dest, lhs, rhs),
            Bytecode::TestGeFloat(dest, lhs, rhs) => self.visit_test_ge_float(dest, lhs, rhs),
            Bytecode::TestLtFloat(dest, lhs, rhs) => self.visit_test_lt_float(dest, lhs, rhs),
            Bytecode::TestLeFloat(dest, lhs, rhs) => self.visit_test_le_float(dest, lhs, rhs),
            Bytecode::TestEqDouble(dest, lhs, rhs) => self.visit_test_eq_double(dest, lhs, rhs),
            Bytecode::TestNeDouble(dest, lhs, rhs) => self.visit_test_ne_double(dest, lhs, rhs),
            Bytecode::TestGtDouble(dest, lhs, rhs) => self.visit_test_gt_double(dest, lhs, rhs),
            Bytecode::TestGeDouble(dest, lhs, rhs) => self.visit_test_ge_double(dest, lhs, rhs),
            Bytecode::TestLtDouble(dest, lhs, rhs) => self.visit_test_lt_double(dest, lhs, rhs),
            Bytecode::TestLeDouble(dest, lhs, rhs) => self.visit_test_le_double(dest, lhs, rhs),
            Bytecode::Assert(value) => self.visit_assert(value),
            Bytecode::JumpIfFalse(opnd, offset) => self.visit_jump_if_false(opnd, offset),
            Bytecode::JumpIfFalseConst(opnd, idx) => self.visit_jump_if_false_const(opnd, idx),
            Bytecode::JumpIfTrue(opnd, offset) => self.visit_jump_if_true(opnd, offset),
            Bytecode::JumpIfTrueConst(opnd, idx) => self.visit_jump_if_true_const(opnd, idx),
            Bytecode::JumpLoop(offset) => self.visit_jump_loop(offset),
            Bytecode::Jump(offset) => self.visit_jump(offset),
            Bytecode::JumpConst(idx) => self.visit_jump_const(idx),
            Bytecode::InvokeDirectVoid(fctdef, count) => {
                self.visit_invoke_direct_void(fctdef, count)
            },
            Bytecode::InvokeDirectBool(dest, fctdef, count) => {
                self.visit_invoke_direct_bool(dest, fctdef, count)
            },
            Bytecode::InvokeDirectByte(dest, fctdef, count) => {
                self.visit_invoke_direct_byte(dest, fctdef, count)
            },
            Bytecode::InvokeDirectChar(dest, fctdef, count) => {
                self.visit_invoke_direct_char(dest, fctdef, count)
            },
            Bytecode::InvokeDirectInt(dest, fctdef, count) => {
                self.visit_invoke_direct_int(dest, fctdef, count)
            },
            Bytecode::InvokeDirectInt64(dest, fctdef, count) => {
                self.visit_invoke_direct_int64(dest, fctdef, count)
            },
            Bytecode::InvokeDirectFloat(dest, fctdef, count) => {
                self.visit_invoke_direct_float(dest, fctdef, count)
            },
            Bytecode::InvokeDirectDouble(dest, fctdef, count) => {
                self.visit_invoke_direct_double(dest, fctdef, count)
            },
            Bytecode::InvokeDirectPtr(dest, fctdef, count) => {
                self.visit_invoke_direct_ptr(dest, fctdef, count)
            },
            Bytecode::InvokeVirtualVoid(fctdef, count) => {
                self.visit_invoke_virtual_void(fctdef, count)
            },
            Bytecode::InvokeVirtualBool(dest, fctdef, count) => {
                self.visit_invoke_virtual_bool(dest, fctdef, count)
            },
            Bytecode::InvokeVirtualByte(dest, fctdef, count) => {
                self.visit_invoke_virtual_byte(dest, fctdef, count)
            },
            Bytecode::InvokeVirtualChar(dest, fctdef, count) => {
                self.visit_invoke_virtual_char(dest, fctdef, count)
            },
            Bytecode::InvokeVirtualInt(dest, fctdef, count) => {
                self.visit_invoke_virtual_int(dest, fctdef, count)
            },
            Bytecode::InvokeVirtualInt64(dest, fctdef, count) => {
                self.visit_invoke_virtual_int64(dest, fctdef, count)
            },
            Bytecode::InvokeVirtualFloat(dest, fctdef, count) => {
                self.visit_invoke_virtual_float(dest, fctdef, count)
            },
            Bytecode::InvokeVirtualDouble(dest, fctdef, count) => {
                self.visit_invoke_virtual_double(dest, fctdef, count)
            },
            Bytecode::InvokeVirtualPtr(dest, fctdef, count) => {
                self.visit_invoke_virtual_ptr(dest, fctdef, count)
            },
            Bytecode::InvokeStaticVoid(fctdef, count) => {
                self.visit_invoke_static_void(fctdef, count)
            },
            Bytecode::InvokeStaticBool(dest, fctdef, count) => {
                self.visit_invoke_static_bool(dest, fctdef, count)
            },
            Bytecode::InvokeStaticByte(dest, fctdef, count) => {
                self.visit_invoke_static_byte(dest, fctdef, count)
            },
            Bytecode::InvokeStaticChar(dest, fctdef, count) => {
                self.visit_invoke_static_char(dest, fctdef, count)
            },
            Bytecode::InvokeStaticInt(dest, fctdef, count) => {
                self.visit_invoke_static_int(dest, fctdef, count)
            },
            Bytecode::InvokeStaticInt64(dest, fctdef, count) => {
                self.visit_invoke_static_int64(dest, fctdef, count)
            },
            Bytecode::InvokeStaticFloat(dest, fctdef, count) => {
                self.visit_invoke_static_float(dest, fctdef, count)
            },
            Bytecode::InvokeStaticDouble(dest, fctdef, count) => {
                self.visit_invoke_static_double(dest, fctdef, count)
            },
            Bytecode::InvokeStaticPtr(dest, fctdef, count) => {
                self.visit_invoke_static_ptr(dest, fctdef, count)
            },
            Bytecode::NewObject(dest, cls) => self.visit_new_object(dest, cls),
            Bytecode::NewArray(dest, cls, length) => self.visit_new_array(dest, cls, length),
            Bytecode::NilCheck(obj) => self.visit_nil_check(obj),
            Bytecode::LoadArrayBool(dest, arr, idx) => self.visit_load_array_bool(dest, arr, idx),
            Bytecode::LoadArrayByte(dest, arr, idx) => self.visit_load_array_byte(dest, arr, idx),
            Bytecode::LoadArrayChar(dest, arr, idx) => self.visit_load_array_char(dest, arr, idx),
            Bytecode::LoadArrayInt(dest, arr, idx) => self.visit_load_array_int(dest, arr, idx),
            Bytecode::LoadArrayInt64(dest, arr, idx) => self.visit_load_array_int64(dest, arr, idx),
            Bytecode::LoadArrayFloat(dest, arr, idx) => self.visit_load_array_float(dest, arr, idx),
            Bytecode::LoadArrayDouble(dest, arr, idx) => {
                self.visit_load_array_double(dest, arr, idx)
            },
            Bytecode::LoadArrayPtr(dest, arr, idx) => self.visit_load_array_ptr(dest, arr, idx),
            Bytecode::StoreArrayBool(src, arr, idx) => self.visit_store_array_bool(src, arr, idx),
            Bytecode::StoreArrayByte(src, arr, idx) => self.visit_store_array_byte(src, arr, idx),
            Bytecode::StoreArrayChar(src, arr, idx) => self.visit_store_array_char(src, arr, idx),
            Bytecode::StoreArrayInt(src, arr, idx) => self.visit_store_array_int(src, arr, idx),
            Bytecode::StoreArrayInt64(src, arr, idx) => self.visit_store_array_int64(src, arr, idx),
            Bytecode::StoreArrayFloat(src, arr, idx) => self.visit_store_array_float(src, arr, idx),
            Bytecode::StoreArrayDouble(src, arr, idx) => {
                self.visit_store_array_double(src, arr, idx)
            },
            Bytecode::StoreArrayPtr(src, arr, idx) => self.visit_store_array_ptr(src, arr, idx),
            Bytecode::ArrayLength(dest, arr) => self.visit_array_length(dest, arr),
            Bytecode::ArrayBoundCheck(arr, idx) => self.visit_array_bound_check(arr, idx),
            Bytecode::RetVoid => self.visit_ret_void(),
            Bytecode::RetBool(opnd) => self.visit_ret_bool(opnd),
            Bytecode::RetByte(opnd) => self.visit_ret_byte(opnd),
            Bytecode::RetChar(opnd) => self.visit_ret_char(opnd),
            Bytecode::RetInt(opnd) => self.visit_ret_int(opnd),
            Bytecode::RetInt64(opnd) => self.visit_ret_int64(opnd),
            Bytecode::RetFloat(opnd) => self.visit_ret_float(opnd),
            Bytecode::RetDouble(opnd) => self.visit_ret_double(opnd),
            Bytecode::RetPtr(opnd) => self.visit_ret_ptr(opnd),
        }
    }

    /// Writes the line of `AddInt`.
    pub fn visit_add_int(&mut self, dest: Register, lhs: Register, rhs: Register)
        ensures
            final(self).w@ == old(self).w@ + line_text(
                old(self).pos.0 as int,
                Bytecode::AddInt(dest, lhs, rhs),
            ),
            final(self).pos == old(self).pos,
            final(self).bc == old(self).bc,
    {
        self.emit_reg3("AddInt", dest, lhs, rhs);
    }

    /// Writes the line of `AddLong`.
    pub fn visit_add_long(&mut self, dest: Register, lhs: Register, rhs: Register)
        ensures
            final(self).w@ == old(self).w@ + line_text(
                old(self).pos.0 as int,
                Bytecode::AddLong(dest, lhs, rhs),
            ),
            final(self).pos == old(self).pos,
            final(self).bc == old(self).bc,
    {
        self.emit_reg3("AddLong", dest, lhs, rhs);
    }

    /// Writes the line of `AddFloat`.
    pub fn visit_add_float(&mut self, dest: Register, lhs: Register, rhs: Register)
        ensures
            final(self).w@ == old(self).w@ + line_text(
                old(self).pos.0 as int,
                Bytecode::AddFloat(dest, lhs, rhs),
            ),
            final(self).pos == old(self).pos,
            final(self).bc == old(self).bc,
    {
        self.emit_reg3("AddFloat", dest, lhs, rhs);
    }

    /// Writes the line of `AddDouble`.
    pub fn visit_add_double(&mut self, dest: Register, lhs: Register, rhs: Register)
        ensures
            final(self).w@ == old(self).w@ + line_text(
                old(self).pos.0 as int,
                Bytecode::AddDouble(dest, lhs, rhs),
            ),
            final(self).pos == old(self).pos,
            final(self).bc == old(self).bc,
    {
        self.emit_reg3("AddDouble", dest, lhs, rhs);
    }

    /// Writes the line of `SubInt`.
    pub fn visit_sub_int(&mut self, dest: Register, lhs: Register, rhs: Register)
        ensures
            final(self).w@ == old(self).w@ + line_text(
                old(self).pos.0 as int,
                Bytecode::SubInt(dest, lhs, rhs),
            ),
            final(self).pos == old(self).pos,
            final(self).bc == old(self).bc,
    {
        self.emit_reg3("SubInt", dest, lhs, rhs);
    }

    /// Writes the line of `SubLong`.
    pub fn visit_sub_long(&mut self, dest: Register, lhs: Register, rhs: Register)
        ensures
            final(self).w@ == old(self).w@ + line_text(
                old(self).pos.0 as int,
                Bytecode::SubLong(dest, lhs, rhs),
            ),
            final(self).pos == old(self).pos,
            final(self).bc == old(self).bc,
    {
        self.emit_reg3("SubLong", dest, lhs, rhs);
    }

    /// Writes the line of `SubFloat`.
    pub fn visit_sub_float(&mut self, dest: Register, lhs: Register, rhs: Register)
        ensures
            final(self).w@ == old(self).w@ + line_text(
                old(self).pos.0 as int,
                Bytecode::SubFloat(dest, lhs, rhs),
            ),
            final(self).pos == old(self).pos,
            final(self).bc == old(self).bc,
    {
        self.emit_reg3("SubFloat", dest, lhs, rhs);
    }

    /// Writes the line of `SubDouble`.
    pub fn visit_sub_double(&mut self, dest: Register, lhs: Register, rhs: Register)
        ensures
            final(self).w@ == old(self).w@ + line_text(
                old(self).pos.0 as int,
                Bytecode::SubDouble(dest, lhs, rhs),
            ),
            final(self).pos == old(self).pos,
            final(self).bc == old(self).bc,
    {
        self.emit_reg3("SubDouble", dest, lhs, rhs);
    }

    /// Writes the line of `NegInt`.
    pub fn visit_neg_int(&mut self, dest: Register, src: Register)
        ensures
            final(self).w@ == old(self).w@ + line_text(
                old(self).pos.0 as int,
                Bytecode::NegInt(dest, src),
            ),
            final(self).pos == old(self).pos,
            final(self).bc == old(self).bc,
    {
        self.emit_reg2("NegInt", dest, src);
    }

    /// Writes the line of `NegLong`.
    pub fn visit_neg_long(&mut self, dest: Register, src: Register)
        ensures
            final(self).w@ == old(self).w@ + line_text(
                old(self).pos.0 as int,
                Bytecode::NegLong(dest, src),
            ),
            final(self).pos == old(self).pos,
            final(self).bc == old(self).bc,
    {
        self.emit_reg2("NegLong", dest, src);
    }

    /// Writes the line of `NegFloat`.
    pub fn visit_neg_float(&mut self, dest: Register, src: Register)
        ensures
            final(self).w@ == old(self).w@ + line_text(
                old(self).pos.0 as int,
                Bytecode::NegFloat(dest, src),
            ),
            final(self).pos == old(self).pos,
            final(self).bc == old(self).bc,
    {
        self.emit_reg2("NegFloat", dest, src);
    }

    /// Writes the line of `NegDouble`.
    pub fn visit_neg_double(&mut self, dest: Register, src: Register)
        ensures
            final(self).w@ == old(self).w@ + line_text(
                old(self).pos.0 as int,
                Bytecode::NegDouble(dest, src),
            ),
            final(self).pos == old(self).pos,
            final(self).bc == old(self).bc,
    {
        self.emit_reg2("NegDouble", dest, src);
    }

    /// Writes the line of `MulInt`.
    pub fn visit_mul_int(&mut self, dest: Register, lhs: Register, rhs: Register)
        ensures
            final(self).w@ == old(self).w@ + line_text(
                old(self).pos.0 as int,
                Bytecode::MulInt(dest, lhs, rhs),
            ),
            final(self).pos == old(self).pos,
            final(self).bc == old(self).bc,
    {
        self.emit_reg3("MulInt", dest, lhs, rhs);
    }

    /// Writes the line of `MulLong`.
    pub fn visit_mul_long(&mut self, dest: Register, lhs: Register, rhs: Register)
        ensures
            final(self).w@ == old(self).w@ + line_text(
                old(self).pos.0 as int,
                Bytecode::MulLong(dest, lhs, rhs),
            ),
            final(self).pos == old(self).pos,
            final(self).bc == old(self).bc,
    {
        self.emit_reg3("MulLong", dest, lhs, rhs);
    }

    /// Writes the line of `MulFloat`.
    pub fn visit_mul_float(&mut self, dest: Register, lhs: Register, rhs: Register)
        ensures
            final(self).w@ == old(self).w@ + line_text(
                old(self).pos.0 as int,
                Bytecode::MulFloat(dest, lhs, rhs),
            ),
            final(self).pos == old(self).pos,
            final(self).bc == old(self).bc,
    {
        self.emit_reg3("MulFloat", dest, lhs, rhs);
    }

    /// Writes the line of `MulDouble`.
    pub fn visit_mul_double(&mut self, dest: Register, lhs: Register, rhs: Register)
        ensures
            final(self).w@ == old(self).w@ + line_text(
                old(self).pos.0 as int,
                Bytecode::MulDouble(dest, lhs, rhs),
            ),
            final(self).pos == old(self).pos,
            final(self).bc == old(self).bc,
    {
        self.emit_reg3("MulDouble", dest, lhs, rhs);
    }

    /// Writes the line of `DivInt`.
    pub fn visit_div_int(&mut self, dest: Register, lhs: Register, rhs: Register)
        ensures
            final(self).w@ == old(self).w@ + line_text(
                old(self).pos.0 as int,
                Bytecode::DivInt(dest, lhs, rhs),
            ),
            final(self).pos == old(self).pos,
            final(self).bc == old(self).bc,
    {
        self.emit_reg3("DivInt", dest, lhs, rhs);
    }

    /// Writes the line of `DivLong`.
    pub fn visit_div_long(&mut self, dest: Register, lhs: Register, rhs: Register)
        ensures
            final(self).w@ == old(self).w@ + line_text(
                old(self).pos.0 as int,
                Bytecode::DivLong(dest, lhs, rhs),
            ),
            final(self).pos == old(self).pos,
            final(self).bc == old(self).bc,
    {
        self.emit_reg3("DivLong", dest, lhs, rhs);
    }

    /// Writes the line of `DivFloat`.
    pub fn visit_div_float(&mut self, dest: Register, lhs: Register, rhs: Register)
        ensures
            final(self).w@ == old(self).w@ + line_text(
                old(self).pos.0 as int,
                Bytecode::DivFloat(dest, lhs, rhs),
            ),
            final(self).pos == old(self).pos,
            final(self).bc == old(self).bc,
    {
        self.emit_reg3("DivFloat", dest, lhs, rhs);
    }

    /// Writes the line of `DivDouble`.
    pub fn visit_div_double(&mut self, dest: Register, lhs: Register, rhs: Register)
        ensures
            final(self).w@ == old(self).w@ + line_text(
                old(self).pos.0 as int,
                Bytecode::DivDouble(dest, lhs, rhs),
            ),
            final(self).pos == old(self).pos,
            final(self).bc == old(self).bc,
    {
        self.emit_reg3("DivDouble", dest, lhs, rhs);
    }

    /// Writes the line of `ModInt`.
    pub fn visit_mod_int(&mut self, dest: Register, lhs: Register, rhs: Register)
        ensures
            final(self).w@ == old(self).w@ + line_text(
                old(self).pos.0 as int,
                Bytecode::ModInt(dest, lhs, rhs),
            ),
            final(self).pos == old(self).pos,
            final(self).bc == old(self).bc,
    {
        self.emit_reg3("ModInt", dest, lhs, rhs);
    }

    /// Writes the line of `ModLong`.
    pub fn visit_mod_long(&mut self, dest: Register, lhs: Register, rhs: Register)
        ensures
            final(self).w@ == old(self).w@ + line_text(
                old(self).pos.0 as int,
                Bytecode::ModLong(dest, lhs, rhs),
            ),
            final(self).pos == old(self).pos,
            final(self).bc == old(self).bc,
    {
        self.emit_reg3("ModLong", dest, lhs, rhs);
    }

    /// Writes the line of `AndInt`.
    pub fn visit_and_int(&mut self, dest: Register, lhs: Register, rhs: Register)
        ensures
            final(self).w@ == old(self).w@ + line_text(
                old(self).pos.0 as int,
                Bytecode::AndInt(dest, lhs, rhs),
            ),
            final(self).pos == old(self).pos,
            final(self).bc == old(self).bc,
    {
        self.emit_reg3("AndInt", dest, lhs, rhs);
    }

    /// Writes the line of `AndLong`.
    pub fn visit_and_long(&mut self, dest: Register, lhs: Register, rhs: Register)
        ensures
            final(self).w@ == old(self).w@ + line_text(
                old(self).pos.0 as int,
                Bytecode::AndLong(dest, lhs, rhs),
            ),
            final(self).pos == old(self).pos,
            final(self).bc == old(self).bc,
    {
        self.emit_reg3("AndLong", dest, lhs, rhs);
    }

    /// Writes the line of `OrInt`.
    pub fn visit_or_int(&mut self, dest: Register, lhs: Register, rhs: Register)
        ensures
            final(self).w@ == old(self).w@ + line_text(
                old(self).pos.0 as int,
                Bytecode::OrInt(dest, lhs, rhs),
            ),
            final(self).pos == old(self).pos,
            final(self).bc == old(self).bc,
    {
        self.emit_reg3("OrInt", dest, lhs, rhs);
    }

    /// Writes the line of `OrLong`.
    pub fn visit_or_long(&mut self, dest: Register, lhs: Register, rhs: Register)
        ensures
            final(self).w@ == old(self).w@ + line_text(
                old(self).pos.0 as int,
                Bytecode::OrLong(dest, lhs, rhs),
            ),
            final(self).pos == old(self).pos,
            final(self).bc == old(self).bc,
    {
        self.emit_reg3("OrLong", dest, lhs, rhs);
    }

    /// Writes the line of `XorInt`.
    pub fn visit_xor_int(&mut self, dest: Register, lhs: Register, rhs: Register)
        ensures
            final(self).w@ == old(self).w@ + line_text(
                old(self).pos.0 as int,
                Bytecode::XorInt(dest, lhs, rhs),
            ),
            final(self).pos == old(self).pos,
            final(self).bc == old(self).bc,
    {
        self.emit_reg3("XorInt", dest, lhs, rhs);
    }

    /// Writes the line of `XorLong`.
    pub fn visit_xor_long(&mut self, dest: Register, lhs: Register, rhs: Register)
        ensures
            final(self).w@ == old(self).w@ + line_text(
                old(self).pos.0 as int,
                Bytecode::XorLong(dest, lhs, rhs),
            ),
            final(self).pos == old(self).pos,
            final(self).bc == old(self).bc,
    {
        self.emit_reg3("XorLong", dest, lhs, rhs);
    }

    /// Writes the line of `NotBool`.
    pub fn visit_not_bool(&mut self, dest: Register, src: Register)
        ensures
            final(self).w@ == old(self).w@ + line_text(
                old(self).pos.0 as int,
                Bytecode::NotBool(dest, src),
            ),
            final(self).pos == old(self).pos,
            final(self).bc == old(self).bc,
    {
        self.emit_reg2("NotBool", dest, src);
    }

    /// Writes the line of `NotInt`.
    pub fn visit_not_int(&mut self, dest: Register, src: Register)
        ensures
            final(self).w@ == old(self).w@ + line_text(
                old(self).pos.0 as int,
                Bytecode::NotInt(dest, src),
            ),
            final(self).pos == old(self).pos,
            final(self).bc == old(self).bc,
    {
        self.emit_reg2("NotInt", dest, src);
    }

    /// Writes the line of `NotLong`.
    pub fn visit_not_long(&mut self, dest: Register, src: Register)
        ensures
            final(self).w@ == old(self).w@ + line_text(
                old(self).pos.0 as int,
                Bytecode::NotLong(dest, src),
            ),
            final(self).pos == old(self).pos,
            final(self).bc == old(self).bc,
    {
        self.emit_reg2("NotLong", dest, src);
    }

    /// Writes the line of `ShlInt`.
    pub fn visit_shl_int(&mut self, dest: Register, lhs: Register, rhs: Register)
        ensures
            final(self).w@ == old(self).w@ + line_text(
                old(self).pos.0 as int,
                Bytecode::ShlInt(dest, lhs, rhs),
            ),
            final(self).pos == old(self).pos,
            final(self).bc == old(self).bc,
    {
        self.emit_reg3("ShlInt", dest, lhs, rhs);
    }

    /// Writes the line of `ShrInt`.
    pub fn visit_shr_int(&mut self, dest: Register, lhs: Register, rhs: Register)
        ensures
            final(self).w@ == old(self).w@ + line_text(
                old(self).pos.0 as int,
                Bytecode::ShrInt(dest, lhs, rhs),
            ),
            final(self).pos == old(self).pos,
            final(self).bc == old(self).bc,
    {
        self.emit_reg3("ShrInt", dest, lhs, rhs);
    }

    /// Writes the line of `SarInt`.
    pub fn visit_sar_int(&mut self, dest: Register, lhs: Register, rhs: Register)
        ensures
            final(self).w@ == old(self).w@ + line_text(
                old(self).pos.0 as int,
                Bytecode::SarInt(dest, lhs, rhs),
            ),
            final(self).pos == old(self).pos,
            final(self).bc == old(self).bc,
    {
        self.emit_reg3("SarInt", dest, lhs, rhs);
    }

    /// Writes the line of `ShlLong`.
    pub fn visit_shl_long(&mut self, dest: Register, lhs: Register, rhs: Register)
        ensures
            final(self).w@ == old(self).w@ + line_text(
                old(self).pos.0 as int,
                Bytecode::ShlLong(dest, lhs, rhs),
            ),
            final(self).pos == old(self).pos,
            final(self).bc == old(self).bc,
    {
        self.emit_reg3("ShlLong", dest, lhs, rhs);
    }

    /// Writes the line of `ShrLong`.
    pub fn visit_shr_long(&mut self, dest: Register, lhs: Register, rhs: Register)
        ensures
            final(self).w@ == old(self).w@ + line_text(
                old(self).pos.0 as int,
                Bytecode::ShrLong(dest, lhs, rhs),
            ),
            final(self).pos == old(self).pos,
            final(self).bc == old(self).bc,
    {
        self.emit_reg3("ShrLong", dest, lhs, rhs);
    }

    /// Writes the line of `SarLong`.
    pub fn visit_sar_long(&mut self, dest: Register, lhs: Register, rhs: Register)
        ensures
            final(self).w@ == old(self).w@ + line_text(
                old(self).pos.0 as int,
                Bytecode::SarLong(dest, lhs, rhs),
            ),
            final(self).pos == old(self).pos,
            final(self).bc == old(self).bc,
    {
        self.emit_reg3("SarLong", dest, lhs, rhs);
    }

    /// Writes the line of `RolInt`.
    pub fn visit_rol_int(&mut self, dest: Register, lhs: Register, rhs: Register)
        ensures
            final(self).w@ == old(self).w@ + line_text(
                old(self).pos.0 as int,
                Bytecode::RolInt(dest, lhs, rhs),
            ),
            final(self).pos == old(self).pos,
            final(self).bc == old(self).bc,
    {
        self.emit_reg3("RolInt", dest, lhs, rhs);
    }

    /// Writes the line of `RorInt`.
    pub fn visit_ror_int(&mut self, dest: Register, lhs: Register, rhs: Register)
        ensures
            final(self).w@ == old(self).w@ + line_text(
                old(self).pos.0 as int,
                Bytecode::RorInt(dest, lhs, rhs),
            ),
            final(self).pos == old(self).pos,
            final(self).bc == old(self).bc,
    {
        self.emit_reg3("RorInt", dest, lhs, rhs);
    }

    /// Writes the line of `RolLong`.
    pub fn visit_rol_long(&mut self, dest: Register, lhs: Register, rhs: Register)
        ensures
            final(self).w@ == old(self).w@ + line_text(
                old(self).pos.0 as int,
                Bytecode::RolLong(dest, lhs, rhs),
            ),
            final(self).pos == old(self).pos,
            final(self).bc == old(self).bc,
    {
        self.emit_reg3("RolLong", dest, lhs, rhs);
    }

    /// Writes the line of `RorLong`.
    pub fn visit_ror_long(&mut self, dest: Register, lhs: Register, rhs: Register)
        ensures
            final(self).w@ == old(self).w@ + line_text(
                old(self).pos.0 as int,
                Bytecode::RorLong(dest, lhs, rhs),
            ),
            final(self).pos == old(self).pos,
            final(self).bc == old(self).bc,
    {
        self.emit_reg3("RorLong", dest, lhs, rhs);
    }

    /// Writes the line of `ReinterpretIntAsFloat`.
    pub fn visit_reinterpret_int_as_float(&mut self, dest: Register, src: Register)
        ensures
            final(self).w@ == old(self).w@ + line_text(
                old(self).pos.0 as int,
                Bytecode::ReinterpretIntAsFloat(dest, src),
            ),
            final(self).pos == old(self).pos,
            final(self).bc == old(self).bc,
    {
        self.emit_reg2("ReinterpretIntAsFloat", dest, src);
    }

    /// Writes the line of `ReinterpretFloatAsInt`.
    pub fn visit_reinterpret_float_as_int(&mut self, dest: Register, src: Register)
        ensures
            final(self).w@ == old(self).w@ + line_text(
                old(self).pos.0 as int,
                Bytecode::ReinterpretFloatAsInt(dest, src),
            ),
            final(self).pos == old(self).pos,
            final(self).bc == old(self).bc,
    {
        self.emit_reg2("ReinterpretFloatAsInt", dest, src);
    }

    /// Writes the line of `ReinterpretDoubleAsLong`.
    pub fn visit_reinterpret_double_as_long(&mut self, dest: Register, src: Register)
        ensures
            final(self).w@ == old(self).w@ + line_text(
                old(self).pos.0 as int,
                Bytecode::ReinterpretDoubleAsLong(dest, src),
            ),
            final(self).pos == old(self).pos,
            final(self).bc == old(self).bc,
    {
        self.emit_reg2("ReinterpretDoubleAsLong", dest, src);
    }

    /// Writes the line of `ReinterpretLongAsDouble`.
    pub fn visit_reinterpret_long_as_double(&mut self, dest: Register, src: Register)
        ensures
            final(self).w@ == old(self).w@ + line_text(
                old(self).pos.0 as int,
                Bytecode::ReinterpretLongAsDouble(dest, src),
            ),
            final(self).pos == old(self).pos,
            final(self).bc == old(self).bc,
    {
        self.emit_reg2("ReinterpretLongAsDouble", dest, src);
    }

    /// Writes the line of `ExtendByteToChar`.
    pub fn visit_extend_byte_to_char(&mut self, dest: Register, src: Register)
        ensures
            final(self).w@ == old(self).w@ + line_text(
                old(self).pos.0 as int,
                Bytecode::ExtendByteToChar(dest, src),
            ),
            final(self).pos == old(self).pos,
            final(self).bc == old(self).bc,
    {
        self.emit_reg2("ExtendByteToChar", dest, src);
    }

    /// Writes the line of `ExtendByteToInt`.
    pub fn visit_extend_byte_to_int(&mut self, dest: Register, src: Register)
        ensures
            final(self).w@ == old(self).w@ + line_text(
                old(self).pos.0 as int,
                Bytecode::ExtendByteToInt(dest, src),
            ),
            final(self).pos == old(self).pos,
            final(self).bc == old(self).bc,
    {
        self.emit_reg2("ExtendByteToInt", dest, src);
    }

    /// Writes the line of `ExtendByteToLong`.
    pub fn visit_extend_byte_to_long(&mut self, dest: Register, src: Register)
        ensures
            final(self).w@ == old(self).w@ + line_text(
                old(self).pos.0 as int,
                Bytecode::ExtendByteToLong(dest, src),
            ),
            final(self).pos == old(self).pos,
            final(self).bc == old(self).bc,
    {
        self.emit_reg2("ExtendByteToLong", dest, src);
    }

    /// Writes the line of `ExtendIntToLong`.
    pub fn visit_extend_int_to_long(&mut self, dest: Register, src: Register)
        ensures
            final(self).w@ == old(self).w@ + line_text(
                old(self).pos.0 as int,
                Bytecode::ExtendIntToLong(dest, src),
            ),
            final(self).pos == old(self).pos,
            final(self).bc == old(self).bc,
    {
        self.emit_reg2("ExtendIntToLong", dest, src);
    }

    /// Writes the line of `ExtendCharToLong`.
    pub fn visit_extend_char_to_long(&mut self, dest: Register, src: Register)
        ensures
            final(self).w@ == old(self).w@ + line_text(
                old(self).pos.0 as int,
                Bytecode::ExtendCharToLong(dest, src),
            ),
            final(self).pos == old(self).pos,
            final(self).bc == old(self).bc,
    {
        self.emit_reg2("ExtendCharToLong", dest, src);
    }

    /// Writes the line of `CastCharToInt`.
    pub fn visit_cast_char_to_int(&mut self, dest: Register, src: Register)
        ensures
            final(self).w@ == old(self).w@ + line_text(
                old(self).pos.0 as int,
                Bytecode::CastCharToInt(dest, src),
            ),
            final(self).pos == old(self).pos,
            final(self).bc == old(self).bc,
    {
        self.emit_reg2("CastCharToInt", dest, src);
    }

    /// Writes the line of `CastIntToByte`.
    pub fn visit_cast_int_to_byte(&mut self, dest: Register, src: Register)
        ensures
            final(self).w@ == old(self).w@ + line_text(
                old(self).pos.0 as int,
                Bytecode::CastIntToByte(dest, src),
            ),
            final(self).pos == old(self).pos,
            final(self).bc == old(self).bc,
    {
        self.emit_reg2("CastIntToByte", dest, src);
    }

    /// Writes the line of `CastIntToChar`.
    pub fn visit_cast_int_to_char(&mut self, dest: Register, src: Register)
        ensures
            final(self).w@ == old(self).w@ + line_text(
                old(self).pos.0 as int,
                Bytecode::CastIntToChar(dest, src),
            ),
            final(self).pos == old(self).pos,
            final(self).bc == old(self).bc,
    {
        self.emit_reg2("CastIntToChar", dest, src);
    }

    /// Writes the line of `CastInt64ToByte`.
    pub fn visit_cast_int64_to_byte(&mut self, dest: Register, src: Register)
        ensures
            final(self).w@ == old(self).w@ + line_text(
                old(self).pos.0 as int,
                Bytecode::CastInt64ToByte(dest, src),
            ),
            final(self).pos == old(self).pos,
            final(self).bc == old(self).bc,
    {
        self.emit_reg2("CastInt64ToByte", dest, src);
    }

    /// Writes the line of `CastInt64ToChar`.
    pub fn visit_cast_int64_to_char(&mut self, dest: Register, src: Register)
        ensures
            final(self).w@ == old(self).w@ + line_text(
                old(self).pos.0 as int,
                Bytecode::CastInt64ToChar(dest, src),
            ),
            final(self).pos == old(self).pos,
            final(self).bc == old(self).bc,
    {
        self.emit_reg2("CastInt64ToChar", dest, src);
    }

    /// Writes the line of `CastInt64ToInt`.
    pub fn visit_cast_int64_to_int(&mut self, dest: Register, src: Register)
        ensures
            final(self).w@ == old(self).w@ + line_text(
                old(self).pos.0 as int,
                Bytecode::CastInt64ToInt(dest, src),
            ),
            final(self).pos == old(self).pos,
            final(self).bc == old(self).bc,
    {
        self.emit_reg2("CastInt64ToInt", dest, src);
    }

    /// Writes the line of `ConvertIntToFloat`.
    pub fn visit_convert_int_to_float(&mut self, dest: Register, src: Register)
        ensures
            final(self).w@ == old(self).w@ + line_text(
                old(self).pos.0 as int,
                Bytecode::ConvertIntToFloat(dest, src),
            ),
            final(self).pos == old(self).pos,
            final(self).bc == old(self).bc,
    {
        self.emit_reg2("ConvertIntToFloat", dest, src);
    }

    /// Writes the line of `ConvertIntToDouble`.
    pub fn visit_convert_int_to_double(&mut self, dest: Register, src: Register)
        ensures
            final(self).w@ == old(self).w@ + line_text(
                old(self).pos.0 as int,
                Bytecode::ConvertIntToDouble(dest, src),
            ),
            final(self).pos == old(self).pos,
            final(self).bc == old(self).bc,
    {
        self.emit_reg2("ConvertIntToDouble", dest, src);
    }

    /// Writes the line of `ConvertLongToFloat`.
    pub fn visit_convert_long_to_float(&mut self, dest: Register, src: Register)
        ensures
            final(self).w@ == old(self).w@ + line_text(
                old(self).pos.0 as int,
                Bytecode::ConvertLongToFloat(dest, src),
            ),
            final(self).pos == old(self).pos,
            final(self).bc == old(self).bc,
    {
        self.emit_reg2("ConvertLongToFloat", dest, src);
    }

    /// Writes the line of `ConvertLongToDouble`.
    pub fn visit_convert_long_to_double(&mut self, dest: Register, src: Register)
        ensures
            final(self).w@ == old(self).w@ + line_text(
                old(self).pos.0 as int,
                Bytecode::ConvertLongToDouble(dest, src),
            ),
            final(self).pos == old(self).pos,
            final(self).bc == old(self).bc,
    {
        self.emit_reg2("ConvertLongToDouble", dest, src);
    }

    /// Writes the line of `TruncateFloatToInt`.
    pub fn visit_truncate_float_to_int(&mut self, dest: Register, src: Register)
        ensures
            final(self).w@ == old(self).w@ + line_text(
                old(self).pos.0 as int,
                Bytecode::TruncateFloatToInt(dest, src),
            ),
            final(self).pos == old(self).pos,
            final(self).bc == old(self).bc,
    {
        self.emit_reg2("TruncateFloatToInt", dest, src);
    }

    /// Writes the line of `TruncateFloatToLong`.
    pub fn visit_truncate_float_to_long(&mut self, dest: Register, src: Register)
        ensures
            final(self).w@ == old(self).w@ + line_text(
                old(self).pos.0 as int,
                Bytecode::TruncateFloatToLong(dest, src),
            ),
            final(self).pos == old(self).pos,
            final(self).bc == old(self).bc,
    {
        self.emit_reg2("TruncateFloatToLong", dest, src);
    }

    /// Writes the line of `TruncateDoubleToInt`.
    pub fn visit_truncate_double_to_int(&mut self, dest: Register, src: Register)
        ensures
            final(self).w@ == old(self).w@ + line_text(
                old(self).pos.0 as int,
                Bytecode::TruncateDoubleToInt(dest, src),
            ),
            final(self).pos == old(self).pos,
            final(self).bc == old(self).bc,
    {
        self.emit_reg2("TruncateDoubleToInt", dest, src);
    }

    /// Writes the line of `TruncateDoubleToLong`.
    pub fn visit_truncate_double_to_long(&mut self, dest: Register, src: Register)
        ensures
            final(self).w@ == old(self).w@ + line_text(
                old(self).pos.0 as int,
                Bytecode::TruncateDoubleToLong(dest, src),
            ),
            final(self).pos == old(self).pos,
            final(self).bc == old(self).bc,
    {
        self.emit_reg2("TruncateDoubleToLong", dest, src);
    }

    /// Writes the line of `InstanceOf`.
    pub fn visit_instance_of(&mut self, dest: Register, src: Register, cls_id: ClassDefId)
        ensures
            final(self).w@ == old(self).w@ + line_text(
                old(self).pos.0 as int,
                Bytecode::InstanceOf(dest, src, cls_id),
            ),
            final(self).pos == old(self).pos,
            final(self).bc == old(self).bc,
    {
        self.emit_reg2_cls("InstanceOf", dest, src, cls_id);
    }

    /// Writes the line of `CheckedCast`.
    pub fn visit_checked_cast(&mut self, src: Register, cls_id: ClassDefId)
        ensures
            final(self).w@ == old(self).w@ + line_text(
                old(self).pos.0 as int,
                Bytecode::CheckedCast(src, cls_id),
            ),
            final(self).pos == old(self).pos,
            final(self).bc == old(self).bc,
    {
        self.emit_reg1_cls("CheckedCast", src, cls_id);
    }

    /// Writes the line of `MovBool`.
    pub fn visit_mov_bool(&mut self, dest: Register, src: Register)
        ensures
            final(self).w@ == old(self).w@ + line_text(
                old(self).pos.0 as int,
                Bytecode::MovBool(dest, src),
            ),
            final(self).pos == old(self).pos,
            final(self).bc == old(self).bc,
    {
        self.emit_reg2("MovBool", dest, src);
    }

    /// Writes the line of `MovByte`.
    pub fn visit_mov_byte(&mut self, dest: Register, src: Register)
        ensures
            final(self).w@ == old(self).w@ + line_text(
                old(self).pos.0 as int,
                Bytecode::MovByte(dest, src),
            ),
            final(self).pos == old(self).pos,
            final(self).bc == old(self).bc,
    {
        self.emit_reg2("MovByte", dest, src);
    }

    /// Writes the line of `MovChar`.
    pub fn visit_mov_char(&mut self, dest: Register, src: Register)
        ensures
            final(self).w@ == old(self).w@ + line_text(
                old(self).pos.0 as int,
                Bytecode::MovChar(dest, src),
            ),
            final(self).pos == old(self).pos,
            final(self).bc == old(self).bc,
    {
        self.emit_reg2("MovChar", dest, src);
    }

    /// Writes the line of `MovInt`.
    pub fn visit_mov_int(&mut self, dest: Register, src: Register)
        ensures
            final(self).w@ == old(self).w@ + line_text(
                old(self).pos.0 as int,
                Bytecode::MovInt(dest, src),
            ),
            final(self).pos == old(self).pos,
            final(self).bc == old(self).bc,
    {
        self.emit_reg2("MovInt", dest, src);
    }

    /// Writes the line of `MovInt64`.
    pub fn visit_mov_int64(&mut self, dest: Register, src: Register)
        ensures
            final(self).w@ == old(self).w@ + line_text(
                old(self).pos.0 as int,
                Bytecode::MovInt64(dest, src),
            ),
            final(self).pos == old(self).pos,
            final(self).bc == old(self).bc,
    {
        self.emit_reg2("MovInt64", dest, src);
    }

    /// Writes the line of `MovFloat`.
    pub fn visit_mov_float(&mut self, dest: Register, src: Register)
        ensures
            final(self).w@ == old(self).w@ + line_text(
                old(self).pos.0 as int,
                Bytecode::MovFloat(dest, src),
            ),
            final(self).pos == old(self).pos,
            final(self).bc == old(self).bc,
    {
        self.emit_reg2("MovFloat", dest, src);
    }

    /// Writes the line of `MovDouble`.
    pub fn visit_mov_double(&mut self, dest: Register, src: Register)
        ensures
            final(self).w@ == old(self).w@ + line_text(
                old(self).pos.0 as int,
                Bytecode::MovDouble(dest, src),
            ),
            final(self).pos == old(self).pos,
            final(self).bc == old(self).bc,
    {
        self.emit_reg2("MovDouble", dest, src);
    }

    /// Writes the line of `MovPtr`.
    pub fn visit_mov_ptr(&mut self, dest: Register, src: Register)
        ensures
            final(self).w@ == old(self).w@ + line_text(
                old(self).pos.0 as int,
                Bytecode::MovPtr(dest, src),
            ),
            final(self).pos == old(self).pos,
            final(self).bc == old(self).bc,
    {
        self.emit_reg2("MovPtr", dest, src);
    }

    /// Writes the line of `LoadFieldBool`.
    pub fn visit_load_field_bool(
        &mut self,
        dest: Register,
        obj: Register,
        cls: ClassDefId,
        field: FieldId,
    )
        ensures
            final(self).w@ == old(self).w@ + line_text(
                old(self).pos.0 as int,
                Bytecode::LoadFieldBool(dest, obj, cls, field),
            ),
            final(self).pos == old(self).pos,
            final(self).bc == old(self).bc,
    {
        self.emit_field("LoadFieldBool", dest, obj, cls, field);
    }

    /// Writes the line of `LoadFieldUInt8`.
    pub fn visit_load_field_uint8(
        &mut self,
        dest: Register,
        obj: Register,
        cls: ClassDefId,
        field: FieldId,
    )
        ensures
            final(self).w@ == old(self).w@ + line_text(
                old(self).pos.0 as int,
                Bytecode::LoadFieldUInt8(dest, obj, cls, field),
            ),
            final(self).pos == old(self).pos,
            final(self).bc == old(self).bc,
    {
        self.emit_field("LoadFieldUInt8", dest, obj, cls, field);
    }

    /// Writes the line of `LoadFieldChar`.
    pub fn visit_load_field_char(
        &mut self,
        dest: Register,
        obj: Register,
        cls: ClassDefId,
        field: FieldId,
    )
        ensures
            final(self).w@ == old(self).w@ + line_text(
                old(self).pos.0 as int,
                Bytecode::LoadFieldChar(dest, obj, cls, field),
            ),
            final(self).pos == old(self).pos,
            final(self).bc == old(self).bc,
    {
        self.emit_field("LoadFieldChar", dest, obj, cls, field);
    }

    /// Writes the line of `LoadFieldInt`.
    pub fn visit_load_field_int(
        &mut self,
        dest: Register,
        obj: Register,
        cls: ClassDefId,
        field: FieldId,
    )
        ensures
            final(self).w@ == old(self).w@ + line_text(
                old(self).pos.0 as int,
                Bytecode::LoadFieldInt(dest, obj, cls, field),
            ),
            final(self).pos == old(self).pos,
            final(self).bc == old(self).bc,
    {
        self.emit_field("LoadFieldInt", dest, obj, cls, field);
    }

    /// Writes the line of `LoadFieldInt64`.
    pub fn visit_load_field_int64(
        &mut self,
        dest: Register,
        obj: Register,
        cls: ClassDefId,
        field: FieldId,
    )
        ensures
            final(self).w@ == old(self).w@ + line_text(
                old(self).pos.0 as int,
                Bytecode::LoadFieldInt64(dest, obj, cls, field),
            ),
            final(self).pos == old(self).pos,
            final(self).bc == old(self).bc,
    {
        self.emit_field("LoadFieldInt64", dest, obj, cls, field);
    }

    /// Writes the line of `LoadFieldFloat`.
    pub fn visit_load_field_float(
        &mut self,
        dest: Register,
        obj: Register,
        cls: ClassDefId,
        field: FieldId,
    )
        ensures
            final(self).w@ == old(self).w@ + line_text(
                old(self).pos.0 as int,
                Bytecode::LoadFieldFloat(dest, obj, cls, field),
            ),
            final(self).pos == old(self).pos,
            final(self).bc == old(self).bc,
    {
        self.emit_field("LoadFieldFloat", dest, obj, cls, field);
    }

    /// Writes the line of `LoadFieldDouble`.
    pub fn visit_load_field_double(
        &mut self,
        dest: Register,
        obj: Register,
        cls: ClassDefId,
        field: FieldId,
    )
        ensures
            final(self).w@ == old(self).w@ + line_text(
                old(self).pos.0 as int,
                Bytecode::LoadFieldDouble(dest, obj, cls, field),
            ),
            final(self).pos == old(self).pos,
            final(self).bc == old(self).bc,
    {
        self.emit_field("LoadFieldDouble", dest, obj, cls, field);
    }

    /// Writes the line of `LoadFieldPtr`.
    pub fn visit_load_field_ptr(
        &mut self,
        dest: Register,
        obj: Register,
        cls: ClassDefId,
        field: FieldId,
    )
        ensures
            final(self).w@ == old(self).w@ + line_text(
                old(self).pos.0 as int,
                Bytecode::LoadFieldPtr(dest, obj, cls, field),
            ),
            final(self).pos == old(self).pos,
            final(self).bc == old(self).bc,
    {
        self.emit_field("LoadFieldPtr", dest, obj, cls, field);
    }

    /// Writes the line of `StoreFieldBool`.
    pub fn visit_store_field_bool(
        &mut self,
        src: Register,
        obj: Register,
        cls: ClassDefId,
        field: FieldId,
    )
        ensures
            final(self).w@ == old(self).w@ + line_text(
                old(self).pos.0 as int,
                Bytecode::StoreFieldBool(src, obj, cls, field),
            ),
            final(self).pos == old(self).pos,
            final(self).bc == old(self).bc,
    {
        self.emit_field("StoreFieldBool", src, obj, cls, field);
    }

    /// Writes the line of `StoreFieldUInt8`.
    pub fn visit_store_field_uint8(
        &mut self,
        src: Register,
        obj: Register,
        cls: ClassDefId,
        field: FieldId,
    )
        ensures
            final(self).w@ == old(self).w@ + line_text(
                old(self).pos.0 as int,
                Bytecode::StoreFieldUInt8(src, obj, cls, field),
            ),
            final(self).pos == old(self).pos,
            final(self).bc == old(self).bc,
    {
        self.emit_field("StoreFieldUInt8", src, obj, cls, field);
    }

    /// Writes the line of `StoreFieldChar`.
    pub fn visit_store_field_char(
        &mut self,
        src: Register,
        obj: Register,
        cls: ClassDefId,
        field: FieldId,
    )
        ensures
            final(self).w@ == old(self).w@ + line_text(
                old(self).pos.0 as int,
                Bytecode::StoreFieldChar(src, obj, cls, field),
            ),
            final(self).pos == old(self).pos,
            final(self).bc == old(self).bc,
    {
        self.emit_field("StoreFieldChar", src, obj, cls, field);
    }

    /// Writes the line of `StoreFieldInt`.
    pub fn visit_store_field_int(
        &mut self,
        src: Register,
        obj: Register,
        cls: ClassDefId,
        field: FieldId,
    )
        ensures
            final(self).w@ == old(self).w@ + line_text(
                old(self).pos.0 as int,
                Bytecode::StoreFieldInt(src, obj, cls, field),
            ),
            final(self).pos == old(self).pos,
            final(self).bc == old(self).bc,
    {
        self.emit_field("StoreFieldInt", src, obj, cls, field);
    }

    /// Writes the line of `StoreFieldInt64`.
    pub fn visit_store_field_int64(
        &mut self,
        src: Register,
        obj: Register,
        cls: ClassDefId,
        field: FieldId,
    )
        ensures
            final(self).w@ == old(self).w@ + line_text(
                old(self).pos.0 as int,
                Bytecode::StoreFieldInt64(src, obj, cls, field),
            ),
            final(self).pos == old(self).pos,
            final(self).bc == old(self).bc,
    {
        self.emit_field("StoreFieldInt64", src, obj, cls, field);
    }

    /// Writes the line of `StoreFieldFloat`.
    pub fn visit_store_field_float(
        &mut self,
        src: Register,
        obj: Register,
        cls: ClassDefId,
        field: FieldId,
    )
        ensures
            final(self).w@ == old(self).w@ + line_text(
                old(self).pos.0 as int,
                Bytecode::StoreFieldFloat(src, obj, cls, field),
            ),
            final(self).pos == old(self).pos,
            final(self).bc == old(self).bc,
    {
        self.emit_field("StoreFieldFloat", src, obj, cls, field);
    }

    /// Writes the line of `StoreFieldDouble`.
    pub fn visit_store_field_double(
        &mut self,
        src: Register,
        obj: Register,
        cls: ClassDefId,
        field: FieldId,
    )
        ensures
            final(self).w@ == old(self).w@ + line_text(
                old(self).pos.0 as int,
                Bytecode::StoreFieldDouble(src, obj, cls, field),
            ),
            final(self).pos == old(self).pos,
            final(self).bc == old(self).bc,
    {
        self.emit_field("StoreFieldDouble", src, obj, cls, field);
    }

    /// Writes the line of `StoreFieldPtr`.
    pub fn visit_store_field_ptr(
        &mut self,
        src: Register,
        obj: Register,
        cls: ClassDefId,
        field: FieldId,
    )
        ensures
            final(self).w@ == old(self).w@ + line_text(
                old(self).pos.0 as int,
                Bytecode::StoreFieldPtr(src, obj, cls, field),
            ),
            final(self).pos == old(self).pos,
            final(self).bc == old(self).bc,
    {
        self.emit_field("StoreFieldPtr", src, obj, cls, field);
    }

    /// Writes the line of `LoadGlobalBool`.
    pub fn visit_load_global_bool(&mut self, dest: Register, glob: GlobalId)
        ensures
            final(self).w@ == old(self).w@ + line_text(
                old(self).pos.0 as int,
                Bytecode::LoadGlobalBool(dest, glob),
            ),
            final(self).pos == old(self).pos,
            final(self).bc == old(self).bc,
    {
        self.emit_global("LoadGlobalBool", dest, glob);
    }

    /// Writes the line of `LoadGlobalByte`.
    pub fn visit_load_global_byte(&mut self, dest: Register, glob: GlobalId)
        ensures
            final(self).w@ == old(self).w@ + line_text(
                old(self).pos.0 as int,
                Bytecode::LoadGlobalByte(dest, glob),
            ),
            final(self).pos == old(self).pos,
            final(self).bc == old(self).bc,
    {
        self.emit_global("LoadGlobalByte", dest, glob);
    }

    /// Writes the line of `LoadGlobalChar`.
    pub fn visit_load_global_char(&mut self, dest: Register, glob: GlobalId)
        ensures
            final(self).w@ == old(self).w@ + line_text(
                old(self).pos.0 as int,
                Bytecode::LoadGlobalChar(dest, glob),
            ),
            final(self).pos == old(self).pos,
            final(self).bc == old(self).bc,
    {
        self.emit_global("LoadGlobalChar", dest, glob);
    }

    /// Writes the line of `LoadGlobalInt`.
    pub fn visit_load_global_int(&mut self, dest: Register, glob: GlobalId)
        ensures
            final(self).w@ == old(self).w@ + line_text(
                old(self).pos.0 as int,
                Bytecode::LoadGlobalInt(dest, glob),
            ),
            final(self).pos == old(self).pos,
            final(self).bc == old(self).bc,
    {
        self.emit_global("LoadGlobalInt", dest, glob);
    }

    /// Writes the line of `LoadGlobalLong`.
    pub fn visit_load_global_long(&mut self, dest: Register, glob: GlobalId)
        ensures
            final(self).w@ == old(self).w@ + line_text(
                old(self).pos.0 as int,
                Bytecode::LoadGlobalLong(dest, glob),
            ),
            final(self).pos == old(self).pos,
            final(self).bc == old(self).bc,
    {
        self.emit_global("LoadGlobalLong", dest, glob);
    }

    /// Writes the line of `LoadGlobalFloat`.
    pub fn visit_load_global_float(&mut self, dest: Register, glob: GlobalId)
        ensures
            final(self).w@ == old(self).w@ + line_text(
                old(self).pos.0 as int,
                Bytecode::LoadGlobalFloat(dest, glob),
            ),
            final(self).pos == old(self).pos,
            final(self).bc == old(self).bc,
    {
        self.emit_global("LoadGlobalFloat", dest, glob);
    }

    /// Writes the line of `LoadGlobalDouble`.
    pub fn visit_load_global_double(&mut self, dest: Register, glob: GlobalId)
        ensures
            final(self).w@ == old(self).w@ + line_text(
                old(self).pos.0 as int,
                Bytecode::LoadGlobalDouble(dest, glob),
            ),
            final(self).pos == old(self).pos,
            final(self).bc == old(self).bc,
    {
        self.emit_global("LoadGlobalDouble", dest, glob);
    }

    /// Writes the line of `LoadGlobalPtr`.
    pub fn visit_load_global_ptr(&mut self, dest: Register, glob: GlobalId)
        ensures
            final(self).w@ == old(self).w@ + line_text(
                old(self).pos.0 as int,
                Bytecode::LoadGlobalPtr(dest, glob),
            ),
            final(self).pos == old(self).pos,
            final(self).bc == old(self).bc,
    {
        self.emit_global("LoadGlobalPtr", dest, glob);
    }

    /// Writes the line of `StoreGlobalBool`.
    pub fn visit_store_global_bool(&mut self, src: Register, glob: GlobalId)
        ensures
            final(self).w@ == old(self).w@ + line_text(
                old(self).pos.0 as int,
                Bytecode::StoreGlobalBool(src, glob),
            ),
            final(self).pos == old(self).pos,
            final(self).bc == old(self).bc,
    {
        self.emit_global("StoreGlobalBool", src, glob);
    }

    /// Writes the line of `StoreGlobalByte`.
    pub fn visit_store_global_byte(&mut self, src: Register, glob: GlobalId)
        ensures
            final(self).w@ == old(self).w@ + line_text(
                old(self).pos.0 as int,
                Bytecode::StoreGlobalByte(src, glob),
            ),
            final(self).pos == old(self).pos,
            final(self).bc == old(self).bc,
    {
        self.emit_global("StoreGlobalByte", src, glob);
    }

    /// Writes the line of `StoreGlobalChar`.
    pub fn visit_store_global_char(&mut self, src: Register, glob: GlobalId)
        ensures
            final(self).w@ == old(self).w@ + line_text(
                old(self).pos.0 as int,
                Bytecode::StoreGlobalChar(src, glob),
            ),
            final(self).pos == old(self).pos,
            final(self).bc == old(self).bc,
    {
        self.emit_global("StoreGlobalChar", src, glob);
    }

    /// Writes the line of `StoreGlobalInt`.
    pub fn visit_store_global_int(&mut self, src: Register, glob: GlobalId)
        ensures
            final(self).w@ == old(self).w@ + line_text(
                old(self).pos.0 as int,
                Bytecode::StoreGlobalInt(src, glob),
            ),
            final(self).pos == old(self).pos,
            final(self).bc == old(self).bc,
    {
        self.emit_global("StoreGlobalInt", src, glob);
    }

    /// Writes the line of `StoreGlobalLong`.
    pub fn visit_store_global_long(&mut self, src: Register, glob: GlobalId)
        ensures
            final(self).w@ == old(self).w@ + line_text(
                old(self).pos.0 as int,
                Bytecode::StoreGlobalLong(src, glob),
            ),
            final(self).pos == old(self).pos,
            final(self).bc == old(self).bc,
    {
        self.emit_global("StoreGlobalLong", src, glob);
    }

    /// Writes the line of `StoreGlobalFloat`.
    pub fn visit_store_global_float(&mut self, src: Register, glob: GlobalId)
        ensures
            final(self).w@ == old(self).w@ + line_text(
                old(self).pos.0 as int,
                Bytecode::StoreGlobalFloat(src, glob),
            ),
            final(self).pos == old(self).pos,
            final(self).bc == old(self).bc,
    {
        self.emit_global("StoreGlobalFloat", src, glob);
    }

    /// Writes the line of `StoreGlobalDouble`.
    pub fn visit_store_global_double(&mut self, src: Register, glob: GlobalId)
        ensures
            final(self).w@ == old(self).w@ + line_text(
                old(self).pos.0 as int,
                Bytecode::StoreGlobalDouble(src, glob),
            ),
            final(self).pos == old(self).pos,
            final(self).bc == old(self).bc,
    {
        self.emit_global("StoreGlobalDouble", src, glob);
    }

    /// Writes the line of `StoreGlobalPtr`.
    pub fn visit_store_global_ptr(&mut self, src: Register, glob: GlobalId)
        ensures
            final(self).w@ == old(self).w@ + line_text(
                old(self).pos.0 as int,
                Bytecode::StoreGlobalPtr(src, glob),
            ),
            final(self).pos == old(self).pos,
            final(self).bc == old(self).bc,
    {
        self.emit_global("StoreGlobalPtr", src, glob);
    }

    /// Writes the line of `PushRegister`.
    pub fn visit_push_register(&mut self, src: Register)
        ensures
            final(self).w@ == old(self).w@ + line_text(
                old(self).pos.0 as int,
                Bytecode::PushRegister(src),
            ),
            final(self).pos == old(self).pos,
            final(self).bc == old(self).bc,
    {
        self.emit_reg1("PushRegister", src);
    }

    /// Writes the line of `ConstNil`.
    pub fn visit_const_nil(&mut self, dest: Register)
        ensures
            final(self).w@ == old(self).w@ + line_text(
                old(self).pos.0 as int,
                Bytecode::ConstNil(dest),
            ),
            final(self).pos == old(self).pos,
            final(self).bc == old(self).bc,
    {
        self.emit_reg1("ConstNil", dest);
    }

    /// Writes the line of `ConstTrue`.
    pub fn visit_const_true(&mut self, dest: Register)
        ensures
            final(self).w@ == old(self).w@ + line_text(
                old(self).pos.0 as int,
                Bytecode::ConstTrue(dest),
            ),
            final(self).pos == old(self).pos,
            final(self).bc == old(self).bc,
    {
        self.emit_reg1("ConstTrue", dest);
    }

    /// Writes the line of `ConstFalse`.
    pub fn visit_const_false(&mut self, dest: Register)
        ensures
            final(self).w@ == old(self).w@ + line_text(
                old(self).pos.0 as int,
                Bytecode::ConstFalse(dest),
            ),
            final(self).pos == old(self).pos,
            final(self).bc == old(self).bc,
    {
        self.emit_reg1("ConstFalse", dest);
    }

    /// Writes the line of `ConstZeroByte`.
    pub fn visit_const_zero_byte(&mut self, dest: Register)
        ensures
            final(self).w@ == old(self).w@ + line_text(
                old(self).pos.0 as int,
                Bytecode::ConstZeroByte(dest),
            ),
            final(self).pos == old(self).pos,
            final(self).bc == old(self).bc,
    {
        self.emit_reg1("ConstZeroByte", dest);
    }

    /// Writes the line of `ConstZeroChar`.
    pub fn visit_const_zero_char(&mut self, dest: Register)
        ensures
            final(self).w@ == old(self).w@ + line_text(
                old(self).pos.0 as int,
                Bytecode::ConstZeroChar(dest),
            ),
            final(self).pos == old(self).pos,
            final(self).bc == old(self).bc,
    {
        self.emit_reg1("ConstZeroChar", dest);
    }

    /// Writes the line of `ConstZeroInt`.
    pub fn visit_const_zero_int(&mut self, dest: Register)
        ensures
            final(self).w@ == old(self).w@ + line_text(
                old(self).pos.0 as int,
                Bytecode::ConstZeroInt(dest),
            ),
            final(self).pos == old(self).pos,
            final(self).bc == old(self).bc,
    {
        self.emit_reg1("ConstZeroInt", dest);
    }

    /// Writes the line of `ConstZeroLong`.
    pub fn visit_const_zero_long(&mut self, dest: Register)
        ensures
            final(self).w@ == old(self).w@ + line_text(
                old(self).pos.0 as int,
                Bytecode::ConstZeroLong(dest),
            ),
            final(self).pos == old(self).pos,
            final(self).bc == old(self).bc,
    {
        self.emit_reg1("ConstZeroLong", dest);
    }

    /// Writes the line of `ConstZeroFloat`.
    pub fn visit_const_zero_float(&mut self, dest: Register)
        ensures
            final(self).w@ == old(self).w@ + line_text(
                old(self).pos.0 as int,
                Bytecode::ConstZeroFloat(dest),
            ),
            final(self).pos == old(self).pos,
            final(self).bc == old(self).bc,
    {
        self.emit_reg1("ConstZeroFloat", dest);
    }

    /// Writes the line of `ConstZeroDouble`.
    pub fn visit_const_zero_double(&mut self, dest: Register)
        ensures
            final(self).w@ == old(self).w@ + line_text(
                old(self).pos.0 as int,
                Bytecode::ConstZeroDouble(dest),
            ),
            final(self).pos == old(self).pos,
            final(self).bc == old(self).bc,
    {
        self.emit_reg1("ConstZeroDouble", dest);
    }

    /// Writes the line of `ConstChar`.
    pub fn visit_const_char(&mut self, dest: Register, value: ConstPoolIdx)
        ensures
            final(self).w@ == old(self).w@ + line_text(
                old(self).pos.0 as int,
                Bytecode::ConstChar(dest, value),
            ),
            final(self).pos == old(self).pos,
            final(self).bc == old(self).bc,
    {
        self.emit_reg1_idx("ConstChar", dest, value);
    }

    /// Writes the line of `ConstUInt8`.
    pub fn visit_const_uint8(&mut self, dest: Register, value: u8)
        ensures
            final(self).w@ == old(self).w@ + line_text(
                old(self).pos.0 as int,
                Bytecode::ConstUInt8(dest, value),
            ),
            final(self).pos == old(self).pos,
            final(self).bc == old(self).bc,
    {
        self.emit_reg1_u32("ConstUInt8", dest, value as u32);
    }

    /// Writes the line of `ConstInt`.
    pub fn visit_const_int(&mut self, dest: Register, value: ConstPoolIdx)
        ensures
            final(self).w@ == old(self).w@ + line_text(
                old(self).pos.0 as int,
                Bytecode::ConstInt(dest, value),
            ),
            final(self).pos == old(self).pos,
            final(self).bc == old(self).bc,
    {
        self.emit_reg1_idx("ConstInt", dest, value);
    }

    /// Writes the line of `ConstInt64`.
    pub fn visit_const_int64(&mut self, dest: Register, value: ConstPoolIdx)
        ensures
            final(self).w@ == old(self).w@ + line_text(
                old(self).pos.0 as int,
                Bytecode::ConstInt64(dest, value),
            ),
            final(self).pos == old(self).pos,
            final(self).bc == old(self).bc,
    {
        self.emit_reg1_idx("ConstInt64", dest, value);
    }

    /// Writes the line of `ConstFloat`.
    pub fn visit_const_float(&mut self, dest: Register, value: ConstPoolIdx)
        ensures
            final(self).w@ == old(self).w@ + line_text(
                old(self).pos.0 as int,
                Bytecode::ConstFloat(dest, value),
            ),
            final(self).pos == old(self).pos,
            final(self).bc == old(self).bc,
    {
        self.emit_reg1_idx("ConstFloat", dest, value);
    }

    /// Writes the line of `ConstDouble`.
    pub fn visit_const_double(&mut self, dest: Register, value: ConstPoolIdx)
        ensures
            final(self).w@ == old(self).w@ + line_text(
                old(self).pos.0 as int,
                Bytecode::ConstDouble(dest, value),
            ),
            final(self).pos == old(self).pos,
            final(self).bc == old(self).bc,
    {
        self.emit_reg1_idx("ConstDouble", dest, value);
    }

    /// Writes the line of `ConstString`.
    pub fn visit_const_string(&mut self, dest: Register, value: ConstPoolIdx)
        ensures
            final(self).w@ == old(self).w@ + line_text(
                old(self).pos.0 as int,
                Bytecode::ConstString(dest, value),
            ),
            final(self).pos == old(self).pos,
            final(self).bc == old(self).bc,
    {
        self.emit_reg1_idx("ConstString", dest, value);
    }

    /// Writes the line of `TestEqPtr`.
    pub fn visit_test_eq_ptr(&mut self, dest: Register, lhs: Register, rhs: Register)
        ensures
            final(self).w@ == old(self).w@ + line_text(
                old(self).pos.0 as int,
                Bytecode::TestEqPtr(dest, lhs, rhs),
            ),
            final(self).pos == old(self).pos,
            final(self).bc == old(self).bc,
    {
        self.emit_reg3("TestEqPtr", dest, lhs, rhs);
    }

    /// Writes the line of `TestNePtr`.
    pub fn visit_test_ne_ptr(&mut self, dest: Register, lhs: Register, rhs: Register)
        ensures
            final(self).w@ == old(self).w@ + line_text(
                old(self).pos.0 as int,
                Bytecode::TestNePtr(dest, lhs, rhs),
            ),
            final(self).pos == old(self).pos,
            final(self).bc == old(self).bc,
    {
        self.emit_reg3("TestNePtr", dest, lhs, rhs);
    }

    /// Writes the line of `TestEqBool`.
    pub fn visit_test_eq_bool(&mut self, dest: Register, lhs: Register, rhs: Register)
        ensures
            final(self).w@ == old(self).w@ + line_text(
                old(self).pos.0 as int,
                Bytecode::TestEqBool(dest, lhs, rhs),
            ),
            final(self).pos == old(self).pos,
            final(self).bc == old(self).bc,
    {
        self.emit_reg3("TestEqBool", dest, lhs, rhs);
    }

    /// Writes the line of `TestNeBool`.
    pub fn visit_test_ne_bool(&mut self, dest: Register, lhs: Register, rhs: Register)
        ensures
            final(self).w@ == old(self).w@ + line_text(
                old(self).pos.0 as int,
                Bytecode::TestNeBool(dest, lhs, rhs),
            ),
            final(self).pos == old(self).pos,
            final(self).bc == old(self).bc,
    {
        self.emit_reg3("TestNeBool", dest, lhs, rhs);
    }

    /// Writes the line of `TestEqByte`.
    pub fn visit_test_eq_byte(&mut self, dest: Register, lhs: Register, rhs: Register)
        ensures
            final(self).w@ == old(self).w@ + line_text(
                old(self).pos.0 as int,
                Bytecode::TestEqByte(dest, lhs, rhs),
            ),
            final(self).pos == old(self).pos,
            final(self).bc == old(self).bc,
    {
        self.emit_reg3("TestEqByte", dest, lhs, rhs);
    }

    /// Writes the line of `TestNeByte`.
    pub fn visit_test_ne_byte(&mut self, dest: Register, lhs: Register, rhs: Register)
        ensures
            final(self).w@ == old(self).w@ + line_text(
                old(self).pos.0 as int,
                Bytecode::TestNeByte(dest, lhs, rhs),
            ),
            final(self).pos == old(self).pos,
            final(self).bc == old(self).bc,
    {
        self.emit_reg3("TestNeByte", dest, lhs, rhs);
    }

    /// Writes the line of `TestGtByte`.
    pub fn visit_test_gt_byte(&mut self, dest: Register, lhs: Register, rhs: Register)
        ensures
            final(self).w@ == old(self).w@ + line_text(
                old(self).pos.0 as int,
                Bytecode::TestGtByte(dest, lhs, rhs),
            ),
            final(self).pos == old(self).pos,
            final(self).bc == old(self).bc,
    {
        self.emit_reg3("TestGtByte", dest, lhs, rhs);
    }

    /// Writes the line of `TestGeByte`.
    pub fn visit_test_ge_byte(&mut self, dest: Register, lhs: Register, rhs: Register)
        ensures
            final(self).w@ == old(self).w@ + line_text(
                old(self).pos.0 as int,
                Bytecode::TestGeByte(dest, lhs, rhs),
            ),
            final(self).pos == old(self).pos,
            final(self).bc == old(self).bc,
    {
        self.emit_reg3("TestGeByte", dest, lhs, rhs);
    }

    /// Writes the line of `TestLtByte`.
    pub fn visit_test_lt_byte(&mut self, dest: Register, lhs: Register, rhs: Register)
        ensures
            final(self).w@ == old(self).w@ + line_text(
                old(self).pos.0 as int,
                Bytecode::TestLtByte(dest, lhs, rhs),
            ),
            final(self).pos == old(self).pos,
            final(self).bc == old(self).bc,
    {
        self.emit_reg3("TestLtByte", dest, lhs, rhs);
    }

    /// Writes the line of `TestLeByte`.
    pub fn visit_test_le_byte(&mut self, dest: Register, lhs: Register, rhs: Register)
        ensures
            final(self).w@ == old(self).w@ + line_text(
                old(self).pos.0 as int,
                Bytecode::TestLeByte(dest, lhs, rhs),
            ),
            final(self).pos == old(self).pos,
            final(self).bc == old(self).bc,
    {
        self.emit_reg3("TestLeByte", dest, lhs, rhs);
    }

    /// Writes the line of `TestEqChar`.
    pub fn visit_test_eq_char(&mut self, dest: Register, lhs: Register, rhs: Register)
        ensures
            final(self).w@ == old(self).w@ + line_text(
                old(self).pos.0 as int,
                Bytecode::TestEqChar(dest, lhs, rhs),
            ),
            final(self).pos == old(self).pos,
            final(self).bc == old(self).bc,
    {
        self.emit_reg3("TestEqChar", dest, lhs, rhs);
    }

    /// Writes the line of `TestNeChar`.
    pub fn visit_test_ne_char(&mut self, dest: Register, lhs: Register, rhs: Register)
        ensures
            final(self).w@ == old(self).w@ + line_text(
                old(self).pos.0 as int,
                Bytecode::TestNeChar(dest, lhs, rhs),
            ),
            final(self).pos == old(self).pos,
            final(self).bc == old(self).bc,
    {
        self.emit_reg3("TestNeChar", dest, lhs, rhs);
    }

    /// Writes the line of `TestGtChar`.
    pub fn visit_test_gt_char(&mut self, dest: Register, lhs: Register, rhs: Register)
        ensures
            final(self).w@ == old(self).w@ + line_text(
                old(self).pos.0 as int,
                Bytecode::TestGtChar(dest, lhs, rhs),
            ),
            final(self).pos == old(self).pos,
            final(self).bc == old(self).bc,
    {
        self.emit_reg3("TestGtChar", dest, lhs, rhs);
    }

    /// Writes the line of `TestGeChar`.
    pub fn visit_test_ge_char(&mut self, dest: Register, lhs: Register, rhs: Register)
        ensures
            final(self).w@ == old(self).w@ + line_text(
                old(self).pos.0 as int,
                Bytecode::TestGeChar(dest, lhs, rhs),
            ),
            final(self).pos == old(self).pos,
            final(self).bc == old(self).bc,
    {
        self.emit_reg3("TestGeChar", dest, lhs, rhs);
    }

    /// Writes the line of `TestLtChar`.
    pub fn visit_test_lt_char(&mut self, dest: Register, lhs: Register, rhs: Register)
        ensures
            final(self).w@ == old(self).w@ + line_text(
                old(self).pos.0 as int,
                Bytecode::TestLtChar(dest, lhs, rhs),
            ),
            final(self).pos == old(self).pos,
            final(self).bc == old(self).bc,
    {
        self.emit_reg3("TestLtChar", dest, lhs, rhs);
    }

    /// Writes the line of `TestLeChar`.
    pub fn visit_test_le_char(&mut self, dest: Register, lhs: Register, rhs: Register)
        ensures
            final(self).w@ == old(self).w@ + line_text(
                old(self).pos.0 as int,
                Bytecode::TestLeChar(dest, lhs, rhs),
            ),
            final(self).pos == old(self).pos,
            final(self).bc == old(self).bc,
    {
        self.emit_reg3("TestLeChar", dest, lhs, rhs);
    }

    /// Writes the line of `TestEqEnum`.
    pub fn visit_test_eq_enum(&mut self, dest: Register, lhs: Register, rhs: Register)
        ensures
            final(self).w@ == old(self).w@ + line_text(
                old(self).pos.0 as int,
                Bytecode::TestEqEnum(dest, lhs, rhs),
            ),
            final(self).pos == old(self).pos,
            final(self).bc == old(self).bc,
    {
        self.emit_reg3("TestEqEnum", dest, lhs, rhs);
    }

    /// Writes the line of `TestNeEnum`.
    pub fn visit_test_ne_enum(&mut self, dest: Register, lhs: Register, rhs: Register)
        ensures
            final(self).w@ == old(self).w@ + line_text(
                old(self).pos.0 as int,
                Bytecode::TestNeEnum(dest, lhs, rhs),
            ),
            final(self).pos == old(self).pos,
            final(self).bc == old(self).bc,
    {
        self.emit_reg3("TestNeEnum", dest, lhs, rhs);
    }

    /// Writes the line of `TestEqInt`.
    pub fn visit_test_eq_int(&mut self, dest: Register, lhs: Register, rhs: Register)
        ensures
            final(self).w@ == old(self).w@ + line_text(
                old(self).pos.0 as int,
                Bytecode::TestEqInt(dest, lhs, rhs),
            ),
            final(self).pos == old(self).pos,
            final(self).bc == old(self).bc,
    {
        self.emit_reg3("TestEqInt", dest, lhs, rhs);
    }

    /// Writes the line of `TestNeInt`.
    pub fn visit_test_ne_int(&mut self, dest: Register, lhs: Register, rhs: Register)
        ensures
            final(self).w@ == old(self).w@ + line_text(
                old(self).pos.0 as int,
                Bytecode::TestNeInt(dest, lhs, rhs),
            ),
            final(self).pos == old(self).pos,
            final(self).bc == old(self).bc,
    {
        self.emit_reg3("TestNeInt", dest, lhs, rhs);
    }

    /// Writes the line of `TestGtInt`.
    pub fn visit_test_gt_int(&mut self, dest: Register, lhs: Register, rhs: Register)
        ensures
            final(self).w@ == old(self).w@ + line_text(
                old(self).pos.0 as int,
                Bytecode::TestGtInt(dest, lhs, rhs),
            ),
            final(self).pos == old(self).pos,
            final(self).bc == old(self).bc,
    {
        self.emit_reg3("TestGtInt", dest, lhs, rhs);
    }

    /// Writes the line of `TestGeInt`.
    pub fn visit_test_ge_int(&mut self, dest: Register, lhs: Register, rhs: Register)
        ensures
            final(self).w@ == old(self).w@ + line_text(
                old(self).pos.0 as int,
                Bytecode::TestGeInt(dest, lhs, rhs),
            ),
            final(self).pos == old(self).pos,
            final(self).bc == old(self).bc,
    {
        self.emit_reg3("TestGeInt", dest, lhs, rhs);
    }

    /// Writes the line of `TestLtInt`.
    pub fn visit_test_lt_int(&mut self, dest: Register, lhs: Register, rhs: Register)
        ensures
            final(self).w@ == old(self).w@ + line_text(
                old(self).pos.0 as int,
                Bytecode::TestLtInt(dest, lhs, rhs),
            ),
            final(self).pos == old(self).pos,
            final(self).bc == old(self).bc,
    {
        self.emit_reg3("TestLtInt", dest, lhs, rhs);
    }

    /// Writes the line of `TestLeInt`.
    pub fn visit_test_le_int(&mut self, dest: Register, lhs: Register, rhs: Register)
        ensures
            final(self).w@ == old(self).w@ + line_text(
                old(self).pos.0 as int,
                Bytecode::TestLeInt(dest, lhs, rhs),
            ),
            final(self).pos == old(self).pos,
            final(self).bc == old(self).bc,
    {
        self.emit_reg3("TestLeInt", dest, lhs, rhs);
    }

    /// Writes the line of `TestEqInt64`.
    pub fn visit_test_eq_int64(&mut self, dest: Register, lhs: Register, rhs: Register)
        ensures
            final(self).w@ == old(self).w@ + line_text(
                old(self).pos.0 as int,
                Bytecode::TestEqInt64(dest, lhs, rhs),
            ),
            final(self).pos == old(self).pos,
            final(self).bc == old(self).bc,
    {
        self.emit_reg3("TestEqInt64", dest, lhs, rhs);
    }

    /// Writes the line of `TestNeInt64`.
    pub fn visit_test_ne_int64(&mut self, dest: Register, lhs: Register, rhs: Register)
        ensures
            final(self).w@ == old(self).w@ + line_text(
                old(self).pos.0 as int,
                Bytecode::TestNeInt64(dest, lhs, rhs),
            ),
            final(self).pos == old(self).pos,
            final(self).bc == old(self).bc,
    {
        self.emit_reg3("TestNeInt64", dest, lhs, rhs);
    }

    /// Writes the line of `TestGtInt64`.
    pub fn visit_test_gt_int64(&mut self, dest: Register, lhs: Register, rhs: Register)
        ensures
            final(self).w@ == old(self).w@ + line_text(
                old(self).pos.0 as int,
                Bytecode::TestGtInt64(dest, lhs, rhs),
            ),
            final(self).pos == old(self).pos,
            final(self).bc == old(self).bc,
    {
        self.emit_reg3("TestGtInt64", dest, lhs, rhs);
    }

    /// Writes the line of `TestGeInt64`.
    pub fn visit_test_ge_int64(&mut self, dest: Register, lhs: Register, rhs: Register)
        ensures
            final(self).w@ == old(self).w@ + line_text(
                old(self).pos.0 as int,
                Bytecode::TestGeInt64(dest, lhs, rhs),
            ),
            final(self).pos == old(self).pos,
            final(self).bc == old(self).bc,
    {
        self.emit_reg3("TestGeInt64", dest, lhs, rhs);
    }

    /// Writes the line of `TestLtInt64`.
    pub fn visit_test_lt_int64(&mut self, dest: Register, lhs: Register, rhs: Register)
        ensures
            final(self).w@ == old(self).w@ + line_text(
                old(self).pos.0 as int,
                Bytecode::TestLtInt64(dest, lhs, rhs),
            ),
            final(self).pos == old(self).pos,
            final(self).bc == old(self).bc,
    {
        self.emit_reg3("TestLtInt64", dest, lhs, rhs);
    }

    /// Writes the line of `TestLeInt64`.
    pub fn visit_test_le_int64(&mut self, dest: Register, lhs: Register, rhs: Register)
        ensures
            final(self).w@ == old(self).w@ + line_text(
                old(self).pos.0 as int,
                Bytecode::TestLeInt64(dest, lhs, rhs),
            ),
            final(self).pos == old(self).pos,
            final(self).bc == old(self).bc,
    {
        self.emit_reg3("TestLeInt64", dest, lhs, rhs);
    }

    /// Writes the line of `TestEqFloat`.
    pub fn visit_test_eq_float(&mut self, dest: Register, lhs: Register, rhs: Register)
        ensures
            final(self).w@ == old(self).w@ + line_text(
                old(self).pos.0 as int,
                Bytecode::TestEqFloat(dest, lhs, rhs),
            ),
            final(self).pos == old(self).pos,
            final(self).bc == old(self).bc,
    {
        self.emit_reg3("TestEqFloat", dest, lhs, rhs);
    }

    /// Writes the line of `TestNeFloat`.
    pub fn visit_test_ne_float(&mut self, dest: Register, lhs: Register, rhs: Register)
        ensures
            final(self).w@ == old(self).w@ + line_text(
                old(self).pos.0 as int,
                Bytecode::TestNeFloat(dest, lhs, rhs),
            ),
            final(self).pos == old(self).pos,
            final(self).bc == old(self).bc,
    {
        self.emit_reg3("TestNeFloat", dest, lhs, rhs);
    }

    /// Writes the line of `TestGtFloat`.
    pub fn visit_test_gt_float(&mut self, dest: Register, lhs: Register, rhs: Register)
        ensures
            final(self).w@ == old(self).w@ + line_text(
                old(self).pos.0 as int,
                Bytecode::TestGtFloat(dest, lhs, rhs),
            ),
            final(self).pos == old(self).pos,
            final(self).bc == old(self).bc,
    {
        self.emit_reg3("TestGtFloat", dest, lhs, rhs);
    }

    /// Writes the line of `TestGeFloat`.
    pub fn visit_test_ge_float(&mut self, dest: Register, lhs: Register, rhs: Register)
        ensures
            final(self).w@ == old(self).w@ + line_text(
                old(self).pos.0 as int,
                Bytecode::TestGeFloat(dest, lhs, rhs),
            ),
            final(self).pos == old(self).pos,
            final(self).bc == old(self).bc,
    {
        self.emit_reg3("TestGeFloat", dest, lhs, rhs);
    }

    /// Writes the line of `TestLtFloat`.
    pub fn visit_test_lt_float(&mut self, dest: Register, lhs: Register, rhs: Register)
        ensures
            final(self).w@ == old(self).w@ + line_text(
                old(self).pos.0 as int,
                Bytecode::TestLtFloat(dest, lhs, rhs),
            ),
            final(self).pos == old(self).pos,
            final(self).bc == old(self).bc,
    {
        self.emit_reg3("TestLtFloat", dest, lhs, rhs);
    }

    /// Writes the line of `TestLeFloat`.
    pub fn visit_test_le_float(&mut self, dest: Register, lhs: Register, rhs: Register)
        ensures
            final(self).w@ == old(self).w@ + line_text(
                old(self).pos.0 as int,
                Bytecode::TestLeFloat(dest, lhs, rhs),
            ),
            final(self).pos == old(self).pos,
            final(self).bc == old(self).bc,
    {
        self.emit_reg3("TestLeFloat", dest, lhs, rhs);
    }

    /// Writes the line of `TestEqDouble`.
    pub fn visit_test_eq_double(&mut self, dest: Register, lhs: Register, rhs: Register)
        ensures
            final(self).w@ == old(self).w@ + line_text(
                old(self).pos.0 as int,
                Bytecode::TestEqDouble(dest, lhs, rhs),
            ),
            final(self).pos == old(self).pos,
            final(self).bc == old(self).bc,
    {
        self.emit_reg3("TestEqDouble", dest, lhs, rhs);
    }

    /// Writes the line of `TestNeDouble`.
    pub fn visit_test_ne_double(&mut self, dest: Register, lhs: Register, rhs: Register)
        ensures
            final(self).w@ == old(self).w@ + line_text(
                old(self).pos.0 as int,
                Bytecode::TestNeDouble(dest, lhs, rhs),
            ),
            final(self).pos == old(self).pos,
            final(self).bc == old(self).bc,
    {
        self.emit_reg3("TestNeDouble", dest, lhs, rhs);
    }

    /// Writes the line of `TestGtDouble`.
    pub fn visit_test_gt_double(&mut self, dest: Register, lhs: Register, rhs: Register)
        ensures
            final(self).w@ == old(self).w@ + line_text(
                old(self).pos.0 as int,
                Bytecode::TestGtDouble(dest, lhs, rhs),
            ),
            final(self).pos == old(self).pos,
            final(self).bc == old(self).bc,
    {
        self.emit_reg3("TestGtDouble", dest, lhs, rhs);
    }

    /// Writes the line of `TestGeDouble`.
    pub fn visit_test_ge_double(&mut self, dest: Register, lhs: Register, rhs: Register)
        ensures
            final(self).w@ == old(self).w@ + line_text(
                old(self).pos.0 as int,
                Bytecode::TestGeDouble(dest, lhs, rhs),
            ),
            final(self).pos == old(self).pos,
            final(self).bc == old(self).bc,
    {
        self.emit_reg3("TestGeDouble", dest, lhs, rhs);
    }

    /// Writes the line of `TestLtDouble`.
    pub fn visit_test_lt_double(&mut self, dest: Register, lhs: Register, rhs: Register)
        ensures
            final(self).w@ == old(self).w@ + line_text(
                old(self).pos.0 as int,
                Bytecode::TestLtDouble(dest, lhs, rhs),
            ),
            final(self).pos == old(self).pos,
            final(self).bc == old(self).bc,
    {
        self.emit_reg3("TestLtDouble", dest, lhs, rhs);
    }

    /// Writes the line of `TestLeDouble`.
    pub fn visit_test_le_double(&mut self, dest: Register, lhs: Register, rhs: Register)
        ensures
            final(self).w@ == old(self).w@ + line_text(
                old(self).pos.0 as int,
                Bytecode::TestLeDouble(dest, lhs, rhs),
            ),
            final(self).pos == old(self).pos,
            final(self).bc == old(self).bc,
    {
        self.emit_reg3("TestLeDouble", dest, lhs, rhs);
    }

    /// Writes the line of `Assert`.
    pub fn visit_assert(&mut self, value: Register)
        ensures
            final(self).w@ == old(self).w@ + line_text(
                old(self).pos.0 as int,
                Bytecode::Assert(value),
            ),
            final(self).pos == old(self).pos,
            final(self).bc == old(self).bc,
    {
        self.emit_reg1("Assert", value);
    }

    /// Writes the line of `JumpIfFalse`.
    pub fn visit_jump_if_false(&mut self, opnd: Register, offset: u32)
        ensures
            final(self).w@ == old(self).w@ + line_text(
                old(self).pos.0 as int,
                Bytecode::JumpIfFalse(opnd, offset),
            ),
            final(self).pos == old(self).pos,
            final(self).bc == old(self).bc,
    {
        self.emit_reg1_jump("JumpIfFalse", opnd, offset as i64);
    }

    /// Writes the line of `JumpIfFalseConst`.
    pub fn visit_jump_if_false_const(&mut self, opnd: Register, idx: ConstPoolIdx)
        ensures
            final(self).w@ == old(self).w@ + line_text(
                old(self).pos.0 as int,
                Bytecode::JumpIfFalseConst(opnd, idx),
            ),
            final(self).pos == old(self).pos,
            final(self).bc == old(self).bc,
    {
        self.emit_reg1_idx("JumpIfFalseConst", opnd, idx);
    }

    /// Writes the line of `JumpIfTrue`.
    pub fn visit_jump_if_true(&mut self, opnd: Register, offset: u32)
        ensures
            final(self).w@ == old(self).w@ + line_text(
                old(self).pos.0 as int,
                Bytecode::JumpIfTrue(opnd, offset),
            ),
            final(self).pos == old(self).pos,
            final(self).bc == old(self).bc,
    {
        self.emit_reg1_jump("JumpIfTrue", opnd, offset as i64);
    }

    /// Writes the line of `JumpIfTrueConst`.
    pub fn visit_jump_if_true_const(&mut self, opnd: Register, idx: ConstPoolIdx)
        ensures
            final(self).w@ == old(self).w@ + line_text(
                old(self).pos.0 as int,
                Bytecode::JumpIfTrueConst(opnd, idx),
            ),
            final(self).pos == old(self).pos,
            final(self).bc == old(self).bc,
    {
        self.emit_reg1_idx("JumpIfTrueConst", opnd, idx);
    }

    /// Writes the line of `JumpLoop`.
    pub fn visit_jump_loop(&mut self, offset: u32)
        ensures
            final(self).w@ == old(self).w@ + line_text(
                old(self).pos.0 as int,
                Bytecode::JumpLoop(offset),
            ),
            final(self).pos == old(self).pos,
            final(self).bc == old(self).bc,
    {
        self.emit_jump("JumpLoop", -(offset as i64));
    }

    /// Writes the line of `Jump`.
    pub fn visit_jump(&mut self, offset: u32)
        ensures
            final(self).w@ == old(self).w@ + line_text(
                old(self).pos.0 as int,
                Bytecode::Jump(offset),
            ),
            final(self).pos == old(self).pos,
            final(self).bc == old(self).bc,
    {
        self.emit_jump("Jump", offset as i64);
    }

    /// Writes the line of `JumpConst`.
    pub fn visit_jump_const(&mut self, idx: ConstPoolIdx)
        ensures
            final(self).w@ == old(self).w@ + line_text(
                old(self).pos.0 as int,
                Bytecode::JumpConst(idx),
            ),
            final(self).pos == old(self).pos,
            final(self).bc == old(self).bc,
    {
        self.emit_idx("JumpConst", idx);
    }

    /// Writes the line of `InvokeDirectVoid`.
    pub fn visit_invoke_direct_void(&mut self, fctdef: FctDefId, count: u32)
        ensures
            final(self).w@ == old(self).w@ + line_text(
                old(self).pos.0 as int,
                Bytecode::InvokeDirectVoid(fctdef, count),
            ),
            final(self).pos == old(self).pos,
            final(self).bc == old(self).bc,
    {
        self.emit_fct_void("InvokeDirectVoid", fctdef, count);
    }

    /// Writes the line of `InvokeDirectBool`.
    pub fn visit_invoke_direct_bool(&mut self, dest: Register, fctdef: FctDefId, count: u32)
        ensures
            final(self).w@ == old(self).w@ + line_text(
                old(self).pos.0 as int,
                Bytecode::InvokeDirectBool(dest, fctdef, count),
            ),
            final(self).pos == old(self).pos,
            final(self).bc == old(self).bc,
    {
        self.emit_fct("InvokeDirectBool", dest, fctdef, count);
    }

    /// Writes the line of `InvokeDirectByte`.
    pub fn visit_invoke_direct_byte(&mut self, dest: Register, fctdef: FctDefId, count: u32)
        ensures
            final(self).w@ == old(self).w@ + line_text(
                old(self).pos.0 as int,
                Bytecode::InvokeDirectByte(dest, fctdef, count),
            ),
            final(self).pos == old(self).pos,
            final(self).bc == old(self).bc,
    {
        self.emit_fct("InvokeDirectByte", dest, fctdef, count);
    }

    /// Writes the line of `InvokeDirectChar`.
    pub fn visit_invoke_direct_char(&mut self, dest: Register, fctdef: FctDefId, count: u32)
        ensures
            final(self).w@ == old(self).w@ + line_text(
                old(self).pos.0 as int,
                Bytecode::InvokeDirectChar(dest, fctdef, count),
            ),
            final(self).pos == old(self).pos,
            final(self).bc == old(self).bc,
    {
        self.emit_fct("InvokeDirectChar", dest, fctdef, count);
    }

    /// Writes the line of `InvokeDirectInt`.
    pub fn visit_invoke_direct_int(&mut self, dest: Register, fctdef: FctDefId, count: u32)
        ensures
            final(self).w@ == old(self).w@ + line_text(
                old(self).pos.0 as int,
                Bytecode::InvokeDirectInt(dest, fctdef, count),
            ),
            final(self).pos == old(self).pos,
            final(self).bc == old(self).bc,
    {
        self.emit_fct("InvokeDirectInt", dest, fctdef, count);
    }

    /// Writes the line of `InvokeDirectInt64`.
    pub fn visit_invoke_direct_int64(&mut self, dest: Register, fctdef: FctDefId, count: u32)
        ensures
            final(self).w@ == old(self).w@ + line_text(
                old(self).pos.0 as int,
                Bytecode::InvokeDirectInt64(dest, fctdef, count),
            ),
            final(self).pos == old(self).pos,
            final(self).bc == old(self).bc,
    {
        self.emit_fct("InvokeDirectInt64", dest, fctdef, count);
    }

    /// Writes the line of `InvokeDirectFloat`.
    pub fn visit_invoke_direct_float(&mut self, dest: Register, fctdef: FctDefId, count: u32)
        ensures
            final(self).w@ == old(self).w@ + line_text(
                old(self).pos.0 as int,
                Bytecode::InvokeDirectFloat(dest, fctdef, count),
            ),
            final(self).pos == old(self).pos,
            final(self).bc == old(self).bc,
    {
        self.emit_fct("InvokeDirectFloat", dest, fctdef, count);
    }

    /// Writes the line of `InvokeDirectDouble`.
    pub fn visit_invoke_direct_double(&mut self, dest: Register, fctdef: FctDefId, count: u32)
        ensures
            final(self).w@ == old(self).w@ + line_text(
                old(self).pos.0 as int,
                Bytecode::InvokeDirectDouble(dest, fctdef, count),
            ),
            final(self).pos == old(self).pos,
            final(self).bc == old(self).bc,
    {
        self.emit_fct("InvokeDirectDouble", dest, fctdef, count);
    }

    /// Writes the line of `InvokeDirectPtr`.
    pub fn visit_invoke_direct_ptr(&mut self, dest: Register, fctdef: FctDefId, count: u32)
        ensures
            final(self).w@ == old(self).w@ + line_text(
                old(self).pos.0 as int,
                Bytecode::InvokeDirectPtr(dest, fctdef, count),
            ),
            final(self).pos == old(self).pos,
            final(self).bc == old(self).bc,
    {
        self.emit_fct("InvokeDirectPtr", dest, fctdef, count);
    }

    /// Writes the line of `InvokeVirtualVoid`.
    pub fn visit_invoke_virtual_void(&mut self, fctdef: FctDefId, count: u32)
        ensures
            final(self).w@ == old(self).w@ + line_text(
                old(self).pos.0 as int,
                Bytecode::InvokeVirtualVoid(fctdef, count),
            ),
            final(self).pos == old(self).pos,
            final(self).bc == old(self).bc,
    {
        self.emit_fct_void("InvokeVirtualVoid", fctdef, count);
    }

    /// Writes the line of `InvokeVirtualBool`.
    pub fn visit_invoke_virtual_bool(&mut self, dest: Register, fctdef: FctDefId, count: u32)
        ensures
            final(self).w@ == old(self).w@ + line_text(
                old(self).pos.0 as int,
                Bytecode::InvokeVirtualBool(dest, fctdef, count),
            ),
            final(self).pos == old(self).pos,
            final(self).bc == old(self).bc,
    {
        self.emit_fct("InvokeVirtualBool", dest, fctdef, count);
    }

    /// Writes the line of `InvokeVirtualByte`.
    pub fn visit_invoke_virtual_byte(&mut self, dest: Register, fctdef: FctDefId, count: u32)
        ensures
            final(self).w@ == old(self).w@ + line_text(
                old(self).pos.0 as int,
                Bytecode::InvokeVirtualByte(dest, fctdef, count),
            ),
            final(self).pos == old(self).pos,
            final(self).bc == old(self).bc,
    {
        self.emit_fct("InvokeVirtualByte", dest, fctdef, count);
    }

    /// Writes the line of `InvokeVirtualChar`.
    pub fn visit_invoke_virtual_char(&mut self, dest: Register, fctdef: FctDefId, count: u32)
        ensures
            final(self).w@ == old(self).w@ + line_text(
                old(self).pos.0 as int,
                Bytecode::InvokeVirtualChar(dest, fctdef, count),
            ),
            final(self).pos == old(self).pos,
            final(self).bc == old(self).bc,
    {
        self.emit_fct("InvokeVirtualChar", dest, fctdef, count);
    }

    /// Writes the line of `InvokeVirtualInt`.
    pub fn visit_invoke_virtual_int(&mut self, dest: Register, fctdef: FctDefId, count: u32)
        ensures
            final(self).w@ == old(self).w@ + line_text(
                old(self).pos.0 as int,
                Bytecode::InvokeVirtualInt(dest, fctdef, count),
            ),
            final(self).pos == old(self).pos,
            final(self).bc == old(self).bc,
    {
        self.emit_fct("InvokeVirtualInt", dest, fctdef, count);
    }

    /// Writes the line of `InvokeVirtualInt64`.
    pub fn visit_invoke_virtual_int64(&mut self, dest: Register, fctdef: FctDefId, count: u32)
        ensures
            final(self).w@ == old(self).w@ + line_text(
                old(self).pos.0 as int,
                Bytecode::InvokeVirtualInt64(dest, fctdef, count),
            ),
            final(self).pos == old(self).pos,
            final(self).bc == old(self).bc,
    {
        self.emit_fct("InvokeVirtualInt64", dest, fctdef, count);
    }

    /// Writes the line of `InvokeVirtualFloat`.
    pub fn visit_invoke_virtual_float(&mut self, dest: Register, fctdef: FctDefId, count: u32)
        ensures
            final(self).w@ == old(self).w@ + line_text(
                old(self).pos.0 as int,
                Bytecode::InvokeVirtualFloat(dest, fctdef, count),
            ),
            final(self).pos == old(self).pos,
            final(self).bc == old(self).bc,
    {
        self.emit_fct("InvokeVirtualFloat", dest, fctdef, count);
    }

    /// Writes the line of `InvokeVirtualDouble`.
    pub fn visit_invoke_virtual_double(&mut self, dest: Register, fctdef: FctDefId, count: u32)
        ensures
            final(self).w@ == old(self).w@ + line_text(
                old(self).pos.0 as int,
                Bytecode::InvokeVirtualDouble(dest, fctdef, count),
            ),
            final(self).pos == old(self).pos,
            final(self).bc == old(self).bc,
    {
        self.emit_fct("InvokeVirtualDouble", dest, fctdef, count);
    }

    /// Writes the line of `InvokeVirtualPtr`.
    pub fn visit_invoke_virtual_ptr(&mut self, dest: Register, fctdef: FctDefId, count: u32)
        ensures
            final(self).w@ == old(self).w@ + line_text(
                old(self).pos.0 as int,
                Bytecode::InvokeVirtualPtr(dest, fctdef, count),
            ),
            final(self).pos == old(self).pos,
            final(self).bc == old(self).bc,
    {
        self.emit_fct("InvokeVirtualPtr", dest, fctdef, count);
    }

    /// Writes the line of `InvokeStaticVoid`.
    pub fn visit_invoke_static_void(&mut self, fctdef: FctDefId, count: u32)
        ensures
            final(self).w@ == old(self).w@ + line_text(
                old(self).pos.0 as int,
                Bytecode::InvokeStaticVoid(fctdef, count),
            ),
            final(self).pos == old(self).pos,
            final(self).bc == old(self).bc,
    {
        self.emit_fct_void("InvokeStaticVoid", fctdef, count);
    }

    /// Writes the line of `InvokeStaticBool`.
    pub fn visit_invoke_static_bool(&mut self, dest: Register, fctdef: FctDefId, count: u32)
        ensures
            final(self).w@ == old(self).w@ + line_text(
                old(self).pos.0 as int,
                Bytecode::InvokeStaticBool(dest, fctdef, count),
            ),
            final(self).pos == old(self).pos,
            final(self).bc == old(self).bc,
    {
        self.emit_fct("InvokeStaticBool", dest, fctdef, count);
    }

    /// Writes the line of `InvokeStaticByte`.
    pub fn visit_invoke_static_byte(&mut self, dest: Register, fctdef: FctDefId, count: u32)
        ensures
            final(self).w@ == old(self).w@ + line_text(
                old(self).pos.0 as int,
                Bytecode::InvokeStaticByte(dest, fctdef, count),
            ),
            final(self).pos == old(self).pos,
            final(self).bc == old(self).bc,
    {
        self.emit_fct("InvokeStaticByte", dest, fctdef, count);
    }

    /// Writes the line of `InvokeStaticChar`.
    pub fn visit_invoke_static_char(&mut self, dest: Register, fctdef: FctDefId, count: u32)
        ensures
            final(self).w@ == old(self).w@ + line_text(
                old(self).pos.0 as int,
                Bytecode::InvokeStaticChar(dest, fctdef, count),
            ),
            final(self).pos == old(self).pos,
            final(self).bc == old(self).bc,
    {
        self.emit_fct("InvokeStaticChar", dest, fctdef, count);
    }

    /// Writes the line of `InvokeStaticInt`.
    pub fn visit_invoke_static_int(&mut self, dest: Register, fctdef: FctDefId, count: u32)
        ensures
            final(self).w@ == old(self).w@ + line_text(
                old(self).pos.0 as int,
                Bytecode::InvokeStaticInt(dest, fctdef, count),
            ),
            final(self).pos == old(self).pos,
            final(self).bc == old(self).bc,
    {
        self.emit_fct("InvokeStaticInt", dest, fctdef, count);
    }

    /// Writes the line of `InvokeStaticInt64`.
    pub fn visit_invoke_static_int64(&mut self, dest: Register, fctdef: FctDefId, count: u32)
        ensures
            final(self).w@ == old(self).w@ + line_text(
                old(self).pos.0 as int,
                Bytecode::InvokeStaticInt64(dest, fctdef, count),
            ),
            final(self).pos == old(self).pos,
            final(self).bc == old(self).bc,
    {
        self.emit_fct("InvokeStaticInt64", dest, fctdef, count);
    }

    /// Writes the line of `InvokeStaticFloat`.
    pub fn visit_invoke_static_float(&mut self, dest: Register, fctdef: FctDefId, count: u32)
        ensures
            final(self).w@ == old(self).w@ + line_text(
                old(self).pos.0 as int,
                Bytecode::InvokeStaticFloat(dest, fctdef, count),
            ),
            final(self).pos == old(self).pos,
            final(self).bc == old(self).bc,
    {
        self.emit_fct("InvokeStaticFloat", dest, fctdef, count);
    }

    /// Writes the line of `InvokeStaticDouble`.
    pub fn visit_invoke_static_double(&mut self, dest: Register, fctdef: FctDefId, count: u32)
        ensures
            final(self).w@ == old(self).w@ + line_text(
                old(self).pos.0 as int,
                Bytecode::InvokeStaticDouble(dest, fctdef, count),
            ),
            final(self).pos == old(self).pos,
            final(self).bc == old(self).bc,
    {
        self.emit_fct("InvokeStaticDouble", dest, fctdef, count);
    }

    /// Writes the line of `InvokeStaticPtr`.
    pub fn visit_invoke_static_ptr(&mut self, dest: Register, fctdef: FctDefId, count: u32)
        ensures
            final(self).w@ == old(self).w@ + line_text(
                old(self).pos.0 as int,
                Bytecode::InvokeStaticPtr(dest, fctdef, count),
            ),
            final(self).pos == old(self).pos,
            final(self).bc == old(self).bc,
    {
        self.emit_fct("InvokeStaticPtr", dest, fctdef, count);
    }

    /// Writes the line of `NewObject`.
    pub fn visit_new_object(&mut self, dest: Register, cls: ClassDefId)
        ensures
            final(self).w@ == old(self).w@ + line_text(
                old(self).pos.0 as int,
                Bytecode::NewObject(dest, cls),
            ),
            final(self).pos == old(self).pos,
            final(self).bc == old(self).bc,
    {
        self.emit_new("NewObject", dest, cls);
    }

    /// Writes the line of `NewArray`.
    pub fn visit_new_array(&mut self, dest: Register, cls: ClassDefId, length: Register)
        ensures
            final(self).w@ == old(self).w@ + line_text(
                old(self).pos.0 as int,
                Bytecode::NewArray(dest, cls, length),
            ),
            final(self).pos == old(self).pos,
            final(self).bc == old(self).bc,
    {
        self.emit_new_array("NewArray", dest, cls, length);
    }

    /// Writes the line of `NilCheck`.
    pub fn visit_nil_check(&mut self, obj: Register)
        ensures
            final(self).w@ == old(self).w@ + line_text(
                old(self).pos.0 as int,
                Bytecode::NilCheck(obj),
            ),
            final(self).pos == old(self).pos,
            final(self).bc == old(self).bc,
    {
        self.emit_reg1("NilCheck", obj);
    }

    /// Writes the line of `LoadArrayBool`.
    pub fn visit_load_array_bool(&mut self, dest: Register, arr: Register, idx: Register)
        ensures
            final(self).w@ == old(self).w@ + line_text(
                old(self).pos.0 as int,
                Bytecode::LoadArrayBool(dest, arr, idx),
            ),
            final(self).pos == old(self).pos,
            final(self).bc == old(self).bc,
    {
        self.emit_reg3("LoadArrayBool", dest, arr, idx);
    }

    /// Writes the line of `LoadArrayByte`.
    pub fn visit_load_array_byte(&mut self, dest: Register, arr: Register, idx: Register)
        ensures
            final(self).w@ == old(self).w@ + line_text(
                old(self).pos.0 as int,
                Bytecode::LoadArrayByte(dest, arr, idx),
            ),
            final(self).pos == old(self).pos,
            final(self).bc == old(self).bc,
    {
        self.emit_reg3("LoadArrayByte", dest, arr, idx);
    }

    /// Writes the line of `LoadArrayChar`.
    pub fn visit_load_array_char(&mut self, dest: Register, arr: Register, idx: Register)
        ensures
            final(self).w@ == old(self).w@ + line_text(
                old(self).pos.0 as int,
                Bytecode::LoadArrayChar(dest, arr, idx),
            ),
            final(self).pos == old(self).pos,
            final(self).bc == old(self).bc,
    {
        self.emit_reg3("LoadArrayChar", dest, arr, idx);
    }

    /// Writes the line of `LoadArrayInt`.
    pub fn visit_load_array_int(&mut self, dest: Register, arr: Register, idx: Register)
        ensures
            final(self).w@ == old(self).w@ + line_text(
                old(self).pos.0 as int,
                Bytecode::LoadArrayInt(dest, arr, idx),
            ),
            final(self).pos == old(self).pos,
            final(self).bc == old(self).bc,
    {
        self.emit_reg3("LoadArrayInt", dest, arr, idx);
    }

    /// Writes the line of `LoadArrayInt64`.
    pub fn visit_load_array_int64(&mut self, dest: Register, arr: Register, idx: Register)
        ensures
            final(self).w@ == old(self).w@ + line_text(
                old(self).pos.0 as int,
                Bytecode::LoadArrayInt64(dest, arr, idx),
            ),
            final(self).pos == old(self).pos,
            final(self).bc == old(self).bc,
    {
        self.emit_reg3("LoadArrayInt64", dest, arr, idx);
    }

    /// Writes the line of `LoadArrayFloat`.
    pub fn visit_load_array_float(&mut self, dest: Register, arr: Register, idx: Register)
        ensures
            final(self).w@ == old(self).w@ + line_text(
                old(self).pos.0 as int,
                Bytecode::LoadArrayFloat(dest, arr, idx),
            ),
            final(self).pos == old(self).pos,
            final(self).bc == old(self).bc,
    {
        self.emit_reg3("LoadArrayFloat", dest, arr, idx);
    }

    /// Writes the line of `LoadArrayDouble`.
    pub fn visit_load_array_double(&mut self, dest: Register, arr: Register, idx: Register)
        ensures
            final(self).w@ == old(self).w@ + line_text(
                old(self).pos.0 as int,
                Bytecode::LoadArrayDouble(dest, arr, idx),
            ),
            final(self).pos == old(self).pos,
            final(self).bc == old(self).bc,
    {
        self.emit_reg3("LoadArrayDouble", dest, arr, idx);
    }

    /// Writes the line of `LoadArrayPtr`.
    pub fn visit_load_array_ptr(&mut self, dest: Register, arr: Register, idx: Register)
        ensures
            final(self).w@ == old(self).w@ + line_text(
                old(self).pos.0 as int,
                Bytecode::LoadArrayPtr(dest, arr, idx),
            ),
            final(self).pos == old(self).pos,
            final(self).bc == old(self).bc,
    {
        self.emit_reg3("LoadArrayPtr", dest, arr, idx);
    }

    /// Writes the line of `StoreArrayBool`.
    pub fn visit_store_array_bool(&mut self, src: Register, arr: Register, idx: Register)
        ensures
            final(self).w@ == old(self).w@ + line_text(
                old(self).pos.0 as int,
                Bytecode::StoreArrayBool(src, arr, idx),
            ),
            final(self).pos == old(self).pos,
            final(self).bc == old(self).bc,
    {
        self.emit_reg3("StoreArrayBool", src, arr, idx);
    }

    /// Writes the line of `StoreArrayByte`.
    pub fn visit_store_array_byte(&mut self, src: Register, arr: Register, idx: Register)
        ensures
            final(self).w@ == old(self).w@ + line_text(
                old(self).pos.0 as int,
                Bytecode::StoreArrayByte(src, arr, idx),
            ),
            final(self).pos == old(self).pos,
            final(self).bc == old(self).bc,
    {
        self.emit_reg3("StoreArrayByte", src, arr, idx);
    }

    /// Writes the line of `StoreArrayChar`.
    pub fn visit_store_array_char(&mut self, src: Register, arr: Register, idx: Register)
        ensures
            final(self).w@ == old(self).w@ + line_text(
                old(self).pos.0 as int,
                Bytecode::StoreArrayChar(src, arr, idx),
            ),
            final(self).pos == old(self).pos,
            final(self).bc == old(self).bc,
    {
        self.emit_reg3("StoreArrayChar", src, arr, idx);
    }

    /// Writes the line of `StoreArrayInt`.
    pub fn visit_store_array_int(&mut self, src: Register, arr: Register, idx: Register)
        ensures
            final(self).w@ == old(self).w@ + line_text(
                old(self).pos.0 as int,
                Bytecode::StoreArrayInt(src, arr, idx),
            ),
            final(self).pos == old(self).pos,
            final(self).bc == old(self).bc,
    {
        self.emit_reg3("StoreArrayInt", src, arr, idx);
    }

    /// Writes the line of `StoreArrayInt64`.
    pub fn visit_store_array_int64(&mut self, src: Register, arr: Register, idx: Register)
        ensures
            final(self).w@ == old(self).w@ + line_text(
                old(self).pos.0 as int,
                Bytecode::StoreArrayInt64(src, arr, idx),
            ),
            final(self).pos == old(self).pos,
            final(self).bc == old(self).bc,
    {
        self.emit_reg3("StoreArrayInt64", src, arr, idx);
    }

    /// Writes the line of `StoreArrayFloat`.
    pub fn visit_store_array_float(&mut self, src: Register, arr: Register, idx: Register)
        ensures
            final(self).w@ == old(self).w@ + line_text(
                old(self).pos.0 as int,
                Bytecode::StoreArrayFloat(src, arr, idx),
            ),
            final(self).pos == old(self).pos,
            final(self).bc == old(self).bc,
    {
        self.emit_reg3("StoreArrayFloat", src, arr, idx);
    }

    /// Writes the line of `StoreArrayDouble`.
    pub fn visit_store_array_double(&mut self, src: Register, arr: Register, idx: Register)
        ensures
            final(self).w@ == old(self).w@ + line_text(
                old(self).pos.0 as int,
                Bytecode::StoreArrayDouble(src, arr, idx),
            ),
            final(self).pos == old(self).pos,
            final(self).bc == old(self).bc,
    {
        self.emit_reg3("StoreArrayDouble", src, arr, idx);
    }

    /// Writes the line of `StoreArrayPtr`.
    pub fn visit_store_array_ptr(&mut self, src: Register, arr: Register, idx: Register)
        ensures
            final(self).w@ == old(self).w@ + line_text(
                old(self).pos.0 as int,
                Bytecode::StoreArrayPtr(src, arr, idx),
            ),
            final(self).pos == old(self).pos,
            final(self).bc == old(self).bc,
    {
        self.emit_reg3("StoreArrayPtr", src, arr, idx);
    }

    /// Writes the line of `ArrayLength`.
    pub fn visit_array_length(&mut self, dest: Register, arr: Register)
        ensures
            final(self).w@ == old(self).w@ + line_text(
                old(self).pos.0 as int,
                Bytecode::ArrayLength(dest, arr),
            ),
            final(self).pos == old(self).pos,
            final(self).bc == old(self).bc,
    {
        self.emit_reg2("ArrayLength", dest, arr);
    }

    /// Writes the line of `ArrayBoundCheck`.
    pub fn visit_array_bound_check(&mut self, arr: Register, idx: Register)
        ensures
            final(self).w@ == old(self).w@ + line_text(
                old(self).pos.0 as int,
                Bytecode::ArrayBoundCheck(arr, idx),
            ),
            final(self).pos == old(self).pos,
            final(self).bc == old(self).bc,
    {
        self.emit_reg2("ArrayBoundCheck", arr, idx);
    }

    /// Writes the line of `RetVoid`.
    pub fn visit_ret_void(&mut self)
        ensures
            final(self).w@ == old(self).w@ + line_text(old(self).pos.0 as int, Bytecode::RetVoid),
            final(self).pos == old(self).pos,
            final(self).bc == old(self).bc,
    {
        self.emit_inst("RetVoid");
    }

    /// Writes the line of `RetBool`.
    pub fn visit_ret_bool(&mut self, opnd: Register)
        ensures
            final(self).w@ == old(self).w@ + line_text(
                old(self).pos.0 as int,
                Bytecode::RetBool(opnd),
            ),
            final(self).pos == old(self).pos,
            final(self).bc == old(self).bc,
    {
        self.emit_reg1("RetBool", opnd);
    }

    /// Writes the line of `RetByte`.
    pub fn visit_ret_byte(&mut self, opnd: Register)
        ensures
            final(self).w@ == old(self).w@ + line_text(
                old(self).pos.0 as int,
                Bytecode::RetByte(opnd),
            ),
            final(self).pos == old(self).pos,
            final(self).bc == old(self).bc,
    {
        self.emit_reg1("RetByte", opnd);
    }

    /// Writes the line of `RetChar`.
    pub fn visit_ret_char(&mut self, opnd: Register)
        ensures
            final(self).w@ == old(self).w@ + line_text(
                old(self).pos.0 as int,
                Bytecode::RetChar(opnd),
            ),
            final(self).pos == old(self).pos,
            final(self).bc == old(self).bc,
    {
        self.emit_reg1("RetChar", opnd);
    }

    /// Writes the line of `RetInt`.
    pub fn visit_ret_int(&mut self, opnd: Register)
        ensures
            final(self).w@ == old(self).w@ + line_text(
                old(self).pos.0 as int,
                Bytecode::RetInt(opnd),
            ),
            final(self).pos == old(self).pos,
            final(self).bc == old(self).bc,
    {
        self.emit_reg1("RetInt", opnd);
    }

    /// Writes the line of `RetInt64`.
    pub fn visit_ret_int64(&mut self, opnd: Register)
        ensures
            final(self).w@ == old(self).w@ + line_text(
                old(self).pos.0 as int,
                Bytecode::RetInt64(opnd),
            ),
            final(self).pos == old(self).pos,
            final(self).bc == old(self).bc,
    {
        self.emit_reg1("RetInt64", opnd);
    }

    /// Writes the line of `RetFloat`.
    pub fn visit_ret_float(&mut self, opnd: Register)
        ensures
            final(self).w@ == old(self).w@ + line_text(
                old(self).pos.0 as int,
                Bytecode::RetFloat(opnd),
            ),
            final(self).pos == old(self).pos,
            final(self).bc == old(self).bc,
    {
        self.emit_reg1("RetFloat", opnd);
    }

    /// Writes the line of `RetDouble`.
    pub fn visit_ret_double(&mut self, opnd: Register)
        ensures
            final(self).w@ == old(self).w@ + line_text(
                old(self).pos.0 as int,
                Bytecode::RetDouble(opnd),
            ),
            final(self).pos == old(self).pos,
            final(self).bc == old(self).bc,
    {
        self.emit_reg1("RetDouble", opnd);
    }

    /// Writes the line of `RetPtr`.
    pub fn visit_ret_ptr(&mut self, opnd: Register)
        ensures
            final(self).w@ == old(self).w@ + line_text(
                old(self).pos.0 as int,
                Bytecode::RetPtr(opnd),
            ),
            final(self).pos == old(self).pos,
            final(self).bc == old(self).bc,
    {
        self.emit_reg1("RetPtr", opnd);
    }
}

/// The lines of the first `m` instructions stand at the start of the lines
/// of the first `k`, where `k` is not less than `m`.
pub proof fn lemma_code_text_prefix(code: Seq<Bytecode>, m: nat, k: nat)
    requires
        m <= k,
    ensures
        code_text(code, m).len() <= code_text(code, k).len(),
        code_text(code, k).take(code_text(code, m).len() as int) == code_text(code, m),
    decreases k - m,
{
    if m < k {
        lemma_code_text_prefix(code, m, (k - 1) as nat);
        let shorter = code_text(code, (k - 1) as nat);
        let line = line_text(k - 1, code[k - 1]);
        assert((shorter + line).take(code_text(code, m).len() as int) =~= shorter.take(
            code_text(code, m).len() as int,
        ));
    } else {
        assert(code_text(code, k).take(code_text(code, k).len() as int) =~= code_text(code, k));
    }
}

/// Dump fidelity: the line of the instruction number `n` stands in the
/// trace behind the lines of the instructions before it, and begins with
/// the number `n` itself, right-aligned in three columns, and the name of
/// the instruction.
pub proof fn lemma_trace_line(bc: &BytecodeFunction, n: nat)
    requires
        n < bc.code@.len(),
    ensures
        code_text(bc.code@, n).len() + line_text(n as int, bc.code@[n as int]).len()
            <= trace_text(bc).len(),
        trace_text(bc).subrange(
            code_text(bc.code@, n).len() as int,
            (code_text(bc.code@, n).len() + line_text(n as int, bc.code@[n as int]).len()) as int,
        ) == line_text(n as int, bc.code@[n as int]),
        line_text(n as int, bc.code@[n as int]) == pad_left(decimal(n), 3) + seq![':', ' ']
            + bc.code@[n as int].mnemonic() + operands_text(n as int, bc.code@[n as int].layout())
            + seq!['\n'],
{
    let code = bc.code@;
    let before = code_text(code, n);
    let line = line_text(n as int, code[n as int]);
    let all = code_text(code, code.len());
    lemma_code_text_prefix(code, n + 1, code.len());
    assert(code_text(code, n + 1) == before + line);
    assert(all.take((before + line).len() as int) == before + line);
    assert(trace_text(bc).subrange(before.len() as int, (before.len() + line.len()) as int) =~= line) by {
        assert forall|i: int| 0 <= i < line.len() implies trace_text(bc)[before.len() + i]
            == line[i] by {
            assert(all.take((before + line).len() as int)[before.len() + i] == (before + line)[
                before.len() + i
            ]);
        }
    }
}

/// Dump fidelity: the line of a jump shows the position that the jump
/// leads to, which is the position of the jump plus its distance for a
/// jump forwards, with or without a condition, and minus its distance for
/// a jump back to the head of a loop, whatever the code of the function
/// looks like. A jump on a condition shows its register first.
pub proof fn lemma_jump_line(pos: nat, distance: u32)
    ensures
        line_text(pos as int, Bytecode::Jump(distance)) == start_text(pos as int, "Jump"@) + seq![
            ' ',
            '#',
        ] + decimal((pos + distance) as nat) + seq!['\n'],
        line_text(pos as int, Bytecode::JumpLoop(distance)) == start_text(
            pos as int,
            "JumpLoop"@,
        ) + seq![' ', '#'] + signed_decimal(pos - distance) + seq!['\n'],
        distance <= pos ==> signed_decimal(pos - distance) == decimal((pos - distance) as nat),
        forall|r: Register|
            #[trigger] line_text(pos as int, Bytecode::JumpIfFalse(r, distance)) == start_text(
                pos as int,
                "JumpIfFalse"@,
            ) + seq![' '] + reg_text(r) + seq![',', ' ', '#'] + decimal((pos + distance) as nat)
                + seq!['\n'],
        forall|r: Register|
            #[trigger] line_text(pos as int, Bytecode::JumpIfTrue(r, distance)) == start_text(
                pos as int,
                "JumpIfTrue"@,
            ) + seq![' '] + reg_text(r) + seq![',', ' ', '#'] + decimal((pos + distance) as nat)
                + seq!['\n'],
{
}

} // verus!
