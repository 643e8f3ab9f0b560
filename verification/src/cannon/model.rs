//! What the baseline code generator produces, as a function of its input.
//!
//! The generator walks the instructions once. Each instruction stands for
//! an [`Operation`]; an operation either has a [`defect`], with which the
//! function cannot be compiled, or an [`effect`] on the state of the
//! generator, which is described by a [`GenView`]. After the walk the jumps
//! that were put off are resolved. [`generated`] puts these together.
use vstd::prelude::*;

use crate::bytecode::{
    Bytecode, BytecodeFunction, BytecodeOffset, ConstPoolEntry, ConstPoolIdx, Register, MAX_CODE,
};
use crate::compiler::fct::JitDescriptor;
use crate::cpu::{
    freg_param, freg_result, freg_tmp1, reg_param, reg_result, reg_tmp1, CondCode, ExprStore, Mem,
    Trap, FREG_PARAMS_LEN, PARAM_OFFSET, PARAM_SLOT, REG_PARAMS_LEN,
};
use crate::masm::{
    assembled, AsmView, AssemblyView, Comment, DSegValue, FloatOp, IntOp, Label, MachineOp,
};

use crate::ty::{BytecodeType};
use crate::vm::{ClassDefId, Fct, FieldDef, FieldId, GlobalDef, GlobalId, VM};

verus! {

broadcast use crate::masm::group_masm_wf;

/// Why a function cannot be compiled. Each is a fault of the bytecode or of
/// the tables that come with it; none is a condition of the running
/// program.
#[derive(Clone, Copy, Debug, PartialEq, Eq, Structural)]
pub enum CodegenError {
    /// The parameter with this index has no register, or its register has
    /// another type.
    Parameter(usize),
    /// The instruction at this position names a register that is not
    /// declared.
    UnknownRegister(BytecodeOffset),
    /// The registers of the instruction at this position do not have the
    /// types that it asks for.
    TypeMismatch(BytecodeOffset),
    /// The instruction at this position names a class, field, global or
    /// constant that the tables do not hold, or a constant of another kind.
    UnknownEntity(BytecodeOffset),
    /// The instruction at this position is one that the generator does not
    /// implement.
    NotImplemented(BytecodeOffset),
    /// The jump at this position leads before the first instruction or
    /// beyond all positions.
    JumpOutOfRange(BytecodeOffset),
    /// A jump leads to this position, which holds no instruction.
    MissingJumpTarget(BytecodeOffset),
}

/// A jump whose target had not been generated when the jump was: the label
/// of the jump and the position that it leads to.
#[derive(Clone, Copy, Debug, PartialEq, Eq, Structural)]
pub struct ForwardJump {
    pub label: Label,
    pub bytecode_idx: BytecodeOffset,
}

/// The kinds of integer constants in the pool.
pub enum PoolKind {
    Char,
    Int,
    Int64,
}

/// What the generator does for an instruction.
pub enum Operation {
    /// An integer operation on two registers.
    IntBinary(IntOp, Register, Register, Register),
    /// A floating-point operation on two registers.
    FloatBinary(FloatOp, Register, Register, Register),
    /// The negation of an integer.
    IntNeg(Register, Register),
    /// The negation of a boolean.
    NotBool(Register, Register),
    /// A copy from register to register.
    Mov(Register, Register),
    /// A load of a field of an object.
    LoadField(Register, Register, ClassDefId, FieldId),
    /// A store to a field of an object.
    StoreField(Register, Register, ClassDefId, FieldId),
    /// A load of a global variable.
    LoadGlobal(Register, GlobalId),
    /// A store to a global variable.
    StoreGlobal(Register, GlobalId),
    /// A load of the null reference.
    ConstNil(Register),
    /// A load of a boolean.
    ConstBool(Register, bool),
    /// A load of an integer.
    ConstInt(Register, i64),
    /// A load of a floating-point number, given by its bits.
    ConstFloat(Register, u64),
    /// A load of a string constant.
    ConstString(Register, ConstPoolIdx),
    /// A comparison of integers or references.
    Test(Register, Register, Register, CondCode),
    /// A comparison of floating-point numbers.
    TestFloat(Register, Register, Register, CondCode),
    /// A jump to a position, taken where a boolean register holds the
    /// given value.
    JumpIf(Register, int, bool),
    /// A jump to a position.
    Jump(int),
    /// The return of the value of a register.
    Ret(Register),
    /// The return without a value.
    RetVoid,
    /// A constant that the pool does not hold, or holds as another kind.
    BadConstant,
    /// Nothing: the instruction is not implemented.
    Unimplemented,
}

/// The integer constant with the index `idx`, if the pool of `bc` holds
/// one of the kind `kind` there.
pub open spec fn pool_int(bc: &BytecodeFunction, idx: ConstPoolIdx, kind: PoolKind) -> Option<i64> {
    if idx.0 < bc.const_pool@.len() {
        match (bc.const_pool@[idx.0 as int], kind) {
            (ConstPoolEntry::Char(value), PoolKind::Char) => Some(value as i64),
            (ConstPoolEntry::Int(value), PoolKind::Int) => Some(value as i64),
            (ConstPoolEntry::Int64(value), PoolKind::Int64) => Some(value),
            _ => None,
        }
    } else {
        None
    }
}

/// The bits of the floating-point constant with the index `idx`, if the
/// pool of `bc` holds one of the given width there.
pub open spec fn pool_float(bc: &BytecodeFunction, idx: ConstPoolIdx, double: bool) -> Option<u64> {
    if idx.0 < bc.const_pool@.len() {
        match bc.const_pool@[idx.0 as int] {
            ConstPoolEntry::Float32(bits) => if double {
                None
            } else {
                Some(bits as u64)
            },
            ConstPoolEntry::Float64(bits) => if double {
                Some(bits)
            } else {
                None
            },
            _ => None,
        }
    } else {
        None
    }
}

/// Whether the pool of `bc` holds a string at the index `idx`.
pub open spec fn pool_string(bc: &BytecodeFunction, idx: ConstPoolIdx) -> bool {
    idx.0 < bc.const_pool@.len() && bc.const_pool@[idx.0 as int] is String
}

/// A load of an integer constant of the pool into `dest`.
pub open spec fn const_int_from_pool(
    bc: &BytecodeFunction,
    dest: Register,
    idx: ConstPoolIdx,
    kind: PoolKind,
) -> Operation {
    match pool_int(bc, idx, kind) {
        Some(value) => Operation::ConstInt(dest, value),
        None => Operation::BadConstant,
    }
}

/// A load of a floating-point constant of the pool into `dest`.
pub open spec fn const_float_from_pool(
    bc: &BytecodeFunction,
    dest: Register,
    idx: ConstPoolIdx,
    double: bool,
) -> Operation {
    match pool_float(bc, idx, double) {
        Some(bits) => Operation::ConstFloat(dest, bits),
        None => Operation::BadConstant,
    }
}

/// A jump whose distance is the integer constant `idx` of the pool: on the
/// value `on` of `src` where there is one, always otherwise.
pub open spec fn jump_from_pool(
    bc: &BytecodeFunction,
    pos: int,
    src: Option<(Register, bool)>,
    idx: ConstPoolIdx,
) -> Operation {
    match pool_int(bc, idx, PoolKind::Int) {
        Some(distance) => match src {
            Some((reg, on)) => Operation::JumpIf(reg, pos + distance, on),
            None => Operation::Jump(pos + distance),
        },
        None => Operation::BadConstant,
    }
}

/// What the generator does for the instruction `inst` at position `pos`.
///
/// The instructions of a family, which differ in the width of their
/// operands, stand for the same operation; the width is that of the
/// registers. A jump leads to its own position plus its distance, a loop
/// jump to its own position minus its distance.
pub open spec fn operation(bc: &BytecodeFunction, pos: int, inst: Bytecode) -> Operation {
    match inst {
        Bytecode::AddInt(d, l, r) | Bytecode::AddLong(d, l, r) => Operation::IntBinary(
            IntOp::Add,
            d,
            l,
            r,
        ),
        Bytecode::SubInt(d, l, r) | Bytecode::SubLong(d, l, r) => Operation::IntBinary(
            IntOp::Sub,
            d,
            l,
            r,
        ),
        Bytecode::MulInt(d, l, r) | Bytecode::MulLong(d, l, r) => Operation::IntBinary(
            IntOp::Mul,
            d,
            l,
            r,
        ),
        Bytecode::DivInt(d, l, r) | Bytecode::DivLong(d, l, r) => Operation::IntBinary(
            IntOp::Div,
            d,
            l,
            r,
        ),
        Bytecode::ModInt(d, l, r) | Bytecode::ModLong(d, l, r) => Operation::IntBinary(
            IntOp::Mod,
            d,
            l,
            r,
        ),
        Bytecode::AndInt(d, l, r) | Bytecode::AndLong(d, l, r) => Operation::IntBinary(
            IntOp::And,
            d,
            l,
            r,
        ),
        Bytecode::OrInt(d, l, r) | Bytecode::OrLong(d, l, r) => Operation::IntBinary(
            IntOp::Or,
            d,
            l,
            r,
        ),
        Bytecode::XorInt(d, l, r) | Bytecode::XorLong(d, l, r) => Operation::IntBinary(
            IntOp::Xor,
            d,
            l,
            r,
        ),
        Bytecode::ShlInt(d, l, r) | Bytecode::ShlLong(d, l, r) => Operation::IntBinary(
            IntOp::Shl,
            d,
            l,
            r,
        ),
        Bytecode::ShrInt(d, l, r) | Bytecode::ShrLong(d, l, r) => Operation::IntBinary(
            IntOp::Shr,
            d,
            l,
            r,
        ),
        Bytecode::SarInt(d, l, r) | Bytecode::SarLong(d, l, r) => Operation::IntBinary(
            IntOp::Sar,
            d,
            l,
            r,
        ),
        Bytecode::AddFloat(d, l, r) | Bytecode::AddDouble(d, l, r) => Operation::FloatBinary(
            FloatOp::Add,
            d,
            l,
            r,
        ),
        Bytecode::SubFloat(d, l, r) | Bytecode::SubDouble(d, l, r) => Operation::FloatBinary(
            FloatOp::Sub,
            d,
            l,
            r,
        ),
        Bytecode::MulFloat(d, l, r) | Bytecode::MulDouble(d, l, r) => Operation::FloatBinary(
            FloatOp::Mul,
            d,
            l,
            r,
        ),
        Bytecode::DivFloat(d, l, r) | Bytecode::DivDouble(d, l, r) => Operation::FloatBinary(
            FloatOp::Div,
            d,
            l,
            r,
        ),
        Bytecode::NegInt(d, s) | Bytecode::NegLong(d, s) => Operation::IntNeg(d, s),
        Bytecode::NotBool(d, s) => Operation::NotBool(d, s),
        Bytecode::MovBool(d, s)
        | Bytecode::MovByte(d, s)
        | Bytecode::MovChar(d, s)
        | Bytecode::MovInt(d, s)
        | Bytecode::MovInt64(d, s)
        | Bytecode::MovFloat(d, s)
        | Bytecode::MovDouble(d, s)
        | Bytecode::MovPtr(d, s) => Operation::Mov(d, s),
        Bytecode::LoadFieldBool(d, o, c, f)
        | Bytecode::LoadFieldUInt8(d, o, c, f)
        | Bytecode::LoadFieldChar(d, o, c, f)
        | Bytecode::LoadFieldInt(d, o, c, f)
        | Bytecode::LoadFieldInt64(d, o, c, f)
        | Bytecode::LoadFieldFloat(d, o, c, f)
        | Bytecode::LoadFieldDouble(d, o, c, f)
        | Bytecode::LoadFieldPtr(d, o, c, f) => Operation::LoadField(d, o, c, f),
        Bytecode::StoreFieldBool(s, o, c, f)
        | Bytecode::StoreFieldUInt8(s, o, c, f)
        | Bytecode::StoreFieldChar(s, o, c, f)
        | Bytecode::StoreFieldInt(s, o, c, f)
        | Bytecode::StoreFieldInt64(s, o, c, f)
        | Bytecode::StoreFieldFloat(s, o, c, f)
        | Bytecode::StoreFieldDouble(s, o, c, f)
        | Bytecode::StoreFieldPtr(s, o, c, f) => Operation::StoreField(s, o, c, f),
        Bytecode::LoadGlobalBool(d, g)
        | Bytecode::LoadGlobalByte(d, g)
        | Bytecode::LoadGlobalChar(d, g)
        | Bytecode::LoadGlobalInt(d, g)
        | Bytecode::LoadGlobalLong(d, g)
        | Bytecode::LoadGlobalFloat(d, g)
        | Bytecode::LoadGlobalDouble(d, g)
        | Bytecode::LoadGlobalPtr(d, g) => Operation::LoadGlobal(d, g),
        Bytecode::StoreGlobalBool(s, g)
        | Bytecode::StoreGlobalByte(s, g)
        | Bytecode::StoreGlobalChar(s, g)
        | Bytecode::StoreGlobalInt(s, g)
        | Bytecode::StoreGlobalLong(s, g)
        | Bytecode::StoreGlobalFloat(s, g)
        | Bytecode::StoreGlobalDouble(s, g)
        | Bytecode::StoreGlobalPtr(s, g) => Operation::StoreGlobal(s, g),
        Bytecode::ConstNil(d) => Operation::ConstNil(d),
        Bytecode::ConstTrue(d) => Operation::ConstBool(d, true),
        Bytecode::ConstFalse(d) => Operation::ConstBool(d, false),
        Bytecode::ConstZeroByte(d)
        | Bytecode::ConstZeroChar(d)
        | Bytecode::ConstZeroInt(d)
        | Bytecode::ConstZeroLong(d) => Operation::ConstInt(d, 0),
        Bytecode::ConstUInt8(d, value) => Operation::ConstInt(d, value as i64),
        Bytecode::ConstChar(d, idx) => const_int_from_pool(bc, d, idx, PoolKind::Char),
        Bytecode::ConstInt(d, idx) => const_int_from_pool(bc, d, idx, PoolKind::Int),
        Bytecode::ConstInt64(d, idx) => const_int_from_pool(bc, d, idx, PoolKind::Int64),
        Bytecode::ConstZeroFloat(d) | Bytecode::ConstZeroDouble(d) => Operation::ConstFloat(d, 0),
        Bytecode::ConstFloat(d, idx) => const_float_from_pool(bc, d, idx, false),
        Bytecode::ConstDouble(d, idx) => const_float_from_pool(bc, d, idx, true),
        Bytecode::ConstString(d, idx) => if pool_string(bc, idx) {
            Operation::ConstString(d, idx)
        } else {
            Operation::BadConstant
        },
        Bytecode::TestEqPtr(d, l, r)
        | Bytecode::TestEqBool(d, l, r)
        | Bytecode::TestEqByte(d, l, r)
        | Bytecode::TestEqChar(d, l, r)
        | Bytecode::TestEqEnum(d, l, r)
        | Bytecode::TestEqInt(d, l, r)
        | Bytecode::TestEqInt64(d, l, r) => Operation::Test(d, l, r, CondCode::Equal),
        Bytecode::TestNePtr(d, l, r)
        | Bytecode::TestNeBool(d, l, r)
        | Bytecode::TestNeByte(d, l, r)
        | Bytecode::TestNeChar(d, l, r)
        | Bytecode::TestNeEnum(d, l, r)
        | Bytecode::TestNeInt(d, l, r)
        | Bytecode::TestNeInt64(d, l, r) => Operation::Test(d, l, r, CondCode::NotEqual),
        Bytecode::TestGtByte(d, l, r)
        | Bytecode::TestGtChar(d, l, r)
        | Bytecode::TestGtInt(d, l, r)
        | Bytecode::TestGtInt64(d, l, r) => Operation::Test(d, l, r, CondCode::Greater),
        Bytecode::TestGeByte(d, l, r)
        | Bytecode::TestGeChar(d, l, r)
        | Bytecode::TestGeInt(d, l, r)
        | Bytecode::TestGeInt64(d, l, r) => Operation::Test(d, l, r, CondCode::GreaterEq),
        Bytecode::TestLtByte(d, l, r)
        | Bytecode::TestLtChar(d, l, r)
        | Bytecode::TestLtInt(d, l, r)
        | Bytecode::TestLtInt64(d, l, r) => Operation::Test(d, l, r, CondCode::Less),
        Bytecode::TestLeByte(d, l, r)
        | Bytecode::TestLeChar(d, l, r)
        | Bytecode::TestLeInt(d, l, r)
        | Bytecode::TestLeInt64(d, l, r) => Operation::Test(d, l, r, CondCode::LessEq),
        Bytecode::TestEqFloat(d, l, r) | Bytecode::TestEqDouble(d, l, r) => Operation::TestFloat(
            d,
            l,
            r,
            CondCode::Equal,
        ),
        Bytecode::TestNeFloat(d, l, r) | Bytecode::TestNeDouble(d, l, r) => Operation::TestFloat(
            d,
            l,
            r,
            CondCode::NotEqual,
        ),
        Bytecode::TestGtFloat(d, l, r) | Bytecode::TestGtDouble(d, l, r) => Operation::TestFloat(
            d,
            l,
            r,
            CondCode::Greater,
        ),
        Bytecode::TestGeFloat(d, l, r) | Bytecode::TestGeDouble(d, l, r) => Operation::TestFloat(
            d,
            l,
            r,
            CondCode::GreaterEq,
        ),
        Bytecode::TestLtFloat(d, l, r) | Bytecode::TestLtDouble(d, l, r) => Operation::TestFloat(
            d,
            l,
            r,
            CondCode::Less,
        ),
        Bytecode::TestLeFloat(d, l, r) | Bytecode::TestLeDouble(d, l, r) => Operation::TestFloat(
            d,
            l,
            r,
            CondCode::LessEq,
        ),
        Bytecode::JumpIfFalse(s, distance) => Operation::JumpIf(s, pos + distance, false),
        Bytecode::JumpIfTrue(s, distance) => Operation::JumpIf(s, pos + distance, true),
        Bytecode::JumpIfFalseConst(s, idx) => jump_from_pool(bc, pos, Some((s, false)), idx),
        Bytecode::JumpIfTrueConst(s, idx) => jump_from_pool(bc, pos, Some((s, true)), idx),
        Bytecode::Jump(distance) => Operation::Jump(pos + distance),
        Bytecode::JumpLoop(distance) => Operation::Jump(pos - distance),
        Bytecode::JumpConst(idx) => jump_from_pool(bc, pos, None, idx),
        Bytecode::RetBool(s)
        | Bytecode::RetByte(s)
        | Bytecode::RetChar(s)
        | Bytecode::RetInt(s)
        | Bytecode::RetInt64(s)
        | Bytecode::RetFloat(s)
        | Bytecode::RetDouble(s)
        | Bytecode::RetPtr(s) => Operation::Ret(s),
        Bytecode::RetVoid => Operation::RetVoid,
        _ => Operation::Unimplemented,
    }
}

/// The state of the generator: what the emitter holds, the address at
/// which the code of each position begins, and the jumps that wait for
/// their targets.
pub struct GenView {
    pub masm: AsmView,
    pub addresses: Map<u32, usize>,
    pub forward: Seq<ForwardJump>,
}

/// The type of the register `reg`.
pub open spec fn reg_type(bc: &BytecodeFunction, reg: Register) -> BytecodeType {
    bc.registers@[reg.0 as int]
}

/// The frame slot of the register `reg`.
pub open spec fn reg_slot(bc: &BytecodeFunction, reg: Register) -> Mem {
    Mem::Local(bc.offset@[reg.0 as int])
}

/// The scratch register for values of the type `ty`.
pub open spec fn result_store(ty: BytecodeType) -> ExprStore {
    if ty.mode().float() {
        ExprStore::FReg(freg_result())
    } else {
        ExprStore::Reg(reg_result())
    }
}

/// A load of the register `reg` from its frame slot into `dest`.
pub open spec fn load(bc: &BytecodeFunction, dest: ExprStore, reg: Register) -> MachineOp {
    MachineOp::LoadMem { mode: reg_type(bc, reg).mode(), dest, mem: reg_slot(bc, reg) }
}

/// A store of `src` to the frame slot of the register `reg`.
pub open spec fn store(bc: &BytecodeFunction, reg: Register, src: ExprStore) -> MachineOp {
    MachineOp::StoreMem { mode: reg_type(bc, reg).mode(), mem: reg_slot(bc, reg), src }
}

/// The frame slots of the first `n` registers that hold references.
pub open spec fn ptr_slots(bc: &BytecodeFunction, n: nat) -> Seq<i32>
    decreases n,
{
    if n == 0 {
        Seq::empty()
    } else if bc.registers@[n - 1] == BytecodeType::Ptr {
        ptr_slots(bc, (n - 1) as nat).push(bc.offset@[n - 1])
    } else {
        ptr_slots(bc, (n - 1) as nat)
    }
}

/// The epilog: its comments, the safepoint poll with the frame slots that
/// hold references, and the return.
pub open spec fn epilog(a: AsmView, vm: &VM, bc: &BytecodeFunction) -> AsmView {
    a.comment(Comment::Newline).comment(Comment::Lit("epilog")).safepoint(
        vm.polling_page,
        ptr_slots(bc, bc.registers@.len()),
    ).emit(MachineOp::Epilog)
}

/// Whether the class `cls` has the field `field`.
pub open spec fn has_field(vm: &VM, cls: ClassDefId, field: FieldId) -> bool {
    cls.0 < vm.class_defs@.len() && field.0 < vm.class_defs@[cls.0 as int].fields@.len()
}

/// The field `field` of the class `cls`.
pub open spec fn field_def(vm: &VM, cls: ClassDefId, field: FieldId) -> FieldDef {
    vm.class_defs@[cls.0 as int].fields@[field.0 as int]
}

/// Whether there is a global variable `gid`.
pub open spec fn has_global(vm: &VM, gid: GlobalId) -> bool {
    gid.0 < vm.globals@.len()
}

/// The global variable `gid`.
pub open spec fn global_def(vm: &VM, gid: GlobalId) -> GlobalDef {
    vm.globals@[gid.0 as int]
}

/// Whether `ty` is a type of integers.
pub open spec fn is_int_type(ty: BytecodeType) -> bool {
    ty == BytecodeType::Char || ty == BytecodeType::Byte || ty == BytecodeType::Int || ty
        == BytecodeType::Long
}

/// Whether `ty` is a type of floating-point numbers.
pub open spec fn is_float_type(ty: BytecodeType) -> bool {
    ty == BytecodeType::Float || ty == BytecodeType::Double
}

/// The defect of the operation `op` at position `pos`, if it has one.
///
/// An operand that is not declared comes first, then the types of the
/// operands, then the entities that the operation names. The operations on
/// two operands ask that both operands and the destination have one and
/// the same type.
pub open spec fn defect(
    vm: &VM,
    bc: &BytecodeFunction,
    pos: BytecodeOffset,
    op: Operation,
) -> Option<
    CodegenError,
> {
    match op {
        Operation::IntBinary(_, d, l, r) | Operation::FloatBinary(_, d, l, r) => if !(bc.declares(d)
            && bc.declares(l) && bc.declares(r)) {
            Some(CodegenError::UnknownRegister(pos))
        } else if reg_type(bc, l) != reg_type(bc, r) || reg_type(bc, l) != reg_type(bc, d) {
            Some(CodegenError::TypeMismatch(pos))
        } else {
            None
        },
        Operation::IntNeg(d, s) | Operation::NotBool(d, s) | Operation::Mov(d, s) => if !(
        bc.declares(d) && bc.declares(s)) {
            Some(CodegenError::UnknownRegister(pos))
        } else if reg_type(bc, s) != reg_type(bc, d) {
            Some(CodegenError::TypeMismatch(pos))
        } else {
            None
        },
        Operation::LoadField(v, o, c, f) | Operation::StoreField(v, o, c, f) => if !(bc.declares(v)
            && bc.declares(o)) {
            Some(CodegenError::UnknownRegister(pos))
        } else if reg_type(bc, o) != BytecodeType::Ptr {
            Some(CodegenError::TypeMismatch(pos))
        } else if !has_field(vm, c, f) {
            Some(CodegenError::UnknownEntity(pos))
        } else if reg_type(bc, v) != field_def(vm, c, f).ty {
            Some(CodegenError::TypeMismatch(pos))
        } else {
            None
        },
        Operation::LoadGlobal(v, g) | Operation::StoreGlobal(v, g) => if !bc.declares(v) {
            Some(CodegenError::UnknownRegister(pos))
        } else if !has_global(vm, g) {
            Some(CodegenError::UnknownEntity(pos))
        } else if reg_type(bc, v) != global_def(vm, g).ty {
            Some(CodegenError::TypeMismatch(pos))
        } else {
            None
        },
        Operation::ConstNil(d) | Operation::ConstString(d, _) => if !bc.declares(d) {
            Some(CodegenError::UnknownRegister(pos))
        } else if reg_type(bc, d) != BytecodeType::Ptr {
            Some(CodegenError::TypeMismatch(pos))
        } else {
            None
        },
        Operation::ConstBool(d, _) => if !bc.declares(d) {
            Some(CodegenError::UnknownRegister(pos))
        } else if reg_type(bc, d) != BytecodeType::Bool {
            Some(CodegenError::TypeMismatch(pos))
        } else {
            None
        },
        Operation::ConstInt(d, _) => if !bc.declares(d) {
            Some(CodegenError::UnknownRegister(pos))
        } else if !is_int_type(reg_type(bc, d)) {
            Some(CodegenError::TypeMismatch(pos))
        } else {
            None
        },
        Operation::ConstFloat(d, _) => if !bc.declares(d) {
            Some(CodegenError::UnknownRegister(pos))
        } else if !is_float_type(reg_type(bc, d)) {
            Some(CodegenError::TypeMismatch(pos))
        } else {
            None
        },
        Operation::Test(d, l, r, _) | Operation::TestFloat(d, l, r, _) => if !(bc.declares(d)
            && bc.declares(l) && bc.declares(r)) {
            Some(CodegenError::UnknownRegister(pos))
        } else if reg_type(bc, l) != reg_type(bc, r) || reg_type(bc, d) != BytecodeType::Bool {
            Some(CodegenError::TypeMismatch(pos))
        } else {
            None
        },
        Operation::JumpIf(s, target, _) => if !bc.declares(s) {
            Some(CodegenError::UnknownRegister(pos))
        } else if reg_type(bc, s) != BytecodeType::Bool {
            Some(CodegenError::TypeMismatch(pos))
        } else if !(0 <= target <= u32::MAX) {
            Some(CodegenError::JumpOutOfRange(pos))
        } else {
            None
        },
        Operation::Jump(target) => if !(0 <= target <= u32::MAX) {
            Some(CodegenError::JumpOutOfRange(pos))
        } else {
            None
        },
        Operation::Ret(s) => if !bc.declares(s) {
            Some(CodegenError::UnknownRegister(pos))
        } else {
            None
        },
        Operation::RetVoid => None,
        Operation::BadConstant => Some(CodegenError::UnknownEntity(pos)),
        Operation::Unimplemented => Some(CodegenError::NotImplemented(pos)),
    }
}

/// The state after a jump to `target` has been emitted at position `pos`
/// with the label `lbl`: the label is bound at once where the target lies
/// before the jump, and the jump is put off otherwise.
pub open spec fn resolve_label(
    g: GenView,
    pos: BytecodeOffset,
    target: int,
    lbl: Label,
) -> GenView {
    if target < pos.0 {
        GenView { masm: g.masm.bind(lbl, g.addresses[target as u32]), ..g }
    } else {
        GenView {
            forward: g.forward.push(
                ForwardJump { label: lbl, bytecode_idx: BytecodeOffset(target as u32) },
            ),
            ..g
        }
    }
}

/// The code of an integer operation: both operands are loaded from their
/// frame slots, the operation is done on the scratch registers, and the
/// result is stored to the frame slot of the destination. Before a
/// division or a remainder the divisor is tested: where it is zero the
/// code raises the fault `Div0` in place of the operation.
pub open spec fn int_binary(
    a: AsmView,
    bc: &BytecodeFunction,
    op: IntOp,
    d: Register,
    l: Register,
    r: Register,
) -> AsmView {
    let loaded = a.emit(load(bc, ExprStore::Reg(reg_result()), l)).emit(
        load(bc, ExprStore::Reg(reg_tmp1()), r),
    );
    let checked = if op == IntOp::Div || op == IntOp::Mod {
        let lbl = Label(loaded.labels.len() as usize);
        let trapped = loaded.label().emit(
            MachineOp::TestAndJumpIf { cond: CondCode::NonZero, reg: reg_tmp1(), label: lbl },
        ).emit(MachineOp::Trap { trap: Trap::Div0 });
        trapped.bind(lbl, trapped.ops.len() as usize)
    } else {
        loaded
    };
    checked.emit(
        MachineOp::IntBinary {
            op,
            mode: reg_type(bc, d).mode(),
            dest: reg_result(),
            lhs: reg_result(),
            rhs: reg_tmp1(),
        },
    ).emit(store(bc, d, ExprStore::Reg(reg_result())))
}

/// The code of a floating-point operation.
pub open spec fn float_binary(
    a: AsmView,
    bc: &BytecodeFunction,
    op: FloatOp,
    d: Register,
    l: Register,
    r: Register,
) -> AsmView {
    a.emit(load(bc, ExprStore::FReg(freg_result()), l)).emit(
        load(bc, ExprStore::FReg(freg_tmp1()), r),
    ).emit(
        MachineOp::FloatBinary {
            op,
            mode: reg_type(bc, d).mode(),
            dest: freg_result(),
            lhs: freg_result(),
            rhs: freg_tmp1(),
        },
    ).emit(store(bc, d, ExprStore::FReg(freg_result())))
}

/// The code of a load of a global variable: its address goes to the
/// constant area and is loaded from there, then the value is loaded from
/// that address and stored to the frame slot of the destination.
pub open spec fn load_global(
    a: AsmView,
    vm: &VM,
    bc: &BytecodeFunction,
    d: Register,
    g: GlobalId,
) -> AsmView {
    let glob = global_def(vm, g);
    let disp = a.next_disp();
    a.constant(DSegValue::Addr(glob.address_value)).comment(Comment::LoadGlobal(g)).emit(
        MachineOp::LoadConstpool { dest: reg_tmp1(), disp: disp as i32 },
    ).emit(
        MachineOp::LoadMem {
            mode: glob.ty.mode(),
            dest: result_store(glob.ty),
            mem: Mem::Base(reg_tmp1(), 0),
        },
    ).emit(store(bc, d, result_store(glob.ty)))
}

/// The code of a store to a global variable.
pub open spec fn store_global(
    a: AsmView,
    vm: &VM,
    bc: &BytecodeFunction,
    s: Register,
    g: GlobalId,
) -> AsmView {
    let glob = global_def(vm, g);
    let disp = a.next_disp();
    a.constant(DSegValue::Addr(glob.address_value)).comment(Comment::StoreGlobal(g)).emit(
        MachineOp::LoadConstpool { dest: reg_tmp1(), disp: disp as i32 },
    ).emit(load(bc, result_store(glob.ty), s)).emit(
        MachineOp::StoreMem {
            mode: glob.ty.mode(),
            mem: Mem::Base(reg_tmp1(), 0),
            src: result_store(glob.ty),
        },
    )
}

/// The code of a load of a string constant: the address of the string goes
/// to the constant area and is loaded from there.
pub open spec fn const_string(
    a: AsmView,
    bc: &BytecodeFunction,
    d: Register,
    idx: ConstPoolIdx,
) -> AsmView {
    let disp = a.next_disp();
    a.constant(DSegValue::Str(idx)).comment(Comment::LoadString(idx)).emit(
        MachineOp::LoadConstpool { dest: reg_result(), disp: disp as i32 },
    ).emit(store(bc, d, ExprStore::Reg(reg_result())))
}

/// The condition on which a jump is taken that waits for the value `on`.
pub open spec fn jump_cond(on: bool) -> CondCode {
    if on {
        CondCode::NonZero
    } else {
        CondCode::Zero
    }
}

/// The state after the code of the operation `op`, which has no defect,
/// has been generated at position `pos`.
///
/// Every operation loads its operands from their frame slots into scratch
/// registers and stores its result to the frame slot of its destination:
/// no value stays in a register from one instruction to the next.
pub open spec fn effect(
    g: GenView,
    vm: &VM,
    bc: &BytecodeFunction,
    pos: BytecodeOffset,
    op: Operation,
) -> GenView {
    let a = g.masm;
    match op {
        Operation::IntBinary(o, d, l, r) => GenView { masm: int_binary(a, bc, o, d, l, r), ..g },
        Operation::FloatBinary(o, d, l, r) => GenView {
            masm: float_binary(a, bc, o, d, l, r),
            ..g
        },
        Operation::IntNeg(d, s) => GenView {
            masm: a.emit(load(bc, ExprStore::Reg(reg_result()), s)).emit(
                MachineOp::IntNeg {
                    mode: reg_type(bc, d).mode(),
                    dest: reg_result(),
                    src: reg_result(),
                },
            ).emit(store(bc, d, ExprStore::Reg(reg_result()))),
            ..g
        },
        Operation::NotBool(d, s) => GenView {
            masm: a.emit(load(bc, ExprStore::Reg(reg_result()), s)).emit(
                MachineOp::BoolNot { dest: reg_result(), src: reg_result() },
            ).emit(store(bc, d, ExprStore::Reg(reg_result()))),
            ..g
        },
        Operation::Mov(d, s) => GenView {
            masm: a.emit(load(bc, result_store(reg_type(bc, s)), s)).emit(
                store(bc, d, result_store(reg_type(bc, s))),
            ),
            ..g
        },
        Operation::LoadField(d, o, c, f) => GenView {
            masm: a.comment(Comment::LoadField(c, f)).emit(
                load(bc, ExprStore::Reg(reg_result()), o),
            ).emit(
                MachineOp::LoadField {
                    mode: field_def(vm, c, f).ty.mode(),
                    dest: result_store(reg_type(bc, d)),
                    base: reg_result(),
                    offset: field_def(vm, c, f).offset,
                },
            ).emit(store(bc, d, result_store(reg_type(bc, d)))),
            ..g
        },
        Operation::StoreField(s, o, c, f) => GenView {
            masm: a.comment(Comment::StoreField(c, f)).emit(
                load(bc, ExprStore::Reg(reg_tmp1()), o),
            ).emit(load(bc, result_store(reg_type(bc, s)), s)).emit(
                MachineOp::StoreField {
                    mode: field_def(vm, c, f).ty.mode(),
                    base: reg_tmp1(),
                    offset: field_def(vm, c, f).offset,
                    src: result_store(reg_type(bc, s)),
                },
            ),
            ..g
        },
        Operation::LoadGlobal(d, gid) => GenView { masm: load_global(a, vm, bc, d, gid), ..g },
        Operation::StoreGlobal(s, gid) => GenView { masm: store_global(a, vm, bc, s, gid), ..g },
        Operation::ConstNil(d) => GenView {
            masm: a.emit(MachineOp::LoadNil { dest: reg_result() }).emit(
                store(bc, d, ExprStore::Reg(reg_result())),
            ),
            ..g
        },
        Operation::ConstBool(d, value) => GenView {
            masm: a.emit(
                if value {
                    MachineOp::LoadTrue { dest: reg_result() }
                } else {
                    MachineOp::LoadFalse { dest: reg_result() }
                },
            ).emit(store(bc, d, ExprStore::Reg(reg_result()))),
            ..g
        },
        Operation::ConstInt(d, value) => GenView {
            masm: a.emit(
                MachineOp::LoadIntConst {
                    mode: reg_type(bc, d).mode(),
                    dest: reg_result(),
                    value,
                },
            ).emit(store(bc, d, ExprStore::Reg(reg_result()))),
            ..g
        },
        Operation::ConstFloat(d, bits) => GenView {
            masm: a.emit(
                MachineOp::LoadFloatConst {
                    mode: reg_type(bc, d).mode(),
                    dest: freg_result(),
                    bits,
                },
            ).emit(store(bc, d, ExprStore::FReg(freg_result()))),
            ..g
        },
        Operation::ConstString(d, idx) => GenView { masm: const_string(a, bc, d, idx), ..g },
        Operation::Test(d, l, r, cond) => GenView {
            masm: a.emit(load(bc, ExprStore::Reg(reg_result()), l)).emit(
                load(bc, ExprStore::Reg(reg_tmp1()), r),
            ).emit(
                MachineOp::CmpReg {
                    mode: reg_type(bc, r).mode(),
                    lhs: reg_result(),
                    rhs: reg_tmp1(),
                },
            ).emit(MachineOp::SetIf { dest: reg_result(), cond }).emit(
                store(bc, d, ExprStore::Reg(reg_result())),
            ),
            ..g
        },
        Operation::TestFloat(d, l, r, cond) => GenView {
            masm: a.emit(load(bc, ExprStore::FReg(freg_result()), l)).emit(
                load(bc, ExprStore::FReg(freg_tmp1()), r),
            ).emit(
                MachineOp::FloatCmp {
                    mode: reg_type(bc, r).mode(),
                    dest: reg_result(),
                    lhs: freg_result(),
                    rhs: freg_tmp1(),
                    cond,
                },
            ).emit(store(bc, d, ExprStore::Reg(reg_result()))),
            ..g
        },
        Operation::JumpIf(s, target, on) => {
            let lbl = Label(a.labels.len() as usize);
            let jumped = a.emit(load(bc, ExprStore::Reg(reg_result()), s)).label().emit(
                MachineOp::TestAndJumpIf { cond: jump_cond(on), reg: reg_result(), label: lbl },
            );
            resolve_label(GenView { masm: jumped, ..g }, pos, target, lbl)
        },
        Operation::Jump(target) => {
            let lbl = Label(a.labels.len() as usize);
            let jumped = a.label().emit(MachineOp::Jump { label: lbl });
            resolve_label(GenView { masm: jumped, ..g }, pos, target, lbl)
        },
        Operation::Ret(s) => GenView {
            masm: epilog(a.emit(load(bc, result_store(reg_type(bc, s)), s)), vm, bc),
            ..g
        },
        Operation::RetVoid => GenView { masm: epilog(a, vm, bc), ..g },
        Operation::BadConstant => g,
        Operation::Unimplemented => g,
    }
}

/// The largest number of parameters that a function may have.
///
/// A parameter that arrives on the stack is read at a distance from the
/// frame pointer of [`PARAM_OFFSET`] and [`PARAM_SLOT`] bytes for each such
/// parameter before it, and that distance is a signed number of 32 bits:
/// with more parameters than this the last of them could lie beyond it.
pub const MAX_PARAMS: usize = 0x0fff_fffd;

/// How many of the first `n` parameters are integers or references.
pub open spec fn int_params(params: Seq<BytecodeType>, n: nat) -> nat
    decreases n,
{
    if n == 0 {
        0
    } else if params[n - 1].mode().float() {
        int_params(params, (n - 1) as nat)
    } else {
        int_params(params, (n - 1) as nat) + 1
    }
}

/// How many of the first `n` parameters are floating-point numbers.
pub open spec fn float_params(params: Seq<BytecodeType>, n: nat) -> nat
    decreases n,
{
    if n == 0 {
        0
    } else if params[n - 1].mode().float() {
        float_params(params, (n - 1) as nat) + 1
    } else {
        float_params(params, (n - 1) as nat)
    }
}

/// Whether the parameter `i` arrives in a register: the argument registers
/// of either file go to the parameters of their kind in the order of
/// declaration, as far as they reach.
pub open spec fn in_register(params: Seq<BytecodeType>, i: nat) -> bool {
    if params[i as int].mode().float() {
        float_params(params, i) < FREG_PARAMS_LEN
    } else {
        int_params(params, i) < REG_PARAMS_LEN
    }
}

/// The register in which the parameter `i` arrives, where it does.
pub open spec fn param_register(params: Seq<BytecodeType>, i: nat) -> ExprStore {
    if params[i as int].mode().float() {
        ExprStore::FReg(freg_param(float_params(params, i) as int))
    } else {
        ExprStore::Reg(reg_param(int_params(params, i) as int))
    }
}

/// How many of the first `n` parameters arrive on the stack.
pub open spec fn stack_params(params: Seq<BytecodeType>, n: nat) -> nat
    decreases n,
{
    if n == 0 {
        0
    } else if in_register(params, (n - 1) as nat) {
        stack_params(params, (n - 1) as nat)
    } else {
        stack_params(params, (n - 1) as nat) + 1
    }
}

/// The slot in which the caller has left the parameter `i`, which arrives
/// on the stack: the slots follow each other from `PARAM_OFFSET` upwards
/// in the order of declaration.
pub open spec fn param_stack_slot(params: Seq<BytecodeType>, i: nat) -> int {
    PARAM_OFFSET + PARAM_SLOT * stack_params(params, i)
}

/// Whether the parameter `i` has its register: the register `i` is
/// declared with the type of the parameter.
pub open spec fn param_ok(bc: &BytecodeFunction, params: Seq<BytecodeType>, i: int) -> bool {
    bc.declares(Register(i as usize)) && bc.registers@[i] == params[i]
}

/// The first of the first `n` parameters that does not have its register,
/// as a defect.
pub open spec fn param_defect(bc: &BytecodeFunction, params: Seq<BytecodeType>, n: nat) -> Option<
    CodegenError,
>
    decreases n,
{
    if n == 0 {
        None
    } else {
        match param_defect(bc, params, (n - 1) as nat) {
            Some(e) => Some(e),
            None => if param_ok(bc, params, n - 1) {
                None
            } else {
                Some(CodegenError::Parameter((n - 1) as usize))
            },
        }
    }
}

/// The code that brings the parameter `i` to its frame slot: a store of
/// the register in which it arrives, or a load from the slot in which the
/// caller has left it followed by a store.
pub open spec fn param_code(
    a: AsmView,
    bc: &BytecodeFunction,
    params: Seq<BytecodeType>,
    i: nat,
) -> AsmView {
    let mode = params[i as int].mode();
    let slot = Mem::Local(bc.offset@[i as int]);
    if in_register(params, i) {
        a.emit(MachineOp::StoreMem { mode, mem: slot, src: param_register(params, i) })
    } else {
        a.emit(
            MachineOp::LoadMem {
                mode,
                dest: result_store(params[i as int]),
                mem: Mem::Local(param_stack_slot(params, i) as i32),
            },
        ).emit(MachineOp::StoreMem { mode, mem: slot, src: result_store(params[i as int]) })
    }
}

/// The code that brings the first `n` parameters to their frame slots.
pub open spec fn params_code(
    a: AsmView,
    bc: &BytecodeFunction,
    params: Seq<BytecodeType>,
    n: nat,
) -> AsmView
    decreases n,
{
    if n == 0 {
        a
    } else {
        param_code(params_code(a, bc, params, (n - 1) as nat), bc, params, (n - 1) as nat)
    }
}

/// The emitter that has emitted nothing.
pub open spec fn blank() -> AsmView {
    AsmView {
        ops: Seq::empty(),
        labels: Seq::empty(),
        dseg: Seq::empty(),
        gcpoints: Map::empty(),
        comments: Seq::empty(),
        positions: Seq::empty(),
    }
}

/// The code before that of the first instruction: a breakpoint where one
/// is asked for, the prolog, and the code that brings the parameters to
/// their frame slots.
pub open spec fn entry(debug: bool, fct: &Fct, bc: &BytecodeFunction) -> AsmView {
    let begun = if debug {
        blank().emit(MachineOp::Debug)
    } else {
        blank()
    };
    params_code(
        begun.prolog(bc.stacksize, fct.pos).comment(Comment::Lit("prolog end")).comment(
            Comment::Newline,
        ),
        bc,
        fct.params@,
        fct.params@.len(),
    )
}

/// The state in which the walk begins.
pub open spec fn initial(debug: bool, fct: &Fct, bc: &BytecodeFunction) -> GenView {
    GenView { masm: entry(debug, fct, bc), addresses: Map::empty(), forward: Seq::empty() }
}

/// The state after the address of the code of position `pos` has been
/// recorded: it is the current offset.
pub open spec fn visit(g: GenView, pos: u32) -> GenView {
    GenView { addresses: g.addresses.insert(pos, g.masm.ops.len() as usize), ..g }
}

/// What the generator does for the instruction at position `pos`.
pub open spec fn operation_at(bc: &BytecodeFunction, pos: int) -> Operation {
    operation(bc, pos, bc.code@[pos])
}

/// The defect of the first of the first `n` instructions that has one.
pub open spec fn walk_defect(vm: &VM, bc: &BytecodeFunction, n: nat) -> Option<CodegenError>
    decreases n,
{
    if n == 0 {
        None
    } else {
        match walk_defect(vm, bc, (n - 1) as nat) {
            Some(e) => Some(e),
            None => defect(vm, bc, BytecodeOffset((n - 1) as u32), operation_at(bc, n - 1)),
        }
    }
}

/// The state after the code of the first `n` instructions has been
/// generated, none of which has a defect.
pub open spec fn walk(g: GenView, vm: &VM, bc: &BytecodeFunction, n: nat) -> GenView
    decreases n,
{
    if n == 0 {
        g
    } else {
        effect(
            visit(walk(g, vm, bc, (n - 1) as nat), (n - 1) as u32),
            vm,
            bc,
            BytecodeOffset((n - 1) as u32),
            operation_at(bc, n - 1),
        )
    }
}

/// The first of the first `k` jumps that were put off whose target holds
/// no instruction, as a defect.
pub open spec fn missing_target(g: GenView, k: nat) -> Option<CodegenError>
    decreases k,
{
    if k == 0 {
        None
    } else {
        match missing_target(g, (k - 1) as nat) {
            Some(e) => Some(e),
            None => if g.addresses.contains_key(g.forward[k - 1].bytecode_idx.0) {
                None
            } else {
                Some(CodegenError::MissingJumpTarget(g.forward[k - 1].bytecode_idx))
            },
        }
    }
}

/// What the emitter holds after the first `k` jumps that were put off have
/// been resolved: the label of each is bound to the address of its target.
pub open spec fn resolved(g: GenView, k: nat) -> AsmView
    decreases k,
{
    if k == 0 {
        g.masm
    } else {
        resolved(g, (k - 1) as nat).bind(
            g.forward[k - 1].label,
            g.addresses[g.forward[k - 1].bytecode_idx.0],
        )
    }
}

/// The position to which the operation `op` jumps, if it is a jump.
pub open spec fn jump_target(op: Operation) -> Option<int> {
    match op {
        Operation::JumpIf(_, target, _) => Some(target),
        Operation::Jump(target) => Some(target),
        _ => None,
    }
}

/// The first of the first `n` instructions that jumps behind the last
/// instruction, as a defect. It is told from the bytecode alone.
pub open spec fn lost_jump(bc: &BytecodeFunction, n: nat) -> Option<CodegenError>
    decreases n,
{
    if n == 0 {
        None
    } else {
        match lost_jump(bc, (n - 1) as nat) {
            Some(e) => Some(e),
            None => match jump_target(operation_at(bc, n - 1)) {
                Some(target) => if target >= bc.code@.len() {
                    Some(CodegenError::MissingJumpTarget(BytecodeOffset(target as u32)))
                } else {
                    None
                },
                None => None,
            },
        }
    }
}

/// The first of the first `k` jumps of `forward` that leads to the
/// position `count` or behind it, as a defect.
pub open spec fn astray(forward: Seq<ForwardJump>, count: int, k: nat) -> Option<CodegenError>
    decreases k,
{
    if k == 0 {
        None
    } else {
        match astray(forward, count, (k - 1) as nat) {
            Some(e) => Some(e),
            None => if forward[k - 1].bytecode_idx.0 < count {
                None
            } else {
                Some(CodegenError::MissingJumpTarget(forward[k - 1].bytecode_idx))
            },
        }
    }
}

/// The code of the function `fct` with the bytecode `bc`, or the defect
/// that stands in the way of compiling it: the first parameter without its
/// register, else the first instruction with a defect, else the first jump
/// whose target holds no instruction.
pub open spec fn generated(debug: bool, vm: &VM, fct: &Fct, bc: &BytecodeFunction) -> Result<
    AssemblyView,
    CodegenError,
> {
    let n = bc.code@.len();
    match param_defect(bc, fct.params@, fct.params@.len()) {
        Some(e) => Err(e),
        None => match walk_defect(vm, bc, n) {
            Some(e) => Err(e),
            None => {
                let g = walk(initial(debug, fct, bc), vm, bc, n);
                match missing_target(g, g.forward.len()) {
                    Some(e) => Err(e),
                    None => Ok(
                        assembled(
                            resolved(g, g.forward.len()),
                            bc.stacksize,
                            JitDescriptor::DoraFct(fct.id),
                            fct.throws,
                        ),
                    ),
                }
            },
        },
    }
}

/// The largest number of operations that the code of one instruction
/// takes: a division takes them, with two loads, the test of the divisor,
/// the trap, the division and the store.
///
/// The prolog, two operations for each of [`MAX_PARAMS`] parameters and
/// this many for each of [`MAX_CODE`] instructions stay below
/// [`MAX_OFFSET`](crate::masm::MAX_OFFSET) operations, so that every
/// offset into the code is a signed number of 32 bits.
pub const OPS_PER_INSTRUCTION: usize = 6;

/// The state is of a size that goes with `n` instructions of a function
/// with `params` parameters: the code, the constant area and the labels
/// have not outgrown what the tables can record.
pub open spec fn sized(g: GenView, params: nat, n: int) -> bool {
    &&& params <= MAX_PARAMS
    &&& 0 <= n <= MAX_CODE + 1
    &&& g.masm.ops.len() <= 2 + 2 * params + OPS_PER_INSTRUCTION * n
    &&& g.masm.dseg.len() <= n
    &&& g.masm.labels.len() <= n
}

/// The parts of the state go together: the first `count` positions, and
/// only they, have an address, which lies inside the code; the jumps that
/// wait have labels of their own that are not bound; and every label is
/// bound or belongs to a jump that waits.
pub open spec fn linked(g: GenView, count: int) -> bool {
    &&& forall|k: u32| #[trigger] g.addresses.contains_key(k) <==> k < count
    &&& forall|k: u32|
        g.addresses.contains_key(k) ==> #[trigger] g.addresses[k] <= g.masm.ops.len()
    &&& forall|i: int|
        0 <= i < g.forward.len() ==> g.masm.has_label((#[trigger] g.forward[i]).label)
            && !g.masm.bound(g.forward[i].label)
    &&& forall|i: int, j: int|
        0 <= i < j < g.forward.len() ==> (#[trigger] g.forward[i]).label != (
        #[trigger] g.forward[j]).label
    &&& forall|l: int|
        0 <= l < g.masm.labels.len() ==> (#[trigger] g.masm.labels[l]) is Some || exists|i: int|
            0 <= i < g.forward.len() && (#[trigger] g.forward[i]).label.0 == l
}

/// The jump of `forward` that has the label number `l`, which every label
/// that is not bound has.
pub open spec fn waiting(forward: Seq<ForwardJump>, l: int) -> int {
    choose|i: int| 0 <= i < forward.len() && (#[trigger] forward[i]).label.0 == l
}

/// Recording the address of the next position keeps the parts of the
/// state together.
pub proof fn lemma_visit(g: GenView, pos: u32)
    requires
        linked(g, pos as int),
    ensures
        linked(visit(g, pos), pos + 1),
        visit(g, pos).addresses.contains_key(pos),
{
    let v = visit(g, pos);
    assert(v.masm == g.masm);
    assert(v.forward == g.forward);
    assert forall|k: u32| #[trigger] v.addresses.contains_key(k) <==> k < pos + 1 by {
        if k != pos {
            assert(g.addresses.contains_key(k) <==> k < pos);
        }
    }
    assert forall|k: u32| v.addresses.contains_key(k) implies #[trigger] v.addresses[k]
        <= v.masm.ops.len() by {
        if k != pos {
            assert(g.addresses.contains_key(k));
            assert(g.addresses[k] <= g.masm.ops.len());
        }
    }
    assert forall|l: int| 0 <= l < v.masm.labels.len() implies (#[trigger] v.masm.labels[l]) is Some
        || exists|i: int| 0 <= i < v.forward.len() && (#[trigger] v.forward[i]).label.0 == l by {
        if !(g.masm.labels[l] is Some) {
            let i = waiting(g.forward, l);
            assert(v.forward[i].label.0 == l);
        }
    }
}

/// Code that creates no label and binds none keeps the parts of the state
/// together.
pub proof fn lemma_grow(g: GenView, a: AsmView, count: int)
    requires
        linked(g, count),
        a.labels == g.masm.labels,
        a.ops.len() >= g.masm.ops.len(),
    ensures
        linked(GenView { masm: a, ..g }, count),
{
    let e = GenView { masm: a, ..g };
    assert(e.forward == g.forward);
    assert(e.addresses == g.addresses);
    assert forall|k: u32| e.addresses.contains_key(k) implies #[trigger] e.addresses[k]
        <= e.masm.ops.len() by {
        assert(g.addresses[k] <= g.masm.ops.len());
    }
    assert forall|i: int| 0 <= i < e.forward.len() implies e.masm.has_label(
        (#[trigger] e.forward[i]).label,
    ) && !e.masm.bound(e.forward[i].label) by {
        assert(g.masm.has_label(g.forward[i].label));
    }
    assert forall|l: int| 0 <= l < e.masm.labels.len() implies (#[trigger] e.masm.labels[l]) is Some
        || exists|i: int| 0 <= i < e.forward.len() && (#[trigger] e.forward[i]).label.0 == l by {
        if !(g.masm.labels[l] is Some) {
            let i = waiting(g.forward, l);
            assert(e.forward[i].label.0 == l);
        }
    }
}

/// Code that creates one label and binds it, and touches no other, keeps
/// the parts of the state together.
pub proof fn lemma_grow_bound(g: GenView, a: AsmView, offset: usize, count: int)
    requires
        linked(g, count),
        a.labels == g.masm.labels.push(Some(offset)),
        a.ops.len() >= g.masm.ops.len(),
    ensures
        linked(GenView { masm: a, ..g }, count),
{
    let e = GenView { masm: a, ..g };
    assert(e.forward == g.forward);
    assert(e.addresses == g.addresses);
    assert forall|k: u32| e.addresses.contains_key(k) implies #[trigger] e.addresses[k]
        <= e.masm.ops.len() by {
        assert(g.addresses[k] <= g.masm.ops.len());
    }
    assert forall|i: int| 0 <= i < e.forward.len() implies e.masm.has_label(
        (#[trigger] e.forward[i]).label,
    ) && !e.masm.bound(e.forward[i].label) by {
        let x = g.forward[i].label.0 as int;
        assert(g.masm.has_label(g.forward[i].label));
        assert(a.labels[x] == g.masm.labels[x]);
    }
    assert forall|l: int| 0 <= l < e.masm.labels.len() implies (#[trigger] e.masm.labels[l]) is Some
        || exists|i: int| 0 <= i < e.forward.len() && (#[trigger] e.forward[i]).label.0 == l by {
        if l < g.masm.labels.len() {
            assert(a.labels[l] == g.masm.labels[l]);
            if !(g.masm.labels[l] is Some) {
                let i = waiting(g.forward, l);
                assert(e.forward[i].label.0 == l);
            }
        }
    }
}

/// A jump keeps the parts of the state together: its label is new, and is
/// bound at once or waits with the jump.
pub proof fn lemma_jump(g: GenView, a: AsmView, pos: BytecodeOffset, target: int)
    requires
        linked(g, pos.0 + 1),
        a.labels == g.masm.labels.push(None),
        a.ops.len() >= g.masm.ops.len(),
        g.masm.labels.len() < usize::MAX,
        0 <= target <= u32::MAX,
    ensures
        linked(
            resolve_label(
                GenView { masm: a, ..g },
                pos,
                target,
                Label(g.masm.labels.len() as usize),
            ),
            pos.0 + 1,
        ),
{
    let n = g.forward.len() as int;
    let m = g.masm.labels.len() as int;
    let lbl = Label(m as usize);
    let j = GenView { masm: a, ..g };
    let e = resolve_label(j, pos, target, lbl);
    assert(e.addresses == g.addresses);
    assert forall|k: u32| e.addresses.contains_key(k) implies #[trigger] e.addresses[k]
        <= e.masm.ops.len() by {
        assert(g.addresses[k] <= g.masm.ops.len());
    }
    if target < pos.0 {
        assert(g.addresses.contains_key(target as u32));
        let addr = g.addresses[target as u32];
        assert(e.masm.labels == a.labels.update(m, Some(addr)));
        assert(e.forward == g.forward);
        assert forall|i: int| 0 <= i < e.forward.len() implies e.masm.has_label(
            (#[trigger] e.forward[i]).label,
        ) && !e.masm.bound(e.forward[i].label) by {
            let x = g.forward[i].label.0 as int;
            assert(g.masm.has_label(g.forward[i].label));
            assert(x < m);
            assert(a.labels[x] == g.masm.labels[x]);
            assert(e.masm.labels[x] == a.labels[x]);
        }
        assert forall|l: int| 0 <= l < e.masm.labels.len() implies (
        #[trigger] e.masm.labels[l]) is Some || exists|i: int|
            0 <= i < e.forward.len() && (#[trigger] e.forward[i]).label.0 == l by {
            if l < m {
                assert(a.labels[l] == g.masm.labels[l]);
                assert(e.masm.labels[l] == a.labels[l]);
                if !(g.masm.labels[l] is Some) {
                    let i = waiting(g.forward, l);
                    assert(e.forward[i].label.0 == l);
                }
            }
        }
    } else {
        assert(e.masm == a);
        assert(e.forward == g.forward.push(
            ForwardJump { label: lbl, bytecode_idx: BytecodeOffset(target as u32) },
        ));
        assert forall|i: int| 0 <= i < e.forward.len() implies e.masm.has_label(
            (#[trigger] e.forward[i]).label,
        ) && !e.masm.bound(e.forward[i].label) by {
            if i < n {
                let x = g.forward[i].label.0 as int;
                assert(e.forward[i] == g.forward[i]);
                assert(g.masm.has_label(g.forward[i].label));
                assert(a.labels[x] == g.masm.labels[x]);
            } else {
                assert(e.forward[i].label == lbl);
                assert(a.labels[m] is None);
            }
        }
        assert forall|i: int, k: int| 0 <= i < k < e.forward.len() implies (
        #[trigger] e.forward[i]).label != (#[trigger] e.forward[k]).label by {
            assert(e.forward[i] == g.forward[i]);
            assert(g.masm.has_label(g.forward[i].label));
            if k < n {
                assert(e.forward[k] == g.forward[k]);
            } else {
                assert(e.forward[k].label == lbl);
            }
        }
        assert forall|l: int| 0 <= l < e.masm.labels.len() implies (
        #[trigger] e.masm.labels[l]) is Some || exists|i: int|
            0 <= i < e.forward.len() && (#[trigger] e.forward[i]).label.0 == l by {
            if l < m {
                assert(a.labels[l] == g.masm.labels[l]);
                if !(g.masm.labels[l] is Some) {
                    let i = waiting(g.forward, l);
                    assert(e.forward[i] == g.forward[i]);
                    assert(e.forward[i].label.0 == l);
                }
            } else {
                assert(e.forward[n].label.0 == l);
            }
        }
    }
}

/// The epilog keeps the tables of the emitter in order, takes two
/// operations, and touches neither labels nor the constant area.
pub proof fn lemma_epilog(a: AsmView, vm: &VM, bc: &BytecodeFunction)
    requires
        a.wf(),
        a.ops.len() + 2 <= crate::masm::MAX_OFFSET,
    ensures
        epilog(a, vm, bc).wf(),
        epilog(a, vm, bc).ops.len() == a.ops.len() + 2,
        epilog(a, vm, bc).labels == a.labels,
        epilog(a, vm, bc).dseg == a.dseg,
{
}

/// The code of an operation without a defect keeps the tables of the
/// emitter in order and the parts of the state together, and the state
/// stays of a size that goes with the number of instructions.
pub proof fn lemma_effect(
    g: GenView,
    vm: &VM,
    bc: &BytecodeFunction,
    params: nat,
    pos: BytecodeOffset,
    op: Operation,
)
    requires
        bc.wf(),
        g.masm.wf(),
        pos.0 < bc.code@.len(),
        linked(g, pos.0 + 1),
        sized(g, params, pos.0 as int),
        defect(vm, bc, pos, op) is None,
    ensures
        effect(g, vm, bc, pos, op).masm.wf(),
        linked(effect(g, vm, bc, pos, op), pos.0 + 1),
        sized(effect(g, vm, bc, pos, op), params, pos.0 + 1),
        effect(g, vm, bc, pos, op).addresses == g.addresses,
{
    let a = g.masm;
    let e = effect(g, vm, bc, pos, op);
    match op {
        Operation::IntBinary(o, d, l, r) => {
            if o == IntOp::Div || o == IntOp::Mod {
                let loaded = a.emit(load(bc, ExprStore::Reg(reg_result()), l)).emit(
                    load(bc, ExprStore::Reg(reg_tmp1()), r),
                );
                let lbl = Label(loaded.labels.len() as usize);
                let trapped = loaded.label().emit(
                    MachineOp::TestAndJumpIf {
                        cond: CondCode::NonZero,
                        reg: reg_tmp1(),
                        label: lbl,
                    },
                ).emit(MachineOp::Trap { trap: Trap::Div0 });
                let bound = trapped.bind(lbl, trapped.ops.len() as usize);
                assert(trapped.labels == a.labels.push(None));
                assert(bound.labels =~= a.labels.push(Some(trapped.ops.len() as usize)));
                assert(e.masm.labels == bound.labels);
                lemma_grow_bound(g, e.masm, trapped.ops.len() as usize, pos.0 + 1);
            } else {
                lemma_grow(g, e.masm, pos.0 + 1);
            }
        },
        Operation::JumpIf(s, target, on) => {
            let lbl = Label(a.labels.len() as usize);
            let jumped = a.emit(load(bc, ExprStore::Reg(reg_result()), s)).label().emit(
                MachineOp::TestAndJumpIf { cond: jump_cond(on), reg: reg_result(), label: lbl },
            );
            lemma_jump(g, jumped, pos, target);
            if target < pos.0 {
                assert(g.addresses.contains_key(target as u32));
                assert(g.addresses[target as u32] <= g.masm.ops.len());
            }
        },
        Operation::Jump(target) => {
            let lbl = Label(a.labels.len() as usize);
            let jumped = a.label().emit(MachineOp::Jump { label: lbl });
            lemma_jump(g, jumped, pos, target);
            if target < pos.0 {
                assert(g.addresses.contains_key(target as u32));
                assert(g.addresses[target as u32] <= g.masm.ops.len());
            }
        },
        Operation::Ret(s) => {
            lemma_epilog(a.emit(load(bc, result_store(reg_type(bc, s)), s)), vm, bc);
            lemma_grow(g, e.masm, pos.0 + 1);
        },
        Operation::RetVoid => {
            lemma_epilog(a, vm, bc);
            lemma_grow(g, e.masm, pos.0 + 1);
        },
        _ => {
            lemma_grow(g, e.masm, pos.0 + 1);
        },
    }
}

/// The code that brings the first `n` parameters to their frame slots
/// keeps the tables of the emitter in order, takes at most two operations
/// for each parameter, and touches neither labels nor the constant area.
pub proof fn lemma_params_code(a: AsmView, bc: &BytecodeFunction, params: Seq<BytecodeType>, n: nat)
    requires
        a.wf(),
    ensures
        params_code(a, bc, params, n).wf(),
        a.ops.len() <= params_code(a, bc, params, n).ops.len() <= a.ops.len() + 2 * n,
        params_code(a, bc, params, n).labels == a.labels,
        params_code(a, bc, params, n).dseg == a.dseg,
    decreases n,
{
    if n > 0 {
        lemma_params_code(a, bc, params, (n - 1) as nat);
    }
}

/// The state in which the walk begins has its tables in order and its
/// parts together, and is of a size that goes with no instruction.
pub proof fn lemma_entry(debug: bool, fct: &Fct, bc: &BytecodeFunction)
    requires
        fct.params@.len() <= MAX_PARAMS,
    ensures
        initial(debug, fct, bc).masm.wf(),
        linked(initial(debug, fct, bc), 0),
        sized(initial(debug, fct, bc), fct.params@.len(), 0),
{
    let begun = if debug {
        blank().emit(MachineOp::Debug)
    } else {
        blank()
    };
    assert(blank().wf());
    let prologued = begun.prolog(bc.stacksize, fct.pos).comment(Comment::Lit("prolog end")).comment(
        Comment::Newline,
    );
    assert(prologued.wf());
    lemma_params_code(prologued, bc, fct.params@, fct.params@.len());
}

/// Resolving the first `k` jumps that wait, all of which have targets,
/// keeps the tables of the emitter in order; the jumps that still wait
/// have labels that are not bound, and every label is bound or belongs to
/// one of them. When no jump waits any more, every label is bound.
pub proof fn lemma_resolved(g: GenView, count: int, k: nat)
    requires
        g.masm.wf(),
        linked(g, count),
        k <= g.forward.len(),
        missing_target(g, k) is None,
    ensures
        resolved(g, k).wf(),
        resolved(g, k).ops == g.masm.ops,
        resolved(g, k).labels.len() == g.masm.labels.len(),
        forall|i: int|
            k <= i < g.forward.len() ==> resolved(g, k).has_label((#[trigger] g.forward[i]).label)
                && !resolved(g, k).bound(g.forward[i].label),
        forall|l: int|
            0 <= l < resolved(g, k).labels.len() ==> (#[trigger] resolved(g, k).labels[l]) is Some
                || exists|i: int| k <= i < g.forward.len() && (#[trigger] g.forward[i]).label.0 == l,
        forall|i: int|
            0 <= i < g.forward.len() && g.addresses.contains_key(
                (#[trigger] g.forward[i]).bytecode_idx.0,
            ) ==> g.addresses[g.forward[i].bytecode_idx.0] <= g.masm.ops.len(),
        k == g.forward.len() ==> resolved(g, k).all_bound(),
    decreases k,
{
    if k == 0 {
        assert forall|i: int| 0 <= i < g.forward.len() implies g.masm.has_label(
            (#[trigger] g.forward[i]).label,
        ) && !g.masm.bound(g.forward[i].label) by {}
    } else {
        let before = resolved(g, (k - 1) as nat);
        let jump = g.forward[k - 1];
        lemma_resolved(g, count, (k - 1) as nat);
        assert(missing_target(g, (k - 1) as nat) is None);
        assert(g.addresses.contains_key(jump.bytecode_idx.0));
        assert(g.addresses[jump.bytecode_idx.0] <= g.masm.ops.len());
        assert(before.has_label(jump.label));
        let after = resolved(g, k);
        assert forall|i: int| k <= i < g.forward.len() implies after.has_label(
            (#[trigger] g.forward[i]).label,
        ) && !after.bound(g.forward[i].label) by {
            assert(before.has_label(g.forward[i].label));
            assert(g.forward[k - 1].label != g.forward[i].label);
        }
        assert forall|l: int| 0 <= l < after.labels.len() implies (#[trigger] after.labels[l]) is Some
            || exists|i: int| k <= i < g.forward.len() && (#[trigger] g.forward[i]).label.0 == l by {
            if l != jump.label.0 {
                assert(after.labels[l] == before.labels[l]);
                if !(before.labels[l] is Some) {
                    let i = choose|i: int|
                        k - 1 <= i < g.forward.len() && (#[trigger] g.forward[i]).label.0 == l;
                    assert(i != k - 1);
                }
            }
        }
    }
    if k == g.forward.len() {
        assert forall|l: int| 0 <= l < resolved(g, k).labels.len() implies (
        #[trigger] resolved(g, k).labels[l]) is Some by {}
    }
}

/// A defect among the first `n` parameters is the defect among the first
/// `m`, where `m` is not less than `n`.
pub proof fn lemma_param_defect_stays(
    bc: &BytecodeFunction,
    params: Seq<BytecodeType>,
    n: nat,
    m: nat,
)
    requires
        n <= m,
        param_defect(bc, params, n) is Some,
    ensures
        param_defect(bc, params, m) == param_defect(bc, params, n),
    decreases m - n,
{
    if n < m {
        lemma_param_defect_stays(bc, params, n, (m - 1) as nat);
    }
}

/// A missing target among the first `n` jumps is the one among the first
/// `m`, where `m` is not less than `n`.
pub proof fn lemma_missing_stays(g: GenView, n: nat, m: nat)
    requires
        n <= m,
        missing_target(g, n) is Some,
    ensures
        missing_target(g, m) == missing_target(g, n),
    decreases m - n,
{
    if n < m {
        lemma_missing_stays(g, n, (m - 1) as nat);
    }
}

/// A defect among the first `n` instructions is the defect among the first
/// `m`, where `m` is not less than `n`.
pub proof fn lemma_walk_defect_stays(vm: &VM, bc: &BytecodeFunction, n: nat, m: nat)
    requires
        n <= m,
        walk_defect(vm, bc, n) is Some,
    ensures
        walk_defect(vm, bc, m) == walk_defect(vm, bc, n),
    decreases m - n,
{
    if n < m {
        lemma_walk_defect_stays(vm, bc, n, (m - 1) as nat);
    }
}

/// Where exactly the first `count` positions have an address, a jump that
/// waits misses its target if and only if it leads to `count` or behind.
pub proof fn lemma_astray(g: GenView, count: int, k: nat)
    requires
        linked(g, count),
        k <= g.forward.len(),
    ensures
        missing_target(g, k) == astray(g.forward, count, k),
    decreases k,
{
    if k > 0 {
        lemma_astray(g, count, (k - 1) as nat);
        let target = g.forward[k - 1].bytecode_idx.0;
        assert(g.addresses.contains_key(target) <==> target < count);
    }
}

/// The jumps that go astray among the first `k` are the same in a list
/// that goes on behind them.
pub proof fn lemma_astray_grows(forward: Seq<ForwardJump>, longer: Seq<ForwardJump>, count: int, k: nat)
    requires
        k <= forward.len() <= longer.len(),
        forall|i: int| 0 <= i < forward.len() ==> longer[i] == forward[i],
    ensures
        astray(longer, count, k) == astray(forward, count, k),
    decreases k,
{
    if k > 0 {
        lemma_astray_grows(forward, longer, count, (k - 1) as nat);
    }
}

/// The jumps that wait after `n` instructions without a defect, taken in
/// their order, go astray where the instructions say so: the first jump
/// that has no target is the one of the first instruction that jumps
/// behind the last.
pub proof fn lemma_lost_jump(debug: bool, vm: &VM, fct: &Fct, bc: &BytecodeFunction, n: nat)
    requires
        bc.wf(),
        n <= bc.code@.len(),
        walk_defect(vm, bc, n) is None,
    ensures
        astray(
            walk(initial(debug, fct, bc), vm, bc, n).forward,
            bc.code@.len() as int,
            walk(initial(debug, fct, bc), vm, bc, n).forward.len(),
        ) == lost_jump(bc, n),
    decreases n,
{
    let count = bc.code@.len() as int;
    if n > 0 {
        let before = walk(initial(debug, fct, bc), vm, bc, (n - 1) as nat);
        let after = walk(initial(debug, fct, bc), vm, bc, n);
        let op = operation_at(bc, n - 1);
        lemma_lost_jump(debug, vm, fct, bc, (n - 1) as nat);
        assert(defect(vm, bc, BytecodeOffset((n - 1) as u32), op) is None);
        if after.forward.len() == before.forward.len() {
            assert(after.forward =~= before.forward);
        } else {
            assert(after.forward.len() == before.forward.len() + 1);
            assert forall|i: int| 0 <= i < before.forward.len() implies after.forward[i]
                == before.forward[i] by {}
            lemma_astray_grows(before.forward, after.forward, count, before.forward.len());
        }
    }
}

/// A lost jump among the first `n` instructions is the one among the
/// first `m`, where `m` is not less than `n`.
pub proof fn lemma_lost_stays(bc: &BytecodeFunction, n: nat, m: nat)
    requires
        n <= m,
        lost_jump(bc, n) is Some,
    ensures
        lost_jump(bc, m) == lost_jump(bc, n),
    decreases m - n,
{
    if n < m {
        lemma_lost_stays(bc, n, (m - 1) as nat);
    }
}

} // verus!
