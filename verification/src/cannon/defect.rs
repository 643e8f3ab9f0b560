//! Telling whether a function can be compiled.
//!
//! The generator takes bytecode without a defect. What is here looks for
//! one, in the order in which a generator would come upon them: the
//! parameters first, then the instructions one by one, then the jumps that
//! lead behind the last instruction.
use vstd::prelude::*;

use crate::bytecode::{Bytecode, BytecodeFunction, BytecodeOffset, ConstPoolEntry, Register};
use crate::cannon::laws::lemma_walk;
use crate::cannon::model::{
    defect, generated, initial, jump_target, lemma_astray, lemma_lost_jump, lemma_lost_stays,
    lemma_param_defect_stays, lemma_walk_defect_stays, lost_jump, operation, operation_at,
    param_defect, walk, walk_defect, CodegenError, Operation, MAX_PARAMS,
};
use crate::compiler::codegen::debug_wanted;
use crate::cpu::CondCode;
use crate::masm::IntOp;
use crate::ty::BytecodeType;
use crate::vm::{ClassDefId, Fct, FieldId, GlobalId, VM};

verus! {

/// The defect of an operation at `pos` whose operands `a`, `b` and `c`
/// must all have one type, if it has one.
fn same3_defect(
    vm: &VM,
    bc: &BytecodeFunction,
    pos: BytecodeOffset,
    a: Register,
    b: Register,
    c: Register,
) -> (r: Option<CodegenError>)
    ensures
        r == defect(vm, bc, pos, Operation::IntBinary(IntOp::Add, a, b, c)),
{
    if !(bc.has_register(a) && bc.has_register(b) && bc.has_register(c)) {
        return Some(CodegenError::UnknownRegister(pos));
    }
    if bc.register(b) != bc.register(c) || bc.register(b) != bc.register(a) {
        return Some(CodegenError::TypeMismatch(pos));
    }
    None
}

/// The defect of an operation at `pos` whose operands `a` and `b` must
/// have one type, if it has one.
fn same2_defect(vm: &VM, bc: &BytecodeFunction, pos: BytecodeOffset, a: Register, b: Register) -> (r:
    Option<CodegenError>)
    ensures
        r == defect(vm, bc, pos, Operation::Mov(a, b)),
{
    if !(bc.has_register(a) && bc.has_register(b)) {
        return Some(CodegenError::UnknownRegister(pos));
    }
    if bc.register(b) != bc.register(a) {
        return Some(CodegenError::TypeMismatch(pos));
    }
    None
}

/// The defect of an operation at `pos` whose operand `a` must have the
/// type `ty`, if it has one.
fn type_defect(bc: &BytecodeFunction, pos: BytecodeOffset, a: Register, ty: BytecodeType) -> (r:
    Option<CodegenError>)
    ensures
        r == (if !bc.declares(a) {
            Some(CodegenError::UnknownRegister(pos))
        } else if bc.registers@[a.0 as int] != ty {
            Some(CodegenError::TypeMismatch(pos))
        } else {
            None
        }),
{
    if !bc.has_register(a) {
        return Some(CodegenError::UnknownRegister(pos));
    }
    if bc.register(a) != ty {
        return Some(CodegenError::TypeMismatch(pos));
    }
    None
}

/// The defect of a load of an integer into `dest` at `pos`, if it has
/// one.
fn int_defect(vm: &VM, bc: &BytecodeFunction, pos: BytecodeOffset, dest: Register) -> (r: Option<
    CodegenError,
>)
    ensures
        r == defect(vm, bc, pos, Operation::ConstInt(dest, 0)),
{
    if !bc.has_register(dest) {
        return Some(CodegenError::UnknownRegister(pos));
    }
    let ty = bc.register(dest);
    if !(ty == BytecodeType::Char || ty == BytecodeType::Byte || ty == BytecodeType::Int || ty
        == BytecodeType::Long) {
        return Some(CodegenError::TypeMismatch(pos));
    }
    None
}

/// The defect of a load of a floating-point number into `dest` at `pos`,
/// if it has one.
fn float_defect(vm: &VM, bc: &BytecodeFunction, pos: BytecodeOffset, dest: Register) -> (r: Option<
    CodegenError,
>)
    ensures
        r == defect(vm, bc, pos, Operation::ConstFloat(dest, 0)),
{
    if !bc.has_register(dest) {
        return Some(CodegenError::UnknownRegister(pos));
    }
    let ty = bc.register(dest);
    if !(ty == BytecodeType::Float || ty == BytecodeType::Double) {
        return Some(CodegenError::TypeMismatch(pos));
    }
    None
}

/// The defect of an access at `pos` to the field `field_id` of the object
/// in `obj` with the value in `value`, if it has one.
fn field_defect(
    vm: &VM,
    bc: &BytecodeFunction,
    pos: BytecodeOffset,
    value: Register,
    obj: Register,
    class_def_id: ClassDefId,
    field_id: FieldId,
) -> (r: Option<CodegenError>)
    ensures
        r == defect(vm, bc, pos, Operation::LoadField(value, obj, class_def_id, field_id)),
{
    if !(bc.has_register(value) && bc.has_register(obj)) {
        return Some(CodegenError::UnknownRegister(pos));
    }
    if bc.register(obj) != BytecodeType::Ptr {
        return Some(CodegenError::TypeMismatch(pos));
    }
    if class_def_id.0 >= vm.class_defs.len() {
        return Some(CodegenError::UnknownEntity(pos));
    }
    let cls = &vm.class_defs[class_def_id.0];
    if field_id.idx() >= cls.fields.len() {
        return Some(CodegenError::UnknownEntity(pos));
    }
    let field = &cls.fields[field_id.idx()];
    if bc.register(value) != field.ty {
        return Some(CodegenError::TypeMismatch(pos));
    }
    None
}

/// The defect of an access at `pos` to the global variable `global_id`
/// with the value in `value`, if it has one.
fn global_defect(
    vm: &VM,
    bc: &BytecodeFunction,
    pos: BytecodeOffset,
    value: Register,
    global_id: GlobalId,
) -> (r: Option<CodegenError>)
    ensures
        r == defect(vm, bc, pos, Operation::LoadGlobal(value, global_id)),
{
    if !bc.has_register(value) {
        return Some(CodegenError::UnknownRegister(pos));
    }
    if global_id.0 >= vm.globals.len() {
        return Some(CodegenError::UnknownEntity(pos));
    }
    let glob = &vm.globals[global_id.0];
    if bc.register(value) != glob.ty {
        return Some(CodegenError::TypeMismatch(pos));
    }
    None
}

/// The defect of a comparison at `pos` of `lhs` and `rhs` into `dest`, if
/// it has one.
fn test_defect(
    vm: &VM,
    bc: &BytecodeFunction,
    pos: BytecodeOffset,
    dest: Register,
    lhs: Register,
    rhs: Register,
) -> (r: Option<CodegenError>)
    ensures
        r == defect(vm, bc, pos, Operation::Test(dest, lhs, rhs, CondCode::Equal)),
{
    if !(bc.has_register(dest) && bc.has_register(lhs) && bc.has_register(rhs)) {
        return Some(CodegenError::UnknownRegister(pos));
    }
    if bc.register(lhs) != bc.register(rhs) || bc.register(dest) != BytecodeType::Bool {
        return Some(CodegenError::TypeMismatch(pos));
    }
    None
}

/// The defect of a jump at `pos` to the position `target`, if it has one.
fn jump_defect(vm: &VM, bc: &BytecodeFunction, pos: BytecodeOffset, target: i64) -> (r: Option<
    CodegenError,
>)
    ensures
        r == defect(vm, bc, pos, Operation::Jump(target as int)),
{
    if target < 0 || target > 0xffff_ffff {
        return Some(CodegenError::JumpOutOfRange(pos));
    }
    None
}

/// The defect of a jump at `pos` to the position `target` that goes by
/// the boolean in `src`, if it has one.
fn jump_if_defect(
    vm: &VM,
    bc: &BytecodeFunction,
    pos: BytecodeOffset,
    src: Register,
    target: i64,
) -> (r: Option<CodegenError>)
    ensures
        r == defect(vm, bc, pos, Operation::JumpIf(src, target as int, false)),
{
    match type_defect(bc, pos, src, BytecodeType::Bool) {
        Some(e) => Some(e),
        None => jump_defect(vm, bc, pos, target),
    }
}

/// The defect of the instruction `inst` at the position `pos`, if it has
/// one.
#[verifier::rlimit(100)]
pub fn defect_at(vm: &VM, bc: &BytecodeFunction, pos: BytecodeOffset, inst: &Bytecode) -> (r:
    Option<CodegenError>)
    ensures
        r == defect(vm, bc, pos, operation(bc, pos.0 as int, *inst)),
{
    let at: i64 = pos.0 as i64;
    match *inst {
        Bytecode::AddInt(dest, lhs, rhs)
        | Bytecode::AddLong(dest, lhs, rhs)
        | Bytecode::AddFloat(dest, lhs, rhs)
        | Bytecode::AddDouble(dest, lhs, rhs)
        | Bytecode::SubInt(dest, lhs, rhs)
        | Bytecode::SubLong(dest, lhs, rhs)
        | Bytecode::SubFloat(dest, lhs, rhs)
        | Bytecode::SubDouble(dest, lhs, rhs)
        | Bytecode::MulInt(dest, lhs, rhs)
        | Bytecode::MulLong(dest, lhs, rhs)
        | Bytecode::MulFloat(dest, lhs, rhs)
        | Bytecode::MulDouble(dest, lhs, rhs)
        | Bytecode::DivInt(dest, lhs, rhs)
        | Bytecode::DivLong(dest, lhs, rhs)
        | Bytecode::DivFloat(dest, lhs, rhs)
        | Bytecode::DivDouble(dest, lhs, rhs)
        | Bytecode::ModInt(dest, lhs, rhs)
        | Bytecode::ModLong(dest, lhs, rhs)
        | Bytecode::AndInt(dest, lhs, rhs)
        | Bytecode::AndLong(dest, lhs, rhs)
        | Bytecode::OrInt(dest, lhs, rhs)
        | Bytecode::OrLong(dest, lhs, rhs)
        | Bytecode::XorInt(dest, lhs, rhs)
        | Bytecode::XorLong(dest, lhs, rhs)
        | Bytecode::ShlInt(dest, lhs, rhs)
        | Bytecode::ShlLong(dest, lhs, rhs)
        | Bytecode::ShrInt(dest, lhs, rhs)
        | Bytecode::ShrLong(dest, lhs, rhs)
        | Bytecode::SarInt(dest, lhs, rhs)
        | Bytecode::SarLong(dest, lhs, rhs) => same3_defect(vm, bc, pos, dest, lhs, rhs),
        Bytecode::NegInt(dest, src)
        | Bytecode::NegLong(dest, src)
        | Bytecode::NotBool(dest, src)
        | Bytecode::MovBool(dest, src)
        | Bytecode::MovByte(dest, src)
        | Bytecode::MovChar(dest, src)
        | Bytecode::MovInt(dest, src)
        | Bytecode::MovInt64(dest, src)
        | Bytecode::MovFloat(dest, src)
        | Bytecode::MovDouble(dest, src)
        | Bytecode::MovPtr(dest, src) => same2_defect(vm, bc, pos, dest, src),
        Bytecode::LoadFieldBool(value, obj, class_def_id, field_id)
        | Bytecode::LoadFieldUInt8(value, obj, class_def_id, field_id)
        | Bytecode::LoadFieldChar(value, obj, class_def_id, field_id)
        | Bytecode::LoadFieldInt(value, obj, class_def_id, field_id)
        | Bytecode::LoadFieldInt64(value, obj, class_def_id, field_id)
        | Bytecode::LoadFieldFloat(value, obj, class_def_id, field_id)
        | Bytecode::LoadFieldDouble(value, obj, class_def_id, field_id)
        | Bytecode::LoadFieldPtr(value, obj, class_def_id, field_id)
        | Bytecode::StoreFieldBool(value, obj, class_def_id, field_id)
        | Bytecode::StoreFieldUInt8(value, obj, class_def_id, field_id)
        | Bytecode::StoreFieldChar(value, obj, class_def_id, field_id)
        | Bytecode::StoreFieldInt(value, obj, class_def_id, field_id)
        | Bytecode::StoreFieldInt64(value, obj, class_def_id, field_id)
        | Bytecode::StoreFieldFloat(value, obj, class_def_id, field_id)
        | Bytecode::StoreFieldDouble(value, obj, class_def_id, field_id)
        | Bytecode::StoreFieldPtr(value, obj, class_def_id, field_id) => {
            field_defect(vm, bc, pos, value, obj, class_def_id, field_id)
        },
        Bytecode::LoadGlobalBool(value, global_id)
        | Bytecode::LoadGlobalByte(value, global_id)
        | Bytecode::LoadGlobalChar(value, global_id)
        | Bytecode::LoadGlobalInt(value, global_id)
        | Bytecode::LoadGlobalLong(value, global_id)
        | Bytecode::LoadGlobalFloat(value, global_id)
        | Bytecode::LoadGlobalDouble(value, global_id)
        | Bytecode::LoadGlobalPtr(value, global_id)
        | Bytecode::StoreGlobalBool(value, global_id)
        | Bytecode::StoreGlobalByte(value, global_id)
        | Bytecode::StoreGlobalChar(value, global_id)
        | Bytecode::StoreGlobalInt(value, global_id)
        | Bytecode::StoreGlobalLong(value, global_id)
        | Bytecode::StoreGlobalFloat(value, global_id)
        | Bytecode::StoreGlobalDouble(value, global_id)
        | Bytecode::StoreGlobalPtr(value, global_id) => {
            global_defect(vm, bc, pos, value, global_id)
        },
        Bytecode::ConstNil(dest) => type_defect(bc, pos, dest, BytecodeType::Ptr),
        Bytecode::ConstTrue(dest) | Bytecode::ConstFalse(dest) => {
            type_defect(bc, pos, dest, BytecodeType::Bool)
        },
        Bytecode::ConstZeroByte(dest)
        | Bytecode::ConstZeroChar(dest)
        | Bytecode::ConstZeroInt(dest)
        | Bytecode::ConstZeroLong(dest)
        | Bytecode::ConstUInt8(dest, _) => int_defect(vm, bc, pos, dest),
        Bytecode::ConstChar(dest, idx) => match bc.const_pool(idx) {
            Some(ConstPoolEntry::Char(_)) => int_defect(vm, bc, pos, dest),
            _ => Some(CodegenError::UnknownEntity(pos)),
        },
        Bytecode::ConstInt(dest, idx) => match bc.const_pool(idx) {
            Some(ConstPoolEntry::Int(_)) => int_defect(vm, bc, pos, dest),
            _ => Some(CodegenError::UnknownEntity(pos)),
        },
        Bytecode::ConstInt64(dest, idx) => match bc.const_pool(idx) {
            Some(ConstPoolEntry::Int64(_)) => int_defect(vm, bc, pos, dest),
            _ => Some(CodegenError::UnknownEntity(pos)),
        },
        Bytecode::ConstZeroFloat(dest) | Bytecode::ConstZeroDouble(dest) => {
            float_defect(vm, bc, pos, dest)
        },
        Bytecode::ConstFloat(dest, idx) => match bc.const_pool(idx) {
            Some(ConstPoolEntry::Float32(_)) => float_defect(vm, bc, pos, dest),
            _ => Some(CodegenError::UnknownEntity(pos)),
        },
        Bytecode::ConstDouble(dest, idx) => match bc.const_pool(idx) {
            Some(ConstPoolEntry::Float64(_)) => float_defect(vm, bc, pos, dest),
            _ => Some(CodegenError::UnknownEntity(pos)),
        },
        Bytecode::ConstString(dest, idx) => match bc.const_pool(idx) {
            Some(ConstPoolEntry::String(_)) => type_defect(bc, pos, dest, BytecodeType::Ptr),
            _ => Some(CodegenError::UnknownEntity(pos)),
        },
        Bytecode::TestEqPtr(dest, lhs, rhs)
        | Bytecode::TestEqBool(dest, lhs, rhs)
        | Bytecode::TestEqByte(dest, lhs, rhs)
        | Bytecode::TestEqChar(dest, lhs, rhs)
        | Bytecode::TestEqEnum(dest, lhs, rhs)
        | Bytecode::TestEqInt(dest, lhs, rhs)
        | Bytecode::TestEqInt64(dest, lhs, rhs)
        | Bytecode::TestEqFloat(dest, lhs, rhs)
        | Bytecode::TestEqDouble(dest, lhs, rhs)
        | Bytecode::TestNePtr(dest, lhs, rhs)
        | Bytecode::TestNeBool(dest, lhs, rhs)
        | Bytecode::TestNeByte(dest, lhs, rhs)
        | Bytecode::TestNeChar(dest, lhs, rhs)
        | Bytecode::TestNeEnum(dest, lhs, rhs)
        | Bytecode::TestNeInt(dest, lhs, rhs)
        | Bytecode::TestNeInt64(dest, lhs, rhs)
        | Bytecode::TestNeFloat(dest, lhs, rhs)
        | Bytecode::TestNeDouble(dest, lhs, rhs)
        | Bytecode::TestGtByte(dest, lhs, rhs)
        | Bytecode::TestGtChar(dest, lhs, rhs)
        | Bytecode::TestGtInt(dest, lhs, rhs)
        | Bytecode::TestGtInt64(dest, lhs, rhs)
        | Bytecode::TestGtFloat(dest, lhs, rhs)
        | Bytecode::TestGtDouble(dest, lhs, rhs)
        | Bytecode::TestGeByte(dest, lhs, rhs)
        | Bytecode::TestGeChar(dest, lhs, rhs)
        | Bytecode::TestGeInt(dest, lhs, rhs)
        | Bytecode::TestGeInt64(dest, lhs, rhs)
        | Bytecode::TestGeFloat(dest, lhs, rhs)
        | Bytecode::TestGeDouble(dest, lhs, rhs)
        | Bytecode::TestLtByte(dest, lhs, rhs)
        | Bytecode::TestLtChar(dest, lhs, rhs)
        | Bytecode::TestLtInt(dest, lhs, rhs)
        | Bytecode::TestLtInt64(dest, lhs, rhs)
        | Bytecode::TestLtFloat(dest, lhs, rhs)
        | Bytecode::TestLtDouble(dest, lhs, rhs)
        | Bytecode::TestLeByte(dest, lhs, rhs)
        | Bytecode::TestLeChar(dest, lhs, rhs)
        | Bytecode::TestLeInt(dest, lhs, rhs)
        | Bytecode::TestLeInt64(dest, lhs, rhs)
        | Bytecode::TestLeFloat(dest, lhs, rhs)
        | Bytecode::TestLeDouble(dest, lhs, rhs) => test_defect(vm, bc, pos, dest, lhs, rhs),
        Bytecode::JumpIfFalse(src, distance) | Bytecode::JumpIfTrue(src, distance) => {
            jump_if_defect(vm, bc, pos, src, at + distance as i64)
        },
        Bytecode::JumpIfFalseConst(src, idx) | Bytecode::JumpIfTrueConst(src, idx) => {
            match bc.const_pool(idx) {
                Some(ConstPoolEntry::Int(distance)) => {
                    jump_if_defect(vm, bc, pos, src, at + *distance as i64)
                },
                _ => Some(CodegenError::UnknownEntity(pos)),
            }
        },
        Bytecode::Jump(distance) => jump_defect(vm, bc, pos, at + distance as i64),
        Bytecode::JumpLoop(distance) => jump_defect(vm, bc, pos, at - distance as i64),
        Bytecode::JumpConst(idx) => match bc.const_pool(idx) {
            Some(ConstPoolEntry::Int(distance)) => jump_defect(vm, bc, pos, at + *distance as i64),
            _ => Some(CodegenError::UnknownEntity(pos)),
        },
        Bytecode::RetBool(src)
        | Bytecode::RetByte(src)
        | Bytecode::RetChar(src)
        | Bytecode::RetInt(src)
        | Bytecode::RetInt64(src)
        | Bytecode::RetFloat(src)
        | Bytecode::RetDouble(src)
        | Bytecode::RetPtr(src) => {
            if bc.has_register(src) {
                None
            } else {
                Some(CodegenError::UnknownRegister(pos))
            }
        },
        Bytecode::RetVoid => None,
        _ => Some(CodegenError::NotImplemented(pos)),
    }
}

/// The position to which the instruction `inst` at the position `pos`
/// jumps, if it is a jump.
pub fn jump_target_at(bc: &BytecodeFunction, pos: BytecodeOffset, inst: &Bytecode) -> (r: Option<
    i64,
>)
    ensures
        r matches Some(target) ==> jump_target(operation(bc, pos.0 as int, *inst)) == Some(
            target as int,
        ),
        r is None ==> jump_target(operation(bc, pos.0 as int, *inst)) is None,
{
    let at: i64 = pos.0 as i64;
    match *inst {
        Bytecode::JumpIfFalse(_, distance)
        | Bytecode::JumpIfTrue(_, distance)
        | Bytecode::Jump(distance) => Some(at + distance as i64),
        Bytecode::JumpLoop(distance) => Some(at - distance as i64),
        Bytecode::JumpIfFalseConst(_, idx)
        | Bytecode::JumpIfTrueConst(_, idx)
        | Bytecode::JumpConst(idx) => match bc.const_pool(idx) {
            Some(ConstPoolEntry::Int(distance)) => Some(at + *distance as i64),
            _ => None,
        },
        _ => None,
    }
}

/// What stands in the way of compiling the function `fct` with the
/// bytecode `bytecode`, if anything does: the first parameter without its
/// register, else the defect of the first instruction that has one, else
/// the first jump whose target holds no instruction.
///
/// Nothing is generated here. Where the result is `None`, the generator
/// can be run on the function.
#[verifier::loop_isolation(false)]
pub fn first_defect(vm: &VM, fct: &Fct, bytecode: &BytecodeFunction) -> (r: Option<CodegenError>)
    requires
        bytecode.wf(),
        fct.params@.len() <= MAX_PARAMS,
    ensures
        r == (match generated(debug_wanted(vm, fct), vm, fct, bytecode) {
            Err(e) => Some(e),
            Ok(_) => None,
        }),
{
    let ghost debug = debug_wanted(vm, fct);
    let params = fct.params_with_self();
    let ghost ps = fct.params@;
    let mut idx: usize = 0;
    while idx < params.len()
        invariant
            params@ == ps,
            idx <= ps.len(),
            param_defect(bytecode, ps, idx as nat) is None,
        decreases ps.len() - idx,
    {
        let dest = Register(idx);
        if !bytecode.has_register(dest) || bytecode.register(dest) != params[idx] {
            proof {
                lemma_param_defect_stays(bytecode, ps, idx as nat + 1, ps.len());
            }
            return Some(CodegenError::Parameter(idx));
        }
        idx += 1;
    }

    let code = bytecode.code();
    let ghost count = code@.len();
    idx = 0;
    while idx < code.len()
        invariant
            bytecode.wf(),
            code == bytecode.code,
            count == code@.len(),
            idx <= count,
            walk_defect(vm, bytecode, idx as nat) is None,
        decreases count - idx,
    {
        match defect_at(vm, bytecode, BytecodeOffset(idx as u32), &code[idx]) {
            Some(e) => {
                proof {
                    assert(walk_defect(vm, bytecode, idx as nat + 1) == Some(e));
                    lemma_walk_defect_stays(vm, bytecode, idx as nat + 1, count);
                }
                return Some(e);
            },
            None => {},
        }
        idx += 1;
    }

    proof {
        lemma_walk(debug, vm, fct, bytecode, count);
        lemma_lost_jump(debug, vm, fct, bytecode, count);
        let g = walk(initial(debug, fct, bytecode), vm, bytecode, count);
        lemma_astray(g, count as int, g.forward.len());
    }
    idx = 0;
    while idx < code.len()
        invariant
            bytecode.wf(),
            code == bytecode.code,
            count == code@.len(),
            idx <= count,
            walk_defect(vm, bytecode, count) is None,
            lost_jump(bytecode, idx as nat) is None,
        decreases count - idx,
    {
        proof {
            if walk_defect(vm, bytecode, idx as nat + 1) is Some {
                lemma_walk_defect_stays(vm, bytecode, idx as nat + 1, count);
            }
            assert(walk_defect(vm, bytecode, idx as nat) is None);
            assert(defect(
                vm,
                bytecode,
                BytecodeOffset(idx as u32),
                operation_at(bytecode, idx as int),
            ) is None);
        }
        match jump_target_at(bytecode, BytecodeOffset(idx as u32), &code[idx]) {
            Some(target) => {
                if target >= code.len() as i64 {
                    proof {
                        lemma_lost_stays(bytecode, idx as nat + 1, count);
                    }
                    return Some(CodegenError::MissingJumpTarget(BytecodeOffset(target as u32)));
                }
            },
            None => {},
        }
        idx += 1;
    }
    None
}

} // verus!
