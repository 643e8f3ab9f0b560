//! The baseline code generator: walks the bytecode of a function once and
//! emits the code of each instruction as it comes.
//!
//! What it produces is stated in [`crate::cannon::model`]: each function
//! here generates the code of one operation and says so by [`stepped`].
//! The generator does not look for defects in what it compiles: it takes
//! bytecode that has none, and
//! [`first_defect`](crate::cannon::defect::first_defect) finds the first
//! where there is one.
use std::collections::HashMap;
use vstd::prelude::*;

use crate::bytecode::{
    Bytecode, BytecodeFunction, BytecodeOffset, ConstPoolEntry, ConstPoolIdx, Register,
};
use crate::cannon::model::{
    defect, effect, epilog, float_params, generated, initial, int_params, lemma_effect, lemma_entry,
    lemma_missing_stays, lemma_param_defect_stays, lemma_resolved, lemma_walk_defect_stays, linked,
    missing_target, operation, operation_at, param_defect, param_ok, params_code, ptr_slots,
    resolve_label, resolved, result_store, sized, stack_params, visit, walk, walk_defect,
    CodegenError, ForwardJump, GenView, Operation, MAX_PARAMS,
};
use crate::compiler::codegen::{debug_wanted, should_emit_debug};
use crate::compiler::fct::{GcPoint, JitDescriptor};
use crate::cpu::{
    freg_params, reg_params, CondCode, ExprStore, Mem, Trap, FREG_PARAMS_LEN, FREG_RESULT,
    FREG_TMP1, PARAM_OFFSET, PARAM_SLOT, REG_PARAMS_LEN, REG_RESULT, REG_TMP1,
};
use crate::masm::{Assembly, AssemblyView, BaselineAssembler, Comment, FloatOp, IntOp, Label};
use crate::ty::{BytecodeType, TypeList};
use crate::vm::{ClassDefId, Fct, FieldId, GlobalId, VM};

verus! {

broadcast use {
    vstd::std_specs::hash::group_hash_axioms,
    crate::masm::group_masm_wf,
};

/// The baseline code generator for one function.
pub struct CannonCodeGen<'a> {
    pub vm: &'a VM,
    pub fct: &'a Fct,
    pub masm: BaselineAssembler,
    pub bytecode: &'a BytecodeFunction,
    pub cls_type_params: &'a TypeList,
    pub fct_type_params: &'a TypeList,
    /// The address at which the code of each position begins.
    pub bytecode_to_address: HashMap<u32, usize>,
    /// The jumps that wait for their targets.
    pub forward_jumps: Vec<ForwardJump>,
    /// The position of the instruction whose code is generated.
    pub current_pos: Option<BytecodeOffset>,
}

impl<'a> View for CannonCodeGen<'a> {
    type V = GenView;

    open spec fn view(&self) -> GenView {
        GenView {
            masm: self.masm@,
            addresses: self.bytecode_to_address@,
            forward: self.forward_jumps@,
        }
    }
}

/// The scratch register for values of the type `bytecode_type`.
fn result_reg(bytecode_type: BytecodeType) -> (reg: ExprStore)
    ensures
        reg == result_store(bytecode_type),
{
    if bytecode_type.mode().is_float() {
        ExprStore::FReg(FREG_RESULT())
    } else {
        ExprStore::Reg(REG_RESULT())
    }
}

impl<'a> CannonCodeGen<'a> {
    /// The generator is about to generate the code of the instruction at
    /// its current position, whose address it has recorded.
    pub open spec fn ready(&self) -> bool {
        &&& self.bytecode.wf()
        &&& self.masm.wf()
        &&& self.current_pos matches Some(pos) && pos.0 < self.bytecode.code@.len()
            && self@.addresses.contains_key(pos.0) && linked(self@, pos.0 + 1) && sized(
            self@,
            self.fct.params@.len(),
            pos.0 as int,
        )
    }

    /// The same function is being compiled with the same tables.
    pub open spec fn same_task(&self, before: &Self) -> bool {
        &&& self.vm == before.vm
        &&& self.fct == before.fct
        &&& self.bytecode == before.bytecode
        &&& self.cls_type_params == before.cls_type_params
        &&& self.fct_type_params == before.fct_type_params
        &&& self.current_pos == before.current_pos
    }

    /// The defect of the operation `op` at the current position, if it has
    /// one.
    pub open spec fn defect_of(&self, op: Operation) -> Option<CodegenError> {
        defect(self.vm, self.bytecode, self.current_pos.unwrap(), op)
    }

    /// What a function that generates the code of the operation `op` has
    /// done to the generator, which was `before`: the effect of the
    /// operation, and nothing else.
    pub open spec fn stepped(&self, before: &Self, op: Operation) -> bool {
        &&& self.same_task(before)
        &&& self.masm.wf()
        &&& self@ == effect(before@, before.vm, before.bytecode, before.current_pos.unwrap(), op)
    }

    /// A generator for the function `fct` with the bytecode `bytecode`,
    /// which emits to `masm`.
    pub fn new(
        vm: &'a VM,
        fct: &'a Fct,
        masm: BaselineAssembler,
        bytecode: &'a BytecodeFunction,
        cls_type_params: &'a TypeList,
        fct_type_params: &'a TypeList,
    ) -> (gen: CannonCodeGen<'a>)
        ensures
            gen.vm == vm,
            gen.fct == fct,
            gen.masm == masm,
            gen.bytecode == bytecode,
            gen.cls_type_params == cls_type_params,
            gen.fct_type_params == fct_type_params,
            gen@.addresses == Map::<u32, usize>::empty(),
            gen@.forward == Seq::<ForwardJump>::empty(),
            gen.current_pos is None,
    {
        CannonCodeGen {
            vm,
            fct,
            masm,
            bytecode,
            cls_type_params,
            fct_type_params,
            bytecode_to_address: HashMap::new(),
            forward_jumps: Vec::new(),
            current_pos: None,
        }
    }

    /// Generates the code of the function.
    ///
    /// The function is one that can be compiled: its parameters have their
    /// registers, none of its instructions has a defect and each of its
    /// jumps leads to an instruction. The result is the code that
    /// [`generated`] describes.
    /// [`first_defect`](crate::cannon::defect::first_defect) tells whether
    /// a function is such a one.
    pub fn generate(self) -> (code: Assembly)
        requires
            self.bytecode.wf(),
            self.fct.params@.len() <= MAX_PARAMS,
            self.masm.wf(),
            self.masm@ == crate::cannon::model::blank(),
            self@.addresses == Map::<u32, usize>::empty(),
            self@.forward == Seq::<ForwardJump>::empty(),
            generated(debug_wanted(self.vm, self.fct), self.vm, self.fct, self.bytecode) is Ok,
        ensures
            generated(debug_wanted(self.vm, self.fct), self.vm, self.fct, self.bytecode) == Ok::<
                AssemblyView,
                CodegenError,
            >(code@),
    {
        let mut gen = self;
        let ghost debug = debug_wanted(gen.vm, gen.fct);
        if should_emit_debug(gen.vm, gen.fct) {
            gen.masm.debug();
        }

        gen.emit_prolog();
        gen.store_params_on_stack();
        proof {
            lemma_entry(debug, gen.fct, gen.bytecode);
            assert(gen@ == initial(debug, gen.fct, gen.bytecode));
        }

        gen.current_pos = Some(BytecodeOffset(0));
        let code = gen.bytecode.code();
        let mut idx: usize = 0;
        while idx < code.len()
            invariant
                gen.vm == self.vm,
                gen.fct == self.fct,
                gen.bytecode == self.bytecode,
                code == gen.bytecode.code,
                gen.bytecode.wf(),
                gen.fct.params@.len() <= MAX_PARAMS,
                debug == debug_wanted(gen.vm, gen.fct),
                idx <= code@.len(),
                gen.current_pos == Some(BytecodeOffset(idx as u32)),
                gen.masm.wf(),
                linked(gen@, idx as int),
                sized(gen@, gen.fct.params@.len(), idx as int),
                walk_defect(gen.vm, gen.bytecode, code@.len()) is None,
                gen@ == walk(initial(debug, gen.fct, gen.bytecode), gen.vm, gen.bytecode, idx as nat),
            decreases code@.len() - idx,
        {
            let ghost before = gen@;
            gen.bytecode_to_address.insert(gen.pos().0, gen.masm.pos());
            proof {
                crate::cannon::model::lemma_visit(before, idx as u32);
                if walk_defect(gen.vm, gen.bytecode, idx as nat + 1) is Some {
                    lemma_walk_defect_stays(gen.vm, gen.bytecode, idx as nat + 1, code@.len());
                }
                assert(walk_defect(gen.vm, gen.bytecode, idx as nat) is None);
            }

            gen.emit_bytecode(&code[idx]);
            proof {
                lemma_effect(
                    visit(before, idx as u32),
                    gen.vm,
                    gen.bytecode,
                    gen.fct.params@.len(),
                    BytecodeOffset(idx as u32),
                    operation_at(gen.bytecode, idx as int),
                );
            }

            gen.pos_inc();
            idx += 1;
        }
        gen.resolve_forward_jumps();

        gen.masm.jit(gen.bytecode.stacksize(), JitDescriptor::DoraFct(gen.fct.id), gen.fct.throws)
    }

    /// Generates the code of the instruction `inst`, which stands at the
    /// current position.
    #[verifier::rlimit(100)]
    pub fn emit_bytecode(&mut self, inst: &Bytecode)
        requires
            old(self).ready(),
            old(self).defect_of(operation(old(self).bytecode, old(self).current_pos.unwrap().0 as int, *inst)) is None,
        ensures
            final(self).stepped(old(self), operation(old(self).bytecode, old(self).current_pos.unwrap().0 as int, *inst)),
    {
        let pos: i64 = self.pos().0 as i64;
        match *inst {
            Bytecode::AddInt(dest, lhs, rhs) | Bytecode::AddLong(dest, lhs, rhs) => {
                self.emit_add_int(dest, lhs, rhs)
            },
            Bytecode::AddFloat(dest, lhs, rhs) | Bytecode::AddDouble(dest, lhs, rhs) => {
                self.emit_add_float(dest, lhs, rhs)
            },
            Bytecode::SubInt(dest, lhs, rhs) | Bytecode::SubLong(dest, lhs, rhs) => {
                self.emit_sub_int(dest, lhs, rhs)
            },
            Bytecode::SubFloat(dest, lhs, rhs) | Bytecode::SubDouble(dest, lhs, rhs) => {
                self.emit_sub_float(dest, lhs, rhs)
            },
            Bytecode::NegInt(dest, src) | Bytecode::NegLong(dest, src) => {
                self.emit_neg_int(dest, src)
            },
            Bytecode::MulInt(dest, lhs, rhs) | Bytecode::MulLong(dest, lhs, rhs) => {
                self.emit_mul_int(dest, lhs, rhs)
            },
            Bytecode::MulFloat(dest, lhs, rhs) | Bytecode::MulDouble(dest, lhs, rhs) => {
                self.emit_mul_float(dest, lhs, rhs)
            },
            Bytecode::DivInt(dest, lhs, rhs) | Bytecode::DivLong(dest, lhs, rhs) => {
                self.emit_div_int(dest, lhs, rhs)
            },
            Bytecode::DivFloat(dest, lhs, rhs) | Bytecode::DivDouble(dest, lhs, rhs) => {
                self.emit_div_float(dest, lhs, rhs)
            },
            Bytecode::ModInt(dest, lhs, rhs) | Bytecode::ModLong(dest, lhs, rhs) => {
                self.emit_mod_int(dest, lhs, rhs)
            },
            Bytecode::AndInt(dest, lhs, rhs) | Bytecode::AndLong(dest, lhs, rhs) => {
                self.emit_and_int(dest, lhs, rhs)
            },
            Bytecode::OrInt(dest, lhs, rhs) | Bytecode::OrLong(dest, lhs, rhs) => {
                self.emit_or_int(dest, lhs, rhs)
            },
            Bytecode::XorInt(dest, lhs, rhs) | Bytecode::XorLong(dest, lhs, rhs) => {
                self.emit_xor_int(dest, lhs, rhs)
            },
            Bytecode::NotBool(dest, src) => self.emit_not_bool(dest, src),
            Bytecode::ShlInt(dest, lhs, rhs) | Bytecode::ShlLong(dest, lhs, rhs) => {
                self.emit_shl_int(dest, lhs, rhs)
            },
            Bytecode::ShrInt(dest, lhs, rhs) | Bytecode::ShrLong(dest, lhs, rhs) => {
                self.emit_shr_int(dest, lhs, rhs)
            },
            Bytecode::SarInt(dest, lhs, rhs) | Bytecode::SarLong(dest, lhs, rhs) => {
                self.emit_sar_int(dest, lhs, rhs)
            },
            Bytecode::MovBool(dest, src)
            | Bytecode::MovByte(dest, src)
            | Bytecode::MovChar(dest, src)
            | Bytecode::MovInt(dest, src)
            | Bytecode::MovInt64(dest, src)
            | Bytecode::MovFloat(dest, src)
            | Bytecode::MovDouble(dest, src)
            | Bytecode::MovPtr(dest, src) => self.emit_mov_generic(dest, src),
            Bytecode::LoadFieldBool(dest, obj, class_def_id, field_id)
            | Bytecode::LoadFieldUInt8(dest, obj, class_def_id, field_id)
            | Bytecode::LoadFieldChar(dest, obj, class_def_id, field_id)
            | Bytecode::LoadFieldInt(dest, obj, class_def_id, field_id)
            | Bytecode::LoadFieldInt64(dest, obj, class_def_id, field_id)
            | Bytecode::LoadFieldFloat(dest, obj, class_def_id, field_id)
            | Bytecode::LoadFieldDouble(dest, obj, class_def_id, field_id)
            | Bytecode::LoadFieldPtr(dest, obj, class_def_id, field_id) => {
                self.emit_load_field(dest, obj, class_def_id, field_id)
            },
            Bytecode::StoreFieldBool(src, obj, class_def_id, field_id)
            | Bytecode::StoreFieldUInt8(src, obj, class_def_id, field_id)
            | Bytecode::StoreFieldChar(src, obj, class_def_id, field_id)
            | Bytecode::StoreFieldInt(src, obj, class_def_id, field_id)
            | Bytecode::StoreFieldInt64(src, obj, class_def_id, field_id)
            | Bytecode::StoreFieldFloat(src, obj, class_def_id, field_id)
            | Bytecode::StoreFieldDouble(src, obj, class_def_id, field_id)
            | Bytecode::StoreFieldPtr(src, obj, class_def_id, field_id) => {
                self.emit_store_field(src, obj, class_def_id, field_id)
            },
            Bytecode::LoadGlobalBool(dest, global_id)
            | Bytecode::LoadGlobalByte(dest, global_id)
            | Bytecode::LoadGlobalChar(dest, global_id)
            | Bytecode::LoadGlobalInt(dest, global_id)
            | Bytecode::LoadGlobalLong(dest, global_id)
            | Bytecode::LoadGlobalFloat(dest, global_id)
            | Bytecode::LoadGlobalDouble(dest, global_id)
            | Bytecode::LoadGlobalPtr(dest, global_id) => {
                self.emit_load_global_field(dest, global_id)
            },
            Bytecode::StoreGlobalBool(src, global_id)
            | Bytecode::StoreGlobalByte(src, global_id)
            | Bytecode::StoreGlobalChar(src, global_id)
            | Bytecode::StoreGlobalInt(src, global_id)
            | Bytecode::StoreGlobalLong(src, global_id)
            | Bytecode::StoreGlobalFloat(src, global_id)
            | Bytecode::StoreGlobalDouble(src, global_id)
            | Bytecode::StoreGlobalPtr(src, global_id) => {
                self.emit_store_global_field(src, global_id)
            },
            Bytecode::ConstNil(dest) => self.emit_const_nil(dest),
            Bytecode::ConstTrue(dest) => self.emit_const_bool(dest, true),
            Bytecode::ConstFalse(dest) => self.emit_const_bool(dest, false),
            Bytecode::ConstZeroByte(dest)
            | Bytecode::ConstZeroChar(dest)
            | Bytecode::ConstZeroInt(dest)
            | Bytecode::ConstZeroLong(dest) => self.emit_const_int(dest, 0),
            Bytecode::ConstUInt8(dest, value) => self.emit_const_int(dest, value as i64),
            Bytecode::ConstChar(dest, idx) => match self.bytecode.const_pool(idx) {
                Some(ConstPoolEntry::Char(value)) => self.emit_const_int(dest, *value as i64),
                _ => vstd::pervasive::unreached(),
            },
            Bytecode::ConstInt(dest, idx) => match self.bytecode.const_pool(idx) {
                Some(ConstPoolEntry::Int(value)) => self.emit_const_int(dest, *value as i64),
                _ => vstd::pervasive::unreached(),
            },
            Bytecode::ConstInt64(dest, idx) => match self.bytecode.const_pool(idx) {
                Some(ConstPoolEntry::Int64(value)) => self.emit_const_int(dest, *value),
                _ => vstd::pervasive::unreached(),
            },
            Bytecode::ConstZeroFloat(dest) | Bytecode::ConstZeroDouble(dest) => {
                self.emit_const_float(dest, 0)
            },
            Bytecode::ConstFloat(dest, idx) => match self.bytecode.const_pool(idx) {
                Some(ConstPoolEntry::Float32(bits)) => self.emit_const_float(dest, *bits as u64),
                _ => vstd::pervasive::unreached(),
            },
            Bytecode::ConstDouble(dest, idx) => match self.bytecode.const_pool(idx) {
                Some(ConstPoolEntry::Float64(bits)) => self.emit_const_float(dest, *bits),
                _ => vstd::pervasive::unreached(),
            },
            Bytecode::ConstString(dest, sp) => match self.bytecode.const_pool(sp) {
                Some(ConstPoolEntry::String(_)) => self.emit_const_string(dest, sp),
                _ => vstd::pervasive::unreached(),
            },
            Bytecode::TestEqPtr(dest, lhs, rhs)
            | Bytecode::TestEqBool(dest, lhs, rhs)
            | Bytecode::TestEqByte(dest, lhs, rhs)
            | Bytecode::TestEqChar(dest, lhs, rhs)
            | Bytecode::TestEqEnum(dest, lhs, rhs)
            | Bytecode::TestEqInt(dest, lhs, rhs)
            | Bytecode::TestEqInt64(dest, lhs, rhs) => {
                self.emit_test_generic(dest, lhs, rhs, CondCode::Equal)
            },
            Bytecode::TestNePtr(dest, lhs, rhs)
            | Bytecode::TestNeBool(dest, lhs, rhs)
            | Bytecode::TestNeByte(dest, lhs, rhs)
            | Bytecode::TestNeChar(dest, lhs, rhs)
            | Bytecode::TestNeEnum(dest, lhs, rhs)
            | Bytecode::TestNeInt(dest, lhs, rhs)
            | Bytecode::TestNeInt64(dest, lhs, rhs) => {
                self.emit_test_generic(dest, lhs, rhs, CondCode::NotEqual)
            },
            Bytecode::TestGtByte(dest, lhs, rhs)
            | Bytecode::TestGtChar(dest, lhs, rhs)
            | Bytecode::TestGtInt(dest, lhs, rhs)
            | Bytecode::TestGtInt64(dest, lhs, rhs) => {
                self.emit_test_generic(dest, lhs, rhs, CondCode::Greater)
            },
            Bytecode::TestGeByte(dest, lhs, rhs)
            | Bytecode::TestGeChar(dest, lhs, rhs)
            | Bytecode::TestGeInt(dest, lhs, rhs)
            | Bytecode::TestGeInt64(dest, lhs, rhs) => {
                self.emit_test_generic(dest, lhs, rhs, CondCode::GreaterEq)
            },
            Bytecode::TestLtByte(dest, lhs, rhs)
            | Bytecode::TestLtChar(dest, lhs, rhs)
            | Bytecode::TestLtInt(dest, lhs, rhs)
            | Bytecode::TestLtInt64(dest, lhs, rhs) => {
                self.emit_test_generic(dest, lhs, rhs, CondCode::Less)
            },
            Bytecode::TestLeByte(dest, lhs, rhs)
            | Bytecode::TestLeChar(dest, lhs, rhs)
            | Bytecode::TestLeInt(dest, lhs, rhs)
            | Bytecode::TestLeInt64(dest, lhs, rhs) => {
                self.emit_test_generic(dest, lhs, rhs, CondCode::LessEq)
            },
            Bytecode::TestEqFloat(dest, lhs, rhs) | Bytecode::TestEqDouble(dest, lhs, rhs) => {
                self.emit_test_float(dest, lhs, rhs, CondCode::Equal)
            },
            Bytecode::TestNeFloat(dest, lhs, rhs) | Bytecode::TestNeDouble(dest, lhs, rhs) => {
                self.emit_test_float(dest, lhs, rhs, CondCode::NotEqual)
            },
            Bytecode::TestGtFloat(dest, lhs, rhs) | Bytecode::TestGtDouble(dest, lhs, rhs) => {
                self.emit_test_float(dest, lhs, rhs, CondCode::Greater)
            },
            Bytecode::TestGeFloat(dest, lhs, rhs) | Bytecode::TestGeDouble(dest, lhs, rhs) => {
                self.emit_test_float(dest, lhs, rhs, CondCode::GreaterEq)
            },
            Bytecode::TestLtFloat(dest, lhs, rhs) | Bytecode::TestLtDouble(dest, lhs, rhs) => {
                self.emit_test_float(dest, lhs, rhs, CondCode::Less)
            },
            Bytecode::TestLeFloat(dest, lhs, rhs) | Bytecode::TestLeDouble(dest, lhs, rhs) => {
                self.emit_test_float(dest, lhs, rhs, CondCode::LessEq)
            },
            Bytecode::JumpIfFalse(src, distance) => {
                self.emit_jump_if(src, pos + distance as i64, false)
            },
            Bytecode::JumpIfTrue(src, distance) => {
                self.emit_jump_if(src, pos + distance as i64, true)
            },
            Bytecode::JumpIfFalseConst(src, idx) => match self.bytecode.const_pool(idx) {
                Some(ConstPoolEntry::Int(distance)) => {
                    self.emit_jump_if(src, pos + *distance as i64, false)
                },
                _ => vstd::pervasive::unreached(),
            },
            Bytecode::JumpIfTrueConst(src, idx) => match self.bytecode.const_pool(idx) {
                Some(ConstPoolEntry::Int(distance)) => {
                    self.emit_jump_if(src, pos + *distance as i64, true)
                },
                _ => vstd::pervasive::unreached(),
            },
            Bytecode::Jump(distance) => self.emit_jump(pos + distance as i64),
            Bytecode::JumpLoop(distance) => self.emit_jump(pos - distance as i64),
            Bytecode::JumpConst(idx) => match self.bytecode.const_pool(idx) {
                Some(ConstPoolEntry::Int(distance)) => self.emit_jump(pos + *distance as i64),
                _ => vstd::pervasive::unreached(),
            },
            Bytecode::RetBool(src)
            | Bytecode::RetByte(src)
            | Bytecode::RetChar(src)
            | Bytecode::RetInt(src)
            | Bytecode::RetInt64(src)
            | Bytecode::RetFloat(src)
            | Bytecode::RetDouble(src)
            | Bytecode::RetPtr(src) => self.emit_return_generic(src),
            Bytecode::RetVoid => self.emit_epilog(),
            _ => vstd::pervasive::unreached(),
        }
    }

    /// Generates the code that brings the parameters to their frame
    /// slots.
    ///
    /// The argument registers of either file go to the parameters of their
    /// kind in the order of declaration. A parameter for which none is left
    /// is read from the slot in which the caller has left it.
    pub fn store_params_on_stack(&mut self)
        requires
            old(self).bytecode.wf(),
            old(self).masm.wf(),
            old(self).fct.params@.len() <= MAX_PARAMS,
            param_defect(old(self).bytecode, old(self).fct.params@, old(self).fct.params@.len())
                is None,
        ensures
            final(self).vm == old(self).vm,
            final(self).fct == old(self).fct,
            final(self).bytecode == old(self).bytecode,
            final(self).cls_type_params == old(self).cls_type_params,
            final(self).fct_type_params == old(self).fct_type_params,
            final(self).current_pos == old(self).current_pos,
            final(self)@.addresses == old(self)@.addresses,
            final(self)@.forward == old(self)@.forward,
            final(self).masm.wf(),
            final(self).masm@ == params_code(
                old(self).masm@,
                old(self).bytecode,
                old(self).fct.params@,
                old(self).fct.params@.len(),
            ),
    {
        let mut reg_idx: usize = 0;
        let mut freg_idx: usize = 0;
        let mut sp_offset: i32 = PARAM_OFFSET;
        let mut idx: usize = 0;
        let params = self.fct.params_with_self();
        let ghost ps = self.fct.params@;
        let ghost bc = self.bytecode;

        while idx < params.len()
            invariant
                params@ == ps,
                ps == self.fct.params@,
                ps.len() <= MAX_PARAMS,
                bc == self.bytecode,
                bc.wf(),
                idx <= ps.len(),
                self.vm == old(self).vm,
                self.fct == old(self).fct,
                self.bytecode == old(self).bytecode,
                self.cls_type_params == old(self).cls_type_params,
                self.fct_type_params == old(self).fct_type_params,
                self.current_pos == old(self).current_pos,
                self@.addresses == old(self)@.addresses,
                self@.forward == old(self)@.forward,
                self.masm.wf(),
                reg_idx <= REG_PARAMS_LEN,
                freg_idx <= FREG_PARAMS_LEN,
                reg_idx < REG_PARAMS_LEN ==> reg_idx == int_params(ps, idx as nat),
                reg_idx == REG_PARAMS_LEN ==> int_params(ps, idx as nat) >= REG_PARAMS_LEN,
                freg_idx < FREG_PARAMS_LEN ==> freg_idx == float_params(ps, idx as nat),
                freg_idx == FREG_PARAMS_LEN ==> float_params(ps, idx as nat) >= FREG_PARAMS_LEN,
                stack_params(ps, idx as nat) <= idx,
                sp_offset == PARAM_OFFSET + PARAM_SLOT * stack_params(ps, idx as nat),
                param_defect(bc, ps, ps.len()) is None,
                self.masm@ == params_code(old(self).masm@, bc, ps, idx as nat),
            decreases ps.len() - idx,
        {
            let param = params[idx];
            let dest = Register(idx);
            proof {
                if param_defect(bc, ps, idx as nat + 1) is Some {
                    lemma_param_defect_stays(bc, ps, idx as nat + 1, ps.len());
                }
                assert(param_ok(bc, ps, idx as int));
            }
            let offset = self.bytecode.offset(dest);

            let reg: Option<ExprStore> = if param.mode().is_float() {
                if freg_idx < FREG_PARAMS_LEN {
                    let freg = ExprStore::FReg(freg_params(freg_idx));
                    freg_idx += 1;
                    Some(freg)
                } else {
                    None
                }
            } else {
                if reg_idx < REG_PARAMS_LEN {
                    let reg = ExprStore::Reg(reg_params(reg_idx));
                    reg_idx += 1;
                    Some(reg)
                } else {
                    None
                }
            };

            match reg {
                Some(dest) => {
                    self.masm.store_mem(param.mode(), Mem::Local(offset), dest);
                },
                None => {
                    let dest = if param.mode().is_float() {
                        ExprStore::FReg(FREG_RESULT())
                    } else {
                        ExprStore::Reg(REG_RESULT())
                    };
                    self.masm.load_mem(param.mode(), dest, Mem::Local(sp_offset));
                    self.masm.store_mem(param.mode(), Mem::Local(offset), dest);
                    sp_offset += PARAM_SLOT;
                },
            }

            idx += 1;
        }
    }

    /// Generates the prolog.
    pub fn emit_prolog(&mut self)
        requires
            old(self).masm.wf(),
            old(self).masm@.ops.len() <= 1,
        ensures
            final(self).vm == old(self).vm,
            final(self).fct == old(self).fct,
            final(self).bytecode == old(self).bytecode,
            final(self).cls_type_params == old(self).cls_type_params,
            final(self).fct_type_params == old(self).fct_type_params,
            final(self).current_pos == old(self).current_pos,
            final(self)@.addresses == old(self)@.addresses,
            final(self)@.forward == old(self)@.forward,
            final(self).masm.wf(),
            final(self).masm@ == old(self).masm@.prolog(
                old(self).bytecode.stacksize,
                old(self).fct.pos,
            ).comment(Comment::Lit("prolog end")).comment(Comment::Newline),
    {
        self.masm.prolog_size(self.bytecode.stacksize(), self.fct.pos);
        self.masm.emit_comment(Comment::Lit("prolog end"));
        self.masm.emit_comment(Comment::Newline);
    }

    /// The safepoint of the function: the frame slots of the registers
    /// that hold references.
    pub fn create_gcpoint(&self) -> (gcpoint: GcPoint)
        requires
            self.bytecode.wf(),
        ensures
            gcpoint.offsets@ == ptr_slots(self.bytecode, self.bytecode.registers@.len()),
    {
        let mut offsets: Vec<i32> = Vec::new();
        let registers = self.bytecode.registers();
        let mut idx: usize = 0;
        while idx < registers.len()
            invariant
                registers == self.bytecode.registers,
                self.bytecode.wf(),
                idx <= registers@.len(),
                offsets@ == ptr_slots(self.bytecode, idx as nat),
            decreases registers@.len() - idx,
        {
            if registers[idx] == BytecodeType::Ptr {
                offsets.push(self.bytecode.offset(Register(idx)));
            }
            idx += 1;
        }
        GcPoint::from_offsets(offsets)
    }

    /// Generates the epilog: the safepoint poll, then the return.
    pub fn emit_epilog(&mut self)
        requires
            old(self).ready(),
        ensures
            final(self).same_task(old(self)),
            final(self)@.addresses == old(self)@.addresses,
            final(self)@.forward == old(self)@.forward,
            final(self).masm.wf(),
            final(self).masm@ == epilog(old(self).masm@, old(self).vm, old(self).bytecode),
    {
        self.epilog_here();
    }

    /// Generates the epilog behind code of the current instruction that
    /// has been emitted already.
    fn epilog_here(&mut self)
        requires
            old(self).bytecode.wf(),
            old(self).masm.wf(),
            old(self).masm@.ops.len() <= crate::masm::MAX_OFFSET,
        ensures
            final(self).same_task(old(self)),
            final(self)@.addresses == old(self)@.addresses,
            final(self)@.forward == old(self)@.forward,
            final(self).masm.wf(),
            final(self).masm@ == epilog(old(self).masm@, old(self).vm, old(self).bytecode),
    {
        self.masm.emit_comment(Comment::Newline);
        self.masm.emit_comment(Comment::Lit("epilog"));

        let polling_page = self.vm.polling_page;
        let gcpoint = self.create_gcpoint();
        self.masm.safepoint(polling_page, gcpoint);
        self.masm.epilog();
    }

    /// Emits a load of the register `reg` from its frame slot into `dest`.
    fn load_register(&mut self, dest: ExprStore, reg: Register)
        requires
            old(self).bytecode.wf(),
            old(self).masm.wf(),
            old(self).bytecode.declares(reg),
        ensures
            final(self).same_task(old(self)),
            final(self)@.addresses == old(self)@.addresses,
            final(self)@.forward == old(self)@.forward,
            final(self).masm.wf(),
            final(self).masm@ == old(self).masm@.emit(
                crate::cannon::model::load(old(self).bytecode, dest, reg),
            ),
    {
        let bytecode_type = self.bytecode.register(reg);
        let offset = self.bytecode.offset(reg);
        self.masm.load_mem(bytecode_type.mode(), dest, Mem::Local(offset));
    }

    /// Emits a store of `src` to the frame slot of the register `reg`.
    fn store_register(&mut self, reg: Register, src: ExprStore)
        requires
            old(self).bytecode.wf(),
            old(self).masm.wf(),
            old(self).bytecode.declares(reg),
        ensures
            final(self).same_task(old(self)),
            final(self)@.addresses == old(self)@.addresses,
            final(self)@.forward == old(self)@.forward,
            final(self).masm.wf(),
            final(self).masm@ == old(self).masm@.emit(
                crate::cannon::model::store(old(self).bytecode, reg, src),
            ),
    {
        let bytecode_type = self.bytecode.register(reg);
        let offset = self.bytecode.offset(reg);
        self.masm.store_mem(bytecode_type.mode(), Mem::Local(offset), src);
    }

    /// Generates the code of an addition of integers.
    pub fn emit_add_int(&mut self, dest: Register, lhs: Register, rhs: Register)
        requires
            old(self).ready(),
            old(self).defect_of(Operation::IntBinary(IntOp::Add, dest, lhs, rhs)) is None,
        ensures
            final(self).stepped(old(self), Operation::IntBinary(IntOp::Add, dest, lhs, rhs)),
    {
        self.load_register(ExprStore::Reg(REG_RESULT()), lhs);
        self.load_register(ExprStore::Reg(REG_TMP1()), rhs);

        let bytecode_type = self.bytecode.register(dest);
        self.masm.int_add(bytecode_type.mode(), REG_RESULT(), REG_RESULT(), REG_TMP1());

        self.store_register(dest, ExprStore::Reg(REG_RESULT()));
    }

    /// Generates the code of a subtraction of integers.
    pub fn emit_sub_int(&mut self, dest: Register, lhs: Register, rhs: Register)
        requires
            old(self).ready(),
            old(self).defect_of(Operation::IntBinary(IntOp::Sub, dest, lhs, rhs)) is None,
        ensures
            final(self).stepped(old(self), Operation::IntBinary(IntOp::Sub, dest, lhs, rhs)),
    {
        self.load_register(ExprStore::Reg(REG_RESULT()), lhs);
        self.load_register(ExprStore::Reg(REG_TMP1()), rhs);

        let bytecode_type = self.bytecode.register(dest);
        self.masm.int_sub(bytecode_type.mode(), REG_RESULT(), REG_RESULT(), REG_TMP1());

        self.store_register(dest, ExprStore::Reg(REG_RESULT()));
    }

    /// Generates the code of a multiplication of integers.
    pub fn emit_mul_int(&mut self, dest: Register, lhs: Register, rhs: Register)
        requires
            old(self).ready(),
            old(self).defect_of(Operation::IntBinary(IntOp::Mul, dest, lhs, rhs)) is None,
        ensures
            final(self).stepped(old(self), Operation::IntBinary(IntOp::Mul, dest, lhs, rhs)),
    {
        self.load_register(ExprStore::Reg(REG_RESULT()), lhs);
        self.load_register(ExprStore::Reg(REG_TMP1()), rhs);

        let bytecode_type = self.bytecode.register(dest);
        self.masm.int_mul(bytecode_type.mode(), REG_RESULT(), REG_RESULT(), REG_TMP1());

        self.store_register(dest, ExprStore::Reg(REG_RESULT()));
    }

    /// Generates the code of a bitwise and of integers.
    pub fn emit_and_int(&mut self, dest: Register, lhs: Register, rhs: Register)
        requires
            old(self).ready(),
            old(self).defect_of(Operation::IntBinary(IntOp::And, dest, lhs, rhs)) is None,
        ensures
            final(self).stepped(old(self), Operation::IntBinary(IntOp::And, dest, lhs, rhs)),
    {
        self.load_register(ExprStore::Reg(REG_RESULT()), lhs);
        self.load_register(ExprStore::Reg(REG_TMP1()), rhs);

        let bytecode_type = self.bytecode.register(dest);
        self.masm.int_and(bytecode_type.mode(), REG_RESULT(), REG_RESULT(), REG_TMP1());

        self.store_register(dest, ExprStore::Reg(REG_RESULT()));
    }

    /// Generates the code of a bitwise or of integers.
    pub fn emit_or_int(&mut self, dest: Register, lhs: Register, rhs: Register)
        requires
            old(self).ready(),
            old(self).defect_of(Operation::IntBinary(IntOp::Or, dest, lhs, rhs)) is None,
        ensures
            final(self).stepped(old(self), Operation::IntBinary(IntOp::Or, dest, lhs, rhs)),
    {
        self.load_register(ExprStore::Reg(REG_RESULT()), lhs);
        self.load_register(ExprStore::Reg(REG_TMP1()), rhs);

        let bytecode_type = self.bytecode.register(dest);
        self.masm.int_or(bytecode_type.mode(), REG_RESULT(), REG_RESULT(), REG_TMP1());

        self.store_register(dest, ExprStore::Reg(REG_RESULT()));
    }

    /// Generates the code of a bitwise exclusive or of integers.
    pub fn emit_xor_int(&mut self, dest: Register, lhs: Register, rhs: Register)
        requires
            old(self).ready(),
            old(self).defect_of(Operation::IntBinary(IntOp::Xor, dest, lhs, rhs)) is None,
        ensures
            final(self).stepped(old(self), Operation::IntBinary(IntOp::Xor, dest, lhs, rhs)),
    {
        self.load_register(ExprStore::Reg(REG_RESULT()), lhs);
        self.load_register(ExprStore::Reg(REG_TMP1()), rhs);

        let bytecode_type = self.bytecode.register(dest);
        self.masm.int_xor(bytecode_type.mode(), REG_RESULT(), REG_RESULT(), REG_TMP1());

        self.store_register(dest, ExprStore::Reg(REG_RESULT()));
    }

    /// Generates the code of a shift to the left of integers.
    pub fn emit_shl_int(&mut self, dest: Register, lhs: Register, rhs: Register)
        requires
            old(self).ready(),
            old(self).defect_of(Operation::IntBinary(IntOp::Shl, dest, lhs, rhs)) is None,
        ensures
            final(self).stepped(old(self), Operation::IntBinary(IntOp::Shl, dest, lhs, rhs)),
    {
        self.load_register(ExprStore::Reg(REG_RESULT()), lhs);
        self.load_register(ExprStore::Reg(REG_TMP1()), rhs);

        let bytecode_type = self.bytecode.register(dest);
        self.masm.int_shl(bytecode_type.mode(), REG_RESULT(), REG_RESULT(), REG_TMP1());

        self.store_register(dest, ExprStore::Reg(REG_RESULT()));
    }

    /// Generates the code of a logical shift to the right of integers.
    pub fn emit_shr_int(&mut self, dest: Register, lhs: Register, rhs: Register)
        requires
            old(self).ready(),
            old(self).defect_of(Operation::IntBinary(IntOp::Shr, dest, lhs, rhs)) is None,
        ensures
            final(self).stepped(old(self), Operation::IntBinary(IntOp::Shr, dest, lhs, rhs)),
    {
        self.load_register(ExprStore::Reg(REG_RESULT()), lhs);
        self.load_register(ExprStore::Reg(REG_TMP1()), rhs);

        let bytecode_type = self.bytecode.register(dest);
        self.masm.int_shr(bytecode_type.mode(), REG_RESULT(), REG_RESULT(), REG_TMP1());

        self.store_register(dest, ExprStore::Reg(REG_RESULT()));
    }

    /// Generates the code of an arithmetic shift to the right of integers.
    pub fn emit_sar_int(&mut self, dest: Register, lhs: Register, rhs: Register)
        requires
            old(self).ready(),
            old(self).defect_of(Operation::IntBinary(IntOp::Sar, dest, lhs, rhs)) is None,
        ensures
            final(self).stepped(old(self), Operation::IntBinary(IntOp::Sar, dest, lhs, rhs)),
    {
        self.load_register(ExprStore::Reg(REG_RESULT()), lhs);
        self.load_register(ExprStore::Reg(REG_TMP1()), rhs);

        let bytecode_type = self.bytecode.register(dest);
        self.masm.int_sar(bytecode_type.mode(), REG_RESULT(), REG_RESULT(), REG_TMP1());

        self.store_register(dest, ExprStore::Reg(REG_RESULT()));
    }

    /// Generates the code of a division of integers: the divisor is tested,
    /// and where it is zero the code raises a fault in place of the
    /// operation.
    pub fn emit_div_int(&mut self, dest: Register, lhs: Register, rhs: Register)
        requires
            old(self).ready(),
            old(self).defect_of(Operation::IntBinary(IntOp::Div, dest, lhs, rhs)) is None,
        ensures
            final(self).stepped(old(self), Operation::IntBinary(IntOp::Div, dest, lhs, rhs)),
    {
        self.load_register(ExprStore::Reg(REG_RESULT()), lhs);
        self.load_register(ExprStore::Reg(REG_TMP1()), rhs);

        let lbl_div = self.masm.create_label();
        self.masm.test_and_jump_if(CondCode::NonZero, REG_TMP1(), lbl_div);
        self.masm.trap(Trap::Div0);
        self.masm.bind_label(lbl_div);

        let bytecode_type = self.bytecode.register(dest);
        self.masm.int_div(bytecode_type.mode(), REG_RESULT(), REG_RESULT(), REG_TMP1());

        self.store_register(dest, ExprStore::Reg(REG_RESULT()));
    }

    /// Generates the code of a remainder of integers: the divisor is tested,
    /// and where it is zero the code raises a fault in place of the
    /// operation.
    pub fn emit_mod_int(&mut self, dest: Register, lhs: Register, rhs: Register)
        requires
            old(self).ready(),
            old(self).defect_of(Operation::IntBinary(IntOp::Mod, dest, lhs, rhs)) is None,
        ensures
            final(self).stepped(old(self), Operation::IntBinary(IntOp::Mod, dest, lhs, rhs)),
    {
        self.load_register(ExprStore::Reg(REG_RESULT()), lhs);
        self.load_register(ExprStore::Reg(REG_TMP1()), rhs);

        let lbl_div = self.masm.create_label();
        self.masm.test_and_jump_if(CondCode::NonZero, REG_TMP1(), lbl_div);
        self.masm.trap(Trap::Div0);
        self.masm.bind_label(lbl_div);

        let bytecode_type = self.bytecode.register(dest);
        self.masm.int_mod(bytecode_type.mode(), REG_RESULT(), REG_RESULT(), REG_TMP1());

        self.store_register(dest, ExprStore::Reg(REG_RESULT()));
    }

    /// Generates the code of an addition of floating-point numbers.
    pub fn emit_add_float(&mut self, dest: Register, lhs: Register, rhs: Register)
        requires
            old(self).ready(),
            old(self).defect_of(Operation::FloatBinary(FloatOp::Add, dest, lhs, rhs)) is None,
        ensures
            final(self).stepped(old(self), Operation::FloatBinary(FloatOp::Add, dest, lhs, rhs)),
    {
        self.load_register(ExprStore::FReg(FREG_RESULT()), lhs);
        self.load_register(ExprStore::FReg(FREG_TMP1()), rhs);

        let bytecode_type = self.bytecode.register(dest);
        self.masm.float_add(bytecode_type.mode(), FREG_RESULT(), FREG_RESULT(), FREG_TMP1());

        self.store_register(dest, ExprStore::FReg(FREG_RESULT()));
    }

    /// Generates the code of a subtraction of floating-point numbers.
    pub fn emit_sub_float(&mut self, dest: Register, lhs: Register, rhs: Register)
        requires
            old(self).ready(),
            old(self).defect_of(Operation::FloatBinary(FloatOp::Sub, dest, lhs, rhs)) is None,
        ensures
            final(self).stepped(old(self), Operation::FloatBinary(FloatOp::Sub, dest, lhs, rhs)),
    {
        self.load_register(ExprStore::FReg(FREG_RESULT()), lhs);
        self.load_register(ExprStore::FReg(FREG_TMP1()), rhs);

        let bytecode_type = self.bytecode.register(dest);
        self.masm.float_sub(bytecode_type.mode(), FREG_RESULT(), FREG_RESULT(), FREG_TMP1());

        self.store_register(dest, ExprStore::FReg(FREG_RESULT()));
    }

    /// Generates the code of a multiplication of floating-point numbers.
    pub fn emit_mul_float(&mut self, dest: Register, lhs: Register, rhs: Register)
        requires
            old(self).ready(),
            old(self).defect_of(Operation::FloatBinary(FloatOp::Mul, dest, lhs, rhs)) is None,
        ensures
            final(self).stepped(old(self), Operation::FloatBinary(FloatOp::Mul, dest, lhs, rhs)),
    {
        self.load_register(ExprStore::FReg(FREG_RESULT()), lhs);
        self.load_register(ExprStore::FReg(FREG_TMP1()), rhs);

        let bytecode_type = self.bytecode.register(dest);
        self.masm.float_mul(bytecode_type.mode(), FREG_RESULT(), FREG_RESULT(), FREG_TMP1());

        self.store_register(dest, ExprStore::FReg(FREG_RESULT()));
    }

    /// Generates the code of a division of floating-point numbers.
    pub fn emit_div_float(&mut self, dest: Register, lhs: Register, rhs: Register)
        requires
            old(self).ready(),
            old(self).defect_of(Operation::FloatBinary(FloatOp::Div, dest, lhs, rhs)) is None,
        ensures
            final(self).stepped(old(self), Operation::FloatBinary(FloatOp::Div, dest, lhs, rhs)),
    {
        self.load_register(ExprStore::FReg(FREG_RESULT()), lhs);
        self.load_register(ExprStore::FReg(FREG_TMP1()), rhs);

        let bytecode_type = self.bytecode.register(dest);
        self.masm.float_div(bytecode_type.mode(), FREG_RESULT(), FREG_RESULT(), FREG_TMP1());

        self.store_register(dest, ExprStore::FReg(FREG_RESULT()));
    }

    /// Generates the code of the negation of an integer.
    pub fn emit_neg_int(&mut self, dest: Register, src: Register)
        requires
            old(self).ready(),
            old(self).defect_of(Operation::IntNeg(dest, src)) is None,
        ensures
            final(self).stepped(old(self), Operation::IntNeg(dest, src)),
    {
        self.load_register(ExprStore::Reg(REG_RESULT()), src);

        let bytecode_type = self.bytecode.register(dest);
        self.masm.int_neg(bytecode_type.mode(), REG_RESULT(), REG_RESULT());

        self.store_register(dest, ExprStore::Reg(REG_RESULT()));
    }

    /// Generates the code of the negation of a boolean.
    pub fn emit_not_bool(&mut self, dest: Register, src: Register)
        requires
            old(self).ready(),
            old(self).defect_of(Operation::NotBool(dest, src)) is None,
        ensures
            final(self).stepped(old(self), Operation::NotBool(dest, src)),
    {
        self.load_register(ExprStore::Reg(REG_RESULT()), src);

        self.masm.bool_not(REG_RESULT(), REG_RESULT());

        self.store_register(dest, ExprStore::Reg(REG_RESULT()));
    }

    /// Generates the code of a copy from register to register.
    pub fn emit_mov_generic(&mut self, dest: Register, src: Register)
        requires
            old(self).ready(),
            old(self).defect_of(Operation::Mov(dest, src)) is None,
        ensures
            final(self).stepped(old(self), Operation::Mov(dest, src)),
    {
        let bytecode_type = self.bytecode.register(src);
        let reg = result_reg(bytecode_type);

        self.load_register(reg, src);
        self.store_register(dest, reg);
    }

    /// Generates the code of a load of a field. The object is not tested
    /// for null here: that is the business of an instruction of its own.
    pub fn emit_load_field(
        &mut self,
        dest: Register,
        obj: Register,
        class_def_id: ClassDefId,
        field_id: FieldId,
    )
        requires
            old(self).ready(),
            old(self).defect_of(Operation::LoadField(dest, obj, class_def_id, field_id)) is None,
        ensures
            final(self).stepped(old(self), Operation::LoadField(dest, obj, class_def_id, field_id)),
    {
        let cls = &self.vm.class_defs[class_def_id.0];
        let field = &cls.fields[field_id.idx()];

        self.masm.emit_comment(Comment::LoadField(class_def_id, field_id));

        self.load_register(ExprStore::Reg(REG_RESULT()), obj);

        let bytecode_type = self.bytecode.register(dest);
        let reg = result_reg(bytecode_type);

        self.masm.load_field(field.ty.mode(), reg, REG_RESULT(), field.offset);

        self.store_register(dest, reg);
    }

    /// Generates the code of a store to a field.
    pub fn emit_store_field(
        &mut self,
        src: Register,
        obj: Register,
        class_def_id: ClassDefId,
        field_id: FieldId,
    )
        requires
            old(self).ready(),
            old(self).defect_of(Operation::StoreField(src, obj, class_def_id, field_id)) is None,
        ensures
            final(self).stepped(old(self), Operation::StoreField(src, obj, class_def_id, field_id)),
    {
        let cls = &self.vm.class_defs[class_def_id.0];
        let field = &cls.fields[field_id.idx()];

        self.masm.emit_comment(Comment::StoreField(class_def_id, field_id));

        self.load_register(ExprStore::Reg(REG_TMP1()), obj);

        let bytecode_type = self.bytecode.register(src);
        let reg = result_reg(bytecode_type);
        self.load_register(reg, src);

        self.masm.store_field(field.ty.mode(), REG_TMP1(), field.offset, reg);
    }

    /// Generates the code of a load of a global variable. The address of
    /// the variable is not part of the code: it stands in the constant
    /// area and is loaded from there.
    pub fn emit_load_global_field(&mut self, dest: Register, global_id: GlobalId)
        requires
            old(self).ready(),
            old(self).defect_of(Operation::LoadGlobal(dest, global_id)) is None,
        ensures
            final(self).stepped(old(self), Operation::LoadGlobal(dest, global_id)),
    {
        let glob = &self.vm.globals[global_id.0];
        let disp: i32 = self.masm.add_addr(glob.address_value);

        self.masm.emit_comment(Comment::LoadGlobal(global_id));
        self.masm.load_constpool(REG_TMP1(), disp);

        let reg = result_reg(glob.ty);
        self.masm.load_mem(glob.ty.mode(), reg, Mem::Base(REG_TMP1(), 0));

        self.store_register(dest, reg);
    }

    /// Generates the code of a store to a global variable.
    pub fn emit_store_global_field(&mut self, src: Register, global_id: GlobalId)
        requires
            old(self).ready(),
            old(self).defect_of(Operation::StoreGlobal(src, global_id)) is None,
        ensures
            final(self).stepped(old(self), Operation::StoreGlobal(src, global_id)),
    {
        let glob = &self.vm.globals[global_id.0];
        let disp: i32 = self.masm.add_addr(glob.address_value);

        self.masm.emit_comment(Comment::StoreGlobal(global_id));
        self.masm.load_constpool(REG_TMP1(), disp);

        let reg = result_reg(glob.ty);
        self.load_register(reg, src);
        self.masm.store_mem(glob.ty.mode(), Mem::Base(REG_TMP1(), 0), reg);
    }

    /// Generates the code of a load of the null reference.
    pub fn emit_const_nil(&mut self, dest: Register)
        requires
            old(self).ready(),
            old(self).defect_of(Operation::ConstNil(dest)) is None,
        ensures
            final(self).stepped(old(self), Operation::ConstNil(dest)),
    {
        self.masm.load_nil(REG_RESULT());

        self.store_register(dest, ExprStore::Reg(REG_RESULT()));
    }

    /// Generates the code of a load of a boolean.
    pub fn emit_const_bool(&mut self, dest: Register, bool_const: bool)
        requires
            old(self).ready(),
            old(self).defect_of(Operation::ConstBool(dest, bool_const)) is None,
        ensures
            final(self).stepped(old(self), Operation::ConstBool(dest, bool_const)),
    {
        if bool_const {
            self.masm.load_true(REG_RESULT());
        } else {
            self.masm.load_false(REG_RESULT());
        }
        self.store_register(dest, ExprStore::Reg(REG_RESULT()));
    }

    /// Generates the code of a load of an integer.
    pub fn emit_const_int(&mut self, dest: Register, int_const: i64)
        requires
            old(self).ready(),
            old(self).defect_of(Operation::ConstInt(dest, int_const)) is None,
        ensures
            final(self).stepped(old(self), Operation::ConstInt(dest, int_const)),
    {
        let bytecode_type = self.bytecode.register(dest);
        self.masm.load_int_const(bytecode_type.mode(), REG_RESULT(), int_const);

        self.store_register(dest, ExprStore::Reg(REG_RESULT()));
    }

    /// Generates the code of a load of the floating-point number with the
    /// bits `float_const`.
    pub fn emit_const_float(
        &mut self,
        dest: Register,
        float_const: u64,
    )
        requires
            old(self).ready(),
            old(self).defect_of(Operation::ConstFloat(dest, float_const)) is None,
        ensures
            final(self).stepped(old(self), Operation::ConstFloat(dest, float_const)),
    {
        let bytecode_type = self.bytecode.register(dest);
        self.masm.load_float_const(bytecode_type.mode(), FREG_RESULT(), float_const);

        self.store_register(dest, ExprStore::FReg(FREG_RESULT()));
    }

    /// Generates the code of a load of the string constant `sp`. The
    /// address of the string is not part of the code: it stands in the
    /// constant area and is loaded from there.
    pub fn emit_const_string(
        &mut self,
        dest: Register,
        sp: ConstPoolIdx,
    )
        requires
            old(self).ready(),
            old(self).defect_of(Operation::ConstString(dest, sp)) is None,
        ensures
            final(self).stepped(old(self), Operation::ConstString(dest, sp)),
    {
        let disp: i32 = self.masm.add_string(sp);

        self.masm.emit_comment(Comment::LoadString(sp));

        self.masm.load_constpool(REG_RESULT(), disp);

        self.store_register(dest, ExprStore::Reg(REG_RESULT()));
    }

    /// Generates the code of a comparison of integers or references.
    pub fn emit_test_generic(&mut self, dest: Register, lhs: Register, rhs: Register, op: CondCode)
        requires
            old(self).ready(),
            old(self).defect_of(Operation::Test(dest, lhs, rhs, op)) is None,
        ensures
            final(self).stepped(old(self), Operation::Test(dest, lhs, rhs, op)),
    {
        self.load_register(ExprStore::Reg(REG_RESULT()), lhs);
        self.load_register(ExprStore::Reg(REG_TMP1()), rhs);

        let bytecode_type = self.bytecode.register(rhs);
        self.masm.cmp_reg(bytecode_type.mode(), REG_RESULT(), REG_TMP1());
        self.masm.set(REG_RESULT(), op);

        self.store_register(dest, ExprStore::Reg(REG_RESULT()));
    }

    /// Generates the code of a comparison of floating-point numbers.
    pub fn emit_test_float(&mut self, dest: Register, lhs: Register, rhs: Register, op: CondCode)
        requires
            old(self).ready(),
            old(self).defect_of(Operation::TestFloat(dest, lhs, rhs, op)) is None,
        ensures
            final(self).stepped(old(self), Operation::TestFloat(dest, lhs, rhs, op)),
    {
        self.load_register(ExprStore::FReg(FREG_RESULT()), lhs);
        self.load_register(ExprStore::FReg(FREG_TMP1()), rhs);

        let bytecode_type = self.bytecode.register(rhs);
        self.masm.float_cmp(bytecode_type.mode(), REG_RESULT(), FREG_RESULT(), FREG_TMP1(), op);

        self.store_register(dest, ExprStore::Reg(REG_RESULT()));
    }

    /// Generates the code of a jump to the position `target` that is taken
    /// where the boolean in `src` is `op`.
    pub fn emit_jump_if(
        &mut self,
        src: Register,
        target: i64,
        op: bool,
    )
        requires
            old(self).ready(),
            old(self).defect_of(Operation::JumpIf(src, target as int, op)) is None,
        ensures
            final(self).stepped(old(self), Operation::JumpIf(src, target as int, op)),
    {
        self.load_register(ExprStore::Reg(REG_RESULT()), src);

        let op = if op {
            CondCode::NonZero
        } else {
            CondCode::Zero
        };
        let lbl = self.masm.create_label();
        self.masm.test_and_jump_if(op, REG_RESULT(), lbl);

        self.resolve_label(BytecodeOffset(target as u32), lbl);
    }

    /// Generates the code of a jump to the position `target`.
    pub fn emit_jump(&mut self, target: i64)
        requires
            old(self).ready(),
            old(self).defect_of(Operation::Jump(target as int)) is None,
        ensures
            final(self).stepped(old(self), Operation::Jump(target as int)),
    {
        let lbl = self.masm.create_label();
        self.masm.jump(lbl);

        self.resolve_label(BytecodeOffset(target as u32), lbl);
    }

    /// Settles where the jump with the label `lbl` leads: the label is
    /// bound at once where the target lies before the current position; the
    /// jump is put off otherwise.
    pub fn resolve_label(&mut self, bytecode_idx: BytecodeOffset, lbl: Label)
        requires
            old(self).bytecode.wf(),
            old(self).masm.wf(),
            old(self).current_pos is Some,
            old(self)@.masm.has_label(lbl),
            !old(self)@.masm.bound(lbl),
            forall|k: u32|
                k < old(self).current_pos.unwrap().0 ==> old(self)@.addresses.contains_key(k)
                    && old(self)@.addresses[k] <= old(self)@.masm.ops.len(),
        ensures
            final(self).same_task(old(self)),
            final(self).masm.wf(),
            final(self)@ == resolve_label(
                old(self)@,
                old(self).current_pos.unwrap(),
                bytecode_idx.0 as int,
                lbl,
            ),
    {
        let current_position: u32 = self.pos().0;
        let target: u32 = bytecode_idx.0;

        if target < current_position {
            proof {
                assert(self@.addresses.contains_key(target));
                assert(self@.addresses[target] <= self@.masm.ops.len());
            }
            let address: usize = *self.bytecode_to_address.get(&target).unwrap();
            self.masm.bind_label_to(lbl, address);
        } else {
            self.forward_jumps.push(ForwardJump { label: lbl, bytecode_idx: bytecode_idx });
        }
    }

    /// Generates the code of the return of the value in `src`: the value
    /// goes to the result register of its kind, then comes the epilog.
    pub fn emit_return_generic(&mut self, src: Register)
        requires
            old(self).ready(),
            old(self).defect_of(Operation::Ret(src)) is None,
        ensures
            final(self).stepped(old(self), Operation::Ret(src)),
    {
        let bytecode_type = self.bytecode.register(src);
        let reg = result_reg(bytecode_type);

        self.load_register(reg, src);

        self.epilog_here();
    }

    /// Binds the label of each jump that was put off to the address of its
    /// target. Each of those targets holds an instruction.
    pub fn resolve_forward_jumps(&mut self)
        requires
            old(self).masm.wf(),
            linked(old(self)@, old(self).bytecode.code@.len() as int),
            missing_target(old(self)@, old(self)@.forward.len()) is None,
        ensures
            final(self).vm == old(self).vm,
            final(self).fct == old(self).fct,
            final(self).bytecode == old(self).bytecode,
            final(self).masm.wf(),
            final(self).masm@.all_bound(),
            final(self).masm@ == resolved(old(self)@, old(self)@.forward.len()),
    {
        let ghost g = self@;
        let mut idx: usize = 0;
        while idx < self.forward_jumps.len()
            invariant
                self.vm == old(self).vm,
                self.fct == old(self).fct,
                self.bytecode == old(self).bytecode,
                g == old(self)@,
                g.masm.wf(),
                self.forward_jumps@ == g.forward,
                self.bytecode_to_address@ == g.addresses,
                idx <= g.forward.len(),
                linked(g, old(self).bytecode.code@.len() as int),
                self.masm.wf(),
                missing_target(g, g.forward.len()) is None,
                self.masm@ == resolved(g, idx as nat),
            decreases g.forward.len() - idx,
        {
            let jump = self.forward_jumps[idx];
            let ForwardJump { label, bytecode_idx } = jump;
            proof {
                if missing_target(g, idx as nat + 1) is Some {
                    lemma_missing_stays(g, idx as nat + 1, g.forward.len());
                }
                assert(missing_target(g, idx as nat) is None);
                assert(g.addresses.contains_key(bytecode_idx.0));
                lemma_resolved(g, old(self).bytecode.code@.len() as int, idx as nat);
            }

            let address: usize = *self.bytecode_to_address.get(&bytecode_idx.0).unwrap();
            self.masm.bind_label_to(label, address);
            idx += 1;
        }
        proof {
            lemma_resolved(g, old(self).bytecode.code@.len() as int, g.forward.len());
        }
    }

    /// The current position.
    fn pos(&self) -> (pos: BytecodeOffset)
        requires
            self.current_pos is Some,
        ensures
            pos == self.current_pos.unwrap(),
    {
        self.current_pos.unwrap()
    }

    /// Moves on to the next position.
    fn pos_inc(&mut self)
        requires
            old(self).current_pos is Some,
            old(self).current_pos.unwrap().0 < u32::MAX,
        ensures
            final(self).current_pos == Some(BytecodeOffset((old(self).current_pos.unwrap().0 + 1) as u32)),
            final(self).vm == old(self).vm,
            final(self).fct == old(self).fct,
            final(self).bytecode == old(self).bytecode,
            final(self).cls_type_params == old(self).cls_type_params,
            final(self).fct_type_params == old(self).fct_type_params,
            final(self).masm == old(self).masm,
            final(self).bytecode_to_address == old(self).bytecode_to_address,
            final(self).forward_jumps == old(self).forward_jumps,
    {
        let BytecodeOffset(pos_idx) = self.pos();
        self.current_pos = Some(BytecodeOffset(pos_idx + 1));
    }
}

} // verus!
