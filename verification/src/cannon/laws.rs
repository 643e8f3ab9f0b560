//! What holds of the code that the baseline generator produces.
//!
//! The laws are stated of [`walk`], the state of the generator after a
//! number of instructions, and of [`generated`], the code of a function.
use vstd::prelude::*;

use crate::bytecode::{BytecodeFunction, BytecodeOffset, Register};
use crate::cannon::model::{
    defect, effect, epilog, generated, in_register, initial, int_binary, lemma_effect, lemma_entry,
    lemma_resolved, lemma_visit, lemma_walk_defect_stays, linked, load, missing_target,
    operation_at, param_code, param_defect, param_stack_slot, params_code, ptr_slots, reg_type,
    resolved, sized, stack_params, store, visit, walk, walk_defect, waiting, CodegenError,
    ForwardJump, GenView, Operation, MAX_PARAMS,
};
use crate::cpu::{reg_result, reg_tmp1, CondCode, ExprStore, Mem, Trap, PARAM_OFFSET};
use crate::masm::{AsmView, IntOp, Label, MachineOp};
use crate::ty::BytecodeType;
use crate::vm::{Fct, VM};

verus! {

broadcast use crate::masm::group_masm_wf;

/// Whether the operation works on two operands and a destination that must
/// all have one type: an arithmetic, logical or shift operation.
pub open spec fn is_binary(op: Operation) -> bool {
    op is IntBinary || op is FloatBinary
}

/// The operands of an operation on two operands: destination, left, right.
pub open spec fn binary_operands(op: Operation) -> (Register, Register, Register) {
    match op {
        Operation::IntBinary(_, d, l, r) => (d, l, r),
        Operation::FloatBinary(_, d, l, r) => (d, l, r),
        _ => (Register(0), Register(0), Register(0)),
    }
}

/// Type consistency: where the instruction at `pos` is an arithmetic,
/// logical or shift operation on two operands, and the declared types of
/// its two operands and its destination are not all the same, the function
/// has a defect, and the generator does not take it. Where nothing before
/// that instruction has a defect, the defect of the function is the
/// `TypeMismatch` at `pos`.
pub proof fn lemma_type_consistency(
    debug: bool,
    vm: &VM,
    fct: &Fct,
    bc: &BytecodeFunction,
    pos: nat,
)
    requires
        pos < bc.code@.len(),
        pos <= u32::MAX,
        is_binary(operation_at(bc, pos as int)),
        ({
            let (d, l, r) = binary_operands(operation_at(bc, pos as int));
            bc.declares(d) && bc.declares(l) && bc.declares(r) && !(reg_type(bc, l) == reg_type(
                bc,
                r,
            ) && reg_type(bc, l) == reg_type(bc, d))
        }),
    ensures
        generated(debug, vm, fct, bc) is Err,
        param_defect(bc, fct.params@, fct.params@.len()) is None && walk_defect(vm, bc, pos)
            is None ==> generated(debug, vm, fct, bc) == Err::<
            crate::masm::AssemblyView,
            CodegenError,
        >(CodegenError::TypeMismatch(BytecodeOffset(pos as u32))),
{
    let op = operation_at(bc, pos as int);
    assert(defect(vm, bc, BytecodeOffset(pos as u32), op) == Some(
        CodegenError::TypeMismatch(BytecodeOffset(pos as u32)),
    ));
    assert(walk_defect(vm, bc, pos + 1) is Some);
    lemma_walk_defect_stays(vm, bc, pos + 1, bc.code@.len());
}

/// The state after `n` instructions without a defect has its tables in
/// order and its parts together, and is of a size that goes with `n`.
pub proof fn lemma_walk(debug: bool, vm: &VM, fct: &Fct, bc: &BytecodeFunction, n: nat)
    requires
        bc.wf(),
        fct.params@.len() <= MAX_PARAMS,
        n <= bc.code@.len(),
        walk_defect(vm, bc, n) is None,
    ensures
        walk(initial(debug, fct, bc), vm, bc, n).masm.wf(),
        linked(walk(initial(debug, fct, bc), vm, bc, n), n as int),
        sized(walk(initial(debug, fct, bc), vm, bc, n), fct.params@.len(), n as int),
    decreases n,
{
    if n == 0 {
        lemma_entry(debug, fct, bc);
    } else {
        let before = walk(initial(debug, fct, bc), vm, bc, (n - 1) as nat);
        lemma_walk(debug, vm, fct, bc, (n - 1) as nat);
        lemma_visit(before, (n - 1) as u32);
        lemma_effect(
            visit(before, (n - 1) as u32),
            vm,
            bc,
            fct.params@.len(),
            BytecodeOffset((n - 1) as u32),
            operation_at(bc, n - 1),
        );
    }
}

/// Position monotonicity: the positions go up by one from instruction to
/// instruction, whatever the instruction. After `n` instructions exactly
/// the positions below `n` have an address, one each, and the address of a
/// position is the offset at which its code begins: the length of the code
/// of all that comes before it.
pub proof fn lemma_address_map(debug: bool, vm: &VM, fct: &Fct, bc: &BytecodeFunction, n: nat)
    requires
        bc.wf(),
        fct.params@.len() <= MAX_PARAMS,
        n <= bc.code@.len(),
        walk_defect(vm, bc, n) is None,
    ensures
        forall|k: u32|
            #[trigger] walk(initial(debug, fct, bc), vm, bc, n).addresses.contains_key(k) <==> k
                < n,
        forall|k: u32|
            k < n ==> #[trigger] walk(initial(debug, fct, bc), vm, bc, n).addresses[k] == walk(
                initial(debug, fct, bc),
                vm,
                bc,
                k as nat,
            ).masm.ops.len(),
    decreases n,
{
    lemma_walk(debug, vm, fct, bc, n);
    if n > 0 {
        let before = walk(initial(debug, fct, bc), vm, bc, (n - 1) as nat);
        let after = walk(initial(debug, fct, bc), vm, bc, n);
        lemma_address_map(debug, vm, fct, bc, (n - 1) as nat);
        lemma_walk(debug, vm, fct, bc, (n - 1) as nat);
        lemma_visit(before, (n - 1) as u32);
        lemma_effect(
            visit(before, (n - 1) as u32),
            vm,
            bc,
            fct.params@.len(),
            BytecodeOffset((n - 1) as u32),
            operation_at(bc, n - 1),
        );
        assert(after.addresses == visit(before, (n - 1) as u32).addresses);
        assert forall|k: u32| k < n implies #[trigger] after.addresses[k] == walk(
            initial(debug, fct, bc),
            vm,
            bc,
            k as nat,
        ).masm.ops.len() by {
            if k < n - 1 {
                assert(before.addresses[k] == walk(
                    initial(debug, fct, bc),
                    vm,
                    bc,
                    k as nat,
                ).masm.ops.len());
            }
        }
    }
}

/// Whether every jump of the function leads to a position that holds an
/// instruction.
pub open spec fn jumps_inside(bc: &BytecodeFunction) -> bool {
    forall|p: int|
        0 <= p < bc.code@.len() ==> match #[trigger] operation_at(bc, p) {
            Operation::Jump(target) => 0 <= target < bc.code@.len(),
            Operation::JumpIf(_, target, _) => 0 <= target < bc.code@.len(),
            _ => true,
        }
}

/// In a function all of whose jumps lead to instructions, the jumps that
/// wait after `n` instructions all lead to instructions.
pub proof fn lemma_forward_targets(debug: bool, vm: &VM, fct: &Fct, bc: &BytecodeFunction, n: nat)
    requires
        bc.wf(),
        n <= bc.code@.len(),
        walk_defect(vm, bc, n) is None,
        jumps_inside(bc),
    ensures
        forall|i: int|
            0 <= i < walk(initial(debug, fct, bc), vm, bc, n).forward.len() ==> (#[trigger] walk(
                initial(debug, fct, bc),
                vm,
                bc,
                n,
            ).forward[i]).bytecode_idx.0 < bc.code@.len(),
    decreases n,
{
    if n > 0 {
        let before = walk(initial(debug, fct, bc), vm, bc, (n - 1) as nat);
        let after = walk(initial(debug, fct, bc), vm, bc, n);
        let op = operation_at(bc, n - 1);
        lemma_forward_targets(debug, vm, fct, bc, (n - 1) as nat);
        assert forall|i: int| 0 <= i < after.forward.len() implies (
        #[trigger] after.forward[i]).bytecode_idx.0 < bc.code@.len() by {
            if i < before.forward.len() {
                assert(after.forward[i] == before.forward[i]);
            }
        }
    }
}

/// No target is missing among the first `k` jumps that wait, where all of
/// them lead to positions that have an address.
pub proof fn lemma_none_missing(g: GenView, k: nat)
    requires
        k <= g.forward.len(),
        forall|i: int|
            0 <= i < g.forward.len() ==> g.addresses.contains_key(
                (#[trigger] g.forward[i]).bytecode_idx.0,
            ),
    ensures
        missing_target(g, k) is None,
    decreases k,
{
    if k > 0 {
        lemma_none_missing(g, (k - 1) as nat);
        assert(g.addresses.contains_key(g.forward[k - 1].bytecode_idx.0));
    }
}

/// Jump resolution completeness: in a function whose parameters have their
/// registers, none of whose instructions has a defect, and all of whose
/// jumps lead to instructions, every jump that was put off finds the
/// address of its target after the walk, and the function is compiled.
pub proof fn lemma_jump_resolution(debug: bool, vm: &VM, fct: &Fct, bc: &BytecodeFunction)
    requires
        bc.wf(),
        fct.params@.len() <= MAX_PARAMS,
        param_defect(bc, fct.params@, fct.params@.len()) is None,
        walk_defect(vm, bc, bc.code@.len()) is None,
        jumps_inside(bc),
    ensures
        ({
            let g = walk(initial(debug, fct, bc), vm, bc, bc.code@.len());
            &&& forall|i: int|
                0 <= i < g.forward.len() ==> g.addresses.contains_key(
                    (#[trigger] g.forward[i]).bytecode_idx.0,
                )
            &&& missing_target(g, g.forward.len()) is None
        }),
        generated(debug, vm, fct, bc) is Ok,
{
    let n = bc.code@.len();
    let g = walk(initial(debug, fct, bc), vm, bc, n);
    lemma_walk(debug, vm, fct, bc, n);
    lemma_forward_targets(debug, vm, fct, bc, n);
    assert forall|i: int| 0 <= i < g.forward.len() implies g.addresses.contains_key(
        (#[trigger] g.forward[i]).bytecode_idx.0,
    ) by {
        assert(g.forward[i].bytecode_idx.0 < n);
    }
    lemma_none_missing(g, g.forward.len());
}

/// Where the jump with the label `lbl` to the position `target` stands in
/// the state `g`: its label is bound to the address of its target, or the
/// jump waits.
pub open spec fn settled(g: GenView, lbl: Label, target: u32) -> bool {
    ||| (g.masm.has_label(lbl) && g.addresses.contains_key(target) && g.masm.labels[lbl.0 as int]
        == Some(g.addresses[target]))
    ||| exists|i: int|
        0 <= i < g.forward.len() && #[trigger] g.forward[i] == (ForwardJump {
            label: lbl,
            bytecode_idx: BytecodeOffset(target),
        })
}

/// The jump of `forward` with the label `lbl` to `target`.
pub open spec fn waiting_for(forward: Seq<ForwardJump>, lbl: Label, target: u32) -> int {
    choose|i: int|
        0 <= i < forward.len() && #[trigger] forward[i] == (ForwardJump {
            label: lbl,
            bytecode_idx: BytecodeOffset(target),
        })
}

/// A jump that is settled stays settled while the code of a later
/// instruction, which has no defect, is generated.
pub proof fn lemma_settled_step(
    g: GenView,
    vm: &VM,
    bc: &BytecodeFunction,
    params: nat,
    pos: BytecodeOffset,
    lbl: Label,
    target: u32,
)
    requires
        bc.wf(),
        g.masm.wf(),
        pos.0 < bc.code@.len(),
        linked(g, pos.0 as int),
        sized(g, params, pos.0 as int),
        defect(vm, bc, pos, operation_at(bc, pos.0 as int)) is None,
        g.masm.has_label(lbl),
        settled(g, lbl, target),
    ensures
        settled(effect(visit(g, pos.0), vm, bc, pos, operation_at(bc, pos.0 as int)), lbl, target),
        effect(visit(g, pos.0), vm, bc, pos, operation_at(bc, pos.0 as int)).masm.has_label(lbl),
{
    let v = visit(g, pos.0);
    let op = operation_at(bc, pos.0 as int);
    let e = effect(v, vm, bc, pos, op);
    let jump = ForwardJump { label: lbl, bytecode_idx: BytecodeOffset(target) };
    lemma_visit(g, pos.0);
    lemma_effect(v, vm, bc, params, pos, op);
    let waits = exists|i: int| 0 <= i < g.forward.len() && #[trigger] g.forward[i] == jump;
    if waits {
        let i = waiting_for(g.forward, lbl, target);
        assert(v.forward[i] == jump);
        assert(e.forward.len() >= v.forward.len() && e.forward[i] == jump) by {
            match op {
                Operation::JumpIf(_, _, _) => {},
                Operation::Jump(_) => {},
                _ => {},
            }
        }
    } else {
        assert(g.addresses.contains_key(target));
        assert(target < pos.0);
        assert(v.addresses[target] == g.addresses[target]);
        assert(e.addresses == v.addresses);
        assert(e.masm.labels.len() >= g.masm.labels.len() && e.masm.labels[lbl.0 as int]
            == g.masm.labels[lbl.0 as int]) by {
            match op {
                Operation::IntBinary(o, d, l, r) => {
                    let loaded = v.masm.emit(load(bc, ExprStore::Reg(reg_result()), l)).emit(
                        load(bc, ExprStore::Reg(reg_tmp1()), r),
                    );
                    assert(loaded.labels == g.masm.labels);
                },
                Operation::JumpIf(_, _, _) => {},
                Operation::Jump(_) => {},
                _ => {},
            }
        }
    }
}

/// A jump that is settled after `from` instructions is settled after `n`.
pub proof fn lemma_settled_walk(
    debug: bool,
    vm: &VM,
    fct: &Fct,
    bc: &BytecodeFunction,
    from: nat,
    n: nat,
    lbl: Label,
    target: u32,
)
    requires
        bc.wf(),
        fct.params@.len() <= MAX_PARAMS,
        from <= n <= bc.code@.len(),
        walk_defect(vm, bc, n) is None,
        walk(initial(debug, fct, bc), vm, bc, from).masm.has_label(lbl),
        settled(walk(initial(debug, fct, bc), vm, bc, from), lbl, target),
    ensures
        walk(initial(debug, fct, bc), vm, bc, n).masm.has_label(lbl),
        settled(walk(initial(debug, fct, bc), vm, bc, n), lbl, target),
    decreases n - from,
{
    if from < n {
        lemma_settled_walk(debug, vm, fct, bc, from, (n - 1) as nat, lbl, target);
        lemma_walk(debug, vm, fct, bc, (n - 1) as nat);
        lemma_settled_step(
            walk(initial(debug, fct, bc), vm, bc, (n - 1) as nat),
            vm,
            bc,
            fct.params@.len(),
            BytecodeOffset((n - 1) as u32),
            lbl,
            target,
        );
    }
}

/// Once the first `k` of the waiting jumps are resolved, the label of a
/// settled jump is bound to the address of its target, unless the jump is
/// one of those that still wait.
pub proof fn lemma_settled_resolved(g: GenView, count: int, k: nat, lbl: Label, target: u32)
    requires
        g.masm.wf(),
        linked(g, count),
        k <= g.forward.len(),
        missing_target(g, k) is None,
        g.masm.has_label(lbl),
        settled(g, lbl, target),
    ensures
        (resolved(g, k).labels[lbl.0 as int] == Some(g.addresses[target])) || exists|i: int|
            k <= i < g.forward.len() && #[trigger] g.forward[i] == (ForwardJump {
                label: lbl,
                bytecode_idx: BytecodeOffset(target),
            }),
    decreases k,
{
    let jump = ForwardJump { label: lbl, bytecode_idx: BytecodeOffset(target) };
    if k == 0 {
    } else {
        lemma_settled_resolved(g, count, (k - 1) as nat, lbl, target);
        lemma_resolved(g, count, (k - 1) as nat);
        let before = resolved(g, (k - 1) as nat);
        let done = g.forward[k - 1];
        if before.labels[lbl.0 as int] == Some(g.addresses[target]) {
            // the label is bound, so it is not the one that is bound now
            assert(before.has_label(done.label) && !before.bound(done.label));
            assert(done.label != lbl);
        } else {
            let i = choose|i: int| k - 1 <= i < g.forward.len() && #[trigger] g.forward[i] == jump;
            if i == k - 1 {
                assert(done == jump);
                assert(before.has_label(lbl));
            } else {
                assert(g.forward[i] == jump);
            }
        }
    }
}

/// Backward and forward jumps: a jump to the position `target` that stands
/// at the position `pos` is resolved at once where `target < pos` and put
/// off otherwise, and either way its label ends up bound to the address of
/// `target`: in the code of the function the jump leads to the offset at
/// which the code of its target begins.
pub proof fn lemma_jump_address(
    debug: bool,
    vm: &VM,
    fct: &Fct,
    bc: &BytecodeFunction,
    pos: nat,
    target: u32,
)
    requires
        bc.wf(),
        fct.params@.len() <= MAX_PARAMS,
        param_defect(bc, fct.params@, fct.params@.len()) is None,
        walk_defect(vm, bc, bc.code@.len()) is None,
        pos < bc.code@.len(),
        operation_at(bc, pos as int) == Operation::Jump(target as int) || exists|s: Register, on: bool|
            operation_at(bc, pos as int) == Operation::JumpIf(s, target as int, on),
        ({
            let g = walk(initial(debug, fct, bc), vm, bc, bc.code@.len());
            missing_target(g, g.forward.len()) is None
        }),
    ensures
        ({
            let at = walk(initial(debug, fct, bc), vm, bc, pos);
            let after = walk(initial(debug, fct, bc), vm, bc, pos + 1);
            let g = walk(initial(debug, fct, bc), vm, bc, bc.code@.len());
            let lbl = Label(at.masm.labels.len() as usize);
            &&& target < pos ==> after.masm.labels[lbl.0 as int] == Some(at.addresses[target])
                && after.forward == at.forward
            &&& target >= pos ==> after.masm.labels[lbl.0 as int] is None && after.forward
                == at.forward.push(ForwardJump { label: lbl, bytecode_idx: BytecodeOffset(target) })
            &&& g.addresses.contains_key(target)
            &&& g.addresses[target] == walk(
                initial(debug, fct, bc),
                vm,
                bc,
                target as nat,
            ).masm.ops.len()
            &&& resolved(g, g.forward.len()).labels[lbl.0 as int] == Some(g.addresses[target])
        }),
{
    let n = bc.code@.len();
    let at = walk(initial(debug, fct, bc), vm, bc, pos);
    let after = walk(initial(debug, fct, bc), vm, bc, pos + 1);
    let g = walk(initial(debug, fct, bc), vm, bc, n);
    let lbl = Label(at.masm.labels.len() as usize);
    let jump = ForwardJump { label: lbl, bytecode_idx: BytecodeOffset(target) };
    let op = operation_at(bc, pos as int);
    let here = BytecodeOffset(pos as u32);

    assert(walk_defect(vm, bc, pos + 1) is None) by {
        if walk_defect(vm, bc, pos + 1) is Some {
            lemma_walk_defect_stays(vm, bc, pos + 1, n);
        }
    }
    assert(walk_defect(vm, bc, pos) is None);
    lemma_walk(debug, vm, fct, bc, pos);
    lemma_walk(debug, vm, fct, bc, pos + 1);
    lemma_walk(debug, vm, fct, bc, n);
    lemma_visit(at, pos as u32);
    let v = visit(at, pos as u32);
    assert(after == effect(v, vm, bc, here, op));
    assert(defect(vm, bc, here, op) is None);
    assert(v.masm.labels.len() == at.masm.labels.len());
    assert(at.masm.labels.len() <= pos);

    if target < pos {
        assert(at.addresses.contains_key(target));
        assert(v.addresses[target] == at.addresses[target]);
        assert(after.masm.labels[lbl.0 as int] == Some(at.addresses[target]));
        assert(after.addresses == v.addresses);
        assert(settled(after, lbl, target));
    } else {
        assert(after.forward == at.forward.push(jump));
        assert(after.forward[at.forward.len() as int] == jump);
        assert(settled(after, lbl, target));
        assert(after.masm.labels[lbl.0 as int] is None);
    }
    assert(after.masm.has_label(lbl));
    lemma_settled_walk(debug, vm, fct, bc, pos + 1, n, lbl, target);
    lemma_settled_resolved(g, n as int, g.forward.len(), lbl, target);

    // the target has an address
    if target >= pos {
        let i = waiting_for(g.forward, lbl, target);
        if !(exists|i: int| 0 <= i < g.forward.len() && #[trigger] g.forward[i] == jump) {
            assert(g.addresses.contains_key(target));
        } else {
            lemma_found(g, g.forward.len(), i);
        }
    } else {
        assert(g.addresses.contains_key(target));
    }
    lemma_address_map(debug, vm, fct, bc, n);
}

/// Where no target is missing among the first `k` jumps that wait, the
/// target of each of them has an address.
pub proof fn lemma_found(g: GenView, k: nat, i: int)
    requires
        0 <= i < k <= g.forward.len(),
        missing_target(g, k) is None,
    ensures
        g.addresses.contains_key(g.forward[i].bytecode_idx.0),
    decreases k,
{
    if i < k - 1 {
        lemma_found(g, (k - 1) as nat, i);
    }
}

/// Parameter marshaling: a parameter that finds no argument register of
/// its kind is read from the stack. The first such parameter lies at
/// `PARAM_OFFSET`, and each later one at a higher offset than those before
/// it. The code of every parameter ends with the store to the frame slot
/// of its register, and all of it stands before the code of the first
/// instruction.
pub proof fn lemma_param_marshaling(
    debug: bool,
    vm: &VM,
    fct: &Fct,
    bc: &BytecodeFunction,
    a: AsmView,
    i: nat,
    j: nat,
)
    requires
        i < j < fct.params@.len(),
    ensures
        stack_params(fct.params@, i) == 0 ==> param_stack_slot(fct.params@, i) == PARAM_OFFSET,
        !in_register(fct.params@, i) ==> param_stack_slot(fct.params@, i) < param_stack_slot(
            fct.params@,
            j,
        ),
        param_stack_slot(fct.params@, i) <= param_stack_slot(fct.params@, j),
        !in_register(fct.params@, i) ==> param_code(a, bc, fct.params@, i).ops == a.ops.push(
            MachineOp::LoadMem {
                mode: fct.params@[i as int].mode(),
                dest: crate::cannon::model::result_store(fct.params@[i as int]),
                mem: Mem::Local(param_stack_slot(fct.params@, i) as i32),
            },
        ).push(
            MachineOp::StoreMem {
                mode: fct.params@[i as int].mode(),
                mem: Mem::Local(bc.offset@[i as int]),
                src: crate::cannon::model::result_store(fct.params@[i as int]),
            },
        ),
        param_code(a, bc, fct.params@, i).ops.last() matches MachineOp::StoreMem { mem, .. }
            && mem == Mem::Local(bc.offset@[i as int]),
        bc.wf() && fct.params@.len() <= MAX_PARAMS && bc.code@.len() > 0 && walk_defect(vm, bc, 1)
            is None ==> walk(initial(debug, fct, bc), vm, bc, 1).addresses[0] == initial(
            debug,
            fct,
            bc,
        ).masm.ops.len(),
{
    lemma_stack_params_grow(fct.params@, i + 1, j);
    if bc.wf() && fct.params@.len() <= MAX_PARAMS && bc.code@.len() > 0 && walk_defect(vm, bc, 1)
        is None {
        lemma_address_map(debug, vm, fct, bc, 1);
    }
}

/// The number of parameters on the stack among the first `n` grows with
/// `n`.
pub proof fn lemma_stack_params_grow(params: Seq<BytecodeType>, n: nat, m: nat)
    requires
        n <= m,
    ensures
        stack_params(params, n) <= stack_params(params, m),
    decreases m - n,
{
    if n < m {
        lemma_stack_params_grow(params, n, (m - 1) as nat);
    }
}

/// Whether the operation at the offset `i`, where it is an epilog, has a
/// safepoint poll before it, which has its entry in the table of
/// safepoints.
pub open spec fn return_guarded(a: AsmView, i: int) -> bool {
    a.ops[i] is Epilog ==> i > 0 && a.ops[i - 1] is Safepoint && a.gcpoints.contains_key(
        (i - 1) as i32,
    )
}

/// Every return is guarded: before each epilog in the code stands a
/// safepoint poll, which has its entry in the table of safepoints.
pub open spec fn guarded(a: AsmView) -> bool {
    forall|i: int| 0 <= i < a.ops.len() ==> #[trigger] return_guarded(a, i)
}

/// Whether the operation `op` is a division or a remainder.
pub open spec fn divides(op: MachineOp) -> bool {
    op matches MachineOp::IntBinary { op: o, .. } && (o == IntOp::Div || o == IntOp::Mod)
}

/// The register that holds the divisor of the division `op`.
pub open spec fn divisor(op: MachineOp) -> crate::cpu::Reg {
    match op {
        MachineOp::IntBinary { rhs, .. } => rhs,
        _ => reg_tmp1(),
    }
}

/// The label of the jump `op`.
pub open spec fn jump_label(op: MachineOp) -> Label {
    match op {
        MachineOp::TestAndJumpIf { label, .. } => label,
        MachineOp::Jump { label } => label,
        _ => Label(0),
    }
}

/// Whether the operation at the offset `i`, where it is a division or a
/// remainder, has before it a test of the divisor that jumps to the
/// operation itself where the divisor is not zero, and then the fault
/// `Div0`.
pub open spec fn division_checked(a: AsmView, i: int) -> bool {
    divides(a.ops[i]) ==> {
        &&& i >= 2
        &&& a.ops[i - 1] == MachineOp::Trap { trap: Trap::Div0 }
        &&& a.ops[i - 2] == MachineOp::TestAndJumpIf {
            cond: CondCode::NonZero,
            reg: divisor(a.ops[i]),
            label: jump_label(a.ops[i - 2]),
        }
        &&& a.has_label(jump_label(a.ops[i - 2]))
        &&& a.labels[jump_label(a.ops[i - 2]).0 as int] == Some(i as usize)
    }
}

/// Every division is checked: before each division and each remainder in
/// the code stand a test of the divisor and the fault `Div0`, and the test
/// jumps over the fault to the operation itself where the divisor is not
/// zero.
pub open spec fn divisions_checked(a: AsmView) -> bool {
    forall|i: int| 0 <= i < a.ops.len() ==> #[trigger] division_checked(a, i)
}

/// Whether the code of `b` is that of `a` with more behind it, the labels
/// that are bound in `a` are bound to the same offsets in `b`, and the
/// safepoints of `a` are safepoints of `b`.
pub open spec fn extends(a: AsmView, b: AsmView) -> bool {
    &&& a.ops.len() <= b.ops.len()
    &&& forall|i: int| 0 <= i < a.ops.len() ==> #[trigger] b.ops[i] == a.ops[i]
    &&& a.labels.len() <= b.labels.len()
    &&& forall|l: int|
        0 <= l < a.labels.len() && (#[trigger] a.labels[l]) is Some ==> b.labels[l] == a.labels[l]
    &&& forall|k: i32| #[trigger] a.gcpoints.contains_key(k) ==> b.gcpoints.contains_key(k)
}

/// Code that is appended keeps the returns guarded where it holds no
/// epilog.
pub proof fn lemma_guarded_grow(a: AsmView, b: AsmView)
    requires
        guarded(a),
        extends(a, b),
        forall|i: int| a.ops.len() <= i < b.ops.len() ==> !((#[trigger] b.ops[i]) is Epilog),
    ensures
        guarded(b),
{
    assert forall|i: int| 0 <= i < b.ops.len() implies #[trigger] return_guarded(b, i) by {
        if i < a.ops.len() {
            assert(return_guarded(a, i));
            assert(b.ops[i] == a.ops[i]);
            if i > 0 {
                assert(b.ops[i - 1] == a.ops[i - 1]);
            }
        }
    }
}

/// Code that is appended keeps the divisions checked where it holds no
/// division.
pub proof fn lemma_divisions_grow(a: AsmView, b: AsmView)
    requires
        divisions_checked(a),
        extends(a, b),
        forall|i: int| a.ops.len() <= i < b.ops.len() ==> !divides(#[trigger] b.ops[i]),
    ensures
        divisions_checked(b),
{
    assert forall|i: int| 0 <= i < b.ops.len() implies #[trigger] division_checked(b, i) by {
        if i < a.ops.len() {
            assert(division_checked(a, i));
            assert(b.ops[i] == a.ops[i]);
            if divides(a.ops[i]) {
                assert(b.ops[i - 1] == a.ops[i - 1]);
                assert(b.ops[i - 2] == a.ops[i - 2]);
                assert(a.labels[jump_label(a.ops[i - 2]).0 as int] is Some);
            }
        }
    }
}

/// The epilog is exactly one safepoint poll and then the return; the poll
/// has its entry in the table of safepoints, with the frame slots that
/// hold references; and an epilog behind guarded code leaves the code
/// guarded.
pub proof fn lemma_epilog_guarded(a: AsmView, vm: &VM, bc: &BytecodeFunction)
    requires
        sound(a),
    ensures
        epilog(a, vm, bc).ops == a.ops.push(
            MachineOp::Safepoint { polling_page: vm.polling_page },
        ).push(MachineOp::Epilog),
        epilog(a, vm, bc).gcpoints == a.gcpoints.insert(
            a.ops.len() as i32,
            ptr_slots(bc, bc.registers@.len()),
        ),
        epilog(a, vm, bc).labels == a.labels,
        guarded(epilog(a, vm, bc)),
        divisions_checked(epilog(a, vm, bc)),
        extends(a, epilog(a, vm, bc)),
{
    let e = epilog(a, vm, bc);
    let n = a.ops.len() as int;
    assert forall|i: int| 0 <= i < e.ops.len() implies #[trigger] return_guarded(e, i) by {
        if i < n {
            assert(return_guarded(a, i));
            assert(e.ops[i] == a.ops[i]);
            if i > 0 {
                assert(e.ops[i - 1] == a.ops[i - 1]);
            }
        } else if i == n + 1 {
            assert(e.ops[n] is Safepoint);
            assert(e.gcpoints.contains_key(n as i32));
        }
    }
    lemma_divisions_grow(a, e);
}

/// Whether the returns of `a` are guarded and its divisions checked.
pub open spec fn sound(a: AsmView) -> bool {
    guarded(a) && divisions_checked(a)
}

/// An operation that is neither an epilog nor a division keeps sound code
/// sound.
pub broadcast proof fn lemma_step_emit(a: AsmView, op: MachineOp)
    requires
        sound(a),
        !(op is Epilog),
        !divides(op),
    ensures
        sound(#[trigger] a.emit(op)),
        extends(a, a.emit(op)),
{
    let b = a.emit(op);
    assert(extends(a, b));
    lemma_guarded_grow(a, b);
    lemma_divisions_grow(a, b);
}

/// A new label keeps sound code sound.
pub broadcast proof fn lemma_step_label(a: AsmView)
    requires
        sound(a),
    ensures
        sound(#[trigger] a.label()),
        extends(a, a.label()),
{
    let b = a.label();
    assert(extends(a, b));
    lemma_guarded_grow(a, b);
    lemma_divisions_grow(a, b);
}

/// Binding a label that is not bound keeps sound code sound.
pub broadcast proof fn lemma_step_bind(a: AsmView, lbl: Label, offset: usize)
    requires
        sound(a),
        a.has_label(lbl),
        !a.bound(lbl),
    ensures
        sound(#[trigger] a.bind(lbl, offset)),
        extends(a, a.bind(lbl, offset)),
{
    let b = a.bind(lbl, offset);
    assert(extends(a, b));
    lemma_guarded_grow(a, b);
    lemma_divisions_grow(a, b);
}

/// A comment keeps sound code sound.
pub broadcast proof fn lemma_step_comment(a: AsmView, comment: crate::masm::Comment)
    requires
        sound(a),
    ensures
        sound(#[trigger] a.comment(comment)),
        extends(a, a.comment(comment)),
{
    let b = a.comment(comment);
    assert(extends(a, b));
    lemma_guarded_grow(a, b);
    lemma_divisions_grow(a, b);
}

/// An entry of the constant area keeps sound code sound.
pub broadcast proof fn lemma_step_constant(a: AsmView, value: crate::masm::DSegValue)
    requires
        sound(a),
    ensures
        sound(#[trigger] a.constant(value)),
        extends(a, a.constant(value)),
{
    let b = a.constant(value);
    assert(extends(a, b));
    lemma_guarded_grow(a, b);
    lemma_divisions_grow(a, b);
}

/// The prolog keeps sound code sound.
pub broadcast proof fn lemma_step_prolog(a: AsmView, stacksize: i32, position: crate::position::Position)
    requires
        sound(a),
    ensures
        sound(#[trigger] a.prolog(stacksize, position)),
        extends(a, a.prolog(stacksize, position)),
{
    let b = a.prolog(stacksize, position);
    assert(extends(a, b));
    lemma_guarded_grow(a, b);
    lemma_divisions_grow(a, b);
}

/// An epilog keeps sound code sound.
pub broadcast proof fn lemma_step_epilog(a: AsmView, vm: &VM, bc: &BytecodeFunction)
    requires
        sound(a),
    ensures
        sound(#[trigger] epilog(a, vm, bc)),
        extends(a, epilog(a, vm, bc)),
{
    lemma_epilog_guarded(a, vm, bc);
}

/// The code of a division or a remainder keeps sound code sound.
pub broadcast proof fn lemma_step_division(
    a: AsmView,
    bc: &BytecodeFunction,
    o: IntOp,
    d: Register,
    l: Register,
    r: Register,
)
    requires
        sound(a),
        a.ops.len() + 8 <= usize::MAX,
        a.labels.len() < usize::MAX,
    ensures
        sound(#[trigger] int_binary(a, bc, o, d, l, r)),
        extends(a, int_binary(a, bc, o, d, l, r)),
{
    let e = int_binary(a, bc, o, d, l, r);
    if o == IntOp::Div || o == IntOp::Mod {
        let loaded = a.emit(load(bc, ExprStore::Reg(reg_result()), l)).emit(
            load(bc, ExprStore::Reg(reg_tmp1()), r),
        );
        let lbl = Label(loaded.labels.len() as usize);
        let trapped = loaded.label().emit(
            MachineOp::TestAndJumpIf { cond: CondCode::NonZero, reg: reg_tmp1(), label: lbl },
        ).emit(MachineOp::Trap { trap: Trap::Div0 });
        let bound = trapped.bind(lbl, trapped.ops.len() as usize);
        let n = a.ops.len() as int;
        assert(bound.labels =~= a.labels.push(Some(trapped.ops.len() as usize)));
        assert(e.labels == bound.labels);
        assert(e.ops[n + 2] == MachineOp::TestAndJumpIf {
            cond: CondCode::NonZero,
            reg: reg_tmp1(),
            label: lbl,
        });
        assert(e.ops[n + 3] == MachineOp::Trap { trap: Trap::Div0 });
        assert(divides(e.ops[n + 4]));
        assert(extends(a, e));
        lemma_guarded_grow(a, e);
        assert forall|i: int| 0 <= i < e.ops.len() implies #[trigger] division_checked(e, i) by {
            if i < n {
                assert(division_checked(a, i));
                assert(e.ops[i] == a.ops[i]);
                if divides(a.ops[i]) {
                    assert(e.ops[i - 1] == a.ops[i - 1]);
                    assert(e.ops[i - 2] == a.ops[i - 2]);
                    assert(a.labels[jump_label(a.ops[i - 2]).0 as int] is Some);
                }
            } else if i == n + 4 {
                assert(jump_label(e.ops[i - 2]) == lbl);
                assert(e.labels[lbl.0 as int] == Some(i as usize));
            } else {
                assert(!divides(e.ops[i]));
            }
        }
    } else {
        assert(extends(a, e));
        lemma_guarded_grow(a, e);
        lemma_divisions_grow(a, e);
    }
}

/// What keeps the returns guarded and the divisions checked.
pub broadcast group group_sound {
    lemma_step_emit,
    lemma_step_label,
    lemma_step_bind,
    lemma_step_comment,
    lemma_step_constant,
    lemma_step_prolog,
    lemma_step_epilog,
    lemma_step_division,
}

/// The code of an operation without a defect leaves the returns guarded
/// and the divisions checked.
pub proof fn lemma_sound_effect(
    g: GenView,
    vm: &VM,
    bc: &BytecodeFunction,
    params: nat,
    pos: BytecodeOffset,
    op: Operation,
)
    requires
        bc.wf(),
        g.masm.wf(),
        pos.0 < bc.code@.len(),
        linked(g, pos.0 + 1),
        sized(g, params, pos.0 as int),
        defect(vm, bc, pos, op) is None,
        sound(g.masm),
    ensures
        sound(effect(g, vm, bc, pos, op).masm),
        extends(g.masm, effect(g, vm, bc, pos, op).masm),
{
    broadcast use {group_sound, lemma_extends_trans};

    let a = g.masm;
    let e = effect(g, vm, bc, pos, op).masm;
    match op {
        Operation::IntBinary(o, d, l, r) => {
            assert(e == int_binary(a, bc, o, d, l, r));
        },
        Operation::JumpIf(s, target, on) => {
            let lbl = Label(a.labels.len() as usize);
            let jumped = a.emit(load(bc, ExprStore::Reg(reg_result()), s)).label().emit(
                MachineOp::TestAndJumpIf {
                    cond: crate::cannon::model::jump_cond(on),
                    reg: reg_result(),
                    label: lbl,
                },
            );
            assert(sound(jumped));
            if target < pos.0 {
                assert(jumped.has_label(lbl) && !jumped.bound(lbl));
            }
        },
        Operation::Jump(target) => {
            let lbl = Label(a.labels.len() as usize);
            let jumped = a.label().emit(MachineOp::Jump { label: lbl });
            assert(sound(jumped));
            if target < pos.0 {
                assert(jumped.has_label(lbl) && !jumped.bound(lbl));
            }
        },
        _ => {},
    }
    assert(extends(a, a));
}

/// What extends an extension extends what was first.
pub broadcast proof fn lemma_extends_trans(a: AsmView, b: AsmView, c: AsmView)
    requires
        #[trigger] extends(a, b),
        #[trigger] extends(b, c),
    ensures
        extends(a, c),
{
    assert forall|i: int| 0 <= i < a.ops.len() implies #[trigger] c.ops[i] == a.ops[i] by {
        assert(b.ops[i] == a.ops[i]);
    }
    assert forall|l: int| 0 <= l < a.labels.len() && (#[trigger] a.labels[l]) is Some implies c.labels[l]
        == a.labels[l] by {
        assert(b.labels[l] == a.labels[l]);
    }
    assert forall|k: i32| #[trigger] a.gcpoints.contains_key(k) implies c.gcpoints.contains_key(
        k,
    ) by {
        assert(b.gcpoints.contains_key(k));
    }
}

/// The code before the first instruction holds neither an epilog nor a
/// division.
pub proof fn lemma_sound_entry(debug: bool, fct: &Fct, bc: &BytecodeFunction)
    ensures
        sound(initial(debug, fct, bc).masm),
{
    broadcast use group_sound;

    let begun = if debug {
        crate::cannon::model::blank().emit(MachineOp::Debug)
    } else {
        crate::cannon::model::blank()
    };
    let prologued = begun.prolog(bc.stacksize, fct.pos).comment(
        crate::masm::Comment::Lit("prolog end"),
    ).comment(crate::masm::Comment::Newline);
    assert(sound(crate::cannon::model::blank()));
    assert(sound(prologued));
    lemma_sound_params(prologued, bc, fct.params@, fct.params@.len());
}

/// The code that brings the parameters to their frame slots holds neither
/// an epilog nor a division.
pub proof fn lemma_sound_params(
    a: AsmView,
    bc: &BytecodeFunction,
    params: Seq<BytecodeType>,
    n: nat,
)
    requires
        sound(a),
    ensures
        sound(params_code(a, bc, params, n)),
    decreases n,
{
    broadcast use group_sound;

    if n > 0 {
        lemma_sound_params(a, bc, params, (n - 1) as nat);
    }
}

/// After `n` instructions without a defect the returns are guarded and the
/// divisions checked.
pub proof fn lemma_sound_walk(debug: bool, vm: &VM, fct: &Fct, bc: &BytecodeFunction, n: nat)
    requires
        bc.wf(),
        fct.params@.len() <= MAX_PARAMS,
        n <= bc.code@.len(),
        walk_defect(vm, bc, n) is None,
    ensures
        sound(walk(initial(debug, fct, bc), vm, bc, n).masm),
    decreases n,
{
    if n == 0 {
        lemma_sound_entry(debug, fct, bc);
    } else {
        let before = walk(initial(debug, fct, bc), vm, bc, (n - 1) as nat);
        lemma_walk(debug, vm, fct, bc, (n - 1) as nat);
        lemma_visit(before, (n - 1) as u32);
        lemma_sound_walk(debug, vm, fct, bc, (n - 1) as nat);
        lemma_sound_effect(
            visit(before, (n - 1) as u32),
            vm,
            bc,
            fct.params@.len(),
            BytecodeOffset((n - 1) as u32),
            operation_at(bc, n - 1),
        );
    }
}

/// What is generated stays: the code after `n` instructions begins with
/// the code after `from`, and the labels that were bound then are bound
/// to the same offsets.
pub proof fn lemma_walk_extends(
    debug: bool,
    vm: &VM,
    fct: &Fct,
    bc: &BytecodeFunction,
    from: nat,
    n: nat,
)
    requires
        bc.wf(),
        fct.params@.len() <= MAX_PARAMS,
        from <= n <= bc.code@.len(),
        walk_defect(vm, bc, n) is None,
    ensures
        extends(
            walk(initial(debug, fct, bc), vm, bc, from).masm,
            walk(initial(debug, fct, bc), vm, bc, n).masm,
        ),
    decreases n - from,
{
    let first = walk(initial(debug, fct, bc), vm, bc, from).masm;
    if from < n {
        let before = walk(initial(debug, fct, bc), vm, bc, (n - 1) as nat);
        lemma_walk_extends(debug, vm, fct, bc, from, (n - 1) as nat);
        lemma_walk(debug, vm, fct, bc, (n - 1) as nat);
        lemma_visit(before, (n - 1) as u32);
        lemma_sound_walk(debug, vm, fct, bc, (n - 1) as nat);
        lemma_sound_effect(
            visit(before, (n - 1) as u32),
            vm,
            bc,
            fct.params@.len(),
            BytecodeOffset((n - 1) as u32),
            operation_at(bc, n - 1),
        );
        lemma_extends_trans(
            first,
            before.masm,
            walk(initial(debug, fct, bc), vm, bc, n).masm,
        );
    } else {
        assert(extends(first, first));
    }
}

/// Resolving the jumps that wait leaves the returns guarded and the
/// divisions checked, and keeps the code and the labels that were bound.
pub proof fn lemma_sound_resolved(g: GenView, count: int, k: nat)
    requires
        g.masm.wf(),
        linked(g, count),
        k <= g.forward.len(),
        missing_target(g, k) is None,
        sound(g.masm),
    ensures
        sound(resolved(g, k)),
        extends(g.masm, resolved(g, k)),
    decreases k,
{
    if k > 0 {
        let before = resolved(g, (k - 1) as nat);
        lemma_sound_resolved(g, count, (k - 1) as nat);
        lemma_resolved(g, count, (k - 1) as nat);
        assert(before.has_label(g.forward[k - 1].label) && !before.bound(g.forward[k - 1].label));
        lemma_step_bind(
            before,
            g.forward[k - 1].label,
            g.addresses[g.forward[k - 1].bytecode_idx.0],
        );
        lemma_extends_trans(g.masm, before, resolved(g, k));
    } else {
        assert(extends(g.masm, g.masm));
    }
}

/// Safepoint presence: the epilog that the generator emits for a return,
/// with or without a value, is one safepoint poll followed by the return.
/// In the code of a function every return has a safepoint poll right
/// before it, and the poll has its entry in the table of safepoints.
pub proof fn lemma_safepoints(debug: bool, vm: &VM, fct: &Fct, bc: &BytecodeFunction, a: AsmView)
    requires
        bc.wf(),
        fct.params@.len() <= MAX_PARAMS,
    ensures
        epilog(a, vm, bc).ops == a.ops.push(
            MachineOp::Safepoint { polling_page: vm.polling_page },
        ).push(MachineOp::Epilog),
        epilog(a, vm, bc).gcpoints == a.gcpoints.insert(
            a.ops.len() as i32,
            ptr_slots(bc, bc.registers@.len()),
        ),
        generated(debug, vm, fct, bc) matches Ok(code) ==> forall|i: int|
            0 <= i < code.ops.len() && (#[trigger] code.ops[i]) is Epilog ==> i > 0 && code.ops[i
                - 1] is Safepoint && code.gcpoints.contains_key((i - 1) as i32),
{
    if generated(debug, vm, fct, bc) is Ok {
        let n = bc.code@.len();
        let g = walk(initial(debug, fct, bc), vm, bc, n);
        let done = resolved(g, g.forward.len());
        lemma_walk(debug, vm, fct, bc, n);
        lemma_sound_walk(debug, vm, fct, bc, n);
        lemma_sound_resolved(g, n as int, g.forward.len());
        lemma_resolved(g, n as int, g.forward.len());
        let code = generated(debug, vm, fct, bc)->Ok_0;
        assert forall|i: int| 0 <= i < code.ops.len() && (#[trigger] code.ops[i]) is Epilog implies i
            > 0 && code.ops[i - 1] is Safepoint && code.gcpoints.contains_key((i - 1) as i32) by {
            assert(return_guarded(done, i));
        }
    }
}

/// The divide-by-zero trap: the code of a division or a remainder tests
/// the divisor and raises the fault `Div0` where it is zero, right before
/// the operation. In the code of a function no division and no remainder
/// stands without that test and that fault before it, and the test jumps
/// to the operation itself.
pub proof fn lemma_division_trap(debug: bool, vm: &VM, fct: &Fct, bc: &BytecodeFunction)
    requires
        bc.wf(),
        fct.params@.len() <= MAX_PARAMS,
    ensures
        generated(debug, vm, fct, bc) matches Ok(code) ==> forall|i: int|
            0 <= i < code.ops.len() && divides(#[trigger] code.ops[i]) ==> {
                &&& i >= 2
                &&& code.ops[i - 1] == MachineOp::Trap { trap: Trap::Div0 }
                &&& code.ops[i - 2] == MachineOp::TestAndJumpIf {
                    cond: CondCode::NonZero,
                    reg: divisor(code.ops[i]),
                    label: jump_label(code.ops[i - 2]),
                }
                &&& jump_label(code.ops[i - 2]).0 < code.labels.len()
                &&& code.labels[jump_label(code.ops[i - 2]).0 as int] == i
            },
{
    if generated(debug, vm, fct, bc) is Ok {
        let n = bc.code@.len();
        let g = walk(initial(debug, fct, bc), vm, bc, n);
        let done = resolved(g, g.forward.len());
        lemma_walk(debug, vm, fct, bc, n);
        lemma_sound_walk(debug, vm, fct, bc, n);
        lemma_sound_resolved(g, n as int, g.forward.len());
        lemma_resolved(g, n as int, g.forward.len());
        let code = generated(debug, vm, fct, bc)->Ok_0;
        assert forall|i: int| 0 <= i < code.ops.len() && divides(#[trigger] code.ops[i]) implies {
            &&& i >= 2
            &&& code.ops[i - 1] == MachineOp::Trap { trap: Trap::Div0 }
            &&& code.ops[i - 2] == MachineOp::TestAndJumpIf {
                cond: CondCode::NonZero,
                reg: divisor(code.ops[i]),
                label: jump_label(code.ops[i - 2]),
            }
            &&& jump_label(code.ops[i - 2]).0 < code.labels.len()
            &&& code.labels[jump_label(code.ops[i - 2]).0 as int] == i
        } by {
            assert(division_checked(done, i));
            assert(i <= usize::MAX);
        }
    }
}

/// Whether the last comment of `a` stands before an operation.
pub open spec fn commented(a: AsmView) -> bool {
    a.comments.len() > 0 ==> a.comments.last().0 < a.ops.len()
}

/// The code of an operation without a defect ends with an operation: no
/// comment is left behind it.
pub proof fn lemma_commented_effect(
    g: GenView,
    vm: &VM,
    bc: &BytecodeFunction,
    params: nat,
    pos: BytecodeOffset,
    op: Operation,
)
    requires
        bc.wf(),
        g.masm.wf(),
        pos.0 < bc.code@.len(),
        linked(g, pos.0 + 1),
        sized(g, params, pos.0 as int),
        defect(vm, bc, pos, op) is None,
    ensures
        commented(effect(g, vm, bc, pos, op).masm),
{
    lemma_effect(g, vm, bc, params, pos, op);
}

/// Comments inside the code: in the code of a function that has an
/// instruction, every comment stands before an operation, so that each
/// comment of the artifact belongs to a place in its code.
pub proof fn lemma_comments_inside(debug: bool, vm: &VM, fct: &Fct, bc: &BytecodeFunction)
    requires
        bc.wf(),
        fct.params@.len() <= MAX_PARAMS,
        bc.code@.len() > 0,
        generated(debug, vm, fct, bc) is Ok,
    ensures
        crate::compiler::fct::below(
            generated(debug, vm, fct, bc)->Ok_0.comments,
            generated(debug, vm, fct, bc)->Ok_0.ops.len() as int,
        ),
{
    let n = bc.code@.len();
    let before = walk(initial(debug, fct, bc), vm, bc, (n - 1) as nat);
    let g = walk(initial(debug, fct, bc), vm, bc, n);
    let code = generated(debug, vm, fct, bc)->Ok_0;
    assert(walk_defect(vm, bc, (n - 1) as nat) is None);
    lemma_walk(debug, vm, fct, bc, (n - 1) as nat);
    lemma_walk(debug, vm, fct, bc, n);
    lemma_visit(before, (n - 1) as u32);
    lemma_commented_effect(
        visit(before, (n - 1) as u32),
        vm,
        bc,
        fct.params@.len(),
        BytecodeOffset((n - 1) as u32),
        operation_at(bc, n - 1),
    );
    assert(commented(g.masm));
    lemma_resolved(g, n as int, g.forward.len());
    lemma_resolved_comments(g, g.forward.len());
    assert(code.comments == g.masm.comments);
    assert(code.ops == g.masm.ops);
    assert forall|i: int| 0 <= i < code.comments.len() implies (#[trigger] code.comments[i]).0
        < code.ops.len() by {
        if i < code.comments.len() - 1 {
            assert(code.comments[i].0 < code.comments[code.comments.len() - 1].0);
        }
    }
}

/// Resolving jumps leaves the comments as they are.
pub proof fn lemma_resolved_comments(g: GenView, k: nat)
    ensures
        resolved(g, k).comments == g.masm.comments,
    decreases k,
{
    if k > 0 {
        lemma_resolved_comments(g, (k - 1) as nat);
    }
}

} // verus!
