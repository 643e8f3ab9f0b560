//! What the operations of the emitter mean, for the part of them that the
//! code of integer arithmetic is made of, and what the code of integer
//! arithmetic does when it runs.
use vstd::prelude::*;

use crate::bytecode::{BytecodeFunction, Register};
use crate::cannon::laws::{
    extends, lemma_address_map, lemma_sound_resolved, lemma_sound_walk, lemma_walk,
    lemma_walk_extends,
};
use crate::cannon::model::{
    generated, initial, int_binary, lemma_resolved, lemma_visit, lemma_walk_defect_stays, load,
    operation_at, reg_type, resolved, store, walk, walk_defect, Operation, MAX_PARAMS,
};
use crate::cpu::{reg_result, reg_tmp1, CondCode, ExprStore, Mem, Reg, Trap};
use crate::masm::{AssemblyView, IntOp, Label, MachineOp};
use crate::ty::MachineMode;
use crate::vm::{Fct, VM};

verus! {

/// The state of the machine: the integer registers, the slots of the stack
/// frame, the offset of the operation that runs next, and the fault that
/// has been raised, if one has.
pub struct Machine {
    pub regs: Map<Reg, int>,
    pub frame: Map<i32, int>,
    pub pc: int,
    pub fault: Option<Trap>,
}

/// The quotient of `a` by `b`, rounded towards zero.
pub open spec fn quotient(a: int, b: int) -> int {
    if (a >= 0) == (b > 0) {
        (if a >= 0 {
            a
        } else {
            -a
        }) / (if b > 0 {
            b
        } else {
            -b
        })
    } else {
        -((if a >= 0 {
            a
        } else {
            -a
        }) / (if b > 0 {
            b
        } else {
            -b
        }))
    }
}

/// The remainder that goes with [`quotient`]: it has the sign of `a`.
pub open spec fn remainder(a: int, b: int) -> int {
    a - b * quotient(a, b)
}

/// The number of bits of the integers of the mode `mode`.
pub open spec fn width(mode: MachineMode) -> nat {
    match mode {
        MachineMode::Int8 => 8,
        MachineMode::Int32 => 32,
        MachineMode::Float32 => 32,
        _ => 64,
    }
}

/// Two to the power of `n`.
pub open spec fn pow2(n: nat) -> int
    decreases n,
{
    if n == 0 {
        1
    } else {
        2 * pow2((n - 1) as nat)
    }
}

/// The value `v` as a signed integer of the mode `mode`: `v` itself where
/// it fits, and what is left of it after overflow otherwise.
pub open spec fn fit(mode: MachineMode, v: int) -> int {
    let m = pow2(width(mode));
    let low = v % m;
    if low >= m / 2 {
        low - m
    } else {
        low
    }
}

/// Whether the register meets the condition of a conditional jump.
pub open spec fn meets(cond: CondCode, value: int) -> bool {
    match cond {
        CondCode::Zero => value == 0,
        CondCode::NonZero => value != 0,
        _ => false,
    }
}

/// The result of the integer operation `op` on `a` and `b`, for the
/// operations whose meaning is given here: the four of arithmetic.
pub open spec fn int_result(op: IntOp, a: int, b: int) -> Option<int> {
    match op {
        IntOp::Add => Some(a + b),
        IntOp::Sub => Some(a - b),
        IntOp::Mul => Some(a * b),
        IntOp::Div => if b != 0 {
            Some(quotient(a, b))
        } else {
            None
        },
        IntOp::Mod => if b != 0 {
            Some(remainder(a, b))
        } else {
            None
        },
        _ => None,
    }
}

/// The state after the operation at `m.pc` of `code` has run, for the
/// operations whose meaning is given here: loads and stores of integer
/// registers from and to the frame, integer arithmetic, conditional and
/// unconditional jumps, and faults. A division by zero has no meaning. A
/// machine that has raised a fault stays as it is.
pub open spec fn step(code: AssemblyView, m: Machine) -> Option<Machine> {
    if m.fault is Some {
        Some(m)
    } else if !(0 <= m.pc < code.ops.len()) {
        None
    } else {
        match code.ops[m.pc] {
            MachineOp::LoadMem { mode, dest: ExprStore::Reg(dest), mem: Mem::Local(offset) } => Some(
                Machine { regs: m.regs.insert(dest, m.frame[offset]), pc: m.pc + 1, ..m },
            ),
            MachineOp::StoreMem { mode, mem: Mem::Local(offset), src: ExprStore::Reg(src) } => Some(
                Machine { frame: m.frame.insert(offset, m.regs[src]), pc: m.pc + 1, ..m },
            ),
            MachineOp::IntBinary { op, mode, dest, lhs, rhs } => match int_result(
                op,
                m.regs[lhs],
                m.regs[rhs],
            ) {
                Some(value) => Some(
                    Machine { regs: m.regs.insert(dest, fit(mode, value)), pc: m.pc + 1, ..m },
                ),
                None => None,
            },
            MachineOp::TestAndJumpIf { cond, reg, label } => if label.0 < code.labels.len() {
                Some(
                    Machine {
                        pc: if meets(cond, m.regs[reg]) {
                            code.labels[label.0 as int] as int
                        } else {
                            m.pc + 1
                        },
                        ..m
                    },
                )
            } else {
                None
            },
            MachineOp::Jump { label } => if label.0 < code.labels.len() {
                Some(Machine { pc: code.labels[label.0 as int] as int, ..m })
            } else {
                None
            },
            MachineOp::Trap { trap } => Some(Machine { fault: Some(trap), ..m }),
            _ => None,
        }
    }
}

/// The state after `n` operations have run.
pub open spec fn run(code: AssemblyView, m: Machine, n: nat) -> Option<Machine>
    decreases n,
{
    if n == 0 {
        Some(m)
    } else {
        match step(code, m) {
            Some(next) => run(code, next, (n - 1) as nat),
            None => None,
        }
    }
}

/// The code of the integer operation at the position `pos` stands in the
/// code of the function at the address of `pos`, and the label of its test
/// of the divisor, where it has one, is bound to the operation itself.
pub proof fn lemma_code_at(
    debug: bool,
    vm: &VM,
    fct: &Fct,
    bc: &BytecodeFunction,
    pos: nat,
    op: IntOp,
    d: Register,
    l: Register,
    r: Register,
)
    requires
        bc.wf(),
        fct.params@.len() <= MAX_PARAMS,
        generated(debug, vm, fct, bc) is Ok,
        pos < bc.code@.len(),
        operation_at(bc, pos as int) == Operation::IntBinary(op, d, l, r),
    ensures
        ({
            let code = generated(debug, vm, fct, bc)->Ok_0;
            let at = walk(initial(debug, fct, bc), vm, bc, pos);
            let start = at.masm.ops.len() as int;
            let done = int_binary(at.masm, bc, op, d, l, r);
            &&& walk(initial(debug, fct, bc), vm, bc, bc.code@.len()).addresses[pos as u32]
                == start
            &&& done.ops.len() <= code.ops.len()
            &&& forall|i: int| 0 <= i < done.ops.len() ==> #[trigger] code.ops[i] == done.ops[i]
            &&& (op == IntOp::Div || op == IntOp::Mod) ==> at.masm.labels.len() < code.labels.len()
                && code.labels[at.masm.labels.len() as int] == start + 4
        }),
{
    let n = bc.code@.len();
    let at = walk(initial(debug, fct, bc), vm, bc, pos);
    let after = walk(initial(debug, fct, bc), vm, bc, pos + 1);
    let g = walk(initial(debug, fct, bc), vm, bc, n);
    let last = resolved(g, g.forward.len());
    let done = int_binary(at.masm, bc, op, d, l, r);

    assert(walk_defect(vm, bc, pos + 1) is None) by {
        if walk_defect(vm, bc, pos + 1) is Some {
            lemma_walk_defect_stays(vm, bc, pos + 1, n);
        }
    }
    lemma_walk(debug, vm, fct, bc, pos);
    lemma_walk(debug, vm, fct, bc, n);
    lemma_address_map(debug, vm, fct, bc, n);
    lemma_visit(at, pos as u32);
    assert(after.masm == done);
    lemma_walk_extends(debug, vm, fct, bc, pos + 1, n);
    lemma_sound_walk(debug, vm, fct, bc, n);
    lemma_sound_resolved(g, n as int, g.forward.len());
    lemma_resolved(g, n as int, g.forward.len());
    assert(extends(done, g.masm));
    assert(extends(g.masm, last));
    assert forall|i: int| 0 <= i < done.ops.len() implies #[trigger] last.ops[i] == done.ops[i] by {
        assert(g.masm.ops[i] == done.ops[i]);
    }
    if op == IntOp::Div || op == IntOp::Mod {
        let x = at.masm.labels.len() as int;
        let loaded = at.masm.emit(load(bc, ExprStore::Reg(reg_result()), l)).emit(
            load(bc, ExprStore::Reg(reg_tmp1()), r),
        );
        let lbl = Label(loaded.labels.len() as usize);
        let trapped = loaded.label().emit(
            MachineOp::TestAndJumpIf { cond: CondCode::NonZero, reg: reg_tmp1(), label: lbl },
        ).emit(MachineOp::Trap { trap: Trap::Div0 });
        assert(done.labels =~= at.masm.labels.push(Some(trapped.ops.len() as usize)));
        assert(done.labels[x] is Some);
        assert(g.masm.labels[x] == done.labels[x]);
        assert(last.labels[x] == g.masm.labels[x]);
    }
}

/// The divide-by-zero trap: when the code of a division or of a remainder
/// runs, from its first operation on, with a divisor that is zero, the
/// fault `Div0` is raised after four operations, and the frame is as it
/// was; with any other divisor the fault is jumped over, the code comes to
/// its end after five operations without a fault, and the frame slot of the
/// destination holds the quotient of the operands, rounded towards zero,
/// or the remainder that goes with it, as an integer of its width (the
/// quotient itself where it fits).
pub proof fn lemma_division_runs(
    debug: bool,
    vm: &VM,
    fct: &Fct,
    bc: &BytecodeFunction,
    pos: nat,
    op: IntOp,
    d: Register,
    l: Register,
    r: Register,
    m: Machine,
)
    requires
        bc.wf(),
        fct.params@.len() <= MAX_PARAMS,
        generated(debug, vm, fct, bc) is Ok,
        pos < bc.code@.len(),
        op == IntOp::Div || op == IntOp::Mod,
        operation_at(bc, pos as int) == Operation::IntBinary(op, d, l, r),
        m.fault is None,
        m.pc == walk(initial(debug, fct, bc), vm, bc, bc.code@.len()).addresses[pos as u32],
    ensures
        ({
            let code = generated(debug, vm, fct, bc)->Ok_0;
            let lhs = m.frame[bc.offset@[l.0 as int]];
            let rhs = m.frame[bc.offset@[r.0 as int]];
            let mode = reg_type(bc, d).mode();
            let result = if op == IntOp::Div {
                quotient(lhs, rhs)
            } else {
                remainder(lhs, rhs)
            };
            &&& rhs == 0 ==> (run(code, m, 4) matches Some(end) && end.fault == Some(Trap::Div0)
                && end.frame == m.frame)
            &&& rhs != 0 ==> (run(code, m, 5) matches Some(end) && end.fault is None && end.pc
                == m.pc + 6 && end.frame == m.frame.insert(
                bc.offset@[d.0 as int],
                fit(mode, result),
            ))
            &&& mode == MachineMode::Int32 && -0x8000_0000 <= result < 0x8000_0000 ==> fit(
                mode,
                result,
            ) == result
        }),
{
    let code = generated(debug, vm, fct, bc)->Ok_0;
    let at = walk(initial(debug, fct, bc), vm, bc, pos);
    let done = int_binary(at.masm, bc, op, d, l, r);
    let start = at.masm.ops.len() as int;
    let lbl = Label(at.masm.labels.len() as usize);
    lemma_code_at(debug, vm, fct, bc, pos, op, d, l, r);
    assert(walk_defect(vm, bc, pos) is None) by {
        if walk_defect(vm, bc, pos + 1) is Some {
            lemma_walk_defect_stays(vm, bc, pos + 1, bc.code@.len());
        }
    }
    lemma_walk(debug, vm, fct, bc, pos);

    assert(code.ops[start] == done.ops[start]);
    assert(code.ops[start + 1] == done.ops[start + 1]);
    assert(code.ops[start + 2] == done.ops[start + 2]);
    assert(code.ops[start + 3] == done.ops[start + 3]);
    assert(code.ops[start + 4] == done.ops[start + 4]);
    assert(code.ops[start + 5] == done.ops[start + 5]);
    assert(code.ops[start] == load(bc, ExprStore::Reg(reg_result()), l));
    assert(code.ops[start + 1] == load(bc, ExprStore::Reg(reg_tmp1()), r));
    assert(code.ops[start + 2] == MachineOp::TestAndJumpIf {
        cond: CondCode::NonZero,
        reg: reg_tmp1(),
        label: lbl,
    });
    assert(code.ops[start + 3] == MachineOp::Trap { trap: Trap::Div0 });
    assert(code.ops[start + 4] == MachineOp::IntBinary {
        op,
        mode: reg_type(bc, d).mode(),
        dest: reg_result(),
        lhs: reg_result(),
        rhs: reg_tmp1(),
    });
    assert(code.ops[start + 5] == store(bc, d, ExprStore::Reg(reg_result())));

    let lhs = m.frame[bc.offset@[l.0 as int]];
    let rhs = m.frame[bc.offset@[r.0 as int]];
    let result = if op == IntOp::Div {
        quotient(lhs, rhs)
    } else {
        remainder(lhs, rhs)
    };
    if -0x8000_0000 <= result < 0x8000_0000 {
        lemma_fit_32(result);
    }
    let m1 = step(code, m)->0;
    let m2 = step(code, m1)->0;
    let m3 = step(code, m2)->0;
    assert(m1.regs[reg_result()] == lhs);
    assert(m2.regs[reg_tmp1()] == rhs && m2.regs[reg_result()] == lhs);
    assert(m2.pc == start + 2 && m2.frame == m.frame && m2.fault is None);
    reveal_with_fuel(run, 7);
    if rhs == 0 {
        assert(m3.pc == start + 3);
        let m4 = step(code, m3)->0;
        assert(m4.fault == Some(Trap::Div0));
        assert(run(code, m, 4) == Some(m4));
    } else {
        assert(m3.pc == start + 4);
        let m4 = step(code, m3)->0;
        let m5 = step(code, m4)->0;
        assert(m4.regs[reg_result()] == fit(reg_type(bc, d).mode(), result));
        assert(m5.pc == start + 6);
        assert(run(code, m, 5) == Some(m5));
    }
}

/// What the code of an addition, a subtraction or a multiplication does
/// when it runs, from its first operation on: after four operations the
/// frame slot of the destination holds the sum, the difference or the
/// product of the operands, as an integer of its width, and nothing else
/// in the frame has changed.
pub proof fn lemma_arithmetic_runs(
    debug: bool,
    vm: &VM,
    fct: &Fct,
    bc: &BytecodeFunction,
    pos: nat,
    op: IntOp,
    d: Register,
    l: Register,
    r: Register,
    m: Machine,
)
    requires
        bc.wf(),
        fct.params@.len() <= MAX_PARAMS,
        generated(debug, vm, fct, bc) is Ok,
        pos < bc.code@.len(),
        op == IntOp::Add || op == IntOp::Sub || op == IntOp::Mul,
        operation_at(bc, pos as int) == Operation::IntBinary(op, d, l, r),
        m.fault is None,
        m.pc == walk(initial(debug, fct, bc), vm, bc, bc.code@.len()).addresses[pos as u32],
    ensures
        ({
            let code = generated(debug, vm, fct, bc)->Ok_0;
            let lhs = m.frame[bc.offset@[l.0 as int]];
            let rhs = m.frame[bc.offset@[r.0 as int]];
            let mode = reg_type(bc, d).mode();
            let result = int_result(op, lhs, rhs)->0;
            &&& result == if op == IntOp::Add {
                lhs + rhs
            } else if op == IntOp::Sub {
                lhs - rhs
            } else {
                lhs * rhs
            }
            &&& run(code, m, 4) matches Some(end) && end.fault is None && end.pc == m.pc + 4
                && end.frame == m.frame.insert(bc.offset@[d.0 as int], fit(mode, result))
            &&& mode == MachineMode::Int32 && -0x8000_0000 <= result < 0x8000_0000 ==> fit(
                mode,
                result,
            ) == result
        }),
{
    let code = generated(debug, vm, fct, bc)->Ok_0;
    let at = walk(initial(debug, fct, bc), vm, bc, pos);
    let done = int_binary(at.masm, bc, op, d, l, r);
    let start = at.masm.ops.len() as int;
    lemma_code_at(debug, vm, fct, bc, pos, op, d, l, r);

    assert(code.ops[start] == done.ops[start]);
    assert(code.ops[start + 1] == done.ops[start + 1]);
    assert(code.ops[start + 2] == done.ops[start + 2]);
    assert(code.ops[start + 3] == done.ops[start + 3]);
    assert(code.ops[start] == load(bc, ExprStore::Reg(reg_result()), l));
    assert(code.ops[start + 1] == load(bc, ExprStore::Reg(reg_tmp1()), r));
    assert(code.ops[start + 2] == MachineOp::IntBinary {
        op,
        mode: reg_type(bc, d).mode(),
        dest: reg_result(),
        lhs: reg_result(),
        rhs: reg_tmp1(),
    });
    assert(code.ops[start + 3] == store(bc, d, ExprStore::Reg(reg_result())));

    let lhs = m.frame[bc.offset@[l.0 as int]];
    let rhs = m.frame[bc.offset@[r.0 as int]];
    let result = int_result(op, lhs, rhs)->0;
    if -0x8000_0000 <= result < 0x8000_0000 {
        lemma_fit_32(result);
    }
    let m1 = step(code, m)->0;
    let m2 = step(code, m1)->0;
    let m3 = step(code, m2)->0;
    let m4 = step(code, m3)->0;
    assert(m1.regs[reg_result()] == lhs);
    assert(m2.regs[reg_tmp1()] == rhs && m2.regs[reg_result()] == lhs);
    assert(m3.regs[reg_result()] == fit(reg_type(bc, d).mode(), result));
    assert(m4.pc == start + 4);
    reveal_with_fuel(run, 5);
    assert(run(code, m, 4) == Some(m4));
}

/// An integer that fits into 32 bits is left as it is.
pub proof fn lemma_fit_32(v: int)
    requires
        -0x8000_0000 <= v < 0x8000_0000,
    ensures
        fit(MachineMode::Int32, v) == v,
{
    assert(pow2(32) == 0x1_0000_0000) by {
        reveal_with_fuel(pow2, 33);
    }
}

} // verus!
