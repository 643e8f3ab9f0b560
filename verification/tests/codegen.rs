use std::collections::HashMap;

use dora::bytecode::{Bytecode, BytecodeFunction, BytecodeOffset, ConstPoolEntry, ConstPoolIdx, Register};
use dora::cannon::codegen::CannonCodeGen;
use dora::cannon::compile;
use dora::cannon::defect::{defect_at, first_defect, jump_target_at};
use dora::cannon::model::CodegenError;
use dora::compiler::fct::JitDescriptor;
use dora::cpu::{
    freg_params, reg_params, CondCode, ExprStore, FReg, Mem, Reg, Trap, FREG_RESULT, FREG_TMP1,
    REG_RESULT, REG_TMP1,
};
use dora::gc::Address;
use dora::masm::{Assembly, BaselineAssembler, DSegValue, FloatOp, IntOp, Label, MachineOp};
use dora::position::Position;
use dora::ty::{BytecodeType, MachineMode, TypeList};
use dora::vm::{Args, ClassDef, ClassDefId, Fct, FctId, FieldDef, FieldId, GlobalDef, GlobalId, VM};

const POLL: Address = Address(0x7000);

fn vm() -> VM {
    VM {
        args: Args { flag_emit_bytecode: None, flag_emit_debug: None },
        polling_page: POLL,
        class_defs: vec![ClassDef {
            fields: vec![
                FieldDef { ty: BytecodeType::Int, offset: 16 },
                FieldDef { ty: BytecodeType::Ptr, offset: 24 },
                FieldDef { ty: BytecodeType::Double, offset: 32 },
            ],
            size: 40,
        }],
        globals: vec![
            GlobalDef { ty: BytecodeType::Int, address_value: Address(0x9000) },
            GlobalDef { ty: BytecodeType::Float, address_value: Address(0x9008) },
        ],
    }
}

fn fct(params: Vec<BytecodeType>) -> Fct {
    Fct {
        id: FctId(11),
        name: "f".to_string(),
        params,
        throws: false,
        pos: Position::new(5, 3),
    }
}

fn bytecode(code: Vec<Bytecode>, registers: Vec<BytecodeType>) -> BytecodeFunction {
    bytecode_with_pool(code, registers, Vec::new())
}

fn bytecode_with_pool(
    code: Vec<Bytecode>,
    registers: Vec<BytecodeType>,
    pool: Vec<ConstPoolEntry>,
) -> BytecodeFunction {
    let offset: Vec<i32> = (0..registers.len()).map(|i| -8 * (i as i32 + 1)).collect();
    let stacksize = 8 * registers.len() as i32;
    BytecodeFunction::new(code, pool, registers, offset, stacksize).unwrap()
}

/// The code of the function, or what stands in the way of compiling it.
/// The generator is run only on what has no defect.
fn generate_in(vm: &VM, fct: &Fct, bc: &BytecodeFunction) -> Result<Assembly, CodegenError> {
    if let Some(e) = first_defect(vm, fct, bc) {
        return Err(e);
    }
    let none = TypeList::empty();
    Ok(CannonCodeGen::new(vm, fct, BaselineAssembler::new(), bc, &none, &none).generate())
}

fn generate(params: Vec<BytecodeType>, bc: &BytecodeFunction) -> Result<Assembly, CodegenError> {
    generate_in(&vm(), &fct(params), bc)
}

fn slot(i: i32) -> Mem {
    Mem::Local(-8 * (i + 1))
}

fn r(i: usize) -> Register {
    Register(i)
}

fn load(mode: MachineMode, dest: Reg, i: i32) -> MachineOp {
    MachineOp::LoadMem { mode, dest: ExprStore::Reg(dest), mem: slot(i) }
}

fn store(mode: MachineMode, i: i32, src: Reg) -> MachineOp {
    MachineOp::StoreMem { mode, mem: slot(i), src: ExprStore::Reg(src) }
}

const INT: MachineMode = MachineMode::Int32;

// A small machine that runs the operations, to see what the code does.

#[derive(Debug, PartialEq)]
enum Outcome {
    Returned(i64),
    Fault(Trap),
}

fn narrow(mode: MachineMode, value: i64) -> i64 {
    match mode {
        MachineMode::Int8 => value as i8 as i64,
        MachineMode::Int32 => value as i32 as i64,
        _ => value,
    }
}

fn run(code: &Assembly, args: &[i64]) -> Outcome {
    let mut regs: HashMap<u8, i64> = HashMap::new();
    let mut frame: HashMap<i32, i64> = HashMap::new();
    let mut flags: (i64, i64) = (0, 0);
    for (i, a) in args.iter().enumerate() {
        if i < 6 {
            regs.insert(reg_params(i).0, *a);
        } else {
            frame.insert(16 + 8 * (i as i32 - 6), *a);
        }
    }
    let mut pc: usize = 0;
    let mut steps = 0;
    loop {
        steps += 1;
        assert!(steps < 100_000, "the code does not come to an end");
        let op = code.ops()[pc];
        pc += 1;
        match op {
            MachineOp::Debug | MachineOp::Prolog { .. } | MachineOp::Safepoint { .. } => {}
            MachineOp::Epilog => return Outcome::Returned(regs[&REG_RESULT().0]),
            MachineOp::Trap { trap } => return Outcome::Fault(trap),
            MachineOp::LoadMem { mode, dest: ExprStore::Reg(d), mem: Mem::Local(off) } => {
                regs.insert(d.0, narrow(mode, frame[&off]));
            }
            MachineOp::StoreMem { mode, mem: Mem::Local(off), src: ExprStore::Reg(s) } => {
                frame.insert(off, narrow(mode, regs[&s.0]));
            }
            MachineOp::IntBinary { op, mode, dest, lhs, rhs } => {
                let (a, b) = (regs[&lhs.0], regs[&rhs.0]);
                let v = match op {
                    IntOp::Add => a.wrapping_add(b),
                    IntOp::Sub => a.wrapping_sub(b),
                    IntOp::Mul => a.wrapping_mul(b),
                    IntOp::Div => a.wrapping_div(b),
                    IntOp::Mod => a.wrapping_rem(b),
                    IntOp::And => a & b,
                    IntOp::Or => a | b,
                    IntOp::Xor => a ^ b,
                    IntOp::Shl => a.wrapping_shl(b as u32),
                    IntOp::Shr => ((a as u64) >> (b as u32 & 63)) as i64,
                    IntOp::Sar => a.wrapping_shr(b as u32),
                };
                regs.insert(dest.0, narrow(mode, v));
            }
            MachineOp::IntNeg { mode, dest, src } => {
                regs.insert(dest.0, narrow(mode, regs[&src.0].wrapping_neg()));
            }
            MachineOp::BoolNot { dest, src } => {
                regs.insert(dest.0, if regs[&src.0] == 0 { 1 } else { 0 });
            }
            MachineOp::LoadNil { dest } | MachineOp::LoadFalse { dest } => {
                regs.insert(dest.0, 0);
            }
            MachineOp::LoadTrue { dest } => {
                regs.insert(dest.0, 1);
            }
            MachineOp::LoadIntConst { mode, dest, value } => {
                regs.insert(dest.0, narrow(mode, value));
            }
            MachineOp::CmpReg { lhs, rhs, .. } => {
                flags = (regs[&lhs.0], regs[&rhs.0]);
            }
            MachineOp::SetIf { dest, cond } => {
                let (a, b) = flags;
                let holds = match cond {
                    CondCode::Equal => a == b,
                    CondCode::NotEqual => a != b,
                    CondCode::Greater => a > b,
                    CondCode::GreaterEq => a >= b,
                    CondCode::Less => a < b,
                    CondCode::LessEq => a <= b,
                    CondCode::Zero => a == 0,
                    CondCode::NonZero => a != 0,
                };
                regs.insert(dest.0, if holds { 1 } else { 0 });
            }
            MachineOp::TestAndJumpIf { cond, reg, label } => {
                let zero = regs[&reg.0] == 0;
                let taken = match cond {
                    CondCode::Zero => zero,
                    CondCode::NonZero => !zero,
                    _ => unreachable!(),
                };
                if taken {
                    pc = code.labels()[label.0];
                }
            }
            MachineOp::Jump { label } => {
                pc = code.labels()[label.0];
            }
            other => panic!("the machine of this test does not know {:?}", other),
        }
    }
}

#[test]
fn test_add_function_is_compiled_and_adds() {
    let bc = bytecode(
        vec![Bytecode::AddInt(r(2), r(0), r(1)), Bytecode::RetInt(r(2))],
        vec![BytecodeType::Int, BytecodeType::Int, BytecodeType::Int],
    );
    let code = generate(vec![BytecodeType::Int, BytecodeType::Int], &bc).unwrap();
    assert_eq!(
        vec![
            MachineOp::Prolog { stacksize: 24 },
            MachineOp::StoreMem { mode: INT, mem: slot(0), src: ExprStore::Reg(reg_params(0)) },
            MachineOp::StoreMem { mode: INT, mem: slot(1), src: ExprStore::Reg(reg_params(1)) },
            load(INT, REG_RESULT(), 0),
            load(INT, REG_TMP1(), 1),
            MachineOp::IntBinary {
                op: IntOp::Add,
                mode: INT,
                dest: REG_RESULT(),
                lhs: REG_RESULT(),
                rhs: REG_TMP1(),
            },
            store(INT, 2, REG_RESULT()),
            load(INT, REG_RESULT(), 2),
            MachineOp::Safepoint { polling_page: POLL },
            MachineOp::Epilog,
        ],
        *code.ops()
    );
    assert_eq!(Outcome::Returned(7), run(&code, &[3, 4]));
    assert_eq!(Outcome::Returned(-1), run(&code, &[i32::MAX as i64, i32::MIN as i64]));

    // one safepoint, at the offset of the poll, and no other
    assert!(code.gcpoints().get(8).is_some());
    for offset in 0..10 {
        assert_eq!(offset == 8, code.gcpoints().get(offset).is_some());
    }
    assert_eq!(24, code.framesize());
    assert_eq!(JitDescriptor::DoraFct(FctId(11)), code.desc());
    assert!(!code.throws());
    assert!(code.labels().is_empty());
    assert!(code.dseg().entries.is_empty());
}

#[test]
fn test_tables_of_generated_code() {
    let bc = bytecode(vec![Bytecode::RetVoid], Vec::new());
    let code = generate(Vec::new(), &bc).unwrap();
    assert_eq!(
        vec![
            MachineOp::Prolog { stacksize: 0 },
            MachineOp::Safepoint { polling_page: POLL },
            MachineOp::Epilog
        ],
        *code.ops()
    );
    assert_eq!(Some(Position::new(5, 3)), code.positions().get(0));
    assert_eq!(None, code.positions().get(1));
    assert_eq!(
        vec!["prolog end".to_string(), "".to_string(), "".to_string(), "epilog".to_string()]
            .as_slice(),
        code.comments().get(1).unwrap()
    );
    assert!(code.comments().get(0).is_none());
    assert!(code.comments().get(2).is_none());
}

#[test]
fn test_safepoint_lists_reference_slots() {
    let bc = bytecode(
        vec![Bytecode::RetPtr(r(1))],
        vec![BytecodeType::Int, BytecodeType::Ptr, BytecodeType::Double, BytecodeType::Ptr],
    );
    let code = generate(Vec::new(), &bc).unwrap();
    assert_eq!(
        vec![
            MachineOp::Prolog { stacksize: 32 },
            MachineOp::LoadMem {
                mode: MachineMode::Ptr,
                dest: ExprStore::Reg(REG_RESULT()),
                mem: slot(1)
            },
            MachineOp::Safepoint { polling_page: POLL },
            MachineOp::Epilog,
        ],
        *code.ops()
    );
    assert_eq!(vec![-16, -32], code.gcpoints().get(2).unwrap().offsets);
}

#[test]
fn test_every_return_has_its_safepoint() {
    let bc = bytecode(
        vec![
            Bytecode::JumpIfFalse(r(0), 2),
            Bytecode::RetBool(r(0)),
            Bytecode::RetVoid,
            Bytecode::RetVoid,
        ],
        vec![BytecodeType::Bool],
    );
    let code = generate(vec![BytecodeType::Bool], &bc).unwrap();
    let mut epilogs = 0;
    for (i, op) in code.ops().iter().enumerate() {
        if let MachineOp::Epilog = op {
            epilogs += 1;
            assert_eq!(MachineOp::Safepoint { polling_page: POLL }, code.ops()[i - 1]);
            assert!(code.gcpoints().get(i as i32 - 1).is_some());
        }
    }
    assert_eq!(3, epilogs);
    let polls = code.ops().iter().filter(|op| matches!(op, MachineOp::Safepoint { .. })).count();
    assert_eq!(3, polls);
}

#[test]
fn test_division_traps_on_zero() {
    let bc = bytecode(
        vec![Bytecode::DivInt(r(2), r(0), r(1)), Bytecode::RetInt(r(2))],
        vec![BytecodeType::Int, BytecodeType::Int, BytecodeType::Int],
    );
    let code = generate(vec![BytecodeType::Int, BytecodeType::Int], &bc).unwrap();
    assert_eq!(
        vec![
            load(INT, REG_RESULT(), 0),
            load(INT, REG_TMP1(), 1),
            MachineOp::TestAndJumpIf { cond: CondCode::NonZero, reg: REG_TMP1(), label: Label(0) },
            MachineOp::Trap { trap: Trap::Div0 },
            MachineOp::IntBinary {
                op: IntOp::Div,
                mode: INT,
                dest: REG_RESULT(),
                lhs: REG_RESULT(),
                rhs: REG_TMP1(),
            },
            store(INT, 2, REG_RESULT()),
        ],
        code.ops()[3..9].to_vec()
    );
    assert_eq!(vec![7], *code.labels());
    assert_eq!(Outcome::Fault(Trap::Div0), run(&code, &[5, 0]));
    assert_eq!(Outcome::Fault(Trap::Div0), run(&code, &[0, 0]));
    assert_eq!(Outcome::Returned(3), run(&code, &[7, 2]));
    assert_eq!(Outcome::Returned(-3), run(&code, &[-7, 2]));
    assert_eq!(Outcome::Returned(-3), run(&code, &[7, -2]));
    assert_eq!(Outcome::Returned(3), run(&code, &[-7, -2]));
    assert_eq!(Outcome::Returned(0), run(&code, &[1, 2]));
}

#[test]
fn test_remainder_traps_on_zero() {
    let bc = bytecode(
        vec![Bytecode::ModLong(r(2), r(0), r(1)), Bytecode::RetInt64(r(2))],
        vec![BytecodeType::Long, BytecodeType::Long, BytecodeType::Long],
    );
    let code = generate(vec![BytecodeType::Long, BytecodeType::Long], &bc).unwrap();
    assert_eq!(Outcome::Fault(Trap::Div0), run(&code, &[5, 0]));
    assert_eq!(Outcome::Returned(1), run(&code, &[7, 2]));
    assert_eq!(Outcome::Returned(-1), run(&code, &[-7, 2]));
}

#[test]
fn test_loop_with_backward_and_forward_jumps() {
    // r0 = n; r1 = sum; r2 = one; r3 = zero; r4 = test
    //  0: ConstZeroInt r1
    //  1: ConstUInt8 r2, 1
    //  2: ConstZeroInt r3
    //  3: TestEqInt r4, r0, r3      <- head of the loop
    //  4: JumpIfTrue r4, 4          -> 8
    //  5: AddInt r1, r1, r0
    //  6: SubInt r0, r0, r2
    //  7: JumpLoop 4                -> 3
    //  8: RetInt r1
    let int = BytecodeType::Int;
    let bc = bytecode(
        vec![
            Bytecode::ConstZeroInt(r(1)),
            Bytecode::ConstUInt8(r(2), 1),
            Bytecode::ConstZeroInt(r(3)),
            Bytecode::TestEqInt(r(4), r(0), r(3)),
            Bytecode::JumpIfTrue(r(4), 4),
            Bytecode::AddInt(r(1), r(1), r(0)),
            Bytecode::SubInt(r(0), r(0), r(2)),
            Bytecode::JumpLoop(4),
            Bytecode::RetInt(r(1)),
        ],
        vec![int, int, int, int, BytecodeType::Bool],
    );
    let code = generate(vec![int], &bc).unwrap();
    assert_eq!(Outcome::Returned(0), run(&code, &[0]));
    assert_eq!(Outcome::Returned(1), run(&code, &[1]));
    assert_eq!(Outcome::Returned(55), run(&code, &[10]));
    assert_eq!(Outcome::Returned(5050), run(&code, &[100]));

    // the forward jump leads to where the code of its target begins, and so does the backward one
    let start_of = |position: usize| -> usize {
        // prolog and one store, then the code of the instructions before
        let lengths = [2, 2, 2, 5, 2, 4, 4, 1, 4];
        2 + lengths[..position].iter().sum::<usize>()
    };
    assert_eq!(vec![start_of(8), start_of(3)], *code.labels());
    assert_eq!(
        MachineOp::TestAndJumpIf { cond: CondCode::NonZero, reg: REG_RESULT(), label: Label(0) },
        code.ops()[start_of(4) + 1]
    );
    assert_eq!(MachineOp::Jump { label: Label(1) }, code.ops()[start_of(7)]);
}

#[test]
fn test_jump_to_own_position_and_next() {
    let bc = bytecode(vec![Bytecode::Jump(1), Bytecode::JumpLoop(0), Bytecode::RetVoid], Vec::new());
    let code = generate(Vec::new(), &bc).unwrap();
    assert_eq!(
        vec![
            MachineOp::Prolog { stacksize: 0 },
            MachineOp::Jump { label: Label(0) },
            MachineOp::Jump { label: Label(1) },
            MachineOp::Safepoint { polling_page: POLL },
            MachineOp::Epilog,
        ],
        *code.ops()
    );
    assert_eq!(vec![2, 2], *code.labels());
}

#[test]
fn test_jumps_through_the_constant_pool() {
    let bc = bytecode_with_pool(
        vec![
            Bytecode::JumpConst(ConstPoolIdx(0)),
            Bytecode::ConstTrue(r(0)),
            Bytecode::JumpIfFalseConst(r(0), ConstPoolIdx(1)),
            Bytecode::JumpIfTrueConst(r(0), ConstPoolIdx(1)),
            Bytecode::RetVoid,
        ],
        vec![BytecodeType::Bool],
        vec![ConstPoolEntry::Int(3), ConstPoolEntry::Int(-2)],
    );
    let code = generate(Vec::new(), &bc).unwrap();
    // positions begin at 1, 2, 4, 6, 8
    assert_eq!(vec![6, 1, 2], *code.labels());

    let bad = bytecode_with_pool(
        vec![Bytecode::JumpConst(ConstPoolIdx(0))],
        Vec::new(),
        vec![ConstPoolEntry::Int64(1)],
    );
    assert_eq!(
        Err(CodegenError::UnknownEntity(BytecodeOffset(0))),
        generate(Vec::new(), &bad).map(|_| ())
    );
}

#[test]
fn test_parameters_beyond_the_registers_come_from_the_stack() {
    let int = BytecodeType::Int;
    let mut registers = vec![int; 9];
    registers[3] = BytecodeType::Double;
    let mut params = vec![int; 9];
    params[3] = BytecodeType::Double;
    let bc = bytecode(vec![Bytecode::RetInt(r(8))], registers);
    let code = generate(params, &bc).unwrap();
    let double = MachineMode::Float64;
    assert_eq!(
        vec![
            MachineOp::Prolog { stacksize: 72 },
            MachineOp::StoreMem { mode: INT, mem: slot(0), src: ExprStore::Reg(reg_params(0)) },
            MachineOp::StoreMem { mode: INT, mem: slot(1), src: ExprStore::Reg(reg_params(1)) },
            MachineOp::StoreMem { mode: INT, mem: slot(2), src: ExprStore::Reg(reg_params(2)) },
            MachineOp::StoreMem { mode: double, mem: slot(3), src: ExprStore::FReg(freg_params(0)) },
            MachineOp::StoreMem { mode: INT, mem: slot(4), src: ExprStore::Reg(reg_params(3)) },
            MachineOp::StoreMem { mode: INT, mem: slot(5), src: ExprStore::Reg(reg_params(4)) },
            MachineOp::StoreMem { mode: INT, mem: slot(6), src: ExprStore::Reg(reg_params(5)) },
            MachineOp::LoadMem { mode: INT, dest: ExprStore::Reg(REG_RESULT()), mem: Mem::Local(16) },
            MachineOp::StoreMem { mode: INT, mem: slot(7), src: ExprStore::Reg(REG_RESULT()) },
            MachineOp::LoadMem { mode: INT, dest: ExprStore::Reg(REG_RESULT()), mem: Mem::Local(24) },
            MachineOp::StoreMem { mode: INT, mem: slot(8), src: ExprStore::Reg(REG_RESULT()) },
        ],
        code.ops()[..12].to_vec()
    );
}

#[test]
fn test_parameters_on_the_stack_are_read_in_order() {
    let int = BytecodeType::Int;
    for wanted in 0..9usize {
        let bc = bytecode(vec![Bytecode::RetInt(r(wanted))], vec![int; 9]);
        let code = generate(vec![int; 9], &bc).unwrap();
        let args = [10, 11, 12, 13, 14, 15, 16, 17, 18];
        assert_eq!(Outcome::Returned(10 + wanted as i64), run(&code, &args));
    }
}

#[test]
fn test_float_parameters_have_their_own_registers() {
    let float = BytecodeType::Float;
    let bc = bytecode(vec![Bytecode::RetVoid], vec![float; 10]);
    let code = generate(vec![float; 10], &bc).unwrap();
    let mode = MachineMode::Float32;
    for i in 0..8 {
        assert_eq!(
            MachineOp::StoreMem {
                mode,
                mem: slot(i as i32),
                src: ExprStore::FReg(freg_params(i))
            },
            code.ops()[1 + i]
        );
    }
    assert_eq!(
        vec![
            MachineOp::LoadMem { mode, dest: ExprStore::FReg(FREG_RESULT()), mem: Mem::Local(16) },
            MachineOp::StoreMem { mode, mem: slot(8), src: ExprStore::FReg(FREG_RESULT()) },
            MachineOp::LoadMem { mode, dest: ExprStore::FReg(FREG_RESULT()), mem: Mem::Local(24) },
            MachineOp::StoreMem { mode, mem: slot(9), src: ExprStore::FReg(FREG_RESULT()) },
        ],
        code.ops()[9..13].to_vec()
    );
}

#[test]
fn test_parameter_without_its_register_is_a_defect() {
    let int = BytecodeType::Int;
    let bc = bytecode(vec![Bytecode::RetVoid], vec![int, BytecodeType::Long]);
    assert_eq!(
        Err(CodegenError::Parameter(1)),
        generate(vec![int, int], &bc).map(|_| ())
    );
    assert_eq!(
        Err(CodegenError::Parameter(2)),
        generate(vec![int, BytecodeType::Long, int], &bc).map(|_| ())
    );
    assert!(generate(vec![int, BytecodeType::Long], &bc).is_ok());
}

#[test]
fn test_operands_of_different_types_are_a_defect() {
    let int = BytecodeType::Int;
    let long = BytecodeType::Long;
    let all: Vec<fn(Register, Register, Register) -> Bytecode> = vec![
        Bytecode::AddInt,
        Bytecode::AddLong,
        Bytecode::SubInt,
        Bytecode::MulInt,
        Bytecode::DivInt,
        Bytecode::ModInt,
        Bytecode::AndInt,
        Bytecode::OrInt,
        Bytecode::XorInt,
        Bytecode::ShlInt,
        Bytecode::ShrInt,
        Bytecode::SarInt,
        Bytecode::AddFloat,
        Bytecode::SubFloat,
        Bytecode::MulFloat,
        Bytecode::DivFloat,
    ];
    for make in all {
        for odd in 0..3usize {
            let mut registers = vec![int, int, int];
            registers[odd] = long;
            let bc = bytecode(vec![Bytecode::RetVoid, make(r(0), r(1), r(2))], registers);
            assert_eq!(
                Err(CodegenError::TypeMismatch(BytecodeOffset(1))),
                generate(Vec::new(), &bc).map(|_| ())
            );
        }
        let bc = bytecode(vec![make(r(0), r(1), r(2))], vec![long, long, long]);
        assert!(generate(Vec::new(), &bc).is_ok());
    }
}

#[test]
fn test_first_defect_stops_generation() {
    let int = BytecodeType::Int;
    let bc = bytecode(
        vec![
            Bytecode::Jump(100),
            Bytecode::NilCheck(r(0)),
            Bytecode::AddInt(r(0), r(1), r(5)),
        ],
        vec![int, int],
    );
    assert_eq!(
        Err(CodegenError::NotImplemented(BytecodeOffset(1))),
        generate(Vec::new(), &bc).map(|_| ())
    );
}

#[test]
fn test_defects_of_single_instructions() {
    let int = BytecodeType::Int;
    let defect = |inst: Bytecode| -> CodegenError {
        let bc = bytecode_with_pool(
            vec![Bytecode::RetVoid, inst],
            vec![int, int, BytecodeType::Ptr, BytecodeType::Bool, BytecodeType::Float],
            vec![ConstPoolEntry::Int(1), ConstPoolEntry::String("abc".to_string())],
        );
        generate(Vec::new(), &bc).map(|_| ()).unwrap_err()
    };
    let at = BytecodeOffset(1);
    assert_eq!(CodegenError::UnknownRegister(at), defect(Bytecode::AddInt(r(0), r(1), r(9))));
    assert_eq!(CodegenError::UnknownRegister(at), defect(Bytecode::RetInt(r(9))));
    assert_eq!(CodegenError::UnknownRegister(at), defect(Bytecode::MovInt(r(9), r(0))));
    assert_eq!(CodegenError::TypeMismatch(at), defect(Bytecode::MovInt(r(0), r(2))));
    assert_eq!(CodegenError::TypeMismatch(at), defect(Bytecode::NegInt(r(0), r(2))));
    assert_eq!(CodegenError::TypeMismatch(at), defect(Bytecode::NotBool(r(0), r(3))));
    assert_eq!(CodegenError::TypeMismatch(at), defect(Bytecode::ConstNil(r(0))));
    assert_eq!(CodegenError::TypeMismatch(at), defect(Bytecode::ConstTrue(r(0))));
    assert_eq!(CodegenError::TypeMismatch(at), defect(Bytecode::ConstZeroInt(r(2))));
    assert_eq!(CodegenError::TypeMismatch(at), defect(Bytecode::ConstZeroFloat(r(0))));
    assert_eq!(CodegenError::TypeMismatch(at), defect(Bytecode::ConstString(r(0), ConstPoolIdx(1))));
    assert_eq!(CodegenError::UnknownEntity(at), defect(Bytecode::ConstString(r(2), ConstPoolIdx(0))));
    assert_eq!(CodegenError::UnknownEntity(at), defect(Bytecode::ConstString(r(2), ConstPoolIdx(2))));
    assert_eq!(CodegenError::UnknownEntity(at), defect(Bytecode::ConstInt(r(0), ConstPoolIdx(1))));
    assert_eq!(CodegenError::UnknownEntity(at), defect(Bytecode::ConstInt64(r(0), ConstPoolIdx(0))));
    assert_eq!(CodegenError::UnknownEntity(at), defect(Bytecode::ConstFloat(r(4), ConstPoolIdx(0))));
    assert_eq!(CodegenError::TypeMismatch(at), defect(Bytecode::TestEqInt(r(0), r(0), r(1))));
    assert_eq!(CodegenError::TypeMismatch(at), defect(Bytecode::TestEqInt(r(3), r(0), r(2))));
    assert_eq!(CodegenError::TypeMismatch(at), defect(Bytecode::JumpIfTrue(r(0), 0)));
    assert_eq!(CodegenError::JumpOutOfRange(at), defect(Bytecode::JumpLoop(2)));
    assert_eq!(CodegenError::JumpOutOfRange(at), defect(Bytecode::Jump(u32::MAX)));
    assert_eq!(CodegenError::MissingJumpTarget(BytecodeOffset(2)), defect(Bytecode::Jump(1)));
    assert_eq!(
        CodegenError::MissingJumpTarget(BytecodeOffset(7)),
        defect(Bytecode::JumpIfFalse(r(3), 6))
    );
    assert_eq!(
        CodegenError::TypeMismatch(at),
        defect(Bytecode::LoadFieldInt(r(0), r(1), ClassDefId(0), FieldId(0)))
    );
    assert_eq!(
        CodegenError::UnknownEntity(at),
        defect(Bytecode::LoadFieldInt(r(0), r(2), ClassDefId(1), FieldId(0)))
    );
    assert_eq!(
        CodegenError::UnknownEntity(at),
        defect(Bytecode::LoadFieldInt(r(0), r(2), ClassDefId(0), FieldId(3)))
    );
    assert_eq!(
        CodegenError::TypeMismatch(at),
        defect(Bytecode::LoadFieldInt(r(0), r(2), ClassDefId(0), FieldId(1)))
    );
    assert_eq!(CodegenError::UnknownEntity(at), defect(Bytecode::LoadGlobalInt(r(0), GlobalId(2))));
    assert_eq!(CodegenError::TypeMismatch(at), defect(Bytecode::LoadGlobalInt(r(0), GlobalId(1))));
    assert_eq!(CodegenError::TypeMismatch(at), defect(Bytecode::StoreGlobalInt(r(2), GlobalId(0))));
    for inst in [
        Bytecode::NilCheck(r(2)),
        Bytecode::NewObject(r(2), ClassDefId(0)),
        Bytecode::ArrayLength(r(0), r(2)),
        Bytecode::Assert(r(3)),
        Bytecode::NegFloat(r(4), r(4)),
        Bytecode::NotInt(r(0), r(0)),
        Bytecode::RolInt(r(0), r(0), r(0)),
        Bytecode::ExtendIntToLong(r(0), r(0)),
        Bytecode::PushRegister(r(0)),
        Bytecode::InvokeStaticVoid(dora::vm::FctDefId(0), 0),
    ] {
        assert_eq!(CodegenError::NotImplemented(at), defect(inst));
    }
}

#[test]
fn test_code_of_unary_moves_and_constants() {
    let ops = |inst: Bytecode| -> Vec<MachineOp> {
        let bc = bytecode_with_pool(
            vec![inst],
            vec![
                BytecodeType::Long,
                BytecodeType::Long,
                BytecodeType::Bool,
                BytecodeType::Double,
                BytecodeType::Ptr,
                BytecodeType::Char,
                BytecodeType::Float,
            ],
            vec![
                ConstPoolEntry::Int64(-5),
                ConstPoolEntry::Char('x'),
                ConstPoolEntry::Float64(0x4000_0000_0000_0000),
                ConstPoolEntry::Float32(0x3fc0_0000),
            ],
        );
        generate(Vec::new(), &bc).unwrap().ops()[1..].to_vec()
    };
    let long = MachineMode::Int64;
    let double = MachineMode::Float64;
    assert_eq!(
        vec![
            load(long, REG_RESULT(), 1),
            MachineOp::IntNeg { mode: long, dest: REG_RESULT(), src: REG_RESULT() },
            store(long, 0, REG_RESULT()),
        ],
        ops(Bytecode::NegLong(r(0), r(1)))
    );
    assert_eq!(
        vec![
            load(MachineMode::Int8, REG_RESULT(), 2),
            MachineOp::BoolNot { dest: REG_RESULT(), src: REG_RESULT() },
            store(MachineMode::Int8, 2, REG_RESULT()),
        ],
        ops(Bytecode::NotBool(r(2), r(2)))
    );
    assert_eq!(
        vec![load(long, REG_RESULT(), 1), store(long, 0, REG_RESULT())],
        ops(Bytecode::MovInt64(r(0), r(1)))
    );
    assert_eq!(
        vec![
            MachineOp::LoadMem { mode: double, dest: ExprStore::FReg(FREG_RESULT()), mem: slot(3) },
            MachineOp::StoreMem { mode: double, mem: slot(3), src: ExprStore::FReg(FREG_RESULT()) },
        ],
        ops(Bytecode::MovDouble(r(3), r(3)))
    );
    assert_eq!(
        vec![
            MachineOp::LoadNil { dest: REG_RESULT() },
            store(MachineMode::Ptr, 4, REG_RESULT())
        ],
        ops(Bytecode::ConstNil(r(4)))
    );
    assert_eq!(
        vec![MachineOp::LoadTrue { dest: REG_RESULT() }, store(MachineMode::Int8, 2, REG_RESULT())],
        ops(Bytecode::ConstTrue(r(2)))
    );
    assert_eq!(
        vec![MachineOp::LoadFalse { dest: REG_RESULT() }, store(MachineMode::Int8, 2, REG_RESULT())],
        ops(Bytecode::ConstFalse(r(2)))
    );
    assert_eq!(
        vec![
            MachineOp::LoadIntConst { mode: long, dest: REG_RESULT(), value: 0 },
            store(long, 0, REG_RESULT())
        ],
        ops(Bytecode::ConstZeroLong(r(0)))
    );
    assert_eq!(
        vec![
            MachineOp::LoadIntConst { mode: long, dest: REG_RESULT(), value: 200 },
            store(long, 0, REG_RESULT())
        ],
        ops(Bytecode::ConstUInt8(r(0), 200))
    );
    assert_eq!(
        vec![
            MachineOp::LoadIntConst { mode: long, dest: REG_RESULT(), value: -5 },
            store(long, 0, REG_RESULT())
        ],
        ops(Bytecode::ConstInt64(r(0), ConstPoolIdx(0)))
    );
    assert_eq!(
        vec![
            MachineOp::LoadIntConst { mode: INT, dest: REG_RESULT(), value: 'x' as i64 },
            store(INT, 5, REG_RESULT())
        ],
        ops(Bytecode::ConstChar(r(5), ConstPoolIdx(1)))
    );
    assert_eq!(
        vec![
            MachineOp::LoadFloatConst {
                mode: double,
                dest: FREG_RESULT(),
                bits: 0x4000_0000_0000_0000
            },
            MachineOp::StoreMem { mode: double, mem: slot(3), src: ExprStore::FReg(FREG_RESULT()) },
        ],
        ops(Bytecode::ConstDouble(r(3), ConstPoolIdx(2)))
    );
    assert_eq!(
        vec![
            MachineOp::LoadFloatConst {
                mode: MachineMode::Float32,
                dest: FREG_RESULT(),
                bits: 0x3fc0_0000
            },
            MachineOp::StoreMem {
                mode: MachineMode::Float32,
                mem: slot(6),
                src: ExprStore::FReg(FREG_RESULT())
            },
        ],
        ops(Bytecode::ConstFloat(r(6), ConstPoolIdx(3)))
    );
    assert_eq!(
        vec![
            MachineOp::LoadFloatConst { mode: double, dest: FREG_RESULT(), bits: 0 },
            MachineOp::StoreMem { mode: double, mem: slot(3), src: ExprStore::FReg(FREG_RESULT()) },
        ],
        ops(Bytecode::ConstZeroDouble(r(3)))
    );
}

#[test]
fn test_code_of_float_operations_and_tests() {
    let double = BytecodeType::Double;
    let mode = MachineMode::Float64;
    let fload = |dest: FReg, i: i32| MachineOp::LoadMem {
        mode,
        dest: ExprStore::FReg(dest),
        mem: slot(i),
    };
    let bc = bytecode(
        vec![
            Bytecode::MulDouble(r(2), r(0), r(1)),
            Bytecode::TestLtDouble(r(3), r(0), r(1)),
            Bytecode::TestGeInt64(r(3), r(4), r(4)),
        ],
        vec![double, double, double, BytecodeType::Bool, BytecodeType::Long],
    );
    let code = generate(Vec::new(), &bc).unwrap();
    assert_eq!(
        vec![
            fload(FREG_RESULT(), 0),
            fload(FREG_TMP1(), 1),
            MachineOp::FloatBinary {
                op: FloatOp::Mul,
                mode,
                dest: FREG_RESULT(),
                lhs: FREG_RESULT(),
                rhs: FREG_TMP1(),
            },
            MachineOp::StoreMem { mode, mem: slot(2), src: ExprStore::FReg(FREG_RESULT()) },
            fload(FREG_RESULT(), 0),
            fload(FREG_TMP1(), 1),
            MachineOp::FloatCmp {
                mode,
                dest: REG_RESULT(),
                lhs: FREG_RESULT(),
                rhs: FREG_TMP1(),
                cond: CondCode::Less,
            },
            store(MachineMode::Int8, 3, REG_RESULT()),
            load(MachineMode::Int64, REG_RESULT(), 4),
            load(MachineMode::Int64, REG_TMP1(), 4),
            MachineOp::CmpReg { mode: MachineMode::Int64, lhs: REG_RESULT(), rhs: REG_TMP1() },
            MachineOp::SetIf { dest: REG_RESULT(), cond: CondCode::GreaterEq },
            store(MachineMode::Int8, 3, REG_RESULT()),
        ],
        code.ops()[1..].to_vec()
    );
}

#[test]
fn test_comparisons_run() {
    let int = BytecodeType::Int;
    let cases: Vec<(fn(Register, Register, Register) -> Bytecode, [i64; 3])> = vec![
        (Bytecode::TestEqInt, [0, 1, 0]),
        (Bytecode::TestNeInt, [1, 0, 1]),
        (Bytecode::TestGtInt, [0, 0, 1]),
        (Bytecode::TestGeInt, [0, 1, 1]),
        (Bytecode::TestLtInt, [1, 0, 0]),
        (Bytecode::TestLeInt, [1, 1, 0]),
    ];
    for (make, expected) in cases {
        let bc = bytecode(
            vec![make(r(2), r(0), r(1)), Bytecode::RetBool(r(2))],
            vec![int, int, BytecodeType::Bool],
        );
        let code = generate(vec![int, int], &bc).unwrap();
        assert_eq!(Outcome::Returned(expected[0]), run(&code, &[-3, 4]));
        assert_eq!(Outcome::Returned(expected[1]), run(&code, &[4, 4]));
        assert_eq!(Outcome::Returned(expected[2]), run(&code, &[5, 4]));
    }
}

#[test]
fn test_integer_operations_run() {
    let int = BytecodeType::Int;
    let cases: Vec<(fn(Register, Register, Register) -> Bytecode, i64)> = vec![
        (Bytecode::AddInt, 12 + 5),
        (Bytecode::SubInt, 12 - 5),
        (Bytecode::MulInt, 12 * 5),
        (Bytecode::DivInt, 12 / 5),
        (Bytecode::ModInt, 12 % 5),
        (Bytecode::AndInt, 12 & 5),
        (Bytecode::OrInt, 12 | 5),
        (Bytecode::XorInt, 12 ^ 5),
        (Bytecode::ShlInt, 12 << 5),
        (Bytecode::ShrInt, 12 >> 5),
        (Bytecode::SarInt, 12 >> 5),
    ];
    for (make, expected) in cases {
        let bc = bytecode(
            vec![make(r(2), r(0), r(1)), Bytecode::RetInt(r(2))],
            vec![int, int, int],
        );
        let code = generate(vec![int, int], &bc).unwrap();
        assert_eq!(Outcome::Returned(expected), run(&code, &[12, 5]));
    }
}

#[test]
fn test_globals_and_strings_go_through_the_constant_area() {
    let bc = bytecode_with_pool(
        vec![
            Bytecode::LoadGlobalInt(r(0), GlobalId(0)),
            Bytecode::ConstString(r(1), ConstPoolIdx(0)),
            Bytecode::StoreGlobalFloat(r(2), GlobalId(1)),
        ],
        vec![BytecodeType::Int, BytecodeType::Ptr, BytecodeType::Float],
        vec![ConstPoolEntry::String("hello".to_string())],
    );
    let code = generate(Vec::new(), &bc).unwrap();
    assert_eq!(
        vec![
            DSegValue::Addr(Address(0x9000)),
            DSegValue::Str(ConstPoolIdx(0)),
            DSegValue::Addr(Address(0x9008)),
        ],
        code.dseg().entries
    );
    assert_eq!(24, code.dseg().size());
    let float = MachineMode::Float32;
    assert_eq!(
        vec![
            // the first entry begins 8 bytes before the code
            MachineOp::LoadConstpool { dest: REG_TMP1(), disp: 8 },
            MachineOp::LoadMem {
                mode: INT,
                dest: ExprStore::Reg(REG_RESULT()),
                mem: Mem::Base(REG_TMP1(), 0)
            },
            store(INT, 0, REG_RESULT()),
            MachineOp::LoadConstpool { dest: REG_RESULT(), disp: 16 },
            store(MachineMode::Ptr, 1, REG_RESULT()),
            MachineOp::LoadConstpool { dest: REG_TMP1(), disp: 24 },
            MachineOp::LoadMem { mode: float, dest: ExprStore::FReg(FREG_RESULT()), mem: slot(2) },
            MachineOp::StoreMem {
                mode: float,
                mem: Mem::Base(REG_TMP1(), 0),
                src: ExprStore::FReg(FREG_RESULT())
            },
        ],
        code.ops()[1..].to_vec()
    );
    assert_eq!(
        vec!["prolog end".to_string(), "".to_string(), "load global 0".to_string()].as_slice(),
        code.comments().get(1).unwrap()
    );
    assert_eq!(vec!["load string @0".to_string()].as_slice(), code.comments().get(4).unwrap());
    assert_eq!(vec!["store global 1".to_string()].as_slice(), code.comments().get(6).unwrap());
}

#[test]
fn test_fields_are_accessed_at_their_offsets() {
    let bc = bytecode(
        vec![
            Bytecode::LoadFieldInt(r(0), r(1), ClassDefId(0), FieldId(0)),
            Bytecode::StoreFieldDouble(r(2), r(1), ClassDefId(0), FieldId(2)),
            Bytecode::LoadFieldPtr(r(1), r(1), ClassDefId(0), FieldId(1)),
        ],
        vec![BytecodeType::Int, BytecodeType::Ptr, BytecodeType::Double],
    );
    let code = generate(Vec::new(), &bc).unwrap();
    let ptr = MachineMode::Ptr;
    let double = MachineMode::Float64;
    assert_eq!(
        vec![
            load(ptr, REG_RESULT(), 1),
            MachineOp::LoadField {
                mode: INT,
                dest: ExprStore::Reg(REG_RESULT()),
                base: REG_RESULT(),
                offset: 16
            },
            store(INT, 0, REG_RESULT()),
            load(ptr, REG_TMP1(), 1),
            MachineOp::LoadMem { mode: double, dest: ExprStore::FReg(FREG_RESULT()), mem: slot(2) },
            MachineOp::StoreField {
                mode: double,
                base: REG_TMP1(),
                offset: 32,
                src: ExprStore::FReg(FREG_RESULT())
            },
            load(ptr, REG_RESULT(), 1),
            MachineOp::LoadField {
                mode: ptr,
                dest: ExprStore::Reg(REG_RESULT()),
                base: REG_RESULT(),
                offset: 24
            },
            store(ptr, 1, REG_RESULT()),
        ],
        code.ops()[1..].to_vec()
    );
    assert_eq!(vec!["load field 0:0".to_string()].as_slice(), code.comments().get(1).unwrap()[2..].to_vec());
    assert_eq!(vec!["store field 0:2".to_string()].as_slice(), code.comments().get(4).unwrap());
}

#[test]
fn test_breakpoint_where_the_settings_ask_for_it() {
    let bc = bytecode(vec![Bytecode::RetVoid], Vec::new());
    let mut machine = vm();
    machine.args.flag_emit_debug = Some("g,f".to_string());
    let code = generate_in(&machine, &fct(Vec::new()), &bc).unwrap();
    assert_eq!(
        vec![
            MachineOp::Debug,
            MachineOp::Prolog { stacksize: 0 },
            MachineOp::Safepoint { polling_page: POLL },
            MachineOp::Epilog
        ],
        *code.ops()
    );
    assert_eq!(Some(Position::new(5, 3)), code.positions().get(1));

    machine.args.flag_emit_debug = Some("g".to_string());
    let code = generate_in(&machine, &fct(Vec::new()), &bc).unwrap();
    assert_eq!(MachineOp::Prolog { stacksize: 0 }, code.ops()[0]);
}

#[test]
fn test_compile_traces_where_the_settings_ask_for_it() {
    let bc = bytecode(
        vec![Bytecode::AddInt(r(2), r(0), r(1)), Bytecode::RetInt(r(2))],
        vec![BytecodeType::Int, BytecodeType::Int, BytecodeType::Int],
    );
    let f = fct(vec![BytecodeType::Int, BytecodeType::Int]);
    let none = TypeList::empty();

    let quiet = compile(&vm(), &f, &bc, &none, &none);
    assert!(quiet.trace.is_none());
    assert_eq!(Outcome::Returned(7), run(&quiet.code, &[3, 4]));

    let mut machine = vm();
    machine.args.flag_emit_bytecode = Some("all".to_string());
    let loud = compile(&machine, &f, &bc, &none, &none);
    assert_eq!(
        Some("  0: AddInt r2, r0, r1\n  1: RetInt r2\nRegisters: 0=Int 1=Int 2=Int\n".to_string()),
        loud.trace
    );
    assert_eq!(quiet.code.ops(), loud.code.ops());

    let broken = bytecode(vec![Bytecode::NilCheck(r(0))], vec![BytecodeType::Ptr]);
    assert_eq!(
        Some(CodegenError::NotImplemented(BytecodeOffset(0))),
        first_defect(&machine, &fct(Vec::new()), &broken)
    );
}

#[test]
fn test_first_defect_is_none_for_what_can_be_compiled() {
    let bc = bytecode(
        vec![
            Bytecode::JumpIfTrue(r(0), 2),
            Bytecode::RetVoid,
            Bytecode::JumpLoop(1),
        ],
        vec![BytecodeType::Bool],
    );
    assert_eq!(None, first_defect(&vm(), &fct(vec![BytecodeType::Bool]), &bc));
    assert_eq!(None, first_defect(&vm(), &fct(Vec::new()), &bytecode(Vec::new(), Vec::new())));
}

#[test]
fn test_first_defect_takes_parameters_then_instructions_then_jumps() {
    let int = BytecodeType::Int;
    // a jump behind the end, then a mismatch, and a parameter without its register
    let code = vec![
        Bytecode::Jump(7),
        Bytecode::AddInt(r(0), r(0), r(1)),
        Bytecode::Jump(3),
        Bytecode::RetVoid,
    ];
    let bc = bytecode(code.clone(), vec![int, BytecodeType::Long]);
    assert_eq!(Some(CodegenError::Parameter(1)), first_defect(&vm(), &fct(vec![int, int]), &bc));
    assert_eq!(
        Some(CodegenError::TypeMismatch(BytecodeOffset(1))),
        first_defect(&vm(), &fct(vec![int]), &bc)
    );

    // without the mismatch the first jump that leads nowhere is named, by its target
    let bc = bytecode(
        vec![
            Bytecode::Jump(3),
            Bytecode::Jump(6),
            Bytecode::Jump(9),
            Bytecode::RetVoid,
        ],
        Vec::new(),
    );
    assert_eq!(
        Some(CodegenError::MissingJumpTarget(BytecodeOffset(7))),
        first_defect(&vm(), &fct(Vec::new()), &bc)
    );

    // a jump to the position behind the last instruction has no target either
    let bc = bytecode(vec![Bytecode::Jump(1)], Vec::new());
    assert_eq!(
        Some(CodegenError::MissingJumpTarget(BytecodeOffset(1))),
        first_defect(&vm(), &fct(Vec::new()), &bc)
    );
}

#[test]
fn test_defect_at_and_jump_target_at_read_one_instruction() {
    let bc = bytecode_with_pool(
        Vec::new(),
        vec![BytecodeType::Int, BytecodeType::Bool],
        vec![ConstPoolEntry::Int(-3), ConstPoolEntry::Char('x')],
    );
    let at = BytecodeOffset(5);
    assert_eq!(None, defect_at(&vm(), &bc, at, &Bytecode::ConstInt(r(0), ConstPoolIdx(0))));
    assert_eq!(
        Some(CodegenError::UnknownEntity(at)),
        defect_at(&vm(), &bc, at, &Bytecode::ConstInt(r(0), ConstPoolIdx(1)))
    );
    assert_eq!(
        Some(CodegenError::UnknownRegister(at)),
        defect_at(&vm(), &bc, at, &Bytecode::RetInt(r(2)))
    );
    assert_eq!(
        Some(CodegenError::JumpOutOfRange(at)),
        defect_at(&vm(), &bc, at, &Bytecode::JumpLoop(6))
    );
    assert_eq!(
        Some(CodegenError::TypeMismatch(at)),
        defect_at(&vm(), &bc, at, &Bytecode::JumpIfFalse(r(0), 1))
    );

    assert_eq!(Some(9), jump_target_at(&bc, at, &Bytecode::JumpIfTrue(r(1), 4)));
    assert_eq!(Some(-1), jump_target_at(&bc, at, &Bytecode::JumpLoop(6)));
    assert_eq!(Some(2), jump_target_at(&bc, at, &Bytecode::JumpConst(ConstPoolIdx(0))));
    assert_eq!(None, jump_target_at(&bc, at, &Bytecode::JumpConst(ConstPoolIdx(1))));
    assert_eq!(None, jump_target_at(&bc, at, &Bytecode::RetVoid));
}

#[test]
fn test_emitter_binds_labels_and_counts_offsets() {
    let mut masm = BaselineAssembler::new();
    assert_eq!(0, masm.pos());
    let first = masm.create_label();
    let second = masm.create_label();
    assert_eq!(Label(0), first);
    assert_eq!(Label(1), second);
    masm.jump(second);
    masm.bind_label(first);
    masm.trap(Trap::Assert);
    masm.bind_label_to(second, 0);
    assert_eq!(2, masm.pos());
    assert_eq!(vec![Some(1), Some(0)], masm.labels);
    let disp = masm.add_addr(Address(0x10));
    assert_eq!(8, disp);
    let disp = masm.add_string(ConstPoolIdx(3));
    assert_eq!(16, disp);
    let code = masm.jit(0, JitDescriptor::TrapStub, true);
    assert_eq!(vec![1, 0], *code.labels());
    assert_eq!(
        vec![MachineOp::Jump { label: Label(1) }, MachineOp::Trap { trap: Trap::Assert }],
        *code.ops()
    );
    assert!(code.throws());
}

fn add_code() -> Assembly {
    let bc = bytecode(
        vec![Bytecode::AddInt(r(2), r(0), r(1)), Bytecode::RetPtr(r(3))],
        vec![BytecodeType::Int, BytecodeType::Int, BytecodeType::Int, BytecodeType::Ptr],
    );
    generate(vec![BytecodeType::Int, BytecodeType::Int], &bc).unwrap()
}

#[test]
fn test_placed_code_has_tables_in_bytes() {
    let code = add_code();
    assert_eq!(10, code.ops().len());
    // the operation number k begins at the byte 4 * k + 1
    let starts: Vec<u32> = (0..11).map(|k| 4 * k + 1).collect();
    let fct = code.place(Address(0x10000), &starts).unwrap();
    assert_eq!(Address(0x10000), fct.ptr_start());
    assert_eq!(Address(0x10000), fct.fct_ptr());
    assert_eq!(41, fct.fct_len());
    assert_eq!(Address(0x10000 + 41), fct.ptr_end());
    assert_eq!(Address(0x10000 + 41), fct.fct_end());
    assert_eq!(32, fct.framesize);
    assert_eq!(FctId(11), fct.fct_id());
    assert!(!fct.throws);
    // the safepoint of the poll, which is the operation number 8
    assert_eq!(vec![-32], fct.gcpoint_for_offset(33).unwrap().offsets);
    for offset in 0..41 {
        assert_eq!(offset == 33, fct.gcpoint_for_offset(offset).is_some());
    }
    // the position of the prolog, which is the operation number 0
    assert_eq!(Some(Position::new(5, 3)), fct.position_for_offset(1));
    assert_eq!(None, fct.position_for_offset(0));
    // the comments before the operations number 1 and 8
    assert_eq!(
        vec!["prolog end".to_string(), "".to_string()].as_slice(),
        fct.get_comment(5).unwrap()
    );
    assert_eq!(vec!["".to_string(), "epilog".to_string()].as_slice(), fct.get_comment(33).unwrap());
    assert!(fct.get_comment(1).is_none());
    assert!(fct.exception_handlers.is_empty());
}

#[test]
fn test_placed_code_stands_behind_its_constant_area() {
    let bc = bytecode_with_pool(
        vec![
            Bytecode::LoadGlobalInt(r(0), GlobalId(0)),
            Bytecode::ConstString(r(1), ConstPoolIdx(0)),
        ],
        vec![BytecodeType::Int, BytecodeType::Ptr],
        vec![ConstPoolEntry::String("s".to_string())],
    );
    let code = generate(Vec::new(), &bc).unwrap();
    let starts: Vec<u32> = (0..=code.ops().len() as u32).collect();
    let fct = code.place(Address(0x2000), &starts).unwrap();
    assert_eq!(Address(0x2000), fct.ptr_start());
    assert_eq!(Address(0x2010), fct.fct_ptr());
    assert_eq!(6, fct.fct_len());
    assert_eq!(Address(0x2016), fct.ptr_end());
}

#[test]
fn test_code_is_not_placed_without_memory_or_layout() {
    let starts: Vec<u32> = (0..11).collect();
    assert!(add_code().place(Address(0x1000), &starts).is_some());
    // no memory
    assert!(add_code().place(Address::null(), &starts).is_none());
    // a layout for another number of operations
    assert!(add_code().place(Address(0x1000), &starts[..10].to_vec()).is_none());
    assert!(add_code().place(Address(0x1000), &Vec::new()).is_none());
    // an operation without room
    let mut flat = starts.clone();
    flat[5] = flat[4];
    assert!(add_code().place(Address(0x1000), &flat).is_none());
    // code that is too long for its tables
    let mut long = starts.clone();
    long[10] = 0x8000_0000;
    assert!(add_code().place(Address(0x1000), &long).is_none());
    long[10] = 0x7fff_ffff;
    assert!(add_code().place(Address(0x1000), &long).is_some());
    // code that ends outside the address space
    assert!(add_code().place(Address(usize::MAX - 9), &starts).is_none());
    assert!(add_code().place(Address(usize::MAX - 10), &starts).is_some());
}

#[test]
fn test_code_with_a_comment_behind_its_end_is_not_placed() {
    // without an instruction the comment of the prolog closes the code
    let empty = generate(Vec::new(), &bytecode(Vec::new(), Vec::new())).unwrap();
    assert_eq!(1, empty.ops().len());
    assert!(empty.comments().get(1).is_some());
    assert!(empty.place(Address(0x1000), &vec![0, 4]).is_none());

    // with one, every entry of the tables lies before the end of the code
    let code = generate(Vec::new(), &bytecode(vec![Bytecode::RetVoid], Vec::new())).unwrap();
    let fct = code.place(Address(0x1000), &vec![0, 4, 8, 12]).unwrap();
    assert_eq!(12, fct.fct_len);
    assert!(fct.get_comment(4).is_some());
    assert!(fct.get_comment(12).is_none());
    assert!(fct.gcpoint_for_offset(4).is_some());
}

#[test]
fn test_emitters_work_on_a_generator_at_an_instruction() {
    let int = BytecodeType::Int;
    let bc = bytecode(
        vec![Bytecode::ShlInt(r(2), r(0), r(1)), Bytecode::JumpIfTrue(r(3), 0), Bytecode::RetVoid],
        vec![int, int, int, BytecodeType::Bool],
    );
    let machine = vm();
    let f = fct(Vec::new());
    let none = TypeList::empty();
    let mut gen = CannonCodeGen::new(&machine, &f, BaselineAssembler::new(), &bc, &none, &none);

    // the generator stands at the first instruction, whose code begins the code
    gen.current_pos = Some(BytecodeOffset(0));
    gen.bytecode_to_address.insert(0, 0);
    assert_eq!(None, defect_at(&machine, &bc, BytecodeOffset(0), &bc.code()[0]));
    gen.emit_shl_int(r(2), r(0), r(1));
    assert_eq!(
        vec![
            load(INT, REG_RESULT(), 0),
            load(INT, REG_TMP1(), 1),
            MachineOp::IntBinary {
                op: IntOp::Shl,
                mode: INT,
                dest: REG_RESULT(),
                lhs: REG_RESULT(),
                rhs: REG_TMP1(),
            },
            store(INT, 2, REG_RESULT()),
        ],
        gen.masm.ops
    );

    // at the second, a jump back to the first is bound at once
    gen.current_pos = Some(BytecodeOffset(1));
    gen.bytecode_to_address.insert(1, 4);
    gen.emit_jump_if(r(3), 0, true);
    assert_eq!(6, gen.masm.ops.len());
    assert_eq!(
        MachineOp::TestAndJumpIf { cond: CondCode::NonZero, reg: REG_RESULT(), label: Label(0) },
        gen.masm.ops[5]
    );
    assert_eq!(vec![Some(0)], gen.masm.labels);
    assert!(gen.forward_jumps.is_empty());

    // a jump ahead waits for its target
    gen.emit_jump(2);
    assert_eq!(vec![Some(0), None], gen.masm.labels);
    assert_eq!(1, gen.forward_jumps.len());
    assert_eq!(BytecodeOffset(2), gen.forward_jumps[0].bytecode_idx);
    assert_eq!(Label(1), gen.forward_jumps[0].label);
}

