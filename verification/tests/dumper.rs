use dora::bytecode::dumper::{dump, read, BytecodeDumper};
use dora::bytecode::{
    Bytecode, BytecodeFunction, BytecodeOffset, ConstPoolEntry, ConstPoolIdx, Register,
};
use dora::ty::BytecodeType;
use dora::vm::{ClassDefId, FctDefId, FieldId, GlobalId};

fn function(code: Vec<Bytecode>, registers: Vec<BytecodeType>) -> BytecodeFunction {
    let offset: Vec<i32> = (0..registers.len()).map(|i| -8 * (i as i32 + 1)).collect();
    BytecodeFunction::new(code, Vec::new(), registers, offset, 64).unwrap()
}

fn line(inst: Bytecode) -> String {
    dump(&function(vec![inst], Vec::new()))
}

#[test]
fn test_dump_add_function() {
    let bc = function(
        vec![
            Bytecode::AddInt(Register(2), Register(0), Register(1)),
            Bytecode::RetInt(Register(2)),
        ],
        vec![BytecodeType::Int, BytecodeType::Int, BytecodeType::Int],
    );
    assert_eq!(
        "  0: AddInt r2, r0, r1\n  1: RetInt r2\nRegisters: 0=Int 1=Int 2=Int\n",
        dump(&bc)
    );
}

#[test]
fn test_dump_empty_function() {
    assert_eq!("Registers:\n", dump(&function(Vec::new(), Vec::new())));
}

#[test]
fn test_dump_registers_with_their_types() {
    let bc = function(
        Vec::new(),
        vec![
            BytecodeType::Bool,
            BytecodeType::Byte,
            BytecodeType::Char,
            BytecodeType::Int,
            BytecodeType::Long,
            BytecodeType::Float,
            BytecodeType::Double,
            BytecodeType::Ptr,
        ],
    );
    assert_eq!(
        "Registers: 0=Bool 1=Byte 2=Char 3=Int 4=Long 5=Float 6=Double 7=Ptr\n",
        dump(&bc)
    );
}

#[test]
fn test_dump_position_is_index_of_instruction() {
    let mut code = Vec::new();
    for _ in 0..1001 {
        code.push(Bytecode::RetVoid);
    }
    let trace = dump(&function(code, Vec::new()));
    let lines: Vec<&str> = trace.lines().collect();
    assert_eq!(1002, lines.len());
    assert_eq!("  0: RetVoid", lines[0]);
    assert_eq!("  9: RetVoid", lines[9]);
    assert_eq!(" 10: RetVoid", lines[10]);
    assert_eq!(" 99: RetVoid", lines[99]);
    assert_eq!("100: RetVoid", lines[100]);
    assert_eq!("999: RetVoid", lines[999]);
    assert_eq!("1000: RetVoid", lines[1000]);
    for (n, l) in lines.iter().take(1001).enumerate() {
        assert_eq!(format!("{:3}: RetVoid", n), *l);
    }
}

#[test]
fn test_dump_jump_shows_target_position() {
    let bc = function(
        vec![
            Bytecode::ConstTrue(Register(0)),
            Bytecode::JumpIfFalse(Register(0), 3),
            Bytecode::Jump(2),
            Bytecode::JumpLoop(3),
            Bytecode::RetVoid,
            Bytecode::JumpLoop(7),
        ],
        vec![BytecodeType::Bool],
    );
    assert_eq!(
        "  0: ConstTrue r0\n  1: JumpIfFalse r0, #4\n  2: Jump #4\n  3: JumpLoop #0\n  4: \
         RetVoid\n  5: JumpLoop #-2\nRegisters: 0=Bool\n",
        dump(&bc)
    );
}

#[test]
fn test_dump_conditional_jump_shows_target_position() {
    let bc = function(
        vec![
            Bytecode::RetVoid,
            Bytecode::RetVoid,
            Bytecode::JumpIfTrue(Register(3), 0),
            Bytecode::JumpIfFalse(Register(12), 40),
        ],
        Vec::new(),
    );
    assert_eq!(
        "  0: RetVoid\n  1: RetVoid\n  2: JumpIfTrue r3, #2\n  3: JumpIfFalse r12, #43\nRegisters:\n",
        dump(&bc)
    );
    assert_eq!(
        "  0: JumpIfFalse r0, #4294967295\nRegisters:\n",
        line(Bytecode::JumpIfFalse(Register(0), u32::MAX))
    );
}

#[test]
fn test_dump_large_jump_distances() {
    assert_eq!("  0: Jump #4294967295\nRegisters:\n", line(Bytecode::Jump(u32::MAX)));
    assert_eq!("  0: JumpLoop #-4294967295\nRegisters:\n", line(Bytecode::JumpLoop(u32::MAX)));
}

#[test]
fn test_dump_each_layout() {
    let r = Register;
    assert_eq!("  0: RetVoid\nRegisters:\n", line(Bytecode::RetVoid));
    assert_eq!("  0: SubFloat r1, r2, r3\nRegisters:\n", line(Bytecode::SubFloat(r(1), r(2), r(3))));
    assert_eq!("  0: NegInt r10, r200\nRegisters:\n", line(Bytecode::NegInt(r(10), r(200))));
    assert_eq!(
        "  0: InstanceOf r1, r2, 33\nRegisters:\n",
        line(Bytecode::InstanceOf(r(1), r(2), ClassDefId(33)))
    );
    assert_eq!("  0: NilCheck r5\nRegisters:\n", line(Bytecode::NilCheck(r(5))));
    assert_eq!(
        "  0: CheckedCast r5, 12\nRegisters:\n",
        line(Bytecode::CheckedCast(r(5), ClassDefId(12)))
    );
    assert_eq!(
        "  0: ConstString r0, @7\nRegisters:\n",
        line(Bytecode::ConstString(r(0), ConstPoolIdx(7)))
    );
    assert_eq!("  0: JumpConst @3\nRegisters:\n", line(Bytecode::JumpConst(ConstPoolIdx(3))));
    assert_eq!("  0: ConstUInt8 r1, 0xff/255\nRegisters:\n", line(Bytecode::ConstUInt8(r(1), 255)));
    assert_eq!(
        "  0: JumpIfTrue r1, #500\nRegisters:\n",
        line(Bytecode::JumpIfTrue(r(1), 500))
    );
    assert_eq!(
        "  0: LoadFieldInt64 r1, r2, 3:4\nRegisters:\n",
        line(Bytecode::LoadFieldInt64(r(1), r(2), ClassDefId(3), FieldId(4)))
    );
    assert_eq!(
        "  0: StoreGlobalPtr r1, 9\nRegisters:\n",
        line(Bytecode::StoreGlobalPtr(r(1), GlobalId(9)))
    );
    assert_eq!(
        "  0: InvokeStaticVoid 8, 2\nRegisters:\n",
        line(Bytecode::InvokeStaticVoid(FctDefId(8), 2))
    );
    assert_eq!(
        "  0: InvokeVirtualPtr r4, 8, 0\nRegisters:\n",
        line(Bytecode::InvokeVirtualPtr(r(4), FctDefId(8), 0))
    );
    assert_eq!(
        "  0: NewObject r4, 6\nRegisters:\n",
        line(Bytecode::NewObject(r(4), ClassDefId(6)))
    );
    assert_eq!(
        "  0: NewArray r4, 6, r5\nRegisters:\n",
        line(Bytecode::NewArray(r(4), ClassDefId(6), r(5)))
    );
    assert_eq!(
        "  0: JumpIfFalseConst r4, @6\nRegisters:\n",
        line(Bytecode::JumpIfFalseConst(r(4), ConstPoolIdx(6)))
    );
}

#[test]
fn test_dump_names_of_renamed_families() {
    let r = Register;
    assert_eq!("  0: MovInt64 r0, r1\nRegisters:\n", line(Bytecode::MovInt64(r(0), r(1))));
    assert_eq!(
        "  0: LoadFieldUInt8 r0, r1, 0:0\nRegisters:\n",
        line(Bytecode::LoadFieldUInt8(r(0), r(1), ClassDefId(0), FieldId(0)))
    );
    assert_eq!("  0: AddLong r0, r1, r2\nRegisters:\n", line(Bytecode::AddLong(r(0), r(1), r(2))));
    assert_eq!(
        "  0: TestLeInt64 r0, r1, r2\nRegisters:\n",
        line(Bytecode::TestLeInt64(r(0), r(1), r(2)))
    );
    assert_eq!("  0: PushRegister r3\nRegisters:\n", line(Bytecode::PushRegister(r(3))));
    assert_eq!("  0: RetInt64 r3\nRegisters:\n", line(Bytecode::RetInt64(r(3))));
}

#[test]
fn test_visitor_writes_at_its_position() {
    let bc = function(Vec::new(), Vec::new());
    let mut visitor = BytecodeDumper::new(&bc);
    visitor.visit_instruction(BytecodeOffset(41));
    visitor.visit_jump(1);
    visitor.visit_instruction(BytecodeOffset(42));
    visitor.visit_jump_loop(2);
    visitor.visit(&Bytecode::ArrayLength(Register(1), Register(2)));
    assert_eq!(" 41: Jump #42\n 42: JumpLoop #40\n 42: ArrayLength r1, r2\n", visitor.w);
}

#[test]
fn test_read_visits_in_order() {
    let code = vec![
        Bytecode::ConstZeroInt(Register(0)),
        Bytecode::Assert(Register(0)),
    ];
    let bc = function(Vec::new(), Vec::new());
    let mut visitor = BytecodeDumper::new(&bc);
    read(&code, &mut visitor);
    assert_eq!("  0: ConstZeroInt r0\n  1: Assert r0\n", visitor.w);
    assert_eq!(BytecodeOffset(1), visitor.pos);
}

#[test]
fn test_bytecode_function_tables_must_agree() {
    assert!(BytecodeFunction::new(
        Vec::new(),
        Vec::new(),
        vec![BytecodeType::Int],
        Vec::new(),
        0
    )
    .is_none());
    let bc = BytecodeFunction::new(
        vec![Bytecode::RetVoid],
        vec![ConstPoolEntry::Int(5)],
        vec![BytecodeType::Int, BytecodeType::Ptr],
        vec![-4, -16],
        16,
    )
    .unwrap();
    assert!(bc.is_wf());
    assert_eq!(BytecodeType::Ptr, bc.register(Register(1)));
    assert_eq!(-16, bc.offset(Register(1)));
    assert_eq!(16, bc.stacksize());
    assert!(bc.has_register(Register(1)));
    assert!(!bc.has_register(Register(2)));
    assert_eq!(1, bc.code().len());
    assert_eq!(2, bc.registers().len());
    assert!(matches!(bc.const_pool(ConstPoolIdx(0)), Some(ConstPoolEntry::Int(5))));
    assert!(bc.const_pool(ConstPoolIdx(1)).is_none());
}
