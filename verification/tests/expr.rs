use std::collections::HashMap;

use dora::ast::{
    BinOp, CmpOp, Expr, ExprArrayType, ExprAssignType, ExprBinType, ExprCallType, ExprIdentType,
    ExprLitBoolType, ExprLitIntType, ExprLitStrType, ExprNilType, ExprPropType, ExprSelfType,
    ExprUnType, NodeId, UnOp,
};
use dora::cpu::{reg_params, CondCode, ExprStore, Mem, Reg, Trap, REG_RESULT, REG_TMP1};
use dora::ctxt::{
    BuiltinType, CallType, Class, ClassId, Context, Fct, FctKind, FctSrc, IdentType, Prop, PropId,
    Store, Var, VarId,
};
use dora::gc::Address;
use dora::jit::expr::{
    check, contains_fct_call, count_nodes, is_leaf, try_generate, ExprGen, MAX_NODES,
};
use dora::masm::{BaselineAssembler, Builtin, DSegValue, IntOp, Label, MachineOp};
use dora::ty::MachineMode;
use dora::vm::FctId;

const INT: MachineMode = MachineMode::Int32;
const PTR: MachineMode = MachineMode::Ptr;

struct Ids(usize);

impl Ids {
    fn next(&mut self) -> NodeId {
        self.0 += 1;
        NodeId(self.0)
    }
}

fn lit(ids: &mut Ids, value: i32) -> Expr {
    Expr::ExprLitInt(ExprLitIntType { id: ids.next(), value })
}

fn ident(id: NodeId) -> Expr {
    Expr::ExprIdent(ExprIdentType { id, name: "x".to_string() })
}

fn bin(id: NodeId, op: BinOp, lhs: Expr, rhs: Expr) -> Expr {
    Expr::ExprBin(ExprBinType { id, op, lhs: Box::new(lhs), rhs: Box::new(rhs) })
}

fn un(ids: &mut Ids, op: UnOp, opnd: Expr) -> Expr {
    Expr::ExprUn(ExprUnType { id: ids.next(), op, opnd: Box::new(opnd) })
}

fn call(id: NodeId, args: Vec<Expr>) -> Expr {
    Expr::ExprCall(ExprCallType { id, args })
}

fn source() -> FctSrc {
    FctSrc {
        calls: HashMap::new(),
        defs: HashMap::new(),
        types: HashMap::new(),
        storage: HashMap::new(),
        vars: vec![
            Var { data_type: BuiltinType::Ptr, offset: -8 },
            Var { data_type: BuiltinType::Int, offset: -12 },
        ],
        localsize: 16,
        tempsize: 32,
        argsize: 16,
        jit_fct: None,
        stub: None,
    }
}

fn function(src: FctSrc) -> Fct {
    Fct { id: FctId(0), return_type: BuiltinType::Int, kind: FctKind::Source(src) }
}

fn program() -> Context {
    let mut compiled = source();
    compiled.jit_fct = Some(Address(0x5000));
    compiled.stub = Some(Address(0x6000));
    let mut stubbed = source();
    stubbed.stub = Some(Address(0x6100));
    Context {
        classes: vec![Class {
            size: 24,
            props: vec![
                Prop { ty: BuiltinType::Int, offset: 8 },
                Prop { ty: BuiltinType::Str, offset: 16 },
            ],
        }],
        fcts: vec![
            Fct { id: FctId(0), return_type: BuiltinType::Int, kind: FctKind::Source(source()) },
            Fct { id: FctId(1), return_type: BuiltinType::Int, kind: FctKind::Source(compiled) },
            Fct { id: FctId(2), return_type: BuiltinType::Ptr, kind: FctKind::Source(stubbed) },
            Fct { id: FctId(3), return_type: BuiltinType::Str, kind: FctKind::Builtin(Address(0x7700)) },
            Fct { id: FctId(4), return_type: BuiltinType::Unit, kind: FctKind::Intrinsic },
        ],
    }
}

fn code(src: FctSrc, e: &Expr) -> BaselineAssembler {
    let (reg, masm) = try_generate(&program(), &function(src), e).unwrap();
    assert_eq!(REG_RESULT(), reg);
    masm
}

fn imm(value: i64, dest: Reg) -> MachineOp {
    MachineOp::LoadIntConst { mode: INT, dest, value }
}

fn load(mode: MachineMode, offset: i32, dest: Reg) -> MachineOp {
    MachineOp::LoadMem { mode, dest: ExprStore::Reg(dest), mem: Mem::Local(offset) }
}

fn store(mode: MachineMode, src: Reg, offset: i32) -> MachineOp {
    MachineOp::StoreMem { mode, mem: Mem::Local(offset), src: ExprStore::Reg(src) }
}

fn int_op(op: IntOp) -> MachineOp {
    MachineOp::IntBinary { op, mode: INT, dest: REG_RESULT(), lhs: REG_RESULT(), rhs: REG_TMP1() }
}

#[test]
fn test_is_leaf() {
    let mut ids = Ids(0);
    assert!(is_leaf(&lit(&mut ids, 1)));
    assert!(is_leaf(&Expr::ExprLitStr(ExprLitStrType { id: ids.next(), value: "a".to_string() })));
    assert!(is_leaf(&Expr::ExprLitBool(ExprLitBoolType { id: ids.next(), value: true })));
    assert!(is_leaf(&ident(ids.next())));
    assert!(is_leaf(&Expr::ExprSelf(ExprSelfType { id: ids.next() })));
    assert!(is_leaf(&Expr::ExprNil(ExprNilType { id: ids.next() })));
    let one = lit(&mut ids, 1);
    assert!(!is_leaf(&un(&mut ids, UnOp::Neg, one)));
    let (a, b) = (lit(&mut ids, 1), lit(&mut ids, 2));
    assert!(!is_leaf(&bin(ids.next(), BinOp::Add, a, b)));
    assert!(!is_leaf(&call(ids.next(), Vec::new())));
}

#[test]
fn test_contains_fct_call() {
    let mut ids = Ids(0);
    let plain = {
        let (a, b) = (lit(&mut ids, 1), ident(ids.next()));
        bin(ids.next(), BinOp::Mul, a, b)
    };
    assert!(!contains_fct_call(&plain));
    assert!(contains_fct_call(&call(ids.next(), Vec::new())));
    let nested = {
        let c = call(ids.next(), Vec::new());
        let n = un(&mut ids, UnOp::Neg, c);
        let one = lit(&mut ids, 1);
        bin(ids.next(), BinOp::Sub, one, n)
    };
    assert!(contains_fct_call(&nested));
    let object = Expr::ExprProp(ExprPropType {
        id: ids.next(),
        object: Box::new(call(ids.next(), Vec::new())),
        name: "p".to_string(),
    });
    assert!(contains_fct_call(&object));
    let assign = Expr::ExprAssign(ExprAssignType {
        id: ids.next(),
        lhs: Box::new(ident(ids.next())),
        rhs: Box::new(call(ids.next(), Vec::new())),
    });
    assert!(contains_fct_call(&assign));
    let array = Expr::ExprArray(ExprArrayType {
        id: ids.next(),
        object: Box::new(ident(ids.next())),
        index: Box::new(lit(&mut ids, 0)),
    });
    assert!(!contains_fct_call(&array));
}

#[test]
fn test_count_nodes() {
    let mut ids = Ids(0);
    let e = {
        let (a, b, c) = (lit(&mut ids, 1), lit(&mut ids, 2), lit(&mut ids, 3));
        let sum = bin(ids.next(), BinOp::Add, a, b);
        call(ids.next(), vec![sum, un(&mut ids, UnOp::Neg, c)])
    };
    assert_eq!(Some(6), count_nodes(&e, 6));
    assert_eq!(Some(6), count_nodes(&e, MAX_NODES));
    assert_eq!(None, count_nodes(&e, 5));
    assert_eq!(None, count_nodes(&e, 0));
}

#[test]
fn test_code_of_literals() {
    let mut ids = Ids(0);
    assert_eq!(vec![imm(-7, REG_RESULT())], code(source(), &lit(&mut ids, -7)).ops);
    let yes = Expr::ExprLitBool(ExprLitBoolType { id: ids.next(), value: true });
    assert_eq!(vec![imm(1, REG_RESULT())], code(source(), &yes).ops);
    let no = Expr::ExprLitBool(ExprLitBoolType { id: ids.next(), value: false });
    assert_eq!(vec![imm(0, REG_RESULT())], code(source(), &no).ops);
    let nil = Expr::ExprNil(ExprNilType { id: ids.next() });
    assert_eq!(vec![MachineOp::LoadNil { dest: REG_RESULT() }], code(source(), &nil).ops);
    let me = Expr::ExprSelf(ExprSelfType { id: ids.next() });
    assert_eq!(vec![load(PTR, -8, REG_RESULT())], code(source(), &me).ops);

    let id = ids.next();
    let text = Expr::ExprLitStr(ExprLitStrType { id, value: "abc".to_string() });
    let masm = code(source(), &text);
    assert_eq!(vec![MachineOp::LoadConstpool { dest: REG_RESULT(), disp: 8 }], masm.ops);
    assert_eq!(vec![DSegValue::Literal(id)], masm.dseg.entries);
}

#[test]
fn test_code_of_unary_operators() {
    let mut ids = Ids(0);
    for (op, expected) in [
        (UnOp::Plus, None),
        (UnOp::Neg, Some(MachineOp::IntNeg { mode: INT, dest: REG_RESULT(), src: REG_RESULT() })),
        (UnOp::BitNot, Some(MachineOp::IntNot { mode: INT, dest: REG_RESULT(), src: REG_RESULT() })),
        (UnOp::Not, Some(MachineOp::BoolNot { dest: REG_RESULT(), src: REG_RESULT() })),
    ] {
        let five = lit(&mut ids, 5);
        let e = un(&mut ids, op, five);
        let mut ops = vec![imm(5, REG_RESULT())];
        ops.extend(expected);
        assert_eq!(ops, code(source(), &e).ops);
    }
}

#[test]
fn test_code_of_names() {
    let mut ids = Ids(0);
    let var = ids.next();
    let prop = ids.next();
    let mut src = source();
    src.defs.insert(var.0, IdentType::Var(VarId(1)));
    src.defs.insert(prop.0, IdentType::Prop(ClassId(0), PropId(1)));
    assert_eq!(vec![load(INT, -12, REG_RESULT())], code(src, &ident(var)).ops);

    let mut src = source();
    src.defs.insert(prop.0, IdentType::Prop(ClassId(0), PropId(1)));
    assert_eq!(
        vec![
            load(PTR, -8, REG_RESULT()),
            MachineOp::LoadField {
                mode: PTR,
                dest: ExprStore::Reg(REG_RESULT()),
                base: REG_RESULT(),
                offset: 16
            },
        ],
        code(src, &ident(prop)).ops
    );
}

#[test]
fn test_code_of_operators_on_leaves() {
    let mut ids = Ids(0);
    for (op, machine) in [
        (BinOp::Add, IntOp::Add),
        (BinOp::Sub, IntOp::Sub),
        (BinOp::Mul, IntOp::Mul),
        (BinOp::BitOr, IntOp::Or),
        (BinOp::BitAnd, IntOp::And),
        (BinOp::BitXor, IntOp::Xor),
    ] {
        let (a, b) = (lit(&mut ids, 6), lit(&mut ids, 3));
        let id = ids.next();
        let mut src = source();
        src.types.insert(id.0, BuiltinType::Int);
        src.types.insert(id.0 - 2, BuiltinType::Int);
        assert_eq!(
            vec![imm(6, REG_RESULT()), imm(3, REG_TMP1()), int_op(machine)],
            code(src, &bin(id, op, a, b)).ops
        );
    }
}

#[test]
fn test_left_operand_is_set_aside_while_right_is_evaluated() {
    let mut ids = Ids(0);
    let a = lit(&mut ids, 6);
    let left = a.id();
    let (b, c) = (lit(&mut ids, 3), lit(&mut ids, 1));
    let inner = ids.next();
    let right = bin(inner, BinOp::Sub, b, c);
    let outer = ids.next();
    let e = bin(outer, BinOp::Add, a, right);

    let mut src = source();
    for id in [left, NodeId(2), inner, outer] {
        src.types.insert(id.0, BuiltinType::Int);
    }
    assert!(!check(&program(), &function(source()), &e));
    src.storage.insert(left.0, Store::Temp(4));
    assert_eq!(
        vec![
            imm(6, REG_RESULT()),
            store(INT, REG_RESULT(), -20),
            imm(3, REG_RESULT()),
            imm(1, REG_TMP1()),
            MachineOp::IntBinary {
                op: IntOp::Sub,
                mode: INT,
                dest: REG_TMP1(),
                lhs: REG_RESULT(),
                rhs: REG_TMP1()
            },
            load(INT, -20, REG_RESULT()),
            int_op(IntOp::Add),
        ],
        code(src, &e).ops
    );
}

#[test]
fn test_division_of_expressions_tests_the_divisor() {
    let mut ids = Ids(0);
    for (op, machine) in [(BinOp::Div, IntOp::Div), (BinOp::Mod, IntOp::Mod)] {
        let (a, b) = (lit(&mut ids, 7), lit(&mut ids, 0));
        let id = ids.next();
        let mut src = source();
        src.types.insert(id.0, BuiltinType::Int);
        src.types.insert(id.0 - 2, BuiltinType::Int);
        let masm = code(src, &bin(id, op, a, b));
        assert_eq!(
            vec![
                imm(7, REG_RESULT()),
                imm(0, REG_TMP1()),
                MachineOp::TestAndJumpIf {
                    cond: CondCode::NonZero,
                    reg: REG_TMP1(),
                    label: Label(0)
                },
                MachineOp::Trap { trap: Trap::Div0 },
                int_op(machine),
            ],
            masm.ops
        );
        assert_eq!(vec![Some(4)], masm.labels);
    }
}

#[test]
fn test_code_of_comparisons() {
    let mut ids = Ids(0);
    for (op, cond, mode) in [
        (CmpOp::Eq, CondCode::Equal, INT),
        (CmpOp::Ne, CondCode::NotEqual, INT),
        (CmpOp::Lt, CondCode::Less, INT),
        (CmpOp::Le, CondCode::LessEq, INT),
        (CmpOp::Gt, CondCode::Greater, INT),
        (CmpOp::Ge, CondCode::GreaterEq, INT),
        (CmpOp::Is, CondCode::Equal, PTR),
        (CmpOp::IsNot, CondCode::NotEqual, PTR),
    ] {
        let (a, b) = (lit(&mut ids, 1), lit(&mut ids, 2));
        let id = ids.next();
        let mut src = source();
        src.types.insert(id.0, BuiltinType::Bool);
        src.types.insert(id.0 - 2, BuiltinType::Int);
        assert_eq!(
            vec![
                imm(1, REG_RESULT()),
                imm(2, REG_TMP1()),
                MachineOp::CmpReg { mode, lhs: REG_RESULT(), rhs: REG_TMP1() },
                MachineOp::SetIf { dest: REG_RESULT(), cond },
            ],
            code(src, &bin(id, BinOp::Cmp(op), a, b)).ops
        );
    }
}

#[test]
fn test_strings_are_joined_and_compared_by_the_runtime() {
    let mut ids = Ids(0);
    let (a, b) = (ident(ids.next()), ident(ids.next()));
    let id = ids.next();
    let mut src = source();
    src.defs.insert(1, IdentType::Var(VarId(0)));
    src.defs.insert(2, IdentType::Var(VarId(0)));
    src.types.insert(1, BuiltinType::Str);
    src.types.insert(id.0, BuiltinType::Str);
    let masm = code(src, &bin(id, BinOp::Add, a, b));
    assert_eq!(
        vec![
            load(PTR, -8, reg_params(0)),
            load(PTR, -8, reg_params(1)),
            MachineOp::LoadConstpool { dest: REG_RESULT(), disp: 8 },
            MachineOp::Call { reg: REG_RESULT() },
        ],
        masm.ops
    );
    assert_eq!(vec![DSegValue::Builtin(Builtin::Strcat)], masm.dseg.entries);

    let (a, b) = (ident(NodeId(1)), ident(NodeId(2)));
    let mut src = source();
    src.defs.insert(1, IdentType::Var(VarId(0)));
    src.defs.insert(2, IdentType::Var(VarId(0)));
    src.types.insert(1, BuiltinType::Str);
    src.types.insert(id.0, BuiltinType::Bool);
    let masm = code(src, &bin(id, BinOp::Cmp(CmpOp::Lt), a, b));
    assert_eq!(
        vec![
            load(PTR, -8, reg_params(0)),
            load(PTR, -8, reg_params(1)),
            MachineOp::LoadConstpool { dest: REG_RESULT(), disp: 8 },
            MachineOp::Call { reg: REG_RESULT() },
            imm(0, REG_TMP1()),
            MachineOp::CmpReg { mode: INT, lhs: REG_RESULT(), rhs: REG_TMP1() },
            MachineOp::SetIf { dest: REG_RESULT(), cond: CondCode::Less },
        ],
        masm.ops
    );
    assert_eq!(vec![DSegValue::Builtin(Builtin::Strcmp)], masm.dseg.entries);
}

#[test]
fn test_logic_operators_skip_the_right_operand() {
    let mut ids = Ids(0);
    let jump_if = |cond: CondCode, label: usize| MachineOp::TestAndJumpIf {
        cond,
        reg: REG_RESULT(),
        label: Label(label),
    };
    let (a, b) = (lit(&mut ids, 1), lit(&mut ids, 0));
    let masm = code(source(), &bin(ids.next(), BinOp::Or, a, b));
    assert_eq!(
        vec![
            imm(1, REG_RESULT()),
            jump_if(CondCode::NonZero, 0),
            imm(0, REG_RESULT()),
            jump_if(CondCode::Zero, 1),
            imm(1, REG_RESULT()),
            MachineOp::Jump { label: Label(2) },
            imm(0, REG_RESULT()),
        ],
        masm.ops
    );
    assert_eq!(vec![Some(4), Some(6), Some(7)], masm.labels);

    let (a, b) = (lit(&mut ids, 1), lit(&mut ids, 0));
    let masm = code(source(), &bin(ids.next(), BinOp::And, a, b));
    assert_eq!(
        vec![
            imm(1, REG_RESULT()),
            jump_if(CondCode::Zero, 1),
            imm(0, REG_RESULT()),
            jump_if(CondCode::Zero, 1),
            imm(1, REG_RESULT()),
            MachineOp::Jump { label: Label(2) },
            imm(0, REG_RESULT()),
        ],
        masm.ops
    );
    assert_eq!(vec![Some(4), Some(6), Some(7)], masm.labels);
}

#[test]
fn test_code_of_assignments() {
    let mut ids = Ids(0);
    let name = ids.next();
    let e = Expr::ExprAssign(ExprAssignType {
        id: ids.next(),
        lhs: Box::new(ident(name)),
        rhs: Box::new(lit(&mut ids, 9)),
    });
    let mut src = source();
    src.defs.insert(name.0, IdentType::Var(VarId(1)));
    assert_eq!(
        vec![imm(9, REG_RESULT()), store(INT, REG_RESULT(), -12)],
        code(src, &e).ops
    );

    // to a property of the receiver, by its name
    let mut src = source();
    src.defs.insert(name.0, IdentType::Prop(ClassId(0), PropId(0)));
    assert!(!check(&program(), &function(source()), &e));
    src.storage.insert(name.0, Store::Temp(8));
    let to_field = MachineOp::StoreField {
        mode: INT,
        base: REG_TMP1(),
        offset: 8,
        src: ExprStore::Reg(REG_RESULT()),
    };
    assert_eq!(
        vec![
            load(PTR, -8, REG_RESULT()),
            store(PTR, REG_RESULT(), -24),
            imm(9, REG_RESULT()),
            load(PTR, -24, REG_TMP1()),
            to_field,
        ],
        code(src, &e).ops
    );

    // to a property of an object
    let object = ids.next();
    let prop = ids.next();
    let e = Expr::ExprAssign(ExprAssignType {
        id: ids.next(),
        lhs: Box::new(Expr::ExprProp(ExprPropType {
            id: prop,
            object: Box::new(ident(object)),
            name: "p".to_string(),
        })),
        rhs: Box::new(lit(&mut ids, 9)),
    });
    let mut src = source();
    src.defs.insert(object.0, IdentType::Var(VarId(0)));
    src.defs.insert(prop.0, IdentType::Prop(ClassId(0), PropId(0)));
    src.storage.insert(object.0, Store::Temp(0));
    assert_eq!(
        vec![
            load(PTR, -8, REG_RESULT()),
            store(PTR, REG_RESULT(), -16),
            imm(9, REG_RESULT()),
            load(PTR, -16, REG_TMP1()),
            to_field,
        ],
        code(src, &e).ops
    );
}

#[test]
fn test_code_of_property_access() {
    let mut ids = Ids(0);
    let object = ids.next();
    let prop = ids.next();
    let e = Expr::ExprProp(ExprPropType {
        id: prop,
        object: Box::new(ident(object)),
        name: "p".to_string(),
    });
    let mut src = source();
    src.defs.insert(object.0, IdentType::Var(VarId(0)));
    src.defs.insert(prop.0, IdentType::Prop(ClassId(0), PropId(0)));
    assert_eq!(
        vec![
            load(PTR, -8, REG_RESULT()),
            MachineOp::LoadField {
                mode: INT,
                dest: ExprStore::Reg(REG_RESULT()),
                base: REG_RESULT(),
                offset: 8
            },
        ],
        code(src, &e).ops
    );
}

#[test]
fn test_arguments_travel_in_registers_and_on_the_stack() {
    let mut ids = Ids(0);
    let args: Vec<Expr> = (0..8).map(|i| lit(&mut ids, 10 + i)).collect();
    let id = ids.next();
    let e = call(id, args);
    let mut src = source();
    src.calls.insert(id.0, CallType::Fct(FctId(1)));
    src.types.insert(id.0, BuiltinType::Int);
    let masm = code(src, &e);
    assert_eq!(
        vec![
            imm(17, REG_RESULT()),
            MachineOp::PushParam { reg: REG_RESULT() },
            imm(16, REG_RESULT()),
            MachineOp::PushParam { reg: REG_RESULT() },
            imm(15, reg_params(5)),
            imm(14, reg_params(4)),
            imm(13, reg_params(3)),
            imm(12, reg_params(2)),
            imm(11, reg_params(1)),
            imm(10, reg_params(0)),
            MachineOp::LoadConstpool { dest: REG_RESULT(), disp: 8 },
            MachineOp::Call { reg: REG_RESULT() },
            MachineOp::FreeStack { size: 16 },
        ],
        masm.ops
    );
    assert_eq!(vec![DSegValue::Addr(Address(0x5000))], masm.dseg.entries);
}

#[test]
fn test_where_calls_go() {
    let mut ids = Ids(0);
    let id = ids.next();
    let target = |callee: usize| -> DSegValue {
        let mut src = source();
        src.calls.insert(id.0, CallType::Fct(FctId(callee)));
        src.types.insert(id.0, BuiltinType::Int);
        code(src, &call(id, Vec::new())).dseg.entries[0]
    };
    // the function itself has neither code nor stub yet
    assert_eq!(DSegValue::Stub(FctId(0)), target(0));
    assert_eq!(DSegValue::Addr(Address(0x5000)), target(1));
    assert_eq!(DSegValue::Addr(Address(0x6100)), target(2));
    assert_eq!(DSegValue::Addr(Address(0x7700)), target(3));

    for callee in [4, 5] {
        let mut src = source();
        src.calls.insert(id.0, CallType::Fct(FctId(callee)));
        src.types.insert(id.0, BuiltinType::Int);
        assert!(try_generate(&program(), &function(src), &call(id, Vec::new())).is_none());
    }
}

#[test]
fn test_constructor_call_allocates_first() {
    let mut ids = Ids(0);
    let arg = lit(&mut ids, 3);
    let id = ids.next();
    let mut src = source();
    src.calls.insert(id.0, CallType::Ctor(ClassId(0), FctId(1)));
    src.types.insert(id.0, BuiltinType::Ptr);
    let masm = code(src, &call(id, vec![arg]));
    assert_eq!(
        vec![
            imm(24, reg_params(0)),
            MachineOp::LoadConstpool { dest: REG_RESULT(), disp: 8 },
            MachineOp::Call { reg: REG_RESULT() },
            MachineOp::MovReg { mode: PTR, dest: reg_params(0), src: REG_RESULT() },
            imm(3, reg_params(1)),
            MachineOp::LoadConstpool { dest: REG_RESULT(), disp: 16 },
            MachineOp::Call { reg: REG_RESULT() },
        ],
        masm.ops
    );
    assert_eq!(
        vec![DSegValue::Builtin(Builtin::GcAlloc), DSegValue::Addr(Address(0x5000))],
        masm.dseg.entries
    );
}

#[test]
fn test_call_with_arguments_set_aside() {
    let mut ids = Ids(0);
    let inner = ids.next();
    let args: Vec<Expr> = vec![call(inner, Vec::new()), lit(&mut ids, 5)];
    let (first, second) = (args[0].id(), args[1].id());
    let id = ids.next();
    let e = call(id, args);
    let mut src = source();
    src.calls.insert(inner.0, CallType::Fct(FctId(3)));
    src.types.insert(inner.0, BuiltinType::Int);
    src.calls.insert(id.0, CallType::Fct(FctId(1)));
    src.types.insert(id.0, BuiltinType::Int);
    src.types.insert(second.0, BuiltinType::Int);
    src.storage.insert(first.0, Store::Temp(0));
    src.storage.insert(second.0, Store::Temp(4));
    let masm = code(src, &e);
    assert_eq!(
        vec![
            MachineOp::LoadConstpool { dest: REG_RESULT(), disp: 8 },
            MachineOp::Call { reg: REG_RESULT() },
            store(INT, REG_RESULT(), -16),
            imm(5, REG_RESULT()),
            store(INT, REG_RESULT(), -20),
            load(INT, -16, reg_params(0)),
            load(INT, -20, reg_params(1)),
            MachineOp::LoadConstpool { dest: REG_RESULT(), disp: 16 },
            MachineOp::Call { reg: REG_RESULT() },
        ],
        masm.ops
    );
}

#[test]
fn test_array_access_is_a_call() {
    let mut ids = Ids(0);
    let object = ids.next();
    let index = lit(&mut ids, 2);
    let index_id = index.id();
    let id = ids.next();
    let e = Expr::ExprArray(ExprArrayType {
        id,
        object: Box::new(ident(object)),
        index: Box::new(index),
    });
    let mut src = source();
    src.defs.insert(object.0, IdentType::Var(VarId(0)));
    src.calls.insert(id.0, CallType::Method(ClassId(0), FctId(2)));
    src.types.insert(object.0, BuiltinType::Ptr);
    src.types.insert(index_id.0, BuiltinType::Int);
    src.storage.insert(object.0, Store::Temp(0));
    src.storage.insert(index_id.0, Store::Temp(8));
    let (ctxt, fct) = (program(), function(source()));
    let gen = ExprGen::new(&ctxt, &fct, BaselineAssembler::new());
    assert_eq!(0, gen.tempsize);
    let masm = code(src, &e);
    assert_eq!(
        vec![
            load(PTR, -8, REG_RESULT()),
            store(PTR, REG_RESULT(), -16),
            imm(2, REG_RESULT()),
            store(INT, REG_RESULT(), -24),
            load(PTR, -16, reg_params(0)),
            load(INT, -24, reg_params(1)),
            MachineOp::LoadConstpool { dest: REG_RESULT(), disp: 8 },
            MachineOp::Call { reg: REG_RESULT() },
        ],
        masm.ops
    );
    assert_eq!(vec![DSegValue::Addr(Address(0x6100))], masm.dseg.entries);
}

#[test]
fn test_no_code_without_what_the_generator_asks() {
    let mut ids = Ids(0);
    let name = ids.next();
    // a name that stands for nothing
    assert!(try_generate(&program(), &function(source()), &ident(name)).is_none());
    // a variable that does not exist
    let mut src = source();
    src.defs.insert(name.0, IdentType::Var(VarId(2)));
    assert!(try_generate(&program(), &function(src), &ident(name)).is_none());
    // a call in an argument of a call whose arguments go to registers
    let inner = ids.next();
    let outer = ids.next();
    let e = call(outer, vec![call(inner, Vec::new())]);
    let mut src = source();
    for id in [inner, outer] {
        src.calls.insert(id.0, CallType::Fct(FctId(1)));
        src.types.insert(id.0, BuiltinType::Int);
    }
    assert!(try_generate(&program(), &function(src), &e).is_none());
    // a function without a body, and a frame that is too large
    let builtin = Fct { id: FctId(9), return_type: BuiltinType::Int, kind: FctKind::Intrinsic };
    assert!(try_generate(&program(), &builtin, &lit(&mut ids, 1)).is_none());
    let mut src = source();
    src.localsize = i32::MAX;
    assert!(try_generate(&program(), &function(src), &lit(&mut ids, 1)).is_none());
    let mut src = source();
    src.tempsize = -1;
    assert!(try_generate(&program(), &function(src), &lit(&mut ids, 1)).is_none());
}
