//! The code of an expression, as a function of the expression and of what
//! the semantic analysis has found out about it.
//!
//! [`expr_code`] is what the emitter holds after the code of an expression
//! has been emitted; [`ok`] says of which expressions code can be
//! generated at all.
use vstd::prelude::*;

use crate::ast::{
    has_call, leaf, BinOp, CmpOp, Expr, ExprArrayType, ExprAssignType, ExprBinType, ExprCallType,
    NodeId, UnOp,
};
use crate::cpu::{
    reg_param, reg_result, reg_tmp1, CondCode, ExprStore, Mem, Reg, Trap, REG_PARAMS_LEN,
};
use crate::ctxt::{
    BuiltinType, CallType, Context, Fct, FctKind, FctSrc, IdentType, Prop, Store, Var, MAX_FRAME,
};
use crate::gc::Address;
use crate::masm::{AsmView, Builtin, DSegValue, IntOp, Label, MachineOp};
use crate::ty::MachineMode;
use crate::vm::FctId;

verus! {

/// The largest number of arguments of a call.
///
/// An argument that goes to the stack is stored eight bytes above the one
/// before it, at a distance from the frame pointer that is a signed number
/// of 32 bits: eight bytes for each of this many arguments is the most
/// that such a number holds.
pub const MAX_ARGS: usize = 0x0fff_ffff;

/// A load of a local slot into a register.
pub open spec fn load_local(ty: BuiltinType, offset: i32, dest: Reg) -> MachineOp {
    MachineOp::LoadMem { mode: ty.mode(), dest: ExprStore::Reg(dest), mem: Mem::Local(offset) }
}

/// A store of a register to a local slot.
pub open spec fn store_local(ty: BuiltinType, src: Reg, offset: i32) -> MachineOp {
    MachineOp::StoreMem { mode: ty.mode(), mem: Mem::Local(offset), src: ExprStore::Reg(src) }
}

/// A load of a 32-bit integer.
pub open spec fn imm(value: i64, dest: Reg) -> MachineOp {
    MachineOp::LoadIntConst { mode: MachineMode::Int32, dest, value }
}

/// The condition that goes with a comparison.
pub open spec fn cond_of(op: CmpOp) -> CondCode {
    match op {
        CmpOp::Eq => CondCode::Equal,
        CmpOp::Ne => CondCode::NotEqual,
        CmpOp::Lt => CondCode::Less,
        CmpOp::Le => CondCode::LessEq,
        CmpOp::Gt => CondCode::Greater,
        CmpOp::Ge => CondCode::GreaterEq,
        CmpOp::Is => CondCode::Equal,
        CmpOp::IsNot => CondCode::NotEqual,
    }
}

/// The offset from the frame pointer of the temporary slot of the node
/// `id`: temporary slots lie behind the variables.
pub open spec fn temp_offset(src: FctSrc, id: NodeId) -> i32 {
    (-(src.localsize + src.store_of(id).slot())) as i32
}

/// Whether the node `id` has a temporary slot, which lies in the frame.
pub open spec fn has_temp(src: FctSrc, id: NodeId) -> bool {
    src.store_of(id) matches Store::Temp(offset) && -MAX_FRAME <= offset <= MAX_FRAME
}

/// Where the code of the function `f` is found: its compiled code, else
/// its stub, else the stub that the runtime has yet to make for it.
pub open spec fn jit_or_stub(f: &Fct) -> DSegValue {
    match f.source().jit_fct {
        Some(ptr) => DSegValue::Addr(ptr),
        None => match f.source().stub {
            Some(ptr) => DSegValue::Addr(ptr),
            None => DSegValue::Stub(f.id),
        },
    }
}

/// Whether the function `fid` can be called from `fct`: it is `fct`
/// itself, or a function of the program that is not an intrinsic.
pub open spec fn callable(ctxt: &Context, fct: &Fct, fid: FctId) -> bool {
    fct.id == fid || (fid.0 < ctxt.fcts@.len() && !(ctxt.fcts@[fid.0 as int].kind is Intrinsic))
}

/// Where a call of the function `fid` from `fct` goes.
pub open spec fn target_of(ctxt: &Context, fct: &Fct, fid: FctId) -> DSegValue {
    if fct.id == fid {
        jit_or_stub(fct)
    } else {
        match ctxt.fcts@[fid.0 as int].kind {
            FctKind::Source(_) => jit_or_stub(&ctxt.fcts@[fid.0 as int]),
            FctKind::Builtin(ptr) => DSegValue::Addr(ptr),
            FctKind::Intrinsic => DSegValue::Addr(Address(0)),
        }
    }
}

/// The type that a call of the function `fid` from `fct` yields.
pub open spec fn return_type_of(ctxt: &Context, fct: &Fct, fid: FctId) -> BuiltinType {
    if fct.id == fid {
        fct.return_type
    } else {
        ctxt.fcts@[fid.0 as int].return_type
    }
}

/// The code of a call: the address of the callee goes to the constant
/// area and is loaded from there, the call is made, and the result is
/// copied to `dest` where that is not the result register.
pub open spec fn call_insn(a: AsmView, target: DSegValue, ty: BuiltinType, dest: Reg) -> AsmView {
    let disp = a.next_disp();
    let called = a.constant(target).emit(
        MachineOp::LoadConstpool { dest: reg_result(), disp: disp as i32 },
    ).emit(MachineOp::Call { reg: reg_result() });
    if reg_result() != dest {
        called.emit(MachineOp::MovReg { mode: ty.mode(), dest, src: reg_result() })
    } else {
        called
    }
}

/// The code that loads the receiver.
pub open spec fn self_code(a: AsmView, fct: &Fct, dest: Reg) -> AsmView {
    let var = fct.source().vars@[0];
    a.emit(load_local(var.data_type, var.offset, dest))
}

/// Whether the class `cls` has the property `prop`.
pub open spec fn has_prop(ctxt: &Context, ident: IdentType) -> bool {
    ident matches IdentType::Prop(cls, prop) && cls.0 < ctxt.classes@.len() && prop.0
        < ctxt.classes@[cls.0 as int].props@.len()
}

/// The property that `ident` stands for.
pub open spec fn prop_of(ctxt: &Context, ident: IdentType) -> Prop {
    match ident {
        IdentType::Prop(cls, prop) => ctxt.classes@[cls.0 as int].props@[prop.0 as int],
        IdentType::Var(_) => Prop { ty: BuiltinType::Unit, offset: 0 },
    }
}

/// The code that loads a property of the object in `src`.
pub open spec fn prop_access(
    a: AsmView,
    ctxt: &Context,
    ident: IdentType,
    src: Reg,
    dest: Reg,
) -> AsmView {
    let prop = prop_of(ctxt, ident);
    a.emit(
        MachineOp::LoadField {
            mode: prop.ty.mode(),
            dest: ExprStore::Reg(dest),
            base: src,
            offset: prop.offset,
        },
    )
}

/// The variable that the name `id` stands for.
pub open spec fn var_of(fct: &Fct, id: NodeId) -> Var {
    match fct.source().defs@[id.0] {
        IdentType::Var(var) => fct.source().vars@[var.0 as int],
        IdentType::Prop(_, _) => Var { data_type: BuiltinType::Unit, offset: 0 },
    }
}

/// What is done with the two operands of an operator once they are in
/// registers.
pub enum BinAction {
    /// An operation of integer arithmetic or logic.
    Int(IntOp),
    /// A division or a remainder, with the test of the divisor.
    DivMod(IntOp),
    /// A comparison of values of a type.
    Cmp(BuiltinType, CmpOp),
}

/// The code of an action on the operands in `lhs` and `rhs`.
pub open spec fn action_code(
    a: AsmView,
    action: BinAction,
    lhs: Reg,
    rhs: Reg,
    dest: Reg,
) -> AsmView {
    match action {
        BinAction::Int(op) => a.emit(
            MachineOp::IntBinary { op, mode: MachineMode::Int32, dest, lhs, rhs },
        ),
        BinAction::DivMod(op) => {
            let lbl = Label(a.labels.len() as usize);
            let trapped = a.label().emit(
                MachineOp::TestAndJumpIf { cond: CondCode::NonZero, reg: rhs, label: lbl },
            ).emit(MachineOp::Trap { trap: Trap::Div0 });
            trapped.bind(lbl, trapped.ops.len() as usize).emit(
                MachineOp::IntBinary { op, mode: MachineMode::Int32, dest, lhs, rhs },
            )
        },
        BinAction::Cmp(ty, op) => a.emit(MachineOp::CmpReg { mode: ty.mode(), lhs, rhs }).emit(
            MachineOp::SetIf { dest, cond: cond_of(op) },
        ),
    }
}

/// What is done for the operator `op` on two operands of the type `ty`
/// once they are in registers, where the operator works that way.
pub open spec fn action_of(op: BinOp) -> BinAction {
    match op {
        BinOp::Add => BinAction::Int(IntOp::Add),
        BinOp::Sub => BinAction::Int(IntOp::Sub),
        BinOp::Mul => BinAction::Int(IntOp::Mul),
        BinOp::Div => BinAction::DivMod(IntOp::Div),
        BinOp::Mod => BinAction::DivMod(IntOp::Mod),
        BinOp::BitOr => BinAction::Int(IntOp::Or),
        BinOp::BitAnd => BinAction::Int(IntOp::And),
        BinOp::BitXor => BinAction::Int(IntOp::Xor),
        BinOp::Cmp(CmpOp::Is) => BinAction::Cmp(BuiltinType::Str, CmpOp::Eq),
        BinOp::Cmp(CmpOp::IsNot) => BinAction::Cmp(BuiltinType::Str, CmpOp::Ne),
        BinOp::Cmp(op) => BinAction::Cmp(BuiltinType::Int, op),
        BinOp::Or => BinAction::Int(IntOp::Or),
        BinOp::And => BinAction::Int(IntOp::And),
    }
}

/// Whether the operator `op` of `e` is done by a call of the runtime: the
/// comparison and the joining of strings.
pub open spec fn by_builtin(fct: &Fct, e: &ExprBinType) -> Option<Builtin> {
    match e.op {
        BinOp::Add => if fct.source().types@[e.id.0] == BuiltinType::Str {
            Some(Builtin::Strcat)
        } else {
            None
        },
        BinOp::Cmp(op) => if op != CmpOp::Is && op != CmpOp::IsNot && fct.source().types@[e.lhs.node().0]
            == BuiltinType::Str {
            Some(Builtin::Strcmp)
        } else {
            None
        },
        _ => None,
    }
}

/// Whether code can be generated for the expression `e` of the function
/// `fct`: the semantic analysis has said of every node what the generator
/// asks, the classes, properties, variables and functions that it names
/// exist, values that are set aside have temporary slots, no argument of a
/// call holds a call, and the frame and the code are of a size that the
/// operations can address.
pub open spec fn ok(ctxt: &Context, fct: &Fct, e: &Expr) -> bool
    decreases e,
{
    let src = fct.source();
    match e {
        Expr::ExprLitInt(_) => true,
        Expr::ExprLitBool(_) => true,
        Expr::ExprLitStr(_) => true,
        Expr::ExprSelf(_) => src.vars@.len() > 0,
        Expr::ExprNil(_) => true,
        Expr::ExprUn(u) => ok(ctxt, fct, &*u.opnd),
        Expr::ExprIdent(i) => src.defs@.contains_key(i.id.0) && match src.defs@[i.id.0] {
            IdentType::Var(var) => var.0 < src.vars@.len(),
            IdentType::Prop(_, _) => src.vars@.len() > 0 && has_prop(ctxt, src.defs@[i.id.0]),
        },
        Expr::ExprProp(p) => src.defs@.contains_key(p.id.0) && has_prop(ctxt, src.defs@[p.id.0])
            && ok(ctxt, fct, &*p.object),
        Expr::ExprAssign(x) => src.defs@.contains_key(x.lhs.node().0) && ok(ctxt, fct, &*x.rhs)
            && match src.defs@[x.lhs.node().0] {
            IdentType::Var(var) => var.0 < src.vars@.len(),
            IdentType::Prop(_, _) => has_prop(ctxt, src.defs@[x.lhs.node().0]) && match &*x.lhs {
                Expr::ExprProp(p) => ok(ctxt, fct, &*p.object) && has_temp(src, p.object.node()),
                _ => src.vars@.len() > 0 && has_temp(src, x.lhs.node()),
            },
        },
        Expr::ExprBin(b) => ok(ctxt, fct, &*b.lhs) && ok(ctxt, fct, &*b.rhs) && match b.op {
            BinOp::Or | BinOp::And => true,
            _ => src.types@.contains_key(b.id.0) && src.types@.contains_key(b.lhs.node().0) && (
            match by_builtin(fct, b) {
                Some(_) => !has_call(&*b.lhs) && !has_call(&*b.rhs),
                None => leaf(&*b.rhs) || has_temp(src, b.lhs.node()),
            }),
        },
        Expr::ExprCall(c) => {
            &&& src.calls@.contains_key(c.id.0)
            &&& src.types@.contains_key(c.id.0)
            &&& callable(ctxt, fct, src.calls@[c.id.0].callee())
            &&& c.args@.len() <= MAX_ARGS
            &&& src.calls@[c.id.0] matches CallType::Ctor(cls, _) ==> cls.0 < ctxt.classes@.len()
            &&& forall|i: int| 0 <= i < c.args@.len() ==> ok(ctxt, fct, #[trigger] &c.args@[i])
            &&& if c.args@.len() > 0 && has_temp(src, c.args@[0].node()) {
                &&& forall|i: int|
                    0 <= i < c.args@.len() ==> has_temp(src, (#[trigger] c.args@[i]).node())
                        && src.types@.contains_key(c.args@[i].node().0)
                &&& src.calls@[c.id.0] is Ctor ==> has_temp(src, c.id)
            } else {
                forall|i: int| 0 <= i < c.args@.len() ==> !has_call(#[trigger] &c.args@[i])
            }
        },
        Expr::ExprArray(x) => {
            &&& src.calls@.contains_key(x.id.0)
            &&& callable(ctxt, fct, src.calls@[x.id.0].callee())
            &&& ok(ctxt, fct, &*x.object)
            &&& ok(ctxt, fct, &*x.index)
            &&& has_temp(src, x.object.node())
            &&& has_temp(src, x.index.node())
            &&& src.types@.contains_key(x.object.node().0)
            &&& src.types@.contains_key(x.index.node().0)
        },
    }
}

/// The code of the arguments of the call `c` from the number `from` on,
/// for a call whose arguments travel in registers as far as these reach
/// and on the stack beyond: the last argument comes first; each value goes
/// to its register, or to the result register and from there on the stack.
pub open spec fn pass_args(
    a: AsmView,
    ctxt: &Context,
    fct: &Fct,
    c: &ExprCallType,
    offset: int,
    from: nat,
) -> AsmView
    decreases c, c.args@.len() - from,
{
    if from >= c.args@.len() {
        a
    } else {
        let rest = pass_args(a, ctxt, fct, c, offset, from + 1);
        let arg = &c.args@[from as int];
        if offset + from < REG_PARAMS_LEN {
            expr_code(rest, ctxt, fct, arg, reg_param(offset + from))
        } else {
            expr_code(rest, ctxt, fct, arg, reg_result()).emit(
                MachineOp::PushParam { reg: reg_result() },
            )
        }
    }
}

/// How many of the arguments of a call with `n` arguments, the first of
/// which has the number `offset`, travel on the stack.
pub open spec fn pushed(n: int, offset: int) -> int {
    if offset + n > REG_PARAMS_LEN {
        if offset >= REG_PARAMS_LEN {
            n
        } else {
            offset + n - REG_PARAMS_LEN
        }
    } else {
        0
    }
}

/// The code that allocates an object of the class `cls`: its size is the
/// argument of a call of the allocator.
pub open spec fn alloc_code(a: AsmView, ctxt: &Context, cls: crate::ctxt::ClassId) -> AsmView {
    call_insn(
        a.emit(imm(ctxt.classes@[cls.0 as int].size as i64, reg_param(0))),
        DSegValue::Builtin(Builtin::GcAlloc),
        BuiltinType::Ptr,
        reg_result(),
    )
}

/// The code that evaluates the first `n` arguments of the call `c` and
/// sets each aside in its temporary slot.
pub open spec fn save_args(
    a: AsmView,
    ctxt: &Context,
    fct: &Fct,
    c: &ExprCallType,
    n: nat,
) -> AsmView
    decreases c, n,
{
    if n == 0 || n > c.args@.len() {
        a
    } else {
        let arg = &c.args@[n - 1];
        expr_code(save_args(a, ctxt, fct, c, (n - 1) as nat), ctxt, fct, arg, reg_result()).emit(
            store_local(
                fct.source().types@[arg.node().0],
                reg_result(),
                temp_offset(fct.source(), arg.node()),
            ),
        )
    }
}

/// The code of the call `c`.
pub open spec fn call_code(
    a: AsmView,
    ctxt: &Context,
    fct: &Fct,
    c: &ExprCallType,
    dest: Reg,
) -> AsmView
    decreases c, c.args@.len() + 1,
{
    let src = fct.source();
    let call_type = src.calls@[c.id.0];
    let target = target_of(ctxt, fct, call_type.callee());
    let return_type = src.types@[c.id.0];
    if c.args@.len() > 0 && has_temp(src, c.args@[0].node()) {
        let (made, offset) = if call_type is Ctor {
            (
                alloc_code(a, ctxt, call_type.class()).emit(
                    store_local(BuiltinType::Ptr, reg_result(), temp_offset(src, c.id)),
                ),
                1int,
            )
        } else {
            (a, 0int)
        };
        call_insn(
            place_args_stack(save_args(made, ctxt, fct, c, c.args@.len()), fct, c, offset, c.args@.len()),
            target,
            return_type,
            dest,
        )
    } else {
        let (made, offset) = if call_type is Ctor {
            (
                alloc_code(a, ctxt, call_type.class()).emit(
                    MachineOp::MovReg {
                        mode: MachineMode::Ptr,
                        dest: reg_param(0),
                        src: reg_result(),
                    },
                ),
                1int,
            )
        } else {
            (a, 0int)
        };
        let called = call_insn(pass_args(made, ctxt, fct, c, offset, 0), target, return_type, dest);
        if pushed(c.args@.len() as int, offset) != 0 {
            called.emit(MachineOp::FreeStack { size: (8 * pushed(c.args@.len() as int, offset)) as i32 })
        } else {
            called
        }
    }
}

/// The code that brings the first `n` arguments of the call `c` from their
/// temporary slots to their places: to the argument registers as far as
/// these reach, and beyond to the slots of the argument area in order.
pub open spec fn place_args_stack(
    a: AsmView,
    fct: &Fct,
    c: &ExprCallType,
    offset: int,
    n: nat,
) -> AsmView
    decreases n,
{
    if n == 0 || n > c.args@.len() {
        a
    } else {
        let arg = &c.args@[n - 1];
        let ty = fct.source().types@[arg.node().0];
        let slot = temp_offset(fct.source(), arg.node());
        let before = place_args_stack(a, fct, c, offset, (n - 1) as nat);
        let ind = offset + (n - 1);
        if ind < REG_PARAMS_LEN {
            before.emit(load_local(ty, slot, reg_param(ind)))
        } else {
            before.emit(load_local(ty, slot, reg_result())).emit(
                store_local(
                    ty,
                    reg_result(),
                    (-fct.source().frame_size() + 8 * pushed(n - 1, offset)) as i32,
                ),
            )
        }
    }
}

/// The code of an operator whose operands go to registers before it is
/// done: the left operand is evaluated into the result register and set
/// aside in its temporary slot while the right one is evaluated, unless
/// the right one is an expression without parts.
pub open spec fn binop_code(
    a: AsmView,
    ctxt: &Context,
    fct: &Fct,
    e: &ExprBinType,
    dest: Reg,
    action: BinAction,
) -> AsmView
    decreases e, 1nat,
{
    let src = fct.source();
    let ty = src.types@[e.id.0];
    let slot = temp_offset(src, e.lhs.node());
    let left = expr_code(a, ctxt, fct, &*e.lhs, reg_result());
    let kept = if leaf(&*e.rhs) {
        left
    } else {
        left.emit(store_local(ty, reg_result(), slot))
    };
    let right = expr_code(kept, ctxt, fct, &*e.rhs, reg_tmp1());
    let back = if leaf(&*e.rhs) {
        right
    } else {
        right.emit(load_local(ty, slot, reg_result()))
    };
    action_code(back, action, reg_result(), reg_tmp1(), dest)
}

/// The code of an operator that is done by a call of the runtime: the
/// operands are its two arguments.
pub open spec fn builtin_code(
    a: AsmView,
    ctxt: &Context,
    fct: &Fct,
    e: &ExprBinType,
    builtin: Builtin,
    dest: Reg,
) -> AsmView
    decreases e, 1nat,
{
    call_insn(
        expr_code(
            expr_code(a, ctxt, fct, &*e.lhs, reg_param(0)),
            ctxt,
            fct,
            &*e.rhs,
            reg_param(1),
        ),
        DSegValue::Builtin(builtin),
        fct.source().types@[e.id.0],
        dest,
    )
}

/// The code of `lhs || rhs` or of `lhs && rhs`: the right operand is not
/// evaluated where the left one decides.
pub open spec fn logic_code(
    a: AsmView,
    ctxt: &Context,
    fct: &Fct,
    e: &ExprBinType,
    dest: Reg,
) -> AsmView
    decreases e, 1nat,
{
    let lbl_true = Label(a.labels.len() as usize);
    let lbl_false = Label((a.labels.len() + 1) as usize);
    let lbl_end = Label((a.labels.len() + 2) as usize);
    let left = expr_code(a.label().label().label(), ctxt, fct, &*e.lhs, reg_result()).emit(
        if e.op == BinOp::Or {
            MachineOp::TestAndJumpIf { cond: CondCode::NonZero, reg: reg_result(), label: lbl_true }
        } else {
            MachineOp::TestAndJumpIf { cond: CondCode::Zero, reg: reg_result(), label: lbl_false }
        },
    );
    let right = expr_code(left, ctxt, fct, &*e.rhs, reg_result()).emit(
        MachineOp::TestAndJumpIf { cond: CondCode::Zero, reg: reg_result(), label: lbl_false },
    );
    let yes = right.bind(lbl_true, right.ops.len() as usize).emit(imm(1, dest)).emit(
        MachineOp::Jump { label: lbl_end },
    );
    let no = yes.bind(lbl_false, yes.ops.len() as usize).emit(imm(0, dest));
    no.bind(lbl_end, no.ops.len() as usize)
}

/// The code of the operator expression `e`.
pub open spec fn bin_code(
    a: AsmView,
    ctxt: &Context,
    fct: &Fct,
    e: &ExprBinType,
    dest: Reg,
) -> AsmView
    decreases e, 2nat,
{
    match e.op {
        BinOp::Or | BinOp::And => logic_code(a, ctxt, fct, e, dest),
        BinOp::Add => match by_builtin(fct, e) {
            Some(builtin) => builtin_code(a, ctxt, fct, e, builtin, dest),
            None => binop_code(a, ctxt, fct, e, dest, action_of(e.op)),
        },
        BinOp::Cmp(op) => match by_builtin(fct, e) {
            Some(builtin) => builtin_code(a, ctxt, fct, e, builtin, reg_result()).emit(
                imm(0, reg_tmp1()),
            ).emit(
                MachineOp::CmpReg {
                    mode: MachineMode::Int32,
                    lhs: reg_result(),
                    rhs: reg_tmp1(),
                },
            ).emit(MachineOp::SetIf { dest, cond: cond_of(op) }),
            None => binop_code(a, ctxt, fct, e, dest, action_of(e.op)),
        },
        _ => binop_code(a, ctxt, fct, e, dest, action_of(e.op)),
    }
}

/// The code of the assignment `e`.
pub open spec fn assign_code(
    a: AsmView,
    ctxt: &Context,
    fct: &Fct,
    e: &ExprAssignType,
    dest: Reg,
) -> AsmView
    decreases e, 1nat,
{
    let src = fct.source();
    let ident = src.defs@[e.lhs.node().0];
    match ident {
        IdentType::Var(_) => {
            let var = var_of(fct, e.lhs.node());
            expr_code(a, ctxt, fct, &*e.rhs, dest).emit(
                store_local(var.data_type, dest, var.offset),
            )
        },
        IdentType::Prop(_, _) => {
            let prop = prop_of(ctxt, ident);
            let (object, slot) = match &*e.lhs {
                Expr::ExprProp(p) => (
                    expr_code(a, ctxt, fct, &*p.object, reg_result()),
                    temp_offset(src, p.object.node()),
                ),
                _ => (self_code(a, fct, reg_result()), temp_offset(src, e.lhs.node())),
            };
            let stored = expr_code(
                object.emit(store_local(BuiltinType::Ptr, reg_result(), slot)),
                ctxt,
                fct,
                &*e.rhs,
                reg_result(),
            ).emit(load_local(BuiltinType::Ptr, slot, reg_tmp1())).emit(
                MachineOp::StoreField {
                    mode: prop.ty.mode(),
                    base: reg_tmp1(),
                    offset: prop.offset,
                    src: ExprStore::Reg(reg_result()),
                },
            );
            if reg_result() != dest {
                stored.emit(MachineOp::MovReg { mode: prop.ty.mode(), dest, src: reg_result() })
            } else {
                stored
            }
        },
    }
}

/// The code of the access `e` to an element of an array, which is a call
/// of the function that the access stands for: object and index are
/// evaluated and set aside in their temporary slots, brought to the two
/// first argument registers, and the call is made.
pub open spec fn array_code(
    a: AsmView,
    ctxt: &Context,
    fct: &Fct,
    e: &ExprArrayType,
    dest: Reg,
) -> AsmView
    decreases e, 1nat,
{
    let src = fct.source();
    let fid = src.calls@[e.id.0].callee();
    let object_ty = src.types@[e.object.node().0];
    let index_ty = src.types@[e.index.node().0];
    let object_slot = temp_offset(src, e.object.node());
    let index_slot = temp_offset(src, e.index.node());
    let saved = expr_code(
        expr_code(a, ctxt, fct, &*e.object, reg_result()).emit(
            store_local(object_ty, reg_result(), object_slot),
        ),
        ctxt,
        fct,
        &*e.index,
        reg_result(),
    ).emit(store_local(index_ty, reg_result(), index_slot));
    call_insn(
        saved.emit(load_local(object_ty, object_slot, reg_param(0))).emit(
            load_local(index_ty, index_slot, reg_param(1)),
        ),
        target_of(ctxt, fct, fid),
        return_type_of(ctxt, fct, fid),
        dest,
    )
}

/// What the emitter holds after the code of the expression `e` has been
/// emitted, which leaves the value of `e` in the register `dest`.
pub open spec fn expr_code(a: AsmView, ctxt: &Context, fct: &Fct, e: &Expr, dest: Reg) -> AsmView
    decreases e, 3nat,
{
    let src = fct.source();
    match e {
        Expr::ExprLitInt(lit) => a.emit(imm(lit.value as i64, dest)),
        Expr::ExprLitBool(lit) => a.emit(
            imm(
                if lit.value {
                    1
                } else {
                    0
                },
                dest,
            ),
        ),
        Expr::ExprLitStr(lit) => {
            let disp = a.next_disp();
            a.constant(DSegValue::Literal(lit.id)).emit(
                MachineOp::LoadConstpool { dest, disp: disp as i32 },
            )
        },
        Expr::ExprUn(u) => {
            let operand = expr_code(a, ctxt, fct, &*u.opnd, dest);
            match u.op {
                UnOp::Plus => operand,
                UnOp::Neg => operand.emit(
                    MachineOp::IntNeg { mode: MachineMode::Int32, dest, src: dest },
                ),
                UnOp::BitNot => operand.emit(
                    MachineOp::IntNot { mode: MachineMode::Int32, dest, src: dest },
                ),
                UnOp::Not => operand.emit(MachineOp::BoolNot { dest, src: dest }),
            }
        },
        Expr::ExprIdent(i) => match src.defs@[i.id.0] {
            IdentType::Var(_) => {
                let var = var_of(fct, i.id);
                a.emit(load_local(var.data_type, var.offset, dest))
            },
            IdentType::Prop(_, _) => prop_access(
                self_code(a, fct, reg_result()),
                ctxt,
                src.defs@[i.id.0],
                reg_result(),
                dest,
            ),
        },
        Expr::ExprAssign(x) => assign_code(a, ctxt, fct, x, dest),
        Expr::ExprBin(b) => bin_code(a, ctxt, fct, b, dest),
        Expr::ExprCall(c) => call_code(a, ctxt, fct, c, dest),
        Expr::ExprProp(p) => prop_access(
            expr_code(a, ctxt, fct, &*p.object, reg_result()),
            ctxt,
            src.defs@[p.id.0],
            reg_result(),
            dest,
        ),
        Expr::ExprSelf(_) => self_code(a, fct, dest),
        Expr::ExprNil(_) => a.emit(MachineOp::LoadNil { dest }),
        Expr::ExprArray(x) => array_code(a, ctxt, fct, x, dest),
    }
}

/// The number of nodes of the first `n` arguments of the call `c`.
pub open spec fn nodes_first(c: &ExprCallType, n: nat) -> nat
    decreases c, n,
{
    if n == 0 || n > c.args@.len() {
        0
    } else {
        nodes_first(c, (n - 1) as nat) + nodes(&c.args@[n - 1])
    }
}

/// The number of nodes of the expression `e`.
pub open spec fn nodes(e: &Expr) -> nat
    decreases e, 0nat,
{
    match e {
        Expr::ExprUn(u) => 1 + nodes(&*u.opnd),
        Expr::ExprBin(b) => 1 + nodes(&*b.lhs) + nodes(&*b.rhs),
        Expr::ExprAssign(x) => 1 + nodes(&*x.lhs) + nodes(&*x.rhs),
        Expr::ExprCall(c) => 1 + nodes_first(c, c.args@.len()),
        Expr::ExprProp(p) => 1 + nodes(&*p.object),
        Expr::ExprArray(x) => 1 + nodes(&*x.object) + nodes(&*x.index),
        _ => 1,
    }
}

/// The largest number of operations that the code of a node takes beside
/// the code of its parts.
pub const OPS_PER_NODE: usize = 16;

/// Whether the emitter has room for the code of `n` nodes: the code and
/// the constant area stay of a size that the operations can address. An
/// offset into the code is a signed number of 32 bits, and so is the
/// distance in bytes of a word of the constant area from the code.
pub open spec fn room(a: AsmView, n: nat) -> bool {
    &&& a.ops.len() + OPS_PER_NODE * n <= 0x7fff_ffff
    &&& a.dseg.len() + 2 * n <= 0x0fff_ffff
    &&& a.labels.len() + 3 * n <= 0x7fff_ffff
}

/// Whether `b` is `a` after the code of `n` nodes has been added: each
/// node takes its share at most, and a little of the share of the whole is
/// left for the code around it.
pub open spec fn grown(a: AsmView, b: AsmView, n: nat) -> bool {
    &&& b.ops.len() + 4 <= a.ops.len() + OPS_PER_NODE * n
    &&& b.dseg.len() <= a.dseg.len() + 2 * n
    &&& a.labels.len() <= b.labels.len() <= a.labels.len() + 3 * n
}

/// The nodes of the first `n` arguments of a call are among the nodes of
/// the first `m`, where `m` is not less than `n`.
pub proof fn lemma_nodes_first(c: &ExprCallType, n: nat, m: nat)
    requires
        n <= m <= c.args@.len(),
    ensures
        nodes_first(c, n) <= nodes_first(c, m),
    decreases m - n,
{
    if n < m {
        lemma_nodes_first(c, n, (m - 1) as nat);
    }
}

} // verus!
