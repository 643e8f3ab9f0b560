//! The code generator for expressions: walks the syntax tree of an
//! expression and emits its code, which leaves the value of the expression
//! in a register.
//!
//! What it produces is stated in [`crate::jit::model`].
use vstd::prelude::*;

use crate::ast::{
    has_call, leaf, BinOp, CmpOp, Expr, ExprArrayType, ExprAssignType, ExprBinType, ExprCallType,
    ExprIdentType, ExprLitBoolType, ExprLitIntType, ExprLitStrType, ExprPropType, ExprUnType,
    NodeId, UnOp,
};
use crate::cpu::{
    reg_params, CondCode, ExprStore, Mem, Reg, Trap, REG_PARAMS_LEN, REG_RESULT, REG_TMP1,
};
use crate::ctxt::{
    BuiltinType, CallType, ClassId, Context, Fct, FctKind, FctSrc, IdentType, Store,
};
use crate::jit::model::{
    action_code, alloc_code, array_code, assign_code, bin_code, binop_code, builtin_code,
    by_builtin, call_code, call_insn, callable, cond_of, expr_code, grown, has_prop, has_temp,
    jit_or_stub, lemma_nodes_first, logic_code, nodes, nodes_first, ok, pass_args, place_args_stack,
    prop_access, pushed, room, save_args, self_code, target_of, temp_offset, BinAction, MAX_ARGS,
    OPS_PER_NODE,
};
use crate::masm::{BaselineAssembler, Builtin, DSegValue, IntOp, MachineOp};
use crate::ty::MachineMode;
use crate::vm::FctId;

verus! {

broadcast use {
    vstd::std_specs::hash::group_hash_axioms,
    crate::masm::group_masm_wf,
};

/// The code generator for the expressions of one function.
pub struct ExprGen<'a> {
    pub ctxt: &'a Context,
    pub fct: &'a Fct,
    pub masm: BaselineAssembler,
    pub tempsize: i32,
}

/// An argument of a call that is made for an expression.
#[derive(Clone, Copy)]
pub enum Arg<'a> {
    /// The value of an expression.
    Expr(&'a Expr),
    /// A new object of a class, with the offset of its temporary slot.
    Selfie(ClassId, i32),
}

impl<'a> Arg<'a> {
    /// Whether the argument has a temporary slot and a type.
    pub open spec fn ready(&self, fct: &Fct) -> bool {
        match self {
            Arg::Expr(expr) => has_temp(fct.source(), expr.node()) && fct.source().types@.contains_key(
                expr.node().0,
            ),
            Arg::Selfie(_, offset) => -crate::ctxt::MAX_FRAME <= *offset <= crate::ctxt::MAX_FRAME,
        }
    }

    /// The offset of the temporary slot of the argument.
    pub open spec fn slot(&self, fct: &Fct) -> i32 {
        match self {
            Arg::Expr(expr) => fct.source().store_of(expr.node()).slot(),
            Arg::Selfie(_, offset) => *offset,
        }
    }

    /// The type of the argument.
    pub open spec fn ty_of(&self, fct: &Fct) -> BuiltinType {
        match self {
            Arg::Expr(expr) => fct.source().types@[expr.node().0],
            Arg::Selfie(_, _) => BuiltinType::Ptr,
        }
    }

    /// The offset of the temporary slot of the argument.
    fn offset(&self, fct: &Fct) -> (offset: i32)
        requires
            fct.kind is Source,
            self.ready(fct),
        ensures
            offset == self.slot(fct),
    {
        match *self {
            Arg::Expr(expr) => fct.src().get_store(expr.id()).offset(),
            Arg::Selfie(_, offset) => offset,
        }
    }

    /// The type of the argument.
    fn ty(&self, fct: &Fct) -> (ty: BuiltinType)
        requires
            fct.kind is Source,
            self.ready(fct),
        ensures
            ty == self.ty_of(fct),
    {
        match *self {
            Arg::Expr(expr) => fct.src().get_type(expr.id()),
            Arg::Selfie(_, _) => BuiltinType::Ptr,
        }
    }
}

/// The number of nodes of the first `n` arguments; a new object counts as
/// one.
pub open spec fn nodes_args(args: Seq<Arg>, n: nat) -> nat
    decreases n,
{
    if n == 0 || n > args.len() {
        0
    } else {
        nodes_args(args, (n - 1) as nat) + match args[n - 1] {
            Arg::Expr(x) => nodes(x),
            Arg::Selfie(_, _) => 1,
        }
    }
}

/// The nodes of the first `n` arguments are among those of the first `m`,
/// where `m` is not less than `n`.
pub proof fn lemma_nodes_args(args: Seq<Arg>, n: nat, m: nat)
    requires
        n <= m <= args.len(),
    ensures
        nodes_args(args, n) <= nodes_args(args, m),
    decreases m - n,
{
    if n < m {
        lemma_nodes_args(args, n, (m - 1) as nat);
    }
}

/// The offset from the frame pointer of the temporary slot of `arg`.
pub open spec fn arg_slot(fct: &Fct, arg: Arg) -> i32 {
    (-(fct.source().localsize + arg.slot(fct))) as i32
}

/// The code that makes the first `n` arguments and sets each aside in its
/// temporary slot.
pub open spec fn save_all(
    a: crate::masm::AsmView,
    ctxt: &Context,
    fct: &Fct,
    args: Seq<Arg>,
    n: nat,
) -> crate::masm::AsmView
    decreases n,
{
    if n == 0 || n > args.len() {
        a
    } else {
        let before = save_all(a, ctxt, fct, args, (n - 1) as nat);
        let arg = args[n - 1];
        let made = match arg {
            Arg::Expr(x) => expr_code(before, ctxt, fct, x, crate::cpu::reg_result()),
            Arg::Selfie(cls, _) => alloc_code(before, ctxt, cls),
        };
        made.emit(
            crate::jit::model::store_local(
                arg.ty_of(fct),
                crate::cpu::reg_result(),
                arg_slot(fct, arg),
            ),
        )
    }
}

/// The code that brings the first `n` arguments from their temporary
/// slots to their places: to the argument registers as far as these
/// reach, and beyond to the slots of the argument area in order.
pub open spec fn place_all(
    a: crate::masm::AsmView,
    fct: &Fct,
    args: Seq<Arg>,
    n: nat,
) -> crate::masm::AsmView
    decreases n,
{
    if n == 0 || n > args.len() {
        a
    } else {
        let before = place_all(a, fct, args, (n - 1) as nat);
        let arg = args[n - 1];
        let ty = arg.ty_of(fct);
        if n - 1 < REG_PARAMS_LEN {
            before.emit(
                crate::jit::model::load_local(
                    ty,
                    arg_slot(fct, arg),
                    crate::cpu::reg_param(n - 1),
                ),
            )
        } else {
            before.emit(
                crate::jit::model::load_local(ty, arg_slot(fct, arg), crate::cpu::reg_result()),
            ).emit(
                crate::jit::model::store_local(
                    ty,
                    crate::cpu::reg_result(),
                    (-fct.source().frame_size() + 8 * pushed(n - 1, 0)) as i32,
                ),
            )
        }
    }
}

/// The code of a call with arguments that are made one after the other:
/// each is set aside in its temporary slot, then all are brought to their
/// places and the call is made.
pub open spec fn universal_code(
    a: crate::masm::AsmView,
    ctxt: &Context,
    fct: &Fct,
    args: Seq<Arg>,
    target: DSegValue,
    return_type: BuiltinType,
    dest: Reg,
) -> crate::masm::AsmView {
    call_insn(
        place_all(save_all(a, ctxt, fct, args, args.len()), fct, args, args.len()),
        target,
        return_type,
        dest,
    )
}

/// Where the code of the function `fct` is found: its compiled code, else
/// its stub, else the stub that the runtime has yet to make for it.
fn ensure_jit_or_stub_ptr(fct: &Fct) -> (ptr: DSegValue)
    requires
        fct.kind is Source,
    ensures
        ptr == jit_or_stub(fct),
{
    let src = fct.src();

    if let Some(jit) = src.jit_fct {
        return DSegValue::Addr(jit);
    }
    if let Some(stub) = src.stub {
        return DSegValue::Addr(stub);
    }
    DSegValue::Stub(fct.id)
}

/// Whether the node `id` has a temporary slot, which lies in the frame.
pub fn has_temp_slot(src: &FctSrc, id: NodeId) -> (b: bool)
    ensures
        b == has_temp(*src, id),
{
    match src.get_store(id) {
        Store::Temp(offset) => -crate::ctxt::MAX_FRAME <= offset && offset <= crate::ctxt::MAX_FRAME,
        Store::Reg => false,
    }
}

/// The number of nodes of `e`, where it is not above `limit`.
pub fn count_nodes(e: &Expr, limit: usize) -> (r: Option<usize>)
    ensures
        match r {
            Some(n) => n == nodes(e) && n <= limit,
            None => nodes(e) > limit,
        },
    decreases e, 0nat,
{
    if limit == 0 {
        return None;
    }
    match e {
        Expr::ExprUn(u) => match count_nodes(&u.opnd, limit - 1) {
            Some(n) => Some(n + 1),
            None => None,
        },
        Expr::ExprBin(b) => match count_nodes(&b.lhs, limit - 1) {
            Some(nl) => match count_nodes(&b.rhs, limit - 1 - nl) {
                Some(nr) => Some(1 + nl + nr),
                None => None,
            },
            None => None,
        },
        Expr::ExprAssign(x) => match count_nodes(&x.lhs, limit - 1) {
            Some(nl) => match count_nodes(&x.rhs, limit - 1 - nl) {
                Some(nr) => Some(1 + nl + nr),
                None => None,
            },
            None => None,
        },
        Expr::ExprCall(c) => count_call(c, limit),
        Expr::ExprProp(p) => match count_nodes(&p.object, limit - 1) {
            Some(n) => Some(n + 1),
            None => None,
        },
        Expr::ExprArray(x) => match count_nodes(&x.object, limit - 1) {
            Some(nl) => match count_nodes(&x.index, limit - 1 - nl) {
                Some(nr) => Some(1 + nl + nr),
                None => None,
            },
            None => None,
        },
        _ => Some(1),
    }
}

/// The number of nodes of the call `c`, where it is not above `limit`.
fn count_call(c: &ExprCallType, limit: usize) -> (r: Option<usize>)
    requires
        limit > 0,
    ensures
        match r {
            Some(n) => n == 1 + nodes_first(c, c.args@.len()) && n <= limit,
            None => 1 + nodes_first(c, c.args@.len()) > limit,
        },
    decreases c, 1nat,
{
    let mut total: usize = 1;
    let mut i: usize = 0;
    while i < c.args.len()
        invariant
            i <= c.args@.len(),
            total == 1 + nodes_first(c, i as nat),
            total <= limit,
        decreases c.args@.len() - i,
    {
        proof {
            lemma_nodes_first(c, i as nat + 1, c.args@.len());
        }
        match count_nodes(&c.args[i], limit - total) {
            Some(n) => {
                total = total + n;
            },
            None => {
                return None;
            },
        }
        i += 1;
    }
    Some(total)
}

/// Whether the function `fid` can be called from `fct`.
fn is_callable(ctxt: &Context, fct: &Fct, fid: FctId) -> (b: bool)
    ensures
        b == callable(ctxt, fct, fid),
{
    if fct.id == fid {
        return true;
    }
    if fid.0 >= ctxt.fcts.len() {
        return false;
    }
    match ctxt.fcts[fid.0].kind {
        FctKind::Intrinsic => false,
        _ => true,
    }
}

/// Whether `ident` stands for a property that its class has.
fn is_prop(ctxt: &Context, ident: IdentType) -> (b: bool)
    ensures
        b == has_prop(ctxt, ident),
{
    match ident {
        IdentType::Prop(cls, prop) => cls.0 < ctxt.classes.len() && prop.0
            < ctxt.classes[cls.0].props.len(),
        IdentType::Var(_) => false,
    }
}

/// Whether code can be generated for the call `c` of the function `fct`.
fn check_call(ctxt: &Context, fct: &Fct, c: &ExprCallType) -> (b: bool)
    requires
        fct.kind is Source,
    ensures
        b == ok(ctxt, fct, &Expr::ExprCall(*c)),
    decreases c, 1nat,
{
    let src = fct.src();
    let call_type = match src.calls.get(&c.id.0) {
        Some(call_type) => *call_type,
        None => {
            return false;
        },
    };
    if !src.types.contains_key(&c.id.0) || !is_callable(ctxt, fct, call_type.fct_id())
        || c.args.len() > MAX_ARGS {
        return false;
    }
    match call_type {
        CallType::Ctor(cls, _) => {
            if cls.0 >= ctxt.classes.len() {
                return false;
            }
        },
        _ => {},
    }
    let on_stack = c.args.len() > 0 && has_temp_slot(src, c.args[0].id());
    if on_stack && call_type.is_ctor() && !has_temp_slot(src, c.id) {
        return false;
    }
    let mut i: usize = 0;
    while i < c.args.len()
        invariant
            fct.kind is Source,
            *src == fct.source(),
            i <= c.args@.len(),
            on_stack == (c.args@.len() > 0 && has_temp(*src, c.args@[0].node())),
            forall|k: int| 0 <= k < i ==> ok(ctxt, fct, #[trigger] &c.args@[k]),
            on_stack ==> forall|k: int|
                0 <= k < i ==> has_temp(*src, (#[trigger] c.args@[k]).node())
                    && src.types@.contains_key(c.args@[k].node().0),
            !on_stack ==> forall|k: int| 0 <= k < i ==> !has_call(#[trigger] &c.args@[k]),
        decreases c.args@.len() - i,
    {
        let arg = &c.args[i];
        if !check(ctxt, fct, arg) {
            return false;
        }
        if on_stack {
            if !has_temp_slot(src, arg.id()) || !src.types.contains_key(&arg.id().0) {
                return false;
            }
        } else {
            if contains_fct_call(arg) {
                return false;
            }
        }
        i += 1;
    }
    true
}

/// Whether code can be generated for the expression `e` of the function
/// `fct`.
pub fn check(ctxt: &Context, fct: &Fct, e: &Expr) -> (b: bool)
    requires
        fct.kind is Source,
    ensures
        b == ok(ctxt, fct, e),
    decreases e, 2nat,
{
    let src = fct.src();
    match e {
        Expr::ExprLitInt(_) => true,
        Expr::ExprLitBool(_) => true,
        Expr::ExprLitStr(_) => true,
        Expr::ExprSelf(_) => src.vars.len() > 0,
        Expr::ExprNil(_) => true,
        Expr::ExprUn(u) => check(ctxt, fct, &u.opnd),
        Expr::ExprIdent(i) => match src.defs.get(&i.id.0) {
            Some(IdentType::Var(var)) => var.0 < src.vars.len(),
            Some(ident) => src.vars.len() > 0 && is_prop(ctxt, *ident),
            None => false,
        },
        Expr::ExprProp(p) => match src.defs.get(&p.id.0) {
            Some(ident) => is_prop(ctxt, *ident) && check(ctxt, fct, &p.object),
            None => false,
        },
        Expr::ExprAssign(x) => {
            let ident = match src.defs.get(&x.lhs.id().0) {
                Some(ident) => *ident,
                None => {
                    return false;
                },
            };
            if !check(ctxt, fct, &x.rhs) {
                return false;
            }
            match ident {
                IdentType::Var(var) => var.0 < src.vars.len(),
                IdentType::Prop(_, _) => is_prop(ctxt, ident) && match x.lhs.to_prop() {
                    Some(p) => check(ctxt, fct, &p.object) && has_temp_slot(src, p.object.id()),
                    None => src.vars.len() > 0 && has_temp_slot(src, x.lhs.id()),
                },
            }
        },
        Expr::ExprBin(b) => {
            if !check(ctxt, fct, &b.lhs) || !check(ctxt, fct, &b.rhs) {
                return false;
            }
            match b.op {
                BinOp::Or | BinOp::And => true,
                _ => {
                    if !src.types.contains_key(&b.id.0) || !src.types.contains_key(
                        &b.lhs.id().0,
                    ) {
                        return false;
                    }
                    let by_call = match b.op {
                        BinOp::Add => src.get_type(b.id) == BuiltinType::Str,
                        BinOp::Cmp(op) => op != CmpOp::Is && op != CmpOp::IsNot && src.get_type(
                            b.lhs.id(),
                        ) == BuiltinType::Str,
                        _ => false,
                    };
                    if by_call {
                        !contains_fct_call(&b.lhs) && !contains_fct_call(&b.rhs)
                    } else {
                        is_leaf(&b.rhs) || has_temp_slot(src, b.lhs.id())
                    }
                },
            }
        },
        Expr::ExprCall(c) => check_call(ctxt, fct, c),
        Expr::ExprArray(x) => {
            let call_type = match src.calls.get(&x.id.0) {
                Some(call_type) => *call_type,
                None => {
                    return false;
                },
            };
            is_callable(ctxt, fct, call_type.fct_id()) && check(ctxt, fct, &x.object) && check(
                ctxt,
                fct,
                &x.index,
            ) && has_temp_slot(src, x.object.id()) && has_temp_slot(src, x.index.id())
                && src.types.contains_key(&x.object.id().0) && src.types.contains_key(
                &x.index.id().0,
            )
        },
    }
}

/// Generates the code of the expression `e` of the function `fct`, which
/// leaves the value of `e` in the result register, where code can be
/// generated for it: where the function has a body and a frame of a size
/// that the operations can address, the semantic analysis has said what
/// the generator asks, and the expression is not too large.
pub fn try_generate(ctxt: &Context, fct: &Fct, e: &Expr) -> (r: Option<(Reg, BaselineAssembler)>)
    ensures
        r is Some <==> (fct.kind is Source && fct.source().wf() && ok(ctxt, fct, e) && nodes(e)
            <= MAX_NODES),
        r matches Some((reg, masm)) ==> reg == crate::cpu::reg_result() && masm.wf() && masm@
            == expr_code(crate::cannon::model::blank(), ctxt, fct, e, crate::cpu::reg_result()),
{
    match fct.kind {
        FctKind::Source(_) => {},
        _ => {
            return None;
        },
    }
    if !fct.src().is_wf() || !check(ctxt, fct, e) {
        return None;
    }
    match count_nodes(e, MAX_NODES) {
        Some(_) => {},
        None => {
            return None;
        },
    }
    Some(ExprGen::new(ctxt, fct, BaselineAssembler::new()).generate(e))
}

/// The largest number of nodes of an expression: with the operations and
/// the two constants that a node takes at most, the code of as many nodes
/// has [`room`] in an emitter that is empty.
pub const MAX_NODES: usize = 0x07ff_ffff;

/// Returns `true` if the given expression `expr` is either literal or
/// variable usage.
pub fn is_leaf(expr: &Expr) -> (b: bool)
    ensures
        b == leaf(expr),
{
    match expr {
        Expr::ExprUn(_) => false,
        Expr::ExprBin(_) => false,
        Expr::ExprLitInt(_) => true,
        Expr::ExprLitStr(_) => true,
        Expr::ExprLitBool(_) => true,
        Expr::ExprIdent(_) => true,
        Expr::ExprAssign(_) => false,
        Expr::ExprCall(_) => false,
        Expr::ExprProp(_) => false,
        Expr::ExprSelf(_) => true,
        Expr::ExprNil(_) => true,
        Expr::ExprArray(_) => false,
    }
}

/// Returns `true` if the given expression `expr` contains a function call
pub fn contains_fct_call(expr: &Expr) -> (b: bool)
    ensures
        b == has_call(expr),
    decreases expr,
{
    match expr {
        Expr::ExprUn(e) => contains_fct_call(&e.opnd),
        Expr::ExprBin(e) => contains_fct_call(&e.lhs) || contains_fct_call(&e.rhs),
        Expr::ExprLitInt(_) => false,
        Expr::ExprLitStr(_) => false,
        Expr::ExprLitBool(_) => false,
        Expr::ExprIdent(_) => false,
        Expr::ExprAssign(e) => contains_fct_call(&e.lhs) || contains_fct_call(&e.rhs),
        Expr::ExprCall(_) => true,
        Expr::ExprProp(e) => contains_fct_call(&e.object),
        Expr::ExprSelf(_) => false,
        Expr::ExprNil(_) => false,
        Expr::ExprArray(e) => contains_fct_call(&e.object) || contains_fct_call(&e.index),
    }
}

impl<'a> ExprGen<'a> {
    /// The generator works for a function with a body whose frame is of a
    /// size that the operations can address, and its emitter is in order.
    pub open spec fn wf(&self) -> bool {
        &&& self.fct.kind is Source
        &&& self.fct.source().wf()
        &&& self.masm.wf()
    }

    /// The same function is being compiled in the same program.
    pub open spec fn same_task(&self, before: &Self) -> bool {
        &&& self.ctxt == before.ctxt
        &&& self.fct == before.fct
        &&& self.tempsize == before.tempsize
    }

    /// What a function that emits the code of `n` nodes has done to the
    /// generator, which was `before`: the emitter holds `code`.
    pub open spec fn emitted(&self, before: &Self, code: crate::masm::AsmView, n: nat) -> bool {
        &&& self.same_task(before)
        &&& self.masm.wf()
        &&& self.masm@ == code
        &&& grown(before.masm@, code, n)
    }

    /// A generator for expressions of the function `fct`, which emits to
    /// `masm`.
    pub fn new(ctxt: &'a Context, fct: &'a Fct, masm: BaselineAssembler) -> (gen: ExprGen<'a>)
        ensures
            gen.ctxt == ctxt,
            gen.fct == fct,
            gen.masm == masm,
            gen.tempsize == 0,
    {
        ExprGen { ctxt: ctxt, fct: fct, masm: masm, tempsize: 0 }
    }

    /// Generates the code of the expression `e`, which leaves the value of
    /// `e` in the result register.
    pub fn generate(self, e: &Expr) -> (r: (Reg, BaselineAssembler))
        requires
            self.wf(),
            ok(self.ctxt, self.fct, e),
            room(self.masm@, nodes(e)),
        ensures
            r.0 == crate::cpu::reg_result(),
            r.1.wf(),
            r.1@ == expr_code(self.masm@, self.ctxt, self.fct, e, crate::cpu::reg_result()),
    {
        let mut gen = self;
        let reg = gen.emit_expr(e, REG_RESULT());
        (reg, gen.masm)
    }

    /// Emits the code of the expression `e`, which leaves its value in `dest`.
    fn emit_expr(&mut self, e: &Expr, dest: Reg) -> (reg: Reg)
        requires
            old(self).wf(),
            ok(old(self).ctxt, old(self).fct, e),
            room(old(self).masm@, nodes(e)),
        ensures
            reg == dest,
            final(self).emitted(
                old(self),
                expr_code(old(self).masm@, old(self).ctxt, old(self).fct, e, dest),
                nodes(e),
            ),
        decreases e, 3nat,
    {
        match e {
            Expr::ExprLitInt(expr) => self.emit_lit_int(expr, dest),
            Expr::ExprLitBool(expr) => self.emit_lit_bool(expr, dest),
            Expr::ExprLitStr(expr) => self.emit_lit_str(expr, dest),
            Expr::ExprUn(expr) => self.emit_un(expr, dest),
            Expr::ExprIdent(expr) => self.emit_ident(expr, dest),
            Expr::ExprAssign(expr) => self.emit_assign(expr, dest),
            Expr::ExprBin(expr) => self.emit_bin(expr, dest),
            Expr::ExprCall(expr) => self.emit_call(expr, dest),
            Expr::ExprProp(expr) => self.emit_prop(expr, dest),
            Expr::ExprSelf(_) => self.emit_self(dest),
            Expr::ExprNil(_) => self.emit_nil(dest),
            Expr::ExprArray(expr) => self.emit_array(expr, dest),
        }

        dest
    }

    /// Emits the code of an access to an element of an array.
    fn emit_array(&mut self, e: &ExprArrayType, dest: Reg)
        requires
            old(self).wf(),
            ok(old(self).ctxt, old(self).fct, &Expr::ExprArray(*e)),
            room(old(self).masm@, nodes(&Expr::ExprArray(*e))),
        ensures
            final(self).emitted(
                old(self),
                array_code(old(self).masm@, old(self).ctxt, old(self).fct, e, dest),
                nodes(&Expr::ExprArray(*e)),
            ),
        decreases e, 1nat,
    {
        let call_type = *self.fct.src().calls.get(&e.id.0).unwrap();
        let fct_id = call_type.fct_id();
        let ptr = self.ptr_for_fct_id(fct_id);

        let return_type = if self.fct.id == fct_id {
            self.fct.return_type
        } else {
            self.ctxt.fcts[fct_id.0].return_type
        };

        let mut args: Vec<Arg> = Vec::new();
        args.push(Arg::Expr(&e.object));
        args.push(Arg::Expr(&e.index));
        proof {
            assert(args@ =~= seq![Arg::Expr(&*e.object), Arg::Expr(&*e.index)]);
            assert(nodes_args(args@, 2) == nodes(&*e.object) + nodes(&*e.index)) by {
                reveal_with_fuel(nodes_args, 3);
            }
            assert(universal_code(
                self.masm@,
                self.ctxt,
                self.fct,
                args@,
                ptr,
                return_type,
                dest,
            ) == array_code(self.masm@, self.ctxt, self.fct, e, dest)) by {
                reveal_with_fuel(save_all, 3);
                reveal_with_fuel(place_all, 3);
            }
        }

        self.emit_universal_call(ptr, args, return_type, dest, Ghost(e));
    }

    /// The offset from the frame pointer of the temporary slot of the node
    /// `id`.
    fn temp_slot(&self, id: NodeId) -> (offset: i32)
        requires
            self.wf(),
            has_temp(self.fct.source(), id),
        ensures
            offset == temp_offset(self.fct.source(), id),
    {
        let src = self.fct.src();
        -(src.localsize + src.get_store(id).offset())
    }

    /// Emits a load of the receiver.
    fn emit_self(&mut self, dest: Reg)
        requires
            old(self).wf(),
            old(self).fct.source().vars@.len() > 0,
        ensures
            final(self).emitted(old(self), self_code(old(self).masm@, old(self).fct, dest), 1),
    {
        let var = self.fct.var_self();

        self.masm.load_mem(var.data_type.mode(), ExprStore::Reg(dest), Mem::Local(var.offset));
    }

    /// Emits a load of the null reference.
    fn emit_nil(&mut self, dest: Reg)
        requires
            old(self).wf(),
        ensures
            final(self).emitted(old(self), old(self).masm@.emit(MachineOp::LoadNil { dest }), 1),
    {
        self.masm.load_nil(dest);
    }

    /// Emits the code of an access to a property of an object.
    fn emit_prop(&mut self, expr: &ExprPropType, dest: Reg)
        requires
            old(self).wf(),
            ok(old(self).ctxt, old(self).fct, &Expr::ExprProp(*expr)),
            room(old(self).masm@, nodes(&Expr::ExprProp(*expr))),
        ensures
            final(self).emitted(
                old(self),
                expr_code(old(self).masm@, old(self).ctxt, old(self).fct, &Expr::ExprProp(*expr), dest),
                nodes(&Expr::ExprProp(*expr)),
            ),
        decreases expr, 1nat,
    {
        let ident_type = *self.fct.src().defs.get(&expr.id.0).unwrap();

        self.emit_expr(&expr.object, REG_RESULT());
        self.emit_prop_access(ident_type, REG_RESULT(), dest);
    }

    /// Emits a load of a property of the object in `src`.
    fn emit_prop_access(&mut self, ident_type: IdentType, src: Reg, dest: Reg)
        requires
            old(self).wf(),
            has_prop(old(self).ctxt, ident_type),
        ensures
            final(self).same_task(old(self)),
            final(self).masm.wf(),
            final(self).masm@ == prop_access(old(self).masm@, old(self).ctxt, ident_type, src, dest),
    {
        match ident_type {
            IdentType::Prop(cls_id, prop_id) => {
                let cls = &self.ctxt.classes[cls_id.0];
                let prop = &cls.props[prop_id.0];
                self.masm.load_field(prop.ty.mode(), ExprStore::Reg(dest), src, prop.offset);
            },
            IdentType::Var(_) => {},
        }
    }

    /// Emits a load of an integer literal.
    fn emit_lit_int(&mut self, lit: &ExprLitIntType, dest: Reg)
        requires
            old(self).wf(),
        ensures
            final(self).emitted(
                old(self),
                expr_code(old(self).masm@, old(self).ctxt, old(self).fct, &Expr::ExprLitInt(*lit), dest),
                1,
            ),
    {
        self.masm.load_int_const(MachineMode::Int32, dest, lit.value as i64);
    }

    /// Emits a load of a boolean literal.
    fn emit_lit_bool(&mut self, lit: &ExprLitBoolType, dest: Reg)
        requires
            old(self).wf(),
        ensures
            final(self).emitted(
                old(self),
                expr_code(old(self).masm@, old(self).ctxt, old(self).fct, &Expr::ExprLitBool(*lit), dest),
                1,
            ),
    {
        let value: i64 = if lit.value {
            1
        } else {
            0
        };
        self.masm.load_int_const(MachineMode::Int32, dest, value);
    }

    /// Emits a load of the address of a string literal, which stands in the constant
    /// area.
    fn emit_lit_str(&mut self, lit: &ExprLitStrType, dest: Reg)
        requires
            old(self).wf(),
            room(old(self).masm@, 1),
        ensures
            final(self).emitted(
                old(self),
                expr_code(old(self).masm@, old(self).ctxt, old(self).fct, &Expr::ExprLitStr(*lit), dest),
                1,
            ),
    {
        let disp: i32 = self.masm.add_value(DSegValue::Literal(lit.id));

        self.masm.load_constpool(dest, disp);
    }

    /// Emits the code of a name: a load of a variable or of a property of the receiver.
    fn emit_ident(&mut self, e: &ExprIdentType, dest: Reg)
        requires
            old(self).wf(),
            ok(old(self).ctxt, old(self).fct, &Expr::ExprIdent(*e)),
        ensures
            final(self).emitted(
                old(self),
                expr_code(old(self).masm@, old(self).ctxt, old(self).fct, &Expr::ExprIdent(*e), dest),
                1,
            ),
    {
        let ident_type = *self.fct.src().defs.get(&e.id.0).unwrap();

        match ident_type {
            IdentType::Var(var_id) => {
                let var = self.fct.src().vars[var_id.0];
                self.masm.load_mem(var.data_type.mode(), ExprStore::Reg(dest), Mem::Local(var.offset));
            },
            IdentType::Prop(_, _) => {
                self.emit_self(REG_RESULT());
                self.emit_prop_access(ident_type, REG_RESULT(), dest);
            },
        }
    }

    /// Emits the code of an operator with one operand.
    fn emit_un(&mut self, e: &ExprUnType, dest: Reg)
        requires
            old(self).wf(),
            ok(old(self).ctxt, old(self).fct, &Expr::ExprUn(*e)),
            room(old(self).masm@, nodes(&Expr::ExprUn(*e))),
        ensures
            final(self).emitted(
                old(self),
                expr_code(old(self).masm@, old(self).ctxt, old(self).fct, &Expr::ExprUn(*e), dest),
                nodes(&Expr::ExprUn(*e)),
            ),
        decreases e, 1nat,
    {
        self.emit_expr(&e.opnd, dest);

        match e.op {
            UnOp::Plus => {},
            UnOp::Neg => self.masm.int_neg(MachineMode::Int32, dest, dest),
            UnOp::BitNot => self.masm.int_not(MachineMode::Int32, dest, dest),
            UnOp::Not => self.masm.bool_not(dest, dest),
        }
    }

    /// Emits the code of an assignment.
    fn emit_assign(&mut self, e: &ExprAssignType, dest: Reg)
        requires
            old(self).wf(),
            ok(old(self).ctxt, old(self).fct, &Expr::ExprAssign(*e)),
            room(old(self).masm@, nodes(&Expr::ExprAssign(*e))),
        ensures
            final(self).emitted(
                old(self),
                assign_code(old(self).masm@, old(self).ctxt, old(self).fct, e, dest),
                nodes(&Expr::ExprAssign(*e)),
            ),
        decreases e, 1nat,
    {
        let ident_type = *self.fct.src().defs.get(&e.lhs.id().0).unwrap();

        match ident_type {
            IdentType::Var(var_id) => {
                self.emit_expr(&e.rhs, dest);
                let var = self.fct.src().vars[var_id.0];
                self.masm.store_mem(var.data_type.mode(), Mem::Local(var.offset), ExprStore::Reg(dest));
            },
            IdentType::Prop(clsid, propid) => {
                let cls = &self.ctxt.classes[clsid.0];
                let prop = &cls.props[propid.0];

                proof {
                    match &*e.lhs {
                        Expr::ExprProp(p) => {
                            assert(nodes(&*e.lhs) == 1 + nodes(&*p.object));
                        },
                        _ => {
                            assert(nodes(&*e.lhs) >= 1);
                        },
                    }
                }
                let temp_offset = if let Some(expr_prop) = e.lhs.to_prop() {
                    self.emit_expr(&expr_prop.object, REG_RESULT());

                    self.temp_slot(expr_prop.object.id())
                } else {
                    self.emit_self(REG_RESULT());

                    self.temp_slot(e.lhs.id())
                };

                self.masm.store_mem(
                    MachineMode::Ptr,
                    Mem::Local(temp_offset),
                    ExprStore::Reg(REG_RESULT()),
                );

                self.emit_expr(&e.rhs, REG_RESULT());
                self.masm.load_mem(
                    MachineMode::Ptr,
                    ExprStore::Reg(REG_TMP1()),
                    Mem::Local(temp_offset),
                );

                self.masm.store_field(
                    prop.ty.mode(),
                    REG_TMP1(),
                    prop.offset,
                    ExprStore::Reg(REG_RESULT()),
                );

                if REG_RESULT() != dest {
                    self.masm.mov_reg(prop.ty.mode(), dest, REG_RESULT());
                }
            },
        }
    }

    /// Emits the code of an operator with two operands.
    fn emit_bin(&mut self, e: &ExprBinType, dest: Reg)
        requires
            old(self).wf(),
            ok(old(self).ctxt, old(self).fct, &Expr::ExprBin(*e)),
            room(old(self).masm@, nodes(&Expr::ExprBin(*e))),
        ensures
            final(self).emitted(
                old(self),
                bin_code(old(self).masm@, old(self).ctxt, old(self).fct, e, dest),
                nodes(&Expr::ExprBin(*e)),
            ),
        decreases e, 5nat,
    {
        match e.op {
            BinOp::Add => self.emit_bin_add(e, dest),
            BinOp::Sub => self.emit_bin_sub(e, dest),
            BinOp::Mul => self.emit_bin_mul(e, dest),
            BinOp::Div | BinOp::Mod => self.emit_bin_divmod(e, dest),
            BinOp::Cmp(op) => self.emit_bin_cmp(e, dest, op),
            BinOp::BitOr => self.emit_bin_bit_or(e, dest),
            BinOp::BitAnd => self.emit_bin_bit_and(e, dest),
            BinOp::BitXor => self.emit_bin_bit_xor(e, dest),
            BinOp::Or => self.emit_bin_or(e, dest),
            BinOp::And => self.emit_bin_and(e, dest),
        }
    }

    /// Emits the code of `lhs || rhs`.
    fn emit_bin_or(&mut self, e: &ExprBinType, dest: Reg)
        requires
            old(self).wf(),
            e.op == BinOp::Or,
            ok(old(self).ctxt, old(self).fct, &Expr::ExprBin(*e)),
            room(old(self).masm@, nodes(&Expr::ExprBin(*e))),
        ensures
            final(self).emitted(
                old(self),
                logic_code(old(self).masm@, old(self).ctxt, old(self).fct, e, dest),
                nodes(&Expr::ExprBin(*e)),
            ),
        decreases e, 4nat,
    {
        let lbl_true = self.masm.create_label();
        let lbl_false = self.masm.create_label();
        let lbl_end = self.masm.create_label();

        self.emit_expr(&e.lhs, REG_RESULT());
        self.masm.test_and_jump_if(CondCode::NonZero, REG_RESULT(), lbl_true);

        self.emit_expr(&e.rhs, REG_RESULT());
        self.masm.test_and_jump_if(CondCode::Zero, REG_RESULT(), lbl_false);

        self.define_label(lbl_true);
        self.masm.load_int_const(MachineMode::Int32, dest, 1);
        self.masm.jump(lbl_end);

        self.define_label(lbl_false);
        self.masm.load_int_const(MachineMode::Int32, dest, 0);

        self.define_label(lbl_end);
    }

    /// Emits the code of `lhs && rhs`.
    fn emit_bin_and(&mut self, e: &ExprBinType, dest: Reg)
        requires
            old(self).wf(),
            e.op == BinOp::And,
            ok(old(self).ctxt, old(self).fct, &Expr::ExprBin(*e)),
            room(old(self).masm@, nodes(&Expr::ExprBin(*e))),
        ensures
            final(self).emitted(
                old(self),
                logic_code(old(self).masm@, old(self).ctxt, old(self).fct, e, dest),
                nodes(&Expr::ExprBin(*e)),
            ),
        decreases e, 4nat,
    {
        let lbl_true = self.masm.create_label();
        let lbl_false = self.masm.create_label();
        let lbl_end = self.masm.create_label();

        self.emit_expr(&e.lhs, REG_RESULT());
        self.masm.test_and_jump_if(CondCode::Zero, REG_RESULT(), lbl_false);

        self.emit_expr(&e.rhs, REG_RESULT());
        self.masm.test_and_jump_if(CondCode::Zero, REG_RESULT(), lbl_false);

        self.define_label(lbl_true);
        self.masm.load_int_const(MachineMode::Int32, dest, 1);
        self.masm.jump(lbl_end);

        self.define_label(lbl_false);
        self.masm.load_int_const(MachineMode::Int32, dest, 0);

        self.define_label(lbl_end);
    }

    /// Binds a label to the current offset, whether it is bound or not.
    fn define_label(&mut self, lbl: crate::masm::Label)
        requires
            old(self).masm.wf(),
            old(self).masm@.has_label(lbl),
        ensures
            final(self).same_task(old(self)),
            final(self).masm.wf(),
            final(self).masm@ == old(self).masm@.bind(lbl, old(self).masm@.ops.len() as usize),
    {
        let pos: usize = self.masm.pos();
        self.masm.labels[lbl.0] = Some(pos);
        proof {
            crate::masm::lemma_bind_wf(old(self).masm@, lbl, pos);
        }
    }

    /// Emits the code of a comparison; strings are compared by the runtime.
    fn emit_bin_cmp(&mut self, e: &ExprBinType, dest: Reg, op: CmpOp)
        requires
            old(self).wf(),
            e.op == BinOp::Cmp(op),
            ok(old(self).ctxt, old(self).fct, &Expr::ExprBin(*e)),
            room(old(self).masm@, nodes(&Expr::ExprBin(*e))),
        ensures
            final(self).emitted(
                old(self),
                bin_code(old(self).masm@, old(self).ctxt, old(self).fct, e, dest),
                nodes(&Expr::ExprBin(*e)),
            ),
        decreases e, 4nat,
    {
        let cmp_type = self.fct.src().get_type(e.lhs.id());

        if op == CmpOp::Is || op == CmpOp::IsNot {
            let op = if op == CmpOp::Is {
                CmpOp::Eq
            } else {
                CmpOp::Ne
            };

            self.emit_binop(e, dest, ExecAction::Cmp(BuiltinType::Str, op));

            return ;
        }
        if cmp_type == BuiltinType::Str {
            self.emit_call_builtin_binary(Builtin::Strcmp, e, REG_RESULT());
            self.masm.load_int_const(MachineMode::Int32, REG_TMP1(), 0);
            self.cmp_setl(BuiltinType::Int, REG_RESULT(), op, REG_TMP1(), dest);
        } else {
            self.emit_binop(e, dest, ExecAction::Cmp(BuiltinType::Int, op));
        }
    }

    /// Emits a comparison of two registers that sets `dest`.
    fn cmp_setl(&mut self, ty: BuiltinType, lhs: Reg, op: CmpOp, rhs: Reg, dest: Reg)
        requires
            old(self).masm.wf(),
        ensures
            final(self).same_task(old(self)),
            final(self).masm.wf(),
            final(self).masm@ == old(self).masm@.emit(
                MachineOp::CmpReg { mode: ty.mode(), lhs, rhs },
            ).emit(MachineOp::SetIf { dest, cond: cond_of(op) }),
    {
        let cond = match op {
            CmpOp::Eq => CondCode::Equal,
            CmpOp::Ne => CondCode::NotEqual,
            CmpOp::Lt => CondCode::Less,
            CmpOp::Le => CondCode::LessEq,
            CmpOp::Gt => CondCode::Greater,
            CmpOp::Ge => CondCode::GreaterEq,
            CmpOp::Is => CondCode::Equal,
            CmpOp::IsNot => CondCode::NotEqual,
        };
        self.masm.cmp_reg(ty.mode(), lhs, rhs);
        self.masm.set(dest, cond);
    }

    /// Emits the code of a division or of a remainder, with the test of the divisor.
    fn emit_bin_divmod(&mut self, e: &ExprBinType, dest: Reg)
        requires
            old(self).wf(),
            e.op == BinOp::Div || e.op == BinOp::Mod,
            ok(old(self).ctxt, old(self).fct, &Expr::ExprBin(*e)),
            room(old(self).masm@, nodes(&Expr::ExprBin(*e))),
        ensures
            final(self).emitted(
                old(self),
                bin_code(old(self).masm@, old(self).ctxt, old(self).fct, e, dest),
                nodes(&Expr::ExprBin(*e)),
            ),
        decreases e, 4nat,
    {
        let op = if e.op == BinOp::Div {
            IntOp::Div
        } else {
            IntOp::Mod
        };
        self.emit_binop(e, dest, ExecAction::DivMod(op));
    }

    /// Emits the code of a multiplication.
    fn emit_bin_mul(&mut self, e: &ExprBinType, dest: Reg)
        requires
            old(self).wf(),
            e.op == BinOp::Mul,
            ok(old(self).ctxt, old(self).fct, &Expr::ExprBin(*e)),
            room(old(self).masm@, nodes(&Expr::ExprBin(*e))),
        ensures
            final(self).emitted(
                old(self),
                bin_code(old(self).masm@, old(self).ctxt, old(self).fct, e, dest),
                nodes(&Expr::ExprBin(*e)),
            ),
        decreases e, 4nat,
    {
        self.emit_binop(e, dest, ExecAction::Int(IntOp::Mul));
    }

    /// Emits the code of an addition; strings are joined by the runtime.
    fn emit_bin_add(&mut self, e: &ExprBinType, dest: Reg)
        requires
            old(self).wf(),
            e.op == BinOp::Add,
            ok(old(self).ctxt, old(self).fct, &Expr::ExprBin(*e)),
            room(old(self).masm@, nodes(&Expr::ExprBin(*e))),
        ensures
            final(self).emitted(
                old(self),
                bin_code(old(self).masm@, old(self).ctxt, old(self).fct, e, dest),
                nodes(&Expr::ExprBin(*e)),
            ),
        decreases e, 4nat,
    {
        let add_type = self.fct.src().get_type(e.id);

        if add_type == BuiltinType::Str {
            self.emit_call_builtin_binary(Builtin::Strcat, e, dest);
        } else {
            self.emit_binop(e, dest, ExecAction::Int(IntOp::Add));
        }
    }

    /// Emits the code of a subtraction.
    fn emit_bin_sub(&mut self, e: &ExprBinType, dest: Reg)
        requires
            old(self).wf(),
            e.op == BinOp::Sub,
            ok(old(self).ctxt, old(self).fct, &Expr::ExprBin(*e)),
            room(old(self).masm@, nodes(&Expr::ExprBin(*e))),
        ensures
            final(self).emitted(
                old(self),
                bin_code(old(self).masm@, old(self).ctxt, old(self).fct, e, dest),
                nodes(&Expr::ExprBin(*e)),
            ),
        decreases e, 4nat,
    {
        self.emit_binop(e, dest, ExecAction::Int(IntOp::Sub));
    }

    /// Emits the code of a bitwise or.
    fn emit_bin_bit_or(&mut self, e: &ExprBinType, dest: Reg)
        requires
            old(self).wf(),
            e.op == BinOp::BitOr,
            ok(old(self).ctxt, old(self).fct, &Expr::ExprBin(*e)),
            room(old(self).masm@, nodes(&Expr::ExprBin(*e))),
        ensures
            final(self).emitted(
                old(self),
                bin_code(old(self).masm@, old(self).ctxt, old(self).fct, e, dest),
                nodes(&Expr::ExprBin(*e)),
            ),
        decreases e, 4nat,
    {
        self.emit_binop(e, dest, ExecAction::Int(IntOp::Or));
    }

    /// Emits the code of a bitwise and.
    fn emit_bin_bit_and(&mut self, e: &ExprBinType, dest: Reg)
        requires
            old(self).wf(),
            e.op == BinOp::BitAnd,
            ok(old(self).ctxt, old(self).fct, &Expr::ExprBin(*e)),
            room(old(self).masm@, nodes(&Expr::ExprBin(*e))),
        ensures
            final(self).emitted(
                old(self),
                bin_code(old(self).masm@, old(self).ctxt, old(self).fct, e, dest),
                nodes(&Expr::ExprBin(*e)),
            ),
        decreases e, 4nat,
    {
        self.emit_binop(e, dest, ExecAction::Int(IntOp::And));
    }

    /// Emits the code of a bitwise exclusive or.
    fn emit_bin_bit_xor(&mut self, e: &ExprBinType, dest: Reg)
        requires
            old(self).wf(),
            e.op == BinOp::BitXor,
            ok(old(self).ctxt, old(self).fct, &Expr::ExprBin(*e)),
            room(old(self).masm@, nodes(&Expr::ExprBin(*e))),
        ensures
            final(self).emitted(
                old(self),
                bin_code(old(self).masm@, old(self).ctxt, old(self).fct, e, dest),
                nodes(&Expr::ExprBin(*e)),
            ),
        decreases e, 4nat,
    {
        self.emit_binop(e, dest, ExecAction::Int(IntOp::Xor));
    }

    /// Emits the code of an operator whose operands go to registers before it is done.
    fn emit_binop(&mut self, e: &ExprBinType, dest_reg: Reg, emit_action: ExecAction)
        requires
            old(self).wf(),
            ok(old(self).ctxt, old(self).fct, &Expr::ExprBin(*e)),
            room(old(self).masm@, nodes(&Expr::ExprBin(*e))),
            !(e.op == BinOp::Or || e.op == BinOp::And),
            by_builtin(old(self).fct, e) is None,
        ensures
            final(self).emitted(
                old(self),
                binop_code(
                    old(self).masm@,
                    old(self).ctxt,
                    old(self).fct,
                    e,
                    dest_reg,
                    emit_action.view(),
                ),
                nodes(&Expr::ExprBin(*e)),
            ),
        decreases e, 1nat,
    {
        let lhs_reg = REG_RESULT();
        let rhs_reg = REG_TMP1();

        let not_leaf = !is_leaf(&e.rhs);
        let mut temp_offset: i32 = 0;

        let ty = self.fct.src().get_type(e.id);

        if not_leaf {
            temp_offset = self.temp_slot(e.lhs.id());
        }
        self.emit_expr(&e.lhs, lhs_reg);
        if not_leaf {
            self.masm.store_mem(ty.mode(), Mem::Local(temp_offset), ExprStore::Reg(lhs_reg));
        }
        self.emit_expr(&e.rhs, rhs_reg);
        if not_leaf {
            self.masm.load_mem(ty.mode(), ExprStore::Reg(lhs_reg), Mem::Local(temp_offset));
        }
        let reg = self.emit_action(emit_action, lhs_reg, rhs_reg, dest_reg);
        if reg != dest_reg {
            self.masm.mov_reg(ty.mode(), dest_reg, reg);
        }
    }

    /// Emits the code of an action on two operands in registers.
    fn emit_action(&mut self, action: ExecAction, lhs: Reg, rhs: Reg, dest: Reg) -> (reg: Reg)
        requires
            old(self).masm.wf(),
        ensures
            reg == dest,
            final(self).same_task(old(self)),
            final(self).masm.wf(),
            final(self).masm@ == action_code(old(self).masm@, action.view(), lhs, rhs, dest),
    {
        match action {
            ExecAction::Int(op) => {
                self.masm.int_op(op, MachineMode::Int32, dest, lhs, rhs);
            },
            ExecAction::DivMod(op) => {
                let lbl_div = self.masm.create_label();
                self.masm.test_and_jump_if(CondCode::NonZero, rhs, lbl_div);
                self.masm.trap(Trap::Div0);

                self.define_label(lbl_div);

                self.masm.int_op(op, MachineMode::Int32, dest, lhs, rhs);
            },
            ExecAction::Cmp(ty, op) => {
                self.cmp_setl(ty, lhs, op, rhs, dest);
            },
        }
        dest
    }

    /// Where a call of the function `fid` goes.
    fn ptr_for_fct_id(&mut self, fid: FctId) -> (ptr: DSegValue)
        requires
            old(self).wf(),
            callable(old(self).ctxt, old(self).fct, fid),
        ensures
            *final(self) == *old(self),
            ptr == target_of(old(self).ctxt, old(self).fct, fid),
    {
        if self.fct.id == fid {
            // we want to recursively invoke the function we are compiling right now
            ensure_jit_or_stub_ptr(self.fct)
        } else {
            let fct = &self.ctxt.fcts[fid.0];
            match fct.kind {
                FctKind::Source(_) => ensure_jit_or_stub_ptr(fct),
                FctKind::Builtin(ptr) => DSegValue::Addr(ptr),
                FctKind::Intrinsic => DSegValue::Addr(crate::gc::Address::null()),
            }
        }
    }

    /// Emits the code of a call.
    fn emit_call(&mut self, e: &ExprCallType, dest: Reg)
        requires
            old(self).wf(),
            ok(old(self).ctxt, old(self).fct, &Expr::ExprCall(*e)),
            room(old(self).masm@, nodes(&Expr::ExprCall(*e))),
        ensures
            final(self).emitted(
                old(self),
                call_code(old(self).masm@, old(self).ctxt, old(self).fct, e, dest),
                nodes(&Expr::ExprCall(*e)),
            ),
        decreases e, 2nat,
    {
        let call_type = *self.fct.src().calls.get(&e.id.0).unwrap();
        let fid = call_type.fct_id();
        let ctor = call_type.is_ctor();

        let ptr = self.ptr_for_fct_id(fid);

        if e.args.len() > 0 {
            let arg = &e.args[0];

            if has_temp_slot(self.fct.src(), arg.id()) {
                self.emit_call_with_args_on_stack(ptr, e, dest);
                return ;
            }
        }
        let ghost start = self.masm@;
        let offset: usize = if ctor {
            let cls = &self.ctxt.classes[call_type.cls_id().0];
            self.masm.load_int_const(MachineMode::Int32, reg_params(0), cls.size as i64);

            self.emit_call_insn(DSegValue::Builtin(Builtin::GcAlloc), BuiltinType::Ptr, REG_RESULT());

            self.masm.mov_reg(MachineMode::Ptr, reg_params(0), REG_RESULT());

            1
        } else {
            0
        };
        let ghost made = self.masm@;

        let mut stacksize: i32 = 0;

        let mut ind: usize = e.args.len();
        while ind > 0
            invariant
                self.wf(),
                self.same_task(old(self)),
                ok(self.ctxt, self.fct, &Expr::ExprCall(*e)),
                !(e.args@.len() > 0 && has_temp(self.fct.source(), e.args@[0].node())),
                offset <= 1,
                ind <= e.args@.len() <= MAX_ARGS,
                room(start, nodes(&Expr::ExprCall(*e))),
                made.ops.len() <= start.ops.len() + 5,
                made.dseg.len() <= start.dseg.len() + 1,
                made.labels.len() == start.labels.len(),
                self.masm@ == pass_args(made, self.ctxt, self.fct, e, offset as int, ind as nat),
                nodes_first(e, ind as nat) <= nodes_first(e, e.args@.len()),
                self.masm@.ops.len() <= made.ops.len() + OPS_PER_NODE * (nodes_first(
                    e,
                    e.args@.len(),
                ) - nodes_first(e, ind as nat)) - 3 * (e.args@.len() - ind),
                self.masm@.dseg.len() <= made.dseg.len() + 2 * (nodes_first(e, e.args@.len())
                    - nodes_first(e, ind as nat)),
                made.labels.len() <= self.masm@.labels.len() <= made.labels.len() + 3 * (
                nodes_first(e, e.args@.len()) - nodes_first(e, ind as nat)),
                stacksize == 8 * (pushed(e.args@.len() as int, offset as int) - pushed(
                    ind as int,
                    offset as int,
                )),
            decreases ind,
        {
            ind -= 1;
            let arg = &e.args[ind];
            proof {
                lemma_nodes_first(e, ind as nat + 1, e.args@.len());
                lemma_nodes_first(e, 0, ind as nat);
                assert(ok(self.ctxt, self.fct, &e.args@[ind as int]));
            }
            let at = offset + ind;

            if REG_PARAMS_LEN > at {
                let dest = reg_params(at);
                self.emit_expr(arg, dest);
            } else {
                stacksize += 8;
                self.emit_expr(arg, REG_RESULT());
                self.masm.push_param(REG_RESULT());
            }
        }
        proof {
            lemma_nodes_first(e, 0, e.args@.len());
        }

        let return_type = self.fct.src().get_type(e.id);
        self.emit_call_insn(ptr, return_type, dest);

        if stacksize != 0 {
            self.masm.free_stack(stacksize);
        }
    }

    /// Emits the code of a call whose arguments are set aside in temporary slots before
    /// they are brought to their places.
    fn emit_call_with_args_on_stack(&mut self, ptr: DSegValue, e: &ExprCallType, dest: Reg)
        requires
            old(self).wf(),
            ok(old(self).ctxt, old(self).fct, &Expr::ExprCall(*e)),
            room(old(self).masm@, nodes(&Expr::ExprCall(*e))),
            e.args@.len() > 0,
            has_temp(old(self).fct.source(), e.args@[0].node()),
            ptr == target_of(
                old(self).ctxt,
                old(self).fct,
                old(self).fct.source().calls@[e.id.0].callee(),
            ),
        ensures
            final(self).emitted(
                old(self),
                call_code(old(self).masm@, old(self).ctxt, old(self).fct, e, dest),
                nodes(&Expr::ExprCall(*e)),
            ),
        decreases e, 1nat,
    {
        let call_type = *self.fct.src().calls.get(&e.id.0).unwrap();
        let ctor = call_type.is_ctor();
        let ghost start = self.masm@;

        let offset: usize = if ctor {
            let cls = &self.ctxt.classes[call_type.cls_id().0];
            self.masm.load_int_const(MachineMode::Int32, reg_params(0), cls.size as i64);

            self.emit_call_insn(DSegValue::Builtin(Builtin::GcAlloc), BuiltinType::Ptr, REG_RESULT());

            let offset = self.temp_slot(e.id);
            self.masm.store_mem(MachineMode::Ptr, Mem::Local(offset), ExprStore::Reg(REG_RESULT()));

            1
        } else {
            0
        };
        let ghost made = self.masm@;

        let mut k: usize = 0;
        while k < e.args.len()
            invariant
                self.wf(),
                self.same_task(old(self)),
                ok(self.ctxt, self.fct, &Expr::ExprCall(*e)),
                e.args@.len() > 0,
                has_temp(self.fct.source(), e.args@[0].node()),
                k <= e.args@.len() <= MAX_ARGS,
                room(start, nodes(&Expr::ExprCall(*e))),
                made.ops.len() <= start.ops.len() + 5,
                made.dseg.len() <= start.dseg.len() + 1,
                made.labels.len() == start.labels.len(),
                self.masm@ == save_args(made, self.ctxt, self.fct, e, k as nat),
                nodes_first(e, k as nat) <= nodes_first(e, e.args@.len()),
                self.masm@.ops.len() <= made.ops.len() + OPS_PER_NODE * nodes_first(e, k as nat) - 3
                    * k,
                self.masm@.dseg.len() <= made.dseg.len() + 2 * nodes_first(e, k as nat),
                made.labels.len() <= self.masm@.labels.len() <= made.labels.len() + 3
                    * nodes_first(e, k as nat),
            decreases e.args@.len() - k,
        {
            let arg = &e.args[k];
            proof {
                lemma_nodes_first(e, k as nat + 1, e.args@.len());
                assert(ok(self.ctxt, self.fct, &e.args@[k as int]));
                assert(has_temp(self.fct.source(), e.args@[k as int].node()));
            }
            self.emit_expr(arg, REG_RESULT());

            let ty = self.fct.src().get_type(arg.id());
            let offset = self.temp_slot(arg.id());
            self.masm.store_mem(ty.mode(), Mem::Local(offset), ExprStore::Reg(REG_RESULT()));
            k += 1;
        }
        let ghost saved = self.masm@;

        let mut arg_offset: i32 = -self.fct.src().stacksize();

        let mut ind: usize = 0;
        while ind < e.args.len()
            invariant
                self.wf(),
                self.same_task(old(self)),
                ok(self.ctxt, self.fct, &Expr::ExprCall(*e)),
                e.args@.len() > 0,
                has_temp(self.fct.source(), e.args@[0].node()),
                offset <= 1,
                ind <= e.args@.len() <= MAX_ARGS,
                room(start, nodes(&Expr::ExprCall(*e))),
                made.ops.len() <= start.ops.len() + 5,
                made.dseg.len() <= start.dseg.len() + 1,
                made.labels.len() == start.labels.len(),
                saved.ops.len() <= made.ops.len() + OPS_PER_NODE * nodes_first(e, e.args@.len()) - 3
                    * e.args@.len(),
                saved.dseg.len() <= made.dseg.len() + 2 * nodes_first(e, e.args@.len()),
                made.labels.len() <= saved.labels.len() <= made.labels.len() + 3 * nodes_first(
                    e,
                    e.args@.len(),
                ),
                self.masm@ == place_args_stack(saved, self.fct, e, offset as int, ind as nat),
                self.masm@.ops.len() <= saved.ops.len() + 2 * ind,
                self.masm@.dseg == saved.dseg,
                self.masm@.labels == saved.labels,
                arg_offset == -self.fct.source().frame_size() + 8 * pushed(ind as int, offset as int),
            decreases e.args@.len() - ind,
        {
            let arg = &e.args[ind];
            proof {
                assert(has_temp(self.fct.source(), e.args@[ind as int].node()));
            }
            let at = offset + ind;
            let ty = self.fct.src().get_type(arg.id());

            let offset = self.temp_slot(arg.id());

            if REG_PARAMS_LEN > at {
                self.masm.load_mem(ty.mode(), ExprStore::Reg(reg_params(at)), Mem::Local(offset));
            } else {
                self.masm.load_mem(ty.mode(), ExprStore::Reg(REG_RESULT()), Mem::Local(offset));
                self.masm.store_mem(ty.mode(), Mem::Local(arg_offset), ExprStore::Reg(REG_RESULT()));

                arg_offset += 8;
            }
            ind += 1;
        }
        proof {
            lemma_nodes_first(e, 0, e.args@.len());
        }

        let return_type = self.fct.src().get_type(e.id);
        self.emit_call_insn(ptr, return_type, dest);
    }

    /// Emits the code of a call with arguments that are made one after the other.
    fn emit_universal_call(
        &mut self,
        ptr: DSegValue,
        args: Vec<Arg>,
        return_type: BuiltinType,
        dest: Reg,
        Ghost(parent): Ghost<&ExprArrayType>,
    )
        requires
            old(self).wf(),
            args@.len() <= MAX_ARGS,
            room(old(self).masm@, 1 + nodes_args(args@, args@.len())),
            forall|i: int|
                0 <= i < args@.len() ==> (#[trigger] args@[i]).ready(old(self).fct) && match args@[i] {
                    Arg::Expr(x) => ok(old(self).ctxt, old(self).fct, x) && decreases_to!(parent => x),
                    Arg::Selfie(cls, _) => cls.0 < old(self).ctxt.classes@.len(),
                },
        ensures
            final(self).emitted(
                old(self),
                universal_code(
                    old(self).masm@,
                    old(self).ctxt,
                    old(self).fct,
                    args@,
                    ptr,
                    return_type,
                    dest,
                ),
                1 + nodes_args(args@, args@.len()),
            ),
        decreases parent, 0nat,
    {
        let ghost start = self.masm@;
        let mut k: usize = 0;
        while k < args.len()
            invariant
                self.wf(),
                self.same_task(old(self)),
                k <= args@.len() <= MAX_ARGS,
                room(start, 1 + nodes_args(args@, args@.len())),
                forall|i: int|
                    0 <= i < args@.len() ==> (#[trigger] args@[i]).ready(self.fct) && match args@[i] {
                        Arg::Expr(x) => ok(self.ctxt, self.fct, x) && decreases_to!(parent => x),
                        Arg::Selfie(cls, _) => cls.0 < self.ctxt.classes@.len(),
                    },
                self.masm@ == save_all(start, self.ctxt, self.fct, args@, k as nat),
                nodes_args(args@, k as nat) <= nodes_args(args@, args@.len()),
                self.masm@.ops.len() <= start.ops.len() + OPS_PER_NODE * nodes_args(args@, k as nat)
                    - 3 * k,
                self.masm@.dseg.len() <= start.dseg.len() + 2 * nodes_args(args@, k as nat),
                start.labels.len() <= self.masm@.labels.len() <= start.labels.len() + 3
                    * nodes_args(args@, k as nat),
            decreases args@.len() - k,
        {
            let arg = args[k];
            proof {
                lemma_nodes_args(args@, k as nat + 1, args@.len());
                assert(args@[k as int].ready(self.fct));
            }
            match arg {
                Arg::Expr(ast) => {
                    self.emit_expr(ast, REG_RESULT());
                },
                Arg::Selfie(cls_id, _) => {
                    let cls = &self.ctxt.classes[cls_id.0];
                    self.masm.load_int_const(MachineMode::Int32, reg_params(0), cls.size as i64);

                    self.emit_call_insn(
                        DSegValue::Builtin(Builtin::GcAlloc),
                        BuiltinType::Ptr,
                        REG_RESULT(),
                    );
                },
            }
            let offset = -(self.fct.src().localsize + arg.offset(self.fct));
            self.masm.store_mem(
                arg.ty(self.fct).mode(),
                Mem::Local(offset),
                ExprStore::Reg(REG_RESULT()),
            );
            k += 1;
        }
        let ghost saved = self.masm@;

        let mut arg_offset: i32 = -self.fct.src().stacksize();

        let mut ind: usize = 0;
        while ind < args.len()
            invariant
                self.wf(),
                self.same_task(old(self)),
                ind <= args@.len() <= MAX_ARGS,
                room(start, 1 + nodes_args(args@, args@.len())),
                forall|i: int| 0 <= i < args@.len() ==> (#[trigger] args@[i]).ready(self.fct),
                saved.ops.len() <= start.ops.len() + OPS_PER_NODE * nodes_args(args@, args@.len())
                    - 3 * args@.len(),
                saved.dseg.len() <= start.dseg.len() + 2 * nodes_args(args@, args@.len()),
                start.labels.len() <= saved.labels.len() <= start.labels.len() + 3 * nodes_args(
                    args@,
                    args@.len(),
                ),
                self.masm@ == place_all(saved, self.fct, args@, ind as nat),
                self.masm@.ops.len() <= saved.ops.len() + 2 * ind,
                self.masm@.dseg == saved.dseg,
                self.masm@.labels == saved.labels,
                arg_offset == -self.fct.source().frame_size() + 8 * pushed(ind as int, 0),
            decreases args@.len() - ind,
        {
            let arg = args[ind];
            proof {
                assert(args@[ind as int].ready(self.fct));
            }
            let ty = arg.ty(self.fct);
            let offset = -(self.fct.src().localsize + arg.offset(self.fct));

            if ind < REG_PARAMS_LEN {
                self.masm.load_mem(ty.mode(), ExprStore::Reg(reg_params(ind)), Mem::Local(offset));
            } else {
                self.masm.load_mem(ty.mode(), ExprStore::Reg(REG_RESULT()), Mem::Local(offset));
                self.masm.store_mem(ty.mode(), Mem::Local(arg_offset), ExprStore::Reg(REG_RESULT()));

                arg_offset += 8;
            }
            ind += 1;
        }

        self.emit_call_insn(ptr, return_type, dest);
    }

    /// Emits the call itself: the address of the callee is loaded from the constant area.
    fn emit_call_insn(&mut self, ptr: DSegValue, ty: BuiltinType, dest: Reg)
        requires
            old(self).masm.wf(),
            old(self).masm@.ops.len() + 3 <= 0x7fff_ffff,
            old(self).masm@.dseg.len() + 1 <= 0x0fff_ffff,
        ensures
            final(self).same_task(old(self)),
            final(self).masm.wf(),
            final(self).masm@ == call_insn(old(self).masm@, ptr, ty, dest),
    {
        let disp: i32 = self.masm.add_value(ptr);

        self.masm.load_constpool(REG_RESULT(), disp);
        self.masm.call(REG_RESULT());

        if REG_RESULT() != dest {
            self.masm.mov_reg(ty.mode(), dest, REG_RESULT());
        }
    }

    /// Emits a call of a function of the runtime with the two operands as its arguments.
    fn emit_call_builtin_binary(&mut self, fct: Builtin, expr: &ExprBinType, dest: Reg)
        requires
            old(self).wf(),
            ok(old(self).ctxt, old(self).fct, &Expr::ExprBin(*expr)),
            room(old(self).masm@, nodes(&Expr::ExprBin(*expr))),
            by_builtin(old(self).fct, expr) == Some(fct),
        ensures
            final(self).emitted(
                old(self),
                builtin_code(old(self).masm@, old(self).ctxt, old(self).fct, expr, fct, dest),
                nodes(&Expr::ExprBin(*expr)),
            ),
            final(self).masm@.ops.len() + 7 <= old(self).masm@.ops.len() + OPS_PER_NODE * nodes(
                &Expr::ExprBin(*expr),
            ),
        decreases expr, 1nat,
    {
        self.emit_expr(&expr.lhs, reg_params(0));

        self.emit_expr(&expr.rhs, reg_params(1));

        let return_type = self.fct.src().get_type(expr.id);
        self.emit_call_insn(DSegValue::Builtin(fct), return_type, dest);
    }
}

/// What is done with the two operands of an operator once they are in
/// registers.
#[derive(Clone, Copy)]
pub enum ExecAction {
    /// An operation of integer arithmetic or logic.
    Int(IntOp),
    /// A division or a remainder, with the test of the divisor.
    DivMod(IntOp),
    /// A comparison of values of a type.
    Cmp(BuiltinType, CmpOp),
}

impl View for ExecAction {
    type V = BinAction;

    open spec fn view(&self) -> BinAction {
        match self {
            ExecAction::Int(op) => BinAction::Int(*op),
            ExecAction::DivMod(op) => BinAction::DivMod(*op),
            ExecAction::Cmp(ty, op) => BinAction::Cmp(*ty, *op),
        }
    }
}

} // verus!
