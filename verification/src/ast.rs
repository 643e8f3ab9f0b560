//! The expressions of the source language.
use vstd::prelude::*;

verus! {

/// Identifies a node of the syntax tree.
#[derive(Clone, Copy, Debug, PartialEq, Eq, Structural)]
pub struct NodeId(pub usize);

/// The operators with one operand.
#[derive(Clone, Copy, Debug, PartialEq, Eq, Structural)]
pub enum UnOp {
    Plus,
    Neg,
    BitNot,
    Not,
}

/// The comparisons.
#[derive(Clone, Copy, Debug, PartialEq, Eq, Structural)]
pub enum CmpOp {
    Eq,
    Ne,
    Lt,
    Le,
    Gt,
    Ge,
    Is,
    IsNot,
}

/// The operators with two operands.
#[derive(Clone, Copy, Debug, PartialEq, Eq, Structural)]
pub enum BinOp {
    Add,
    Sub,
    Mul,
    Div,
    Mod,
    Cmp(CmpOp),
    BitOr,
    BitAnd,
    BitXor,
    Or,
    And,
}

/// An expression.
#[derive(Debug)]
pub enum Expr {
    ExprUn(ExprUnType),
    ExprBin(ExprBinType),
    ExprLitInt(ExprLitIntType),
    ExprLitStr(ExprLitStrType),
    ExprLitBool(ExprLitBoolType),
    ExprIdent(ExprIdentType),
    ExprCall(ExprCallType),
    ExprAssign(ExprAssignType),
    ExprProp(ExprPropType),
    ExprSelf(ExprSelfType),
    ExprNil(ExprNilType),
    ExprArray(ExprArrayType),
}

/// An operator applied to one operand.
#[derive(Debug)]
pub struct ExprUnType {
    pub id: NodeId,
    pub op: UnOp,
    pub opnd: Box<Expr>,
}

/// An operator applied to two operands.
#[derive(Debug)]
pub struct ExprBinType {
    pub id: NodeId,
    pub op: BinOp,
    pub lhs: Box<Expr>,
    pub rhs: Box<Expr>,
}

/// An integer literal.
#[derive(Debug)]
pub struct ExprLitIntType {
    pub id: NodeId,
    pub value: i32,
}

/// A string literal.
#[derive(Debug)]
pub struct ExprLitStrType {
    pub id: NodeId,
    pub value: String,
}

/// A boolean literal.
#[derive(Debug)]
pub struct ExprLitBoolType {
    pub id: NodeId,
    pub value: bool,
}

/// A name: a variable, or a property of the receiver.
#[derive(Debug)]
pub struct ExprIdentType {
    pub id: NodeId,
    pub name: String,
}

/// A call with its arguments.
#[derive(Debug)]
pub struct ExprCallType {
    pub id: NodeId,
    pub args: Vec<Expr>,
}

/// An assignment to a variable or to a property.
#[derive(Debug)]
pub struct ExprAssignType {
    pub id: NodeId,
    pub lhs: Box<Expr>,
    pub rhs: Box<Expr>,
}

/// A property of an object.
#[derive(Debug)]
pub struct ExprPropType {
    pub id: NodeId,
    pub object: Box<Expr>,
    pub name: String,
}

/// The receiver.
#[derive(Debug)]
pub struct ExprSelfType {
    pub id: NodeId,
}

/// The null reference.
#[derive(Debug)]
pub struct ExprNilType {
    pub id: NodeId,
}

/// An element of an array.
#[derive(Debug)]
pub struct ExprArrayType {
    pub id: NodeId,
    pub object: Box<Expr>,
    pub index: Box<Expr>,
}

impl Expr {
    /// The identifier of the node.
    pub open spec fn node(&self) -> NodeId {
        match self {
            Expr::ExprUn(e) => e.id,
            Expr::ExprBin(e) => e.id,
            Expr::ExprLitInt(e) => e.id,
            Expr::ExprLitStr(e) => e.id,
            Expr::ExprLitBool(e) => e.id,
            Expr::ExprIdent(e) => e.id,
            Expr::ExprCall(e) => e.id,
            Expr::ExprAssign(e) => e.id,
            Expr::ExprProp(e) => e.id,
            Expr::ExprSelf(e) => e.id,
            Expr::ExprNil(e) => e.id,
            Expr::ExprArray(e) => e.id,
        }
    }

    /// The identifier of the node.
    pub fn id(&self) -> (id: NodeId)
        ensures
            id == self.node(),
    {
        match self {
            Expr::ExprUn(e) => e.id,
            Expr::ExprBin(e) => e.id,
            Expr::ExprLitInt(e) => e.id,
            Expr::ExprLitStr(e) => e.id,
            Expr::ExprLitBool(e) => e.id,
            Expr::ExprIdent(e) => e.id,
            Expr::ExprCall(e) => e.id,
            Expr::ExprAssign(e) => e.id,
            Expr::ExprProp(e) => e.id,
            Expr::ExprSelf(e) => e.id,
            Expr::ExprNil(e) => e.id,
            Expr::ExprArray(e) => e.id,
        }
    }

    /// The expression as the property of an object, if it is one.
    pub fn to_prop(&self) -> (r: Option<&ExprPropType>)
        ensures
            match self {
                Expr::ExprProp(e) => r == Some(e),
                _ => r is None,
            },
    {
        match self {
            Expr::ExprProp(e) => Some(e),
            _ => None,
        }
    }
}

/// Whether `expr` is a literal, a name, the receiver or the null
/// reference: an expression without parts.
pub open spec fn leaf(expr: &Expr) -> bool {
    match expr {
        Expr::ExprUn(_) => false,
        Expr::ExprBin(_) => false,
        Expr::ExprLitInt(_) => true,
        Expr::ExprLitStr(_) => true,
        Expr::ExprLitBool(_) => true,
        Expr::ExprIdent(_) => true,
        Expr::ExprAssign(_) => false,
        Expr::ExprCall(_) => false,
        Expr::ExprProp(_) => false,
        Expr::ExprSelf(_) => true,
        Expr::ExprNil(_) => true,
        Expr::ExprArray(_) => false,
    }
}

/// Whether a call stands in `expr`, other than in the arguments of a call:
/// whether `expr` is a call, or one of its operands, of its sides or of
/// its objects holds one.
pub open spec fn has_call(expr: &Expr) -> bool
    decreases expr,
{
    match expr {
        Expr::ExprUn(e) => has_call(&*e.opnd),
        Expr::ExprBin(e) => has_call(&*e.lhs) || has_call(&*e.rhs),
        Expr::ExprLitInt(_) => false,
        Expr::ExprLitStr(_) => false,
        Expr::ExprLitBool(_) => false,
        Expr::ExprIdent(_) => false,
        Expr::ExprAssign(e) => has_call(&*e.lhs) || has_call(&*e.rhs),
        Expr::ExprCall(_) => true,
        Expr::ExprProp(e) => has_call(&*e.object),
        Expr::ExprSelf(_) => false,
        Expr::ExprNil(_) => false,
        Expr::ExprArray(e) => has_call(&*e.object) || has_call(&*e.index),
    }
}

} // verus!
