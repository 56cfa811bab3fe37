use vstd::prelude::*;
use crate::operator::{BinaryOperatorKind, OperatorAssociativity};
use crate::decimal::{int_text, i32_to_text};

verus! {

/// The built-in types; integers are the only one so far.
#[derive(Debug, PartialEq, Eq, Structural)]
pub enum BuildinTypeKind {
    Int,
}

/// An integer constant.
#[derive(Debug, PartialEq, Eq, Structural)]
pub struct LiteralExpr {
    pub constant_type: BuildinTypeKind,
    pub value: i32,
}

/// An operator applied to two owned operands.
#[derive(Debug, PartialEq, Eq)]
pub struct BinaryExpr {
    pub operator: BinaryOperatorKind,
    pub left: Box<ExprKind>,
    pub right: Box<ExprKind>,
}

/// A wrapper around an expression kind.
#[derive(Debug, PartialEq, Eq)]
pub struct Expr {
    kind: ExprKind,
}

#[derive(Debug, PartialEq, Eq)]
pub enum ExprKind {
    Identifier(String),
    Literal(LiteralExpr),
    Binary(BinaryExpr),
}

/// Assignment of the value of `right` to the place `left`.
#[derive(Debug, PartialEq, Eq)]
pub struct AssignExpr {
    pub left: Box<ExprKind>,
    pub right: Box<ExprKind>,
}

#[derive(Debug, PartialEq, Eq)]
pub enum StmtKind {
    Assign(AssignExpr),
    VarDecl(String),
}

/// Canonical text of an expression: identifiers verbatim, literals in
/// decimal, binary nodes as `(<op> <left> <right>)`.
pub open spec fn expr_text(e: ExprKind) -> Seq<char>
    decreases e,
{
    match e {
        ExprKind::Identifier(s) => s@,
        ExprKind::Literal(l) => int_text(l.value as int),
        ExprKind::Binary(b) => "("@ + b.operator.symbol() + " "@ + expr_text(*b.left) + " "@
            + expr_text(*b.right) + ")"@,
    }
}

/// Canonical text of a statement: `(assign <left> <right>)`, or the declared name.
pub open spec fn stmt_text(s: StmtKind) -> Seq<char> {
    match s {
        StmtKind::Assign(a) => "(assign "@ + expr_text(*a.left) + " "@ + expr_text(*a.right)
            + ")"@,
        StmtKind::VarDecl(name) => name@,
    }
}

impl BinaryExpr {
    pub fn precedence(&self) -> (r: i32)
        ensures
            r as int == self.operator.spec_precedence(),
    {
        match self.operator {
            BinaryOperatorKind::SmallerThen => 0,
            BinaryOperatorKind::GreaterThen => 0,
            BinaryOperatorKind::Plus => 20,
            BinaryOperatorKind::Minus => 20,
            BinaryOperatorKind::Mul => 40,
            BinaryOperatorKind::Div => 40,
        }
    }

    pub fn associativity(&self) -> (r: OperatorAssociativity)
        ensures
            r == self.operator.spec_associativity(),
    {
        match self.operator {
            BinaryOperatorKind::SmallerThen => OperatorAssociativity::Left,
            BinaryOperatorKind::GreaterThen => OperatorAssociativity::Left,
            BinaryOperatorKind::Plus => OperatorAssociativity::Left,
            BinaryOperatorKind::Minus => OperatorAssociativity::Left,
            BinaryOperatorKind::Mul => OperatorAssociativity::Left,
            BinaryOperatorKind::Div => OperatorAssociativity::Left,
        }
    }
}

impl ExprKind {
    pub fn to_string(&self) -> (r: String)
        ensures
            r@ == expr_text(*self),
        decreases self,
    {
        match self {
            ExprKind::Identifier(s) => s.clone(),
            ExprKind::Literal(lit_expr) => i32_to_text(lit_expr.value),
            ExprKind::Binary(bin_expr) => {
                let op = bin_expr.operator.to_string();
                let l = bin_expr.left.to_string();
                let rt = bin_expr.right.to_string();
                let mut s = String::new();
                s.append("(");
                s.append(op.as_str());
                s.append(" ");
                s.append(l.as_str());
                s.append(" ");
                s.append(rt.as_str());
                s.append(")");
                assert(s@ =~= expr_text(*self));
                s
            },
        }
    }
}

impl StmtKind {
    pub fn to_string(&self) -> (r: String)
        ensures
            r@ == stmt_text(*self),
    {
        match self {
            StmtKind::Assign(asg_expr) => {
                let l = asg_expr.left.to_string();
                let rt = asg_expr.right.to_string();
                let mut s = String::new();
                s.append("(assign ");
                s.append(l.as_str());
                s.append(" ");
                s.append(rt.as_str());
                s.append(")");
                assert(s@ =~= stmt_text(*self));
                s
            },
            StmtKind::VarDecl(name) => name.clone(),
        }
    }
}

} // verus!
