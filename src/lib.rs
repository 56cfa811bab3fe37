//! Abstract syntax tree of a small imperative language, its operator
//! metadata, and a canonical, fully parenthesized textual rendering.
pub mod operator;
pub mod decimal;
pub mod expr;
pub mod ast;

pub use operator::{BinaryOperatorKind, OperatorAssociativity};
pub use expr::{BuildinTypeKind, LiteralExpr, BinaryExpr, Expr, ExprKind, AssignExpr, StmtKind};
pub use ast::{AggregateField, AggregateType, TypeKind, UnresolvedType, FunArg, Ast};
