use vstd::prelude::*;
use crate::expr::{BuildinTypeKind, ExprKind, StmtKind, expr_text, stmt_text};

verus! {

broadcast use {
    vstd::seq::axiom_seq_index_decreases,
    vstd::std_specs::vec::axiom_vec_index_decreases,
    vstd::std_specs::vec::axiom_vec_decreases_to_view,
};

/// A field of an aggregate type; it carries no data yet.
#[derive(Debug, PartialEq, Eq, Structural)]
pub struct AggregateField {}

#[derive(Debug, PartialEq, Eq)]
pub struct AggregateType {
    pub name: String,
    pub fields: Vec<AggregateField>,
}

#[derive(Debug, PartialEq, Eq)]
pub enum TypeKind {
    Buildin(BuildinTypeKind),
    Aggregate(AggregateType),
}

/// A type as written in source, not yet bound to a `TypeKind`.
#[derive(Debug, PartialEq, Eq)]
pub struct UnresolvedType {
    pub name: String,
}

/// A formal parameter of a function.
#[derive(Debug, PartialEq, Eq)]
pub struct FunArg {
    pub name: String,
    pub arg_type: UnresolvedType,
}

#[derive(Debug, PartialEq, Eq)]
pub enum Ast {
    Expr(ExprKind),
    BasicBlock { implementation: Vec<Box<Ast>> },
    Stmt(StmtKind),
    FunDecl { name: String, args: Vec<FunArg>, returns: UnresolvedType, implementation: Box<Ast> },
}

/// `(arg <type-name> <arg-name>)`.
pub open spec fn arg_text(a: FunArg) -> Seq<char> {
    "(arg "@ + a.arg_type.name@ + " "@ + a.name@ + ")"@
}

/// The texts of the arguments, concatenated with no separator.
pub open spec fn args_text(args: Seq<FunArg>) -> Seq<char>
    decreases args.len(),
{
    if args.len() == 0 {
        Seq::empty()
    } else {
        args_text(args.drop_last()) + arg_text(args.last())
    }
}

/// The texts of the nodes, concatenated with no separator.
pub open spec fn items_text(items: Seq<Box<Ast>>) -> Seq<char>
    decreases items,
{
    if items.len() == 0 {
        Seq::empty()
    } else {
        items_text(items.drop_last()) + ast_text(*items.last())
    }
}

/// Canonical text of a tree node.
pub open spec fn ast_text(a: Ast) -> Seq<char>
    decreases a,
{
    match a {
        Ast::Expr(e) => expr_text(e),
        Ast::BasicBlock { implementation } => "(BasicBlock "@ + items_text(implementation@)
            + ") \n"@,
        Ast::Stmt(s) => stmt_text(s),
        Ast::FunDecl { name, args, returns: ret_type, implementation } => "(FunDecl "@ + name@
            + " (args "@ + args_text(args@) + ") (returns "@ + ret_type.name@ + "))\n "@
            + ast_text(*implementation),
    }
}

proof fn lemma_block_item_decreases(a: Ast, i: int)
    requires
        a matches Ast::BasicBlock { implementation } && 0 <= i < implementation@.len(),
    ensures
        a matches Ast::BasicBlock { implementation } && decreases_to!(a => *implementation@[i]),
{
    if let Ast::BasicBlock { implementation } = a {
        assert(decreases_to!(a => implementation));
        assert(decreases_to!(implementation => implementation[i]));
    }
}

/// Rendering is a function of the tree alone: equal trees render to the
/// same text, so rendering one tree twice gives identical output.
pub proof fn lemma_render_deterministic(a: Ast, b: Ast)
    requires
        a == b,
    ensures
        ast_text(a) == ast_text(b),
{
}

impl FunArg {
    pub fn to_string(&self) -> (r: String)
        ensures
            r@ == arg_text(*self),
    {
        let mut s = String::new();
        s.append("(arg ");
        s.append(self.arg_type.name.as_str());
        s.append(" ");
        s.append(self.name.as_str());
        s.append(")");
        assert(s@ =~= arg_text(*self));
        s
    }
}

impl Ast {
    pub fn to_string(&self) -> (r: String)
        ensures
            r@ == ast_text(*self),
        decreases self,
    {
        match self {
            Ast::Expr(expr) => expr.to_string(),
            Ast::BasicBlock { implementation } => {
                let mut code = String::new();
                let mut i: usize = 0;
                while i < implementation.len()
                    invariant
                        i <= implementation@.len(),
                        *self == (Ast::BasicBlock { implementation: *implementation }),
                        code@ == items_text(implementation@.take(i as int)),
                    decreases implementation@.len() - i,
                {
                    proof {
                        lemma_block_item_decreases(*self, i as int);
                    }
                    let item = implementation[i].to_string();
                    assert(implementation@.take(i + 1).drop_last() =~= implementation@.take(
                        i as int,
                    ));
                    code.append(item.as_str());
                    i = i + 1;
                }
                assert(implementation@.take(i as int) =~= implementation@);
                let mut s = String::new();
                s.append("(BasicBlock ");
                s.append(code.as_str());
                s.append(") \n");
                assert(s@ =~= ast_text(*self));
                s
            },
            Ast::Stmt(stmt) => stmt.to_string(),
            Ast::FunDecl { name, args, returns: ret_type, implementation } => {
                let mut arg_code = String::new();
                let mut i: usize = 0;
                while i < args.len()
                    invariant
                        i <= args@.len(),
                        arg_code@ == args_text(args@.take(i as int)),
                    decreases args@.len() - i,
                {
                    let a = args[i].to_string();
                    assert(args@.take(i + 1).drop_last() =~= args@.take(i as int));
                    arg_code.append(a.as_str());
                    i = i + 1;
                }
                assert(args@.take(i as int) =~= args@);
                let code = implementation.to_string();
                let mut s = String::new();
                s.append("(FunDecl ");
                s.append(name.as_str());
                s.append(" (args ");
                s.append(arg_code.as_str());
                s.append(") (returns ");
                s.append(ret_type.name.as_str());
                s.append("))\n ");
                s.append(code.as_str());
                assert(s@ =~= ast_text(*self));
                s
            },
        }
    }
}

} // verus!
