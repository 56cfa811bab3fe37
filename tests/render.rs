use parser::{
    Ast, AssignExpr, BinaryExpr, BinaryOperatorKind, BuildinTypeKind, ExprKind, FunArg,
    LiteralExpr, OperatorAssociativity, StmtKind, UnresolvedType,
};

fn lit(v: i32) -> ExprKind {
    ExprKind::Literal(LiteralExpr { constant_type: BuildinTypeKind::Int, value: v })
}

fn ident(s: &str) -> ExprKind {
    ExprKind::Identifier(s.to_owned())
}

fn bin(op: BinaryOperatorKind, l: ExprKind, r: ExprKind) -> ExprKind {
    ExprKind::Binary(BinaryExpr { operator: op, left: Box::new(l), right: Box::new(r) })
}

fn sample() -> ExprKind {
    bin(BinaryOperatorKind::Plus, lit(1), bin(BinaryOperatorKind::Mul, ident("x"), lit(2)))
}

#[test]
fn binary_nested_renders_fully_parenthesized() {
    assert_eq!(sample().to_string(), "(+ 1 (* x 2))");
}

#[test]
fn var_decl_renders_name() {
    let a = Ast::Stmt(StmtKind::VarDecl("count".to_owned()));
    assert_eq!(a.to_string(), "count");
}

#[test]
fn assign_renders() {
    let a = Ast::Stmt(StmtKind::Assign(AssignExpr {
        left: Box::new(ident("x")),
        right: Box::new(lit(5)),
    }));
    assert_eq!(a.to_string(), "(assign x 5)");
}

#[test]
fn basic_block_concatenates_without_separator() {
    let a = Ast::BasicBlock {
        implementation: vec![
            Box::new(Ast::Stmt(StmtKind::VarDecl("a".to_owned()))),
            Box::new(Ast::Stmt(StmtKind::VarDecl("b".to_owned()))),
        ],
    };
    assert_eq!(a.to_string(), "(BasicBlock ab) \n");
}

#[test]
fn empty_basic_block() {
    let a = Ast::BasicBlock { implementation: vec![] };
    assert_eq!(a.to_string(), "(BasicBlock ) \n");
}

#[test]
fn fun_decl_renders() {
    let a = Ast::FunDecl {
        name: "f".to_owned(),
        args: vec![FunArg {
            name: "x".to_owned(),
            arg_type: UnresolvedType { name: "Int".to_owned() },
        }],
        returns: UnresolvedType { name: "Int".to_owned() },
        implementation: Box::new(Ast::BasicBlock { implementation: vec![] }),
    };
    assert_eq!(a.to_string(), "(FunDecl f (args (arg Int x)) (returns Int))\n (BasicBlock ) \n");
}

#[test]
fn fun_decl_two_args_no_separator() {
    let arg = |n: &str, t: &str| FunArg {
        name: n.to_owned(),
        arg_type: UnresolvedType { name: t.to_owned() },
    };
    let a = Ast::FunDecl {
        name: "g".to_owned(),
        args: vec![arg("a", "Int"), arg("b", "Int")],
        returns: UnresolvedType { name: "Int".to_owned() },
        implementation: Box::new(Ast::Stmt(StmtKind::VarDecl("v".to_owned()))),
    };
    assert_eq!(a.to_string(), "(FunDecl g (args (arg Int a)(arg Int b)) (returns Int))\n v");
}

#[test]
fn fun_arg_renders() {
    let a = FunArg { name: "y".to_owned(), arg_type: UnresolvedType { name: "T".to_owned() } };
    assert_eq!(a.to_string(), "(arg T y)");
}

#[test]
fn expr_node_renders_as_expression() {
    assert_eq!(Ast::Expr(sample()).to_string(), "(+ 1 (* x 2))");
}

#[test]
fn literals_render_in_decimal() {
    assert_eq!(lit(0).to_string(), "0");
    assert_eq!(lit(7).to_string(), "7");
    assert_eq!(lit(1234).to_string(), "1234");
    assert_eq!(lit(-5).to_string(), "-5");
    assert_eq!(lit(i32::MAX).to_string(), "2147483647");
    assert_eq!(lit(i32::MIN).to_string(), "-2147483648");
}

#[test]
fn operator_symbols() {
    assert_eq!(BinaryOperatorKind::Plus.to_string(), "+");
    assert_eq!(BinaryOperatorKind::Minus.to_string(), "-");
    assert_eq!(BinaryOperatorKind::Mul.to_string(), "*");
    assert_eq!(BinaryOperatorKind::Div.to_string(), "/");
    assert_eq!(BinaryOperatorKind::SmallerThen.to_string(), "<");
    assert_eq!(BinaryOperatorKind::GreaterThen.to_string(), ">");
}

#[test]
fn precedence_and_associativity_table() {
    let cases = [
        (BinaryOperatorKind::SmallerThen, 0),
        (BinaryOperatorKind::GreaterThen, 0),
        (BinaryOperatorKind::Plus, 20),
        (BinaryOperatorKind::Minus, 20),
        (BinaryOperatorKind::Mul, 40),
        (BinaryOperatorKind::Div, 40),
    ];
    for (op, p) in cases {
        let e = BinaryExpr { operator: op, left: Box::new(lit(1)), right: Box::new(lit(2)) };
        assert_eq!(e.precedence(), p);
        assert_eq!(e.associativity(), OperatorAssociativity::Left);
    }
}

#[test]
fn render_twice_is_identical() {
    let a = Ast::Expr(sample());
    assert_eq!(a.to_string(), a.to_string());
}

#[test]
fn structural_equality() {
    let a = sample();
    let b = sample();
    let c = sample();
    assert_eq!(a, a);
    assert_eq!(a, b);
    assert_eq!(b, a);
    assert_eq!(b, c);
    assert_eq!(a, c);
    assert_ne!(a, bin(BinaryOperatorKind::Plus, lit(1), lit(2)));
}

#[test]
fn deep_tree_renders() {
    let mut e = lit(0);
    for _ in 0..1000 {
        e = bin(BinaryOperatorKind::Minus, e, lit(1));
    }
    let s = e.to_string();
    assert!(s.starts_with("(- (- "));
    assert_eq!(s.len(), 1 + 6 * 1000);
    let mut block = Ast::BasicBlock { implementation: vec![] };
    for _ in 0..1000 {
        block = Ast::BasicBlock { implementation: vec![Box::new(block)] };
    }
    assert!(block.to_string().starts_with("(BasicBlock (BasicBlock "));
}
