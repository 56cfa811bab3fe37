use vstd::prelude::*;

verus! {

/// The binary operators of the language.
#[derive(Debug, PartialEq, Eq, Structural)]
pub enum BinaryOperatorKind {
    Plus,
    Minus,
    Mul,
    Div,
    SmallerThen,
    GreaterThen,
}

/// How a chain of operators of equal precedence groups.
#[derive(Debug, PartialEq, Eq, Structural)]
pub enum OperatorAssociativity {
    Left,
    Right,
}

impl BinaryOperatorKind {
    /// The one-character symbol that stands for the operator in rendered text.
    pub open spec fn symbol(self) -> Seq<char> {
        match self {
            BinaryOperatorKind::Plus => seq!['+'],
            BinaryOperatorKind::Minus => seq!['-'],
            BinaryOperatorKind::Mul => seq!['*'],
            BinaryOperatorKind::Div => seq!['/'],
            BinaryOperatorKind::SmallerThen => seq!['<'],
            BinaryOperatorKind::GreaterThen => seq!['>'],
        }
    }

    /// Binding strength: a higher value binds tighter.
    pub open spec fn spec_precedence(self) -> int {
        match self {
            BinaryOperatorKind::SmallerThen | BinaryOperatorKind::GreaterThen => 0,
            BinaryOperatorKind::Plus | BinaryOperatorKind::Minus => 20,
            BinaryOperatorKind::Mul | BinaryOperatorKind::Div => 40,
        }
    }

    /// Every operator of the language groups to the left.
    pub open spec fn spec_associativity(self) -> OperatorAssociativity {
        OperatorAssociativity::Left
    }

    pub fn to_string(&self) -> (r: String)
        ensures
            r@ == self.symbol(),
    {
        let s = match self {
            BinaryOperatorKind::Plus => "+",
            BinaryOperatorKind::Minus => "-",
            BinaryOperatorKind::Mul => "*",
            BinaryOperatorKind::Div => "/",
            BinaryOperatorKind::SmallerThen => "<",
            BinaryOperatorKind::GreaterThen => ">",
        };
        proof {
            reveal_strlit("+");
            reveal_strlit("-");
            reveal_strlit("*");
            reveal_strlit("/");
            reveal_strlit("<");
            reveal_strlit(">");
        }
        s.to_owned()
    }
}

/// Precedence orders the operators in three tiers: `*` and `/` above `+`
/// and `-`, which stand above `<` and `>`; operators of one tier share a
/// precedence, any two operators are comparable, and every operator groups
/// to the left.
pub proof fn lemma_precedence_tiers(a: BinaryOperatorKind, b: BinaryOperatorKind)
    ensures
        a.spec_precedence() <= b.spec_precedence() || b.spec_precedence() <= a.spec_precedence(),
        BinaryOperatorKind::Mul.spec_precedence() == 40,
        BinaryOperatorKind::Div.spec_precedence() == 40,
        BinaryOperatorKind::Plus.spec_precedence() == 20,
        BinaryOperatorKind::Minus.spec_precedence() == 20,
        BinaryOperatorKind::SmallerThen.spec_precedence() == 0,
        BinaryOperatorKind::GreaterThen.spec_precedence() == 0,
        (a is Mul || a is Div) && (b is Plus || b is Minus) ==> a.spec_precedence()
            > b.spec_precedence(),
        (a is Plus || a is Minus) && (b is SmallerThen || b is GreaterThen) ==> a.spec_precedence()
            > b.spec_precedence(),
        a.spec_associativity() == OperatorAssociativity::Left,
{
}

} // verus!
