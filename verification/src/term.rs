//! The abstract syntax of the language, as a mathematical datatype.

use vstd::prelude::*;

verus! {

/// The abstract syntax tree of a program. Numbers are unbounded here;
/// names are sequences of characters.
pub enum Term {
    /// An integer literal.
    Number(int),
    /// The sum of two operands.
    Add(Box<Term>, Box<Term>),
    /// The product of two operands.
    Multiply(Box<Term>, Box<Term>),
    /// A truth value literal.
    Boolean(bool),
    /// Whether the first operand is less than the second.
    LessThan(Box<Term>, Box<Term>),
    /// A reference to the variable of that name.
    Variable(Seq<char>),
    /// The empty statement.
    DoNothing,
    /// The assignment of an expression's value to the variable of that
    /// name.
    Assign(Seq<char>, Box<Term>),
    /// A conditional: the condition, the consequence, the alternative.
    If(Box<Term>, Box<Term>, Box<Term>),
    /// Two statements, the first to be run before the second.
    Sequence(Box<Term>, Box<Term>),
    /// A loop: the condition and the body.
    While(Box<Term>, Box<Term>),
}

/// The bindings of variable names to terms.
pub type Store = Map<Seq<char>, Term>;

impl Term {
    /// A term is reducible unless it is a number, a boolean or the
    /// empty statement: those three are the normal forms.
    pub open spec fn reducible(self) -> bool {
        !(self is Number || self is Boolean || self is DoNothing)
    }

    /// The integer that a number holds.
    pub open spec fn value(self) -> int
        recommends
            self is Number,
    {
        self->Number_0
    }

    /// The truth value that a boolean holds.
    pub open spec fn condition(self) -> bool
        recommends
            self is Boolean,
    {
        self->Boolean_0
    }
}

/// The normal forms are the numbers, the booleans and the empty
/// statement: of the constructs of the language, those three are
/// irreducible and every other one is reducible, whatever its operands.
pub proof fn lemma_normal_forms(t: Term)
    ensures
        match t {
            Term::Number(_) | Term::Boolean(_) | Term::DoNothing => !t.reducible(),
            Term::Add(_, _)
            | Term::Multiply(_, _)
            | Term::LessThan(_, _)
            | Term::Variable(_)
            | Term::Assign(_, _)
            | Term::If(_, _, _)
            | Term::Sequence(_, _)
            | Term::While(_, _) => t.reducible(),
        },
{
}

} // verus!
