//! The executable syntax tree and the operations on it.

use vstd::prelude::*;
use crate::environment::Environment;
use crate::rendering::decimal_string;
use crate::term::Term;

verus! {

/// A node of a program's syntax tree. A composite node owns its
/// operands, so a tree is never shared and never cyclic.
#[derive(Debug)]
pub enum Node {
    /// An integer literal.
    Number(i64),
    /// The sum of two operands.
    Add(Box<Node>, Box<Node>),
    /// The product of two operands.
    Multiply(Box<Node>, Box<Node>),
    /// A truth value literal.
    Boolean(bool),
    /// Whether the first operand is less than the second.
    LessThan(Box<Node>, Box<Node>),
    /// A reference to the variable of that name.
    Variable(String),
    /// The empty statement.
    DoNothing,
    /// The assignment of an expression's value to the variable of that
    /// name.
    Assign(String, Box<Node>),
    /// A conditional: the condition, the consequence, the alternative.
    If(Box<Node>, Box<Node>, Box<Node>),
    /// Two statements, the first to be run before the second.
    Sequence(Box<Node>, Box<Node>),
    /// A loop: the condition and the body.
    While(Box<Node>, Box<Node>),
}

impl View for Node {
    type V = Term;

    /// The term that the node stands for.
    open spec fn view(&self) -> Term
        decreases self,
    {
        match self {
            Node::Number(v) => Term::Number(*v as int),
            Node::Add(l, r) => Term::Add(Box::new((**l).view()), Box::new((**r).view())),
            Node::Multiply(l, r) => Term::Multiply(
                Box::new((**l).view()),
                Box::new((**r).view()),
            ),
            Node::Boolean(b) => Term::Boolean(*b),
            Node::LessThan(l, r) => Term::LessThan(
                Box::new((**l).view()),
                Box::new((**r).view()),
            ),
            Node::Variable(name) => Term::Variable(name@),
            Node::DoNothing => Term::DoNothing,
            Node::Assign(name, e) => Term::Assign(name@, Box::new((**e).view())),
            Node::If(c, t, e) => Term::If(
                Box::new((**c).view()),
                Box::new((**t).view()),
                Box::new((**e).view()),
            ),
            Node::Sequence(first, second) => Term::Sequence(
                Box::new((**first).view()),
                Box::new((**second).view()),
            ),
            Node::While(c, body) => Term::While(
                Box::new((**c).view()),
                Box::new((**body).view()),
            ),
        }
    }
}

impl Clone for Node {
    /// A deep copy of the tree.
    fn clone(&self) -> (copy: Self)
        ensures
            copy == *self,
        decreases self,
    {
        match self {
            Node::Number(v) => Node::Number(*v),
            Node::Add(l, r) => Node::Add(Box::new((**l).clone()), Box::new((**r).clone())),
            Node::Multiply(l, r) => Node::Multiply(
                Box::new((**l).clone()),
                Box::new((**r).clone()),
            ),
            Node::Boolean(b) => Node::Boolean(*b),
            Node::LessThan(l, r) => Node::LessThan(
                Box::new((**l).clone()),
                Box::new((**r).clone()),
            ),
            Node::Variable(name) => Node::Variable(name.clone()),
            Node::DoNothing => Node::DoNothing,
            Node::Assign(name, e) => Node::Assign(name.clone(), Box::new((**e).clone())),
            Node::If(c, t, e) => Node::If(
                Box::new((**c).clone()),
                Box::new((**t).clone()),
                Box::new((**e).clone()),
            ),
            Node::Sequence(first, second) => Node::Sequence(
                Box::new((**first).clone()),
                Box::new((**second).clone()),
            ),
            Node::While(c, body) => Node::While(
                Box::new((**c).clone()),
                Box::new((**body).clone()),
            ),
        }
    }
}

impl Node {
    /// A number literal.
    pub fn number(value: i64) -> (node: Box<Node>)
        ensures
            node@ == Term::Number(value as int),
    {
        Box::new(Node::Number(value))
    }

    /// The sum of two operands.
    pub fn add(left: Box<Node>, right: Box<Node>) -> (node: Box<Node>)
        ensures
            node@ == Term::Add(Box::new(left@), Box::new(right@)),
    {
        Box::new(Node::Add(left, right))
    }

    /// The product of two operands.
    pub fn multiply(left: Box<Node>, right: Box<Node>) -> (node: Box<Node>)
        ensures
            node@ == Term::Multiply(Box::new(left@), Box::new(right@)),
    {
        Box::new(Node::Multiply(left, right))
    }

    /// A truth value literal.
    pub fn boolean(value: bool) -> (node: Box<Node>)
        ensures
            node@ == Term::Boolean(value),
    {
        Box::new(Node::Boolean(value))
    }

    /// The comparison of two operands.
    pub fn less_than(left: Box<Node>, right: Box<Node>) -> (node: Box<Node>)
        ensures
            node@ == Term::LessThan(Box::new(left@), Box::new(right@)),
    {
        Box::new(Node::LessThan(left, right))
    }

    /// A reference to the variable `name`.
    pub fn variable(name: String) -> (node: Box<Node>)
        ensures
            node@ == Term::Variable(name@),
    {
        Box::new(Node::Variable(name))
    }

    /// The empty statement.
    pub fn do_nothing() -> (node: Box<Node>)
        ensures
            node@ == Term::DoNothing,
    {
        Box::new(Node::DoNothing)
    }

    /// The assignment of `expression` to the variable `name`.
    pub fn assign(name: String, expression: Box<Node>) -> (node: Box<Node>)
        ensures
            node@ == Term::Assign(name@, Box::new(expression@)),
    {
        Box::new(Node::Assign(name, expression))
    }

    /// A conditional with both branches.
    pub fn if_else_cond(condition: Box<Node>, left: Box<Node>, right: Box<Node>) -> (node: Box<
        Node,
    >)
        ensures
            node@ == Term::If(Box::new(condition@), Box::new(left@), Box::new(right@)),
    {
        Box::new(Node::If(condition, left, right))
    }

    /// A conditional without an alternative: the empty statement takes
    /// its place.
    pub fn if_cond(condition: Box<Node>, left: Box<Node>) -> (node: Box<Node>)
        ensures
            node@ == Term::If(Box::new(condition@), Box::new(left@), Box::new(Term::DoNothing)),
    {
        Box::new(Node::If(condition, left, Node::do_nothing()))
    }

    /// Two statements, one after the other.
    pub fn sequence(first: Box<Node>, second: Box<Node>) -> (node: Box<Node>)
        ensures
            node@ == Term::Sequence(Box::new(first@), Box::new(second@)),
    {
        Box::new(Node::Sequence(first, second))
    }

    /// A loop that runs `body` while `cond` holds.
    pub fn while_node(cond: Box<Node>, body: Box<Node>) -> (node: Box<Node>)
        ensures
            node@ == Term::While(Box::new(cond@), Box::new(body@)),
    {
        Box::new(Node::While(cond, body))
    }

    /// Whether a reduction step applies to the node: `false` exactly
    /// for numbers, booleans and the empty statement.
    pub fn reducable(&self) -> (b: bool)
        ensures
            b == self@.reducible(),
    {
        match self {
            Node::Number(_) => false,
            Node::Boolean(_) => false,
            Node::DoNothing => false,
            _ => true,
        }
    }

    /// The truth value of a boolean node.
    pub fn condition(&self) -> (b: bool)
        requires
            self@ is Boolean,
        ensures
            b == self@.condition(),
    {
        match self {
            Node::Boolean(b) => *b,
            _ => unreached(),
        }
    }

    /// The integer of a number node.
    pub fn value(&self) -> (v: i64)
        requires
            self@ is Number,
        ensures
            v == self@.value(),
    {
        match self {
            Node::Number(v) => *v,
            _ => unreached(),
        }
    }

    /// The canonical text of the node.
    pub fn to_string(&self) -> (text: String)
        ensures
            text@ == self@.rendering(),
        decreases self,
    {
        match self {
            Node::Number(v) => decimal_string(*v),
            Node::Add(l, r) => {
                let mut text = l.to_string();
                text.append(" + ");
                text.append(r.to_string().as_str());
                text
            },
            Node::Multiply(l, r) => {
                let mut text = l.to_string();
                text.append(" * ");
                text.append(r.to_string().as_str());
                text
            },
            Node::Boolean(b) => if *b {
                String::from_str("true")
            } else {
                String::from_str("false")
            },
            Node::LessThan(l, r) => {
                let mut text = l.to_string();
                text.append(" < ");
                text.append(r.to_string().as_str());
                text
            },
            Node::Variable(name) => name.clone(),
            Node::DoNothing => String::from_str("do-nothing"),
            Node::Assign(name, e) => {
                let mut text = name.clone();
                text.append(" = ");
                text.append(e.to_string().as_str());
                text
            },
            Node::If(c, t, e) => {
                let mut text = String::from_str("if (");
                text.append(c.to_string().as_str());
                text.append(") ");
                text.append(t.to_string().as_str());
                text.append(" else ");
                text.append(e.to_string().as_str());
                text
            },
            Node::Sequence(first, second) => {
                let mut text = first.to_string();
                text.append("; ");
                text.append(second.to_string().as_str());
                text
            },
            Node::While(c, body) => {
                let mut text = String::from_str("while (");
                text.append(c.to_string().as_str());
                text.append(") ");
                text.append(body.to_string().as_str());
                text
            },
        }
    }

    /// Whether [`Node::reduce`] may be called on the node in
    /// `environment`: whether a step from it is defined there.
    pub fn can_reduce(&self, environment: &Environment) -> (b: bool)
        ensures
            b == self@.can_step(environment@),
        decreases self,
    {
        match self {
            Node::Number(_) => false,
            Node::Boolean(_) => false,
            Node::DoNothing => false,
            Node::Add(l, r) => {
                if l.reducable() {
                    l.can_reduce(environment)
                } else if r.reducable() {
                    r.can_reduce(environment)
                } else {
                    assert(l@ is Number <==> **l is Number);
                    assert(r@ is Number <==> **r is Number);
                    match (&**l, &**r) {
                        (Node::Number(a), Node::Number(b)) => a.checked_add(*b).is_some(),
                        _ => false,
                    }
                }
            },
            Node::Multiply(l, r) => {
                if l.reducable() {
                    l.can_reduce(environment)
                } else if r.reducable() {
                    r.can_reduce(environment)
                } else {
                    assert(l@ is Number <==> **l is Number);
                    assert(r@ is Number <==> **r is Number);
                    match (&**l, &**r) {
                        (Node::Number(a), Node::Number(b)) => a.checked_mul(*b).is_some(),
                        _ => false,
                    }
                }
            },
            Node::LessThan(l, r) => {
                if l.reducable() {
                    l.can_reduce(environment)
                } else if r.reducable() {
                    r.can_reduce(environment)
                } else {
                    assert(l@ is Number <==> **l is Number);
                    assert(r@ is Number <==> **r is Number);
                    match (&**l, &**r) {
                        (Node::Number(_), Node::Number(_)) => true,
                        _ => false,
                    }
                }
            },
            Node::Variable(name) => environment.contains(name.as_str()),
            Node::Assign(_, e) => !e.reducable() || e.can_reduce(environment),
            Node::If(c, _, _) => {
                if c.reducable() {
                    c.can_reduce(environment)
                } else {
                    assert(c@ is Boolean <==> **c is Boolean);
                    match &**c {
                        Node::Boolean(_) => true,
                        _ => false,
                    }
                }
            },
            Node::Sequence(first, _) => {
                assert(first@ is DoNothing <==> **first is DoNothing);
                match &**first {
                    Node::DoNothing => true,
                    _ => first.can_reduce(environment),
                }
            },
            Node::While(_, _) => true,
        }
    }

    /// One reduction step: the leftmost innermost redex of the tree is
    /// rewritten, and the tree that results is returned. The node
    /// itself is left as it was; `environment` changes only where the
    /// step assigns.
    ///
    /// The step must be defined, which [`Node::can_reduce`] tests.
    pub fn reduce(&self, environment: &mut Environment) -> (node: Box<Node>)
        requires
            self@.can_step(old(environment)@),
        ensures
            node@ == self@.step(old(environment)@).term,
            final(environment)@ == self@.step(old(environment)@).store,
        decreases self,
    {
        match self {
            Node::Add(l, r) => {
                if l.reducable() {
                    Node::add(l.reduce(environment), r.clone())
                } else if r.reducable() {
                    Node::add(l.clone(), r.reduce(environment))
                } else {
                    Node::number(l.value() + r.value())
                }
            },
            Node::Multiply(l, r) => {
                if l.reducable() {
                    Node::multiply(l.reduce(environment), r.clone())
                } else if r.reducable() {
                    Node::multiply(l.clone(), r.reduce(environment))
                } else {
                    Node::number(l.value() * r.value())
                }
            },
            Node::LessThan(l, r) => {
                if l.reducable() {
                    Node::less_than(l.reduce(environment), r.clone())
                } else if r.reducable() {
                    Node::less_than(l.clone(), r.reduce(environment))
                } else {
                    Node::boolean(l.value() < r.value())
                }
            },
            Node::Variable(name) => environment.get(name.clone()),
            Node::Assign(name, expression) => {
                if expression.reducable() {
                    Node::assign(name.clone(), expression.reduce(environment))
                } else {
                    environment.insert(name.clone(), expression.clone());
                    Node::do_nothing()
                }
            },
            Node::If(condition, l, r) => {
                if condition.reducable() {
                    Node::if_else_cond(condition.reduce(environment), l.clone(), r.clone())
                } else if condition.condition() {
                    l.clone()
                } else {
                    r.clone()
                }
            },
            Node::Sequence(first, second) => {
                assert(first@ is DoNothing <==> **first is DoNothing);
                match **first {
                    Node::DoNothing => second.clone(),
                    _ => Node::sequence(first.reduce(environment), second.clone()),
                }
            },
            Node::While(cond, body) => {
                Node::if_else_cond(
                    cond.clone(),
                    Node::sequence(body.clone(), Box::new(self.clone())),
                    Node::do_nothing(),
                )
            },
            _ => unreached(),
        }
    }
}

} // verus!
