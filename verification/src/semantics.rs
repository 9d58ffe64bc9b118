//! The reduction relation: what one step does to a term and a store.
//!
//! Reduction is innermost and leftmost. Each step rewrites exactly one
//! subterm, the redex, and leaves the rest of the tree as it was.

use vstd::prelude::*;
use crate::term::{Store, Term};

verus! {

/// A term together with the store it is evaluated in.
pub struct Config {
    pub term: Term,
    pub store: Store,
}

/// Whether `v` can be held by a machine integer of the language.
pub open spec fn in_range(v: int) -> bool {
    i64::MIN <= v <= i64::MAX
}

impl Term {
    /// Whether a step from `self` in `store` is defined.
    ///
    /// No step is defined from a normal form, from an arithmetic
    /// operation or a comparison whose operands are normal forms other
    /// than numbers, from an arithmetic operation whose result is out
    /// of range, from a conditional whose condition is a normal form
    /// other than a boolean, or from a variable that `store` does not
    /// bind. A composite term steps where the subterm that is next in
    /// turn does.
    pub open spec fn can_step(self, store: Store) -> bool
        decreases self,
    {
        match self {
            Term::Number(_) | Term::Boolean(_) | Term::DoNothing => false,
            Term::Add(l, r) => if l.reducible() {
                l.can_step(store)
            } else if r.reducible() {
                r.can_step(store)
            } else {
                *l is Number && *r is Number && in_range(l.value() + r.value())
            },
            Term::Multiply(l, r) => if l.reducible() {
                l.can_step(store)
            } else if r.reducible() {
                r.can_step(store)
            } else {
                *l is Number && *r is Number && in_range(l.value() * r.value())
            },
            Term::LessThan(l, r) => if l.reducible() {
                l.can_step(store)
            } else if r.reducible() {
                r.can_step(store)
            } else {
                *l is Number && *r is Number
            },
            Term::Variable(name) => store.contains_key(name),
            Term::Assign(_, e) => e.reducible() ==> e.can_step(store),
            Term::If(c, _, _) => if c.reducible() {
                c.can_step(store)
            } else {
                *c is Boolean
            },
            Term::Sequence(first, _) => !(*first is DoNothing) ==> first.can_step(store),
            Term::While(_, _) => true,
        }
    }

    /// The term and the store after one step from `self` in `store`.
    ///
    /// Where no step is defined (see [`Term::can_step`]) the result
    /// carries no meaning.
    pub open spec fn step(self, store: Store) -> Config
        decreases self,
    {
        match self {
            Term::Add(l, r) => if l.reducible() {
                let after = l.step(store);
                Config { term: Term::Add(Box::new(after.term), r), store: after.store }
            } else if r.reducible() {
                let after = r.step(store);
                Config { term: Term::Add(l, Box::new(after.term)), store: after.store }
            } else {
                Config { term: Term::Number(l.value() + r.value()), store }
            },
            Term::Multiply(l, r) => if l.reducible() {
                let after = l.step(store);
                Config { term: Term::Multiply(Box::new(after.term), r), store: after.store }
            } else if r.reducible() {
                let after = r.step(store);
                Config { term: Term::Multiply(l, Box::new(after.term)), store: after.store }
            } else {
                Config { term: Term::Number(l.value() * r.value()), store }
            },
            Term::LessThan(l, r) => if l.reducible() {
                let after = l.step(store);
                Config { term: Term::LessThan(Box::new(after.term), r), store: after.store }
            } else if r.reducible() {
                let after = r.step(store);
                Config { term: Term::LessThan(l, Box::new(after.term)), store: after.store }
            } else {
                Config { term: Term::Boolean(l.value() < r.value()), store }
            },
            Term::Variable(name) => Config { term: store[name], store },
            Term::Assign(name, e) => if e.reducible() {
                let after = e.step(store);
                Config { term: Term::Assign(name, Box::new(after.term)), store: after.store }
            } else {
                Config { term: Term::DoNothing, store: store.insert(name, *e) }
            },
            Term::If(c, t, e) => if c.reducible() {
                let after = c.step(store);
                Config { term: Term::If(Box::new(after.term), t, e), store: after.store }
            } else if c.condition() {
                Config { term: *t, store }
            } else {
                Config { term: *e, store }
            },
            Term::Sequence(first, second) => if *first is DoNothing {
                Config { term: *second, store }
            } else {
                let after = first.step(store);
                Config { term: Term::Sequence(Box::new(after.term), second), store: after.store }
            },
            Term::While(c, body) => Config {
                term: Term::If(
                    c,
                    Box::new(Term::Sequence(body, Box::new(self))),
                    Box::new(Term::DoNothing),
                ),
                store,
            },
            Term::Number(_) | Term::Boolean(_) | Term::DoNothing => Config { term: self, store },
        }
    }

    /// The subterm that the next step rewrites: the term itself, unless
    /// an operand of it has to be reduced first, and then the redex of
    /// the leftmost such operand.
    pub open spec fn redex(self) -> Term
        decreases self,
    {
        match self {
            Term::Add(l, r) | Term::Multiply(l, r) | Term::LessThan(l, r) => if l.reducible() {
                l.redex()
            } else if r.reducible() {
                r.redex()
            } else {
                self
            },
            Term::Assign(_, e) => if e.reducible() {
                e.redex()
            } else {
                self
            },
            Term::If(c, _, _) => if c.reducible() {
                c.redex()
            } else {
                self
            },
            Term::Sequence(first, _) => if *first is DoNothing {
                self
            } else {
                first.redex()
            },
            _ => self,
        }
    }

    /// The term with `new` in the place of its redex.
    pub open spec fn with_redex(self, new: Term) -> Term
        decreases self,
    {
        match self {
            Term::Add(l, r) => if l.reducible() {
                Term::Add(Box::new(l.with_redex(new)), r)
            } else if r.reducible() {
                Term::Add(l, Box::new(r.with_redex(new)))
            } else {
                new
            },
            Term::Multiply(l, r) => if l.reducible() {
                Term::Multiply(Box::new(l.with_redex(new)), r)
            } else if r.reducible() {
                Term::Multiply(l, Box::new(r.with_redex(new)))
            } else {
                new
            },
            Term::LessThan(l, r) => if l.reducible() {
                Term::LessThan(Box::new(l.with_redex(new)), r)
            } else if r.reducible() {
                Term::LessThan(l, Box::new(r.with_redex(new)))
            } else {
                new
            },
            Term::Assign(name, e) => if e.reducible() {
                Term::Assign(name, Box::new(e.with_redex(new)))
            } else {
                new
            },
            Term::If(c, t, e) => if c.reducible() {
                Term::If(Box::new(c.with_redex(new)), t, e)
            } else {
                new
            },
            Term::Sequence(first, second) => if *first is DoNothing {
                new
            } else {
                Term::Sequence(Box::new(first.with_redex(new)), second)
            },
            _ => new,
        }
    }
}

/// A step is defined from reducible terms only: normal forms are final.
pub proof fn lemma_normal_forms_are_final(t: Term, store: Store)
    ensures
        t.can_step(store) ==> t.reducible(),
{
}

/// A step is a step of the redex, taken in place: it is defined where
/// the step from the redex is, it changes the store as that step does,
/// and the term after it is the term before it with the redex replaced
/// by what the redex steps to. Nothing else in the tree changes.
pub proof fn lemma_step_rewrites_the_redex(t: Term, store: Store)
    ensures
        t.can_step(store) == t.redex().can_step(store),
        t.step(store).term == t.with_redex(t.redex().step(store).term),
        t.step(store).store == t.redex().step(store).store,
    decreases t,
{
    match t {
        Term::Add(l, r) | Term::Multiply(l, r) | Term::LessThan(l, r) => {
            if l.reducible() {
                lemma_step_rewrites_the_redex(*l, store);
            } else if r.reducible() {
                lemma_step_rewrites_the_redex(*r, store);
            }
        },
        Term::Assign(_, e) => {
            if e.reducible() {
                lemma_step_rewrites_the_redex(*e, store);
            }
        },
        Term::If(c, _, _) => {
            if c.reducible() {
                lemma_step_rewrites_the_redex(*c, store);
            }
        },
        Term::Sequence(first, _) => {
            if !(*first is DoNothing) {
                lemma_step_rewrites_the_redex(*first, store);
            }
        },
        _ => {},
    }
}

/// A step touches the store only by assigning: where the redex is an
/// assignment of a normal form, the store after the step is the store
/// before it with that one binding written; in every other case the
/// store is unchanged.
pub proof fn lemma_only_assignment_writes(t: Term, store: Store)
    ensures
        match t.redex() {
            Term::Assign(name, v) => {
                &&& !v.reducible()
                &&& t.step(store).store == store.insert(name, *v)
            },
            _ => t.step(store).store == store,
        },
    decreases t,
{
    match t {
        Term::Add(l, r) | Term::Multiply(l, r) | Term::LessThan(l, r) => {
            if l.reducible() {
                lemma_only_assignment_writes(*l, store);
            } else if r.reducible() {
                lemma_only_assignment_writes(*r, store);
            }
        },
        Term::Assign(_, e) => {
            if e.reducible() {
                lemma_only_assignment_writes(*e, store);
            }
        },
        Term::If(c, _, _) => {
            if c.reducible() {
                lemma_only_assignment_writes(*c, store);
            }
        },
        Term::Sequence(first, _) => {
            if !(*first is DoNothing) {
                lemma_only_assignment_writes(*first, store);
            }
        },
        _ => {},
    }
}

} // verus!
