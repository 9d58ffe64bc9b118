//! The driver: repeated reduction of a program to a normal form.

use vstd::prelude::*;
use crate::environment::Environment;
use crate::node::Node;
use crate::term::{Store, Term};

verus! {

/// Why a run came to an end.
#[derive(Clone, Copy, Debug, PartialEq, Eq, Structural)]
pub enum Halt {
    /// The program reached a normal form.
    Finished,
    /// The program is reducible, but no step from it is defined.
    Stuck,
    /// The steps granted to the run are used up.
    OutOfSteps,
}

/// A run of the driver, in the model: the texts emitted, the term and
/// the store that it ended with, and why it ended.
pub struct Run {
    pub trace: Seq<Seq<char>>,
    pub term: Term,
    pub store: Store,
    pub halt: Halt,
}

impl Run {
    /// The run that emits `trace` first and then goes on as `self`.
    pub open spec fn after(self, trace: Seq<Seq<char>>) -> Run {
        Run { trace: trace + self.trace, ..self }
    }
}

/// The run of `term` in `store` that takes at most `steps` steps.
///
/// The driver emits the text of each term it comes to and then steps
/// from it. It emits the text of a normal form and ends there. It also
/// emits the text of a term from which no step is defined, and ends
/// there with `Halt::Stuck`. With no steps left it ends before it
/// emits anything for the term it has come to.
pub open spec fn drive(term: Term, store: Store, steps: nat) -> Run
    decreases steps,
{
    if !term.reducible() {
        Run { trace: seq![term.rendering()], term, store, halt: Halt::Finished }
    } else if !term.can_step(store) {
        Run { trace: seq![term.rendering()], term, store, halt: Halt::Stuck }
    } else if steps == 0 {
        Run { trace: seq![], term, store, halt: Halt::OutOfSteps }
    } else {
        let next = term.step(store);
        drive(next.term, next.store, (steps - 1) as nat).after(seq![term.rendering()])
    }
}

/// A run ends in a normal form, or in a reducible term from which no
/// step is defined, or, with its steps used up, in a term that could
/// step once more; and its verdict says which.
pub proof fn lemma_halt_tells_the_end(term: Term, store: Store, steps: nat)
    ensures
        ({
            let run = drive(term, store, steps);
            match run.halt {
                Halt::Finished => !run.term.reducible(),
                Halt::Stuck => run.term.reducible() && !run.term.can_step(run.store),
                Halt::OutOfSteps => run.term.can_step(run.store),
            }
        }),
    decreases steps,
{
    if term.reducible() && term.can_step(store) && steps > 0 {
        let next = term.step(store);
        lemma_halt_tells_the_end(next.term, next.store, (steps - 1) as nat);
    }
}

/// A run may be taken in two parts: the run with `first + second`
/// steps is the run with `first` steps, followed, where that one ran
/// out of steps, by the run with `second` steps from where it ended.
pub proof fn lemma_run_resumes(term: Term, store: Store, first: nat, second: nat)
    ensures
        ({
            let begun = drive(term, store, first);
            drive(term, store, first + second) == if begun.halt is OutOfSteps {
                drive(begun.term, begun.store, second).after(begun.trace)
            } else {
                begun
            }
        }),
    decreases first,
{
    if !term.reducible() || !term.can_step(store) {
    } else if first == 0 {
        let resumed = drive(term, store, second);
        assert(resumed.after(seq![]).trace =~= resumed.trace);
    } else {
        let next = term.step(store);
        let text = seq![term.rendering()];
        lemma_run_resumes(next.term, next.store, (first - 1) as nat, second);
        let begun = drive(next.term, next.store, (first - 1) as nat);
        assert(drive(term, store, first) == begun.after(text));
        assert(drive(term, store, first + second) == drive(
            next.term,
            next.store,
            (first + second - 1) as nat,
        ).after(text));
        if begun.halt is OutOfSteps {
            let resumed = drive(begun.term, begun.store, second);
            assert(resumed.after(begun.trace).after(text).trace =~= resumed.after(
                begun.after(text).trace,
            ).trace);
        }
    }
}

/// What a run of the machine hands back.
#[derive(Debug)]
pub struct Outcome {
    /// The texts emitted, in order.
    pub trace: Vec<String>,
    /// The node that the run ended with.
    pub node: Node,
    /// Why the run ended.
    pub halt: Halt,
}

impl Outcome {
    /// The run that the outcome reports, where it left `store` behind.
    pub open spec fn as_run(self, store: Store) -> Run {
        Run { trace: self.trace.deep_view(), term: self.node@, store, halt: self.halt }
    }
}

/// A machine holds the program that it is to run.
pub struct Machine {
    pub expression: Node,
}

impl Machine {
    /// A machine for `expression`.
    pub fn new(expression: Node) -> (machine: Machine)
        ensures
            machine.expression == expression,
    {
        Machine { expression }
    }

    /// Runs the program in `environment` for at most `max_steps` steps
    /// and hands back what the run emitted and where it ended. The
    /// machine keeps its program; `environment` holds the store that
    /// the run ended with.
    pub fn run(&self, environment: &mut Environment, max_steps: u64) -> (outcome: Outcome)
        ensures
            outcome.as_run(final(environment)@) == drive(
                self.expression@,
                old(environment)@,
                max_steps as nat,
            ),
    {
        let ghost whole = drive(self.expression@, environment@, max_steps as nat);
        let mut node = self.expression.clone();
        let mut trace: Vec<String> = Vec::new();
        let mut left = max_steps;
        assert(trace.deep_view() =~= Seq::<Seq<char>>::empty());
        assert(whole.after(trace.deep_view()).trace =~= whole.trace);
        loop
            invariant
                whole == drive(self.expression@, old(environment)@, max_steps as nat),
                whole == drive(node@, environment@, left as nat).after(trace.deep_view()),
            decreases left,
        {
            let ghost emitted = trace.deep_view();
            let ghost rest = drive(node@, environment@, left as nat);
            if !node.reducable() {
                trace.push(node.to_string());
                assert(trace.deep_view() =~= emitted + rest.trace);
                return Outcome { trace, node, halt: Halt::Finished };
            }
            if !node.can_reduce(environment) {
                trace.push(node.to_string());
                assert(trace.deep_view() =~= emitted + rest.trace);
                return Outcome { trace, node, halt: Halt::Stuck };
            }
            if left == 0 {
                assert(trace.deep_view() =~= emitted + rest.trace);
                return Outcome { trace, node, halt: Halt::OutOfSteps };
            }
            trace.push(node.to_string());
            let ghost text = seq![node@.rendering()];
            assert(trace.deep_view() =~= emitted + text);
            let next = node.reduce(environment);
            node = *next;
            left = left - 1;
            proof {
                let tail = drive(node@, environment@, left as nat);
                assert(rest == tail.after(text));
                assert(tail.after(text).after(emitted).trace =~= tail.after(emitted + text).trace);
            }
        }
    }
}

} // verus!
