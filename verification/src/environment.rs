//! The variable bindings that reduction reads and writes.

use vstd::prelude::*;
use vstd::hash_map::StringHashMap;
use crate::node::Node;
use crate::term::{Store, Term};

verus! {

/// A mapping from variable names to the nodes bound to them. Each name
/// is bound at most once; binding it again replaces the earlier node.
pub struct Environment {
    bindings: StringHashMap<Node>,
}

impl View for Environment {
    type V = Store;

    /// The store that the environment holds: each bound name with the
    /// term of its node.
    closed spec fn view(&self) -> Store {
        self.bindings@.map_values(|node: Node| node@)
    }
}

impl Environment {
    /// An environment without bindings.
    pub fn new() -> (environment: Environment)
        ensures
            environment@ == Map::<Seq<char>, Term>::empty(),
    {
        let environment = Environment { bindings: StringHashMap::new() };
        assert(environment@ =~= Map::<Seq<char>, Term>::empty());
        environment
    }

    /// Binds `name` to `node`, in place of any node bound to it before.
    pub fn insert(&mut self, name: String, node: Box<Node>)
        ensures
            final(self)@ == old(self)@.insert(name@, node@),
    {
        self.bindings.insert(name, *node);
        assert(self@ =~= old(self)@.insert(name@, node@));
    }

    /// Binds `name` to `node`, as [`Environment::insert`] does.
    pub fn add(&mut self, name: String, node: Box<Node>)
        ensures
            final(self)@ == old(self)@.insert(name@, node@),
    {
        self.insert(name, node);
    }

    /// Whether `name` is bound.
    pub fn contains(&self, name: &str) -> (bound: bool)
        ensures
            bound == self@.contains_key(name@),
    {
        self.bindings.contains_key(name)
    }

    /// A copy of the node bound to `name`.
    pub fn get(&self, name: String) -> (node: Box<Node>)
        requires
            self@.contains_key(name@),
        ensures
            node@ == self@[name@],
    {
        let found = self.bindings.get(name.as_str());
        Box::new(found.unwrap().clone())
    }
}

} // verus!
