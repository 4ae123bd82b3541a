//! The list of observers that crawl events are reported to.

use vstd::prelude::*;

verus! {

/// Registry of the observers that receive crawl events, in registration
/// order.
pub struct ObserverRegistry<O> {
    observers: Vec<O>,
}

impl<O> ObserverRegistry<O> {
    /// The registered observers, in registration order.
    pub closed spec fn spec_observers(&self) -> Seq<O> {
        self.observers@
    }

    /// An empty registry.
    pub fn new() -> (r: Self)
        ensures
            r.spec_observers().len() == 0,
    {
        ObserverRegistry { observers: Vec::new() }
    }

    /// Registers an observer; it receives events after those registered
    /// before it.
    pub fn register(&mut self, observer: O)
        ensures
            final(self).spec_observers() == old(self).spec_observers().push(observer),
    {
        self.observers.push(observer);
    }

    /// The registered observers, in registration order.
    pub fn observers(&self) -> (r: &Vec<O>)
        ensures
            r@ == self.spec_observers(),
    {
        &self.observers
    }
}

impl<O> Default for ObserverRegistry<O> {
    fn default() -> (r: Self)
        ensures
            r.spec_observers().len() == 0,
    {
        Self::new()
    }
}

} // verus!
