//! Registry of helper services.

use vstd::prelude::*;

verus! {

/// A helper service known to the agent core.
#[derive(Debug, Clone)]
pub struct ServiceDescriptor {
    pub name: String,
    pub version: String,
    pub ipc_endpoint: String,
}

/// The helper services registered so far, in order of registration.
#[derive(Debug)]
pub struct ServiceRegistry {
    services: Vec<ServiceDescriptor>,
}

impl View for ServiceRegistry {
    type V = Seq<ServiceDescriptor>;

    closed spec fn view(&self) -> Seq<ServiceDescriptor> {
        self.services@
    }
}

impl ServiceRegistry {
    pub fn new() -> (r: Self)
        ensures
            r@ == Seq::<ServiceDescriptor>::empty(),
    {
        ServiceRegistry { services: Vec::new() }
    }

    pub fn register(&mut self, descriptor: ServiceDescriptor)
        ensures
            final(self)@ == old(self)@.push(descriptor),
    {
        self.services.push(descriptor);
    }

    pub fn list(&self) -> (r: &[ServiceDescriptor])
        ensures
            r@ == self@,
    {
        self.services.as_slice()
    }
}

impl Default for ServiceRegistry {
    fn default() -> (r: Self)
        ensures
            r@ == Seq::<ServiceDescriptor>::empty(),
    {
        ServiceRegistry::new()
    }
}

} // verus!
