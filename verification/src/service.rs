//! A registry of services without data, whose deferred services ask it each time.
use crate::registry::{after_request, outcome, services_after, RegistryStep};
use crate::type_map::TypeMap;
use std::any::TypeId;
use vstd::prelude::*;

verus! {

/// The containers of the services that have been created, by the type of the service.
#[derive(Debug)]
pub struct Registry<C> {
    map: TypeMap<C>,
}

impl<C> Registry<C> {
    /// The containers of the services that have been created.
    pub closed spec fn services(&self) -> Map<TypeId, C> {
        self.map@
    }

    /// A registry without a service.
    pub fn new() -> (registry: Self)
        ensures
            registry.services() == Map::<TypeId, C>::empty(),
    {
        Registry { map: TypeMap::new() }
    }

    /// A service that is resolved when it is needed.
    pub fn deferred(&self, service: TypeId) -> (deferred: Deferred)
        ensures
            deferred.service() == service,
    {
        Deferred::new(service)
    }

    /// The container of a service. If there is none, the service is to be created and
    /// [`Registry::created`] to be told what came of that.
    pub fn resolve(&self, service: &TypeId) -> (container: Option<&C>)
        ensures
            match container {
                Some(container) => self.services().dom().contains(*service)
                    && self.services()[*service] == *container,
                None => !self.services().dom().contains(*service),
            },
            container is Some ==> forall|candidate: Option<C>| #[trigger]
                after_request(self.services(), *service, candidate) == self.services(),
            self.services() == services_after(self.services(), RegistryStep::Asked(*service)),
    {
        self.map.get(service)
    }

    /// Goes on once the creation of a service that was not there has ended: keeps its container,
    /// or passes on why there is none.
    pub fn created<E>(
        &mut self,
        service: TypeId,
        created: std::result::Result<C, E>,
    ) -> (result: std::result::Result<(), E>)
        requires
            !old(self).services().dom().contains(service),
        ensures
            match created {
                Ok(container) => result is Ok && final(self).services() == old(
                    self,
                ).services().insert(service, container),
                Err(error) => result == Err::<(), E>(error) && final(self).services() == old(
                    self,
                ).services(),
            },
            final(self).services() == after_request(
                old(self).services(),
                service,
                outcome(created),
            ),
            final(self).services() == services_after(
                old(self).services(),
                RegistryStep::Created(service, outcome(created)),
            ),
    {
        match created {
            Ok(container) => {
                self.map.insert(service, container);
                Ok(())
            },
            Err(error) => Err(error),
        }
    }
}

/// A service that is resolved when it is needed.
#[derive(Debug)]
pub struct Deferred {
    service: TypeId,
}

impl Deferred {
    /// The type of the service.
    pub closed spec fn service(&self) -> TypeId {
        self.service
    }

    /// A service of this type that is resolved when it is needed.
    pub fn new(service: TypeId) -> (deferred: Deferred)
        ensures
            deferred.service() == service,
    {
        Deferred { service }
    }

    /// The container of the service in the registry that it belongs to, if it has been created.
    pub fn resolve<'a, C>(&self, registry: &'a Registry<C>) -> (container: Option<&'a C>)
        ensures
            match container {
                Some(container) => registry.services().dom().contains(self.service())
                    && registry.services()[self.service()] == *container,
                None => !registry.services().dom().contains(self.service()),
            },
    {
        registry.resolve(&self.service)
    }
}

} // verus!
