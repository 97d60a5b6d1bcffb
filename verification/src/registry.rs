//! Services that are created when they are first asked for, and shared from then on.
use crate::actor::Addr;
use crate::type_map::TypeMap;
use std::any::TypeId;
use vstd::prelude::*;

verus! {

/// Why a service could not be had.
#[derive(Debug, Clone, Copy, PartialEq, Eq, Structural)]
pub enum RegistryError {
    /// The registry that would have given the service is no more.
    RegistryGone,
}

impl RegistryError {
    /// The error in words.
    pub fn message(&self) -> (text: &'static str)
        ensures
            text@ == "registry gone"@,
    {
        match self {
            RegistryError::RegistryGone => "registry gone",
        }
    }
}

/// The containers of the services that have been created, by the type of the service, with the
/// data that services are created from.
#[derive(Debug)]
pub struct Registry<D, C> {
    data: D,
    map: TypeMap<C>,
}

/// A registry as a service sees it that is being created.
pub type RegistryRef<D, C> = Registry<D, C>;

impl<D, C> Registry<D, C> {
    /// The data that services are created from.
    pub closed spec fn view_data(&self) -> D {
        self.data
    }

    /// The containers of the services that have been created.
    pub closed spec fn services(&self) -> Map<TypeId, C> {
        self.map@
    }

    /// A registry without a service, with the default data.
    pub fn new() -> (registry: Self) where D: Default
        ensures
            D::default.ensures((), registry.view_data()),
            registry.services() == Map::<TypeId, C>::empty(),
    {
        Self::with_data(D::default())
    }

    /// A registry without a service.
    pub fn with_data(data: D) -> (registry: Self)
        ensures
            registry.view_data() == data,
            registry.services() == Map::<TypeId, C>::empty(),
    {
        Registry { data, map: TypeMap::new() }
    }

    /// The data that services are created from.
    pub fn data(&self) -> (data: &D)
        ensures
            *data == self.view_data(),
    {
        &self.data
    }

    /// A service that is resolved when it is first needed, from the registry that `registry` leads
    /// to.
    pub fn deferred<S, I, R>(&self, registry: R) -> (deferred: Deferred<S, I, R>)
        ensures
            deferred.registry() == registry,
            deferred.resolved() is None,
    {
        Deferred::new(registry)
    }

    /// The container of a service. If there is none, the service is to be created and
    /// [`Registry::created`] to be told what came of that.
    pub fn resolve(&self, service: &TypeId) -> (container: Option<&C>)
        ensures
            match container {
                Some(container) => self.services().dom().contains(*service)
                    && self.services()[*service] == *container,
                None => !self.services().dom().contains(*service),
            },
            container is Some ==> forall|candidate: Option<C>| #[trigger]
                after_request(self.services(), *service, candidate) == self.services(),
            self.services() == services_after(self.services(), RegistryStep::Asked(*service)),
    {
        self.map.get(service)
    }

    /// Goes on once the creation of a service has ended: keeps its container, or passes on why
    /// there is none.
    pub fn created<E>(
        &mut self,
        service: TypeId,
        created: std::result::Result<C, E>,
    ) -> (result: std::result::Result<(), E>)
        ensures
            final(self).view_data() == old(self).view_data(),
            match created {
                Ok(container) => result is Ok && final(self).services() == old(
                    self,
                ).services().insert(service, container),
                Err(error) => result == Err::<(), E>(error) && final(self).services() == old(
                    self,
                ).services(),
            },
            !old(self).services().dom().contains(service) ==> final(self).services()
                == after_request(old(self).services(), service, outcome(created)),
            final(self).services() == services_after(
                old(self).services(),
                RegistryStep::Created(service, outcome(created)),
            ),
    {
        match created {
            Ok(container) => {
                self.map.insert(service, container);
                Ok(())
            },
            Err(error) => Err(error),
        }
    }
}

/// A service that is resolved when it is first needed, with what leads to its registry: a handle
/// that does not keep the registry alive.
#[derive(Debug)]
#[verifier::reject_recursive_types(S)]
#[verifier::reject_recursive_types(I)]
pub struct Deferred<S, I, R> {
    registry: R,
    resolved: Option<Addr<S, I>>,
}

/// What resolving a deferred service takes.
#[verifier::reject_recursive_types(S)]
#[verifier::reject_recursive_types(I)]
pub enum Resolving<'a, S, I, R> {
    /// Nothing more: this is the service.
    Resolved(Addr<S, I>),
    /// The registry is to be asked for the service, if it is still there.
    Ask(&'a R),
}

/// What resolving a deferred service takes: nothing if it has been resolved before, and its
/// registry otherwise.
pub open spec fn resolving<'a, S, I, R>(
    resolved: Option<Addr<S, I>>,
    registry: &'a R,
) -> Resolving<'a, S, I, R> {
    match resolved {
        Some(addr) => Resolving::Resolved(addr),
        None => Resolving::Ask(registry),
    }
}

/// The registry to ask, or that it is gone.
pub fn reached<A>(registry: Option<A>) -> (result: std::result::Result<A, RegistryError>)
    ensures
        result == match registry {
            Some(registry) => Ok(registry),
            None => Err(RegistryError::RegistryGone),
        },
{
    match registry {
        Some(registry) => Ok(registry),
        None => Err(RegistryError::RegistryGone),
    }
}

impl<S, I, R> Deferred<S, I, R> {
    /// The service, if it has been resolved.
    pub closed spec fn resolved(&self) -> Option<Addr<S, I>> {
        self.resolved
    }

    /// What leads to the registry.
    pub closed spec fn registry(&self) -> R {
        self.registry
    }

    /// A service that has not been resolved.
    pub fn new(registry: R) -> (deferred: Self)
        ensures
            deferred.registry() == registry,
            deferred.resolved() is None,
    {
        Deferred { registry, resolved: None }
    }

    /// What resolving the service takes. If the registry is to be asked, [`reached`] says whether
    /// it can be, and [`Deferred::asked`] is to be told what it gave.
    pub fn resolve(&self) -> (step: Resolving<'_, S, I, R>)
        ensures
            step == resolving(self.resolved(), &self.registry()),
    {
        match &self.resolved {
            Some(addr) => Resolving::Resolved(addr.clone()),
            None => Resolving::Ask(&self.registry),
        }
    }

    /// Goes on once the registry has been asked: keeps the service, or passes on why there is
    /// none.
    pub fn asked<E>(
        &mut self,
        answer: std::result::Result<Addr<S, I>, E>,
    ) -> (result: std::result::Result<Addr<S, I>, E>)
        ensures
            result == answer,
            final(self).resolved() == match answer {
                Ok(addr) => Some(addr),
                Err(_) => old(self).resolved(),
            },
            final(self).registry() == old(self).registry(),
    {
        match answer {
            Ok(addr) => {
                self.resolved = Some(addr.clone());
                Ok(addr)
            },
            Err(error) => Err(error),
        }
    }
}

impl<S, I, R: Clone> Clone for Deferred<S, I, R> {
    /// The same service, from where a clone of what leads to the registry leads to.
    fn clone(&self) -> (copy: Self)
        ensures
            copy.resolved() == self.resolved(),
            call_ensures(R::clone, (&self.registry(),), copy.registry()),
    {
        let resolved = match &self.resolved {
            Some(addr) => Some(addr.clone()),
            None => None,
        };
        Deferred { registry: self.registry.clone(), resolved }
    }
}

/// The container that a creation gave, if it did.
pub open spec fn outcome<C, E>(created: std::result::Result<C, E>) -> Option<C> {
    match created {
        Ok(container) => Some(container),
        Err(_) => None,
    }
}

/// The services after one has been asked for: if it was not there, `candidate` is what its
/// creation gave.
pub open spec fn after_request<C>(
    services: Map<TypeId, C>,
    service: TypeId,
    candidate: Option<C>,
) -> Map<TypeId, C> {
    if services.dom().contains(service) {
        services
    } else {
        match candidate {
            Some(container) => services.insert(service, container),
            None => services,
        }
    }
}

/// The services after several have been asked for, one after the other.
pub open spec fn after_requests<C>(
    services: Map<TypeId, C>,
    requests: Seq<(TypeId, Option<C>)>,
) -> Map<TypeId, C>
    decreases requests.len(),
{
    if requests.len() == 0 {
        services
    } else {
        let (service, candidate) = requests.last();
        after_request(after_requests(services, requests.drop_last()), service, candidate)
    }
}

/// A service is created once: whatever is asked for after it is there, it stays there, the same.
pub proof fn law_service_is_created_once<C>(
    services: Map<TypeId, C>,
    requests: Seq<(TypeId, Option<C>)>,
    service: TypeId,
)
    requires
        services.dom().contains(service),
    ensures
        after_requests(services, requests).dom().contains(service),
        after_requests(services, requests)[service] == services[service],
    decreases requests.len(),
{
    if requests.len() > 0 {
        law_service_is_created_once(services, requests.drop_last(), service);
    }
}

/// Asking for a service gives the one that is there, or else the one that is created, if it could
/// be; and leaves the others as they are.
pub proof fn law_request_concerns_its_service<C>(
    services: Map<TypeId, C>,
    service: TypeId,
    candidate: Option<C>,
    other: TypeId,
)
    requires
        other != service,
    ensures
        services.dom().contains(service) ==> after_request(services, service, candidate)
            == services,
        !services.dom().contains(service) ==> match candidate {
            Some(container) => {
                &&& after_request(services, service, candidate).dom().contains(service)
                &&& after_request(services, service, candidate)[service] == container
            },
            None => after_request(services, service, candidate) == services,
        },
        after_request(services, service, candidate).dom().contains(other)
            == services.dom().contains(other),
        services.dom().contains(other) ==> after_request(services, service, candidate)[other]
            == services[other],
{
}

/// One thing that is done with a registry.
pub enum RegistryStep<C> {
    /// It is asked for a service, which is then created if it is not there.
    Asked(TypeId),
    /// The creation of a service has ended, with its container if there is one.
    Created(TypeId, Option<C>),
}

/// The services after a step.
pub open spec fn services_after<C>(services: Map<TypeId, C>, step: RegistryStep<C>) -> Map<
    TypeId,
    C,
> {
    match step {
        RegistryStep::Created(service, Some(container)) => services.insert(service, container),
        _ => services,
    }
}

/// The services after steps that begin with an empty registry, and those that are being created
/// then; nothing if a service was asked for while it was being created, or created without having
/// been asked for. Steps of several requests may be mixed, as they are when the creation of a
/// service asks for others. Requests that wait for each other never ask for a service while it is
/// being created, unless its own creation does.
pub open spec fn registry_run<C>(steps: Seq<RegistryStep<C>>) -> Option<
    (Map<TypeId, C>, Set<TypeId>),
>
    decreases steps.len(),
{
    if steps.len() == 0 {
        Some((Map::empty(), Set::empty()))
    } else {
        match registry_run(steps.drop_last()) {
            Some((services, creating)) => {
                let next = services_after(services, steps.last());
                match steps.last() {
                    RegistryStep::Asked(service) => if creating.contains(service) {
                        None
                    } else if services.dom().contains(service) {
                        Some((next, creating))
                    } else {
                        Some((next, creating.insert(service)))
                    },
                    RegistryStep::Created(service, _) => if creating.contains(service) {
                        Some((next, creating.remove(service)))
                    } else {
                        None
                    },
                }
            },
            None => None,
        }
    }
}

/// No service that is there is being created.
proof fn lemma_created_or_being_created<C>(steps: Seq<RegistryStep<C>>)
    requires
        registry_run(steps) is Some,
    ensures
        ({
            let (services, creating) = registry_run(steps).unwrap();
            forall|service: TypeId| #[trigger]
                creating.contains(service) ==> !services.dom().contains(service)
        }),
    decreases steps.len(),
{
    if steps.len() > 0 {
        lemma_created_or_being_created(steps.drop_last());
    }
}

/// A beginning of the steps can be done too.
proof fn lemma_registry_prefix<C>(steps: Seq<RegistryStep<C>>, n: int)
    requires
        registry_run(steps) is Some,
        0 <= n <= steps.len(),
    ensures
        registry_run(steps.take(n)) is Some,
    decreases steps.len(),
{
    if n == steps.len() {
        assert(steps.take(n) =~= steps);
    } else {
        lemma_registry_prefix(steps.drop_last(), n);
        assert(steps.drop_last().take(n) =~= steps.take(n));
    }
}

/// A service that is there stays there, the same, whatever is done after that, requests mixed with
/// one another included. So all who are given the service are given the same one.
pub proof fn law_service_stays_the_same<C>(
    steps: Seq<RegistryStep<C>>,
    n: int,
    service: TypeId,
)
    requires
        registry_run(steps) is Some,
        0 <= n <= steps.len(),
        registry_run(steps.take(n)).unwrap().0.dom().contains(service),
    ensures
        registry_run(steps).unwrap().0.dom().contains(service),
        registry_run(steps).unwrap().0[service] == registry_run(steps.take(n)).unwrap().0[service],
    decreases steps.len(),
{
    if n == steps.len() {
        assert(steps.take(n) =~= steps);
    } else {
        let before = steps.drop_last();
        assert(before.take(n) =~= steps.take(n));
        law_service_stays_the_same(before, n, service);
        lemma_created_or_being_created(before);
    }
}

/// The creation of a service succeeds once at most, requests mixed with one another included.
pub proof fn law_creation_succeeds_once<C>(
    steps: Seq<RegistryStep<C>>,
    i: int,
    j: int,
    service: TypeId,
)
    requires
        registry_run(steps) is Some,
        0 <= i < j < steps.len(),
        steps[i] matches RegistryStep::Created(first, Some(_)) && first == service,
    ensures
        !(steps[j] matches RegistryStep::Created(second, Some(_)) && second == service),
{
    lemma_registry_prefix(steps, i + 1);
    assert(steps.take(i + 1).drop_last() =~= steps.take(i));
    assert(steps.take(i + 1).last() == steps[i]);
    lemma_registry_prefix(steps, i);
    assert(registry_run(steps.take(i + 1)).unwrap().0.dom().contains(service));
    lemma_registry_prefix(steps, j);
    assert(steps.take(j).take(i + 1) =~= steps.take(i + 1));
    law_service_stays_the_same(steps.take(j), i + 1, service);
    lemma_created_or_being_created(steps.take(j));
    lemma_registry_prefix(steps, j + 1);
    assert(steps.take(j + 1).drop_last() =~= steps.take(j));
    assert(steps.take(j + 1).last() == steps[j]);
}

/// The services change only when a creation gives a container, and then by that one service; a
/// request changes nothing.
pub proof fn law_step_changes_one_service<C>(
    services: Map<TypeId, C>,
    service: TypeId,
    container: C,
    other: TypeId,
)
    ensures
        services_after(services, RegistryStep::Asked(service)) == services,
        services_after(services, RegistryStep::Created(service, None)) == services,
        ({
            let after = services_after(services, RegistryStep::Created(service, Some(container)));
            &&& after.dom().contains(service)
            &&& after[service] == container
            &&& other != service ==> {
                &&& after.dom().contains(other) == services.dom().contains(other)
                &&& services.dom().contains(other) ==> after[other] == services[other]
            }
        }),
{
}

/// A creation gives a container exactly when it succeeds, and that very one.
pub proof fn law_outcome_is_what_was_created<C, E>(
    created: std::result::Result<C, E>,
    container: C,
)
    ensures
        outcome(created) == Some(container) <==> created == Ok::<C, E>(container),
        outcome(created) is None <==> created is Err,
{
}

/// A deferred service asks its own registry until it has been resolved.
pub proof fn law_unresolved_asks_its_registry<S, I, R>(registry: R)
    ensures
        resolving(None::<Addr<S, I>>, &registry) == Resolving::<S, I, R>::Ask(&registry),
{
}

/// A deferred service that has been resolved stays so, whether its registry is still there or not:
/// the registry is not asked again.
pub proof fn law_resolved_stays_resolved<S, I, R>(addr: Addr<S, I>, registry: R)
    ensures
        resolving(Some(addr), &registry) == Resolving::<S, I, R>::Resolved(addr),
{
}

} // verus!
