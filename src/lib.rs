//! A thin abstraction over polymorphic environments.
//!
//! A container (an environment, a configuration) declares, once for each
//! component type that it exposes, that it can lend a read-only reference to
//! that component. Code that only needs some of the components is then written
//! against `C: Has<A> + Has<B>` rather than against a concrete container.
//!
//! Each declaration names, in `component`, the value that it lends; every
//! accessor of this crate is proved to hand back a reference to a value equal
//! to that one. That the reference borrows from the container, rather than
//! from a copy, is what the signatures say: the result lives as long as the
//! container reference that was passed in.
use vstd::prelude::*;

pub mod env;

verus! {

/// A representation of a type which can give access to some `Component`.
pub trait Has<Component> {
    /// The component that `self` lends out: the field designated for it.
    spec fn component(&self) -> Component;

    /// Borrows read-only access to a component of the parent container.
    fn access(&self) -> (r: &Component)
        ensures
            *r == self.component(),
    ;
}

/// Accesses a component from its container via a turbofish-friendly syntax.
pub fn access_from<Component, Container>(container: &Container) -> (r: &Component) where
    Container: Has<Component>,
    ensures
        *r == <Container as Has<Component>>::component(container),
{
    container.access()
}

/// Helper to give access to a component via a turbofish-friendly, infix syntax.
///
/// It holds no data: it only carries the component type.
#[derive(Debug)]
pub struct Accessor<Component>(std::marker::PhantomData<Component>);

impl<Component> Accessor<Component> {
    /// Accesses a component from its container.
    ///
    /// This simply delegates to the trait's method, for those who prefer a
    /// turbofish to annotate types, combined with an infix notation.
    pub fn from<'c, Container>(&self, container: &'c Container) -> (r: &'c Component) where
        Container: Has<Component>,
        ensures
            *r == <Container as Has<Component>>::component(container),
    {
        container.access()
    }
}

/// The one proxy for `Component`: it carries no state, so every proxy for a
/// given component type is this value.
pub closed spec fn proxy<Component>() -> Accessor<Component> {
    Accessor(std::marker::PhantomData)
}

/// Constructs a proxy from which one may access a component from its container
/// via a turbofish-friendly, infix syntax.
pub fn access<Component>() -> (r: Accessor<Component>)
    ensures
        r == proxy::<Component>(),
{
    Accessor(std::marker::PhantomData)
}

} // verus!
