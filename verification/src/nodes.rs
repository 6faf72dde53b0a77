//! Containers for the component-level item lists whose kind decides the
//! index space of each item: aliases, canonical functions and component
//! types.

use vstd::prelude::*;
use crate::items::{CanonicalFunction, ComponentAlias, ComponentType};

verus! {

/// The aliases of a component, in order.
#[derive(Debug)]
pub struct Aliases {
    pub items: Vec<ComponentAlias>,
}

impl Aliases {
    /// Aliases holding `items`.
    pub fn new(items: Vec<ComponentAlias>) -> (r: Self)
        ensures
            r.items@ == items@,
    {
        Self { items }
    }

    /// Appends an alias and returns its position.
    pub(crate) fn add(&mut self, alias: ComponentAlias) -> (r: usize)
        ensures
            r == old(self).items@.len(),
            final(self).items@ == old(self).items@.push(alias),
    {
        let idx = self.items.len();
        self.items.push(alias);
        idx
    }
}

/// The canonical functions of a component, in order.
#[derive(Debug)]
pub struct Canons {
    pub items: Vec<CanonicalFunction>,
}

impl Canons {
    /// Canonical functions holding `items`.
    pub fn new(items: Vec<CanonicalFunction>) -> (r: Self)
        ensures
            r.items@ == items@,
    {
        Self { items }
    }

    /// Appends a canonical function and returns its position.
    pub(crate) fn add(&mut self, canon: CanonicalFunction) -> (r: usize)
        ensures
            r == old(self).items@.len(),
            final(self).items@ == old(self).items@.push(canon),
    {
        let idx = self.items.len();
        self.items.push(canon);
        idx
    }
}

/// The component types of a component, in order.
#[derive(Debug)]
pub struct ComponentTypes {
    pub items: Vec<ComponentType>,
}

impl ComponentTypes {
    /// Component types holding `items`.
    pub fn new(items: Vec<ComponentType>) -> (r: Self)
        ensures
            r.items@ == items@,
    {
        Self { items }
    }

    /// Appends a component type and returns its position.
    pub(crate) fn add(&mut self, ty: ComponentType) -> (r: usize)
        ensures
            r == old(self).items@.len(),
            final(self).items@ == old(self).items@.push(ty),
    {
        let idx = self.items.len();
        self.items.push(ty);
        idx
    }
}

} // verus!
