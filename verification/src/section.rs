//! The kinds of section a component binary is made of.

use vstd::prelude::*;

verus! {

/// One kind of section of a component binary. The component keeps, in
/// binary order, one `(count, kind)` entry per section payload it read or
/// was given.
#[derive(Clone, Copy, Debug, PartialEq, Eq, Structural)]
pub enum ComponentSection {
    Module,
    Alias,
    CoreType,
    ComponentType,
    ComponentImport,
    ComponentExport,
    CoreInstance,
    ComponentInstance,
    Canon,
    CustomSection,
    ComponentStartSection,
    Component,
}

} // verus!
