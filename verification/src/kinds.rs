//! The kinds of external item, alias and type reference a component binary
//! names, and the index space each of them takes a place in.

use vstd::prelude::*;
use crate::idx_spaces::{IndexSpaceOf, Space};

verus! {

/// The kind of item a component import, export or instance export names.
#[derive(Clone, Copy, Debug, PartialEq, Eq, Structural)]
pub enum CompExternKind {
    Module,
    Func,
    Value,
    Type,
    Instance,
    Component,
}

/// The kind of item a core instance exports.
#[derive(Clone, Copy, Debug, PartialEq, Eq, Structural)]
pub enum CoreExternKind {
    Func,
    Table,
    Memory,
    Global,
    Tag,
    FuncExact,
}

/// The kind of item an outer alias names.
#[derive(Clone, Copy, Debug, PartialEq, Eq, Structural)]
pub enum OuterAliasKind {
    CoreModule,
    CoreType,
    Type,
    Component,
}

/// The kind of item an outer alias inside a core module type names.
#[derive(Clone, Copy, Debug, PartialEq, Eq, Structural)]
pub enum CoreOuterAliasKind {
    Type,
}

/// The kind of argument a core instantiation takes.
#[derive(Clone, Copy, Debug, PartialEq, Eq, Structural)]
pub enum InstantiationArgKind {
    Instance,
}

impl IndexSpaceOf for CompExternKind {
    open spec fn space_of(&self) -> Space {
        match self {
            CompExternKind::Func => Space::CompFunc,
            CompExternKind::Value => Space::CompVal,
            CompExternKind::Type => Space::CompType,
            CompExternKind::Instance => Space::CompInst,
            CompExternKind::Component => Space::Comp,
            CompExternKind::Module => Space::CoreModule,
        }
    }

    fn index_space_of(&self) -> (r: Space) {
        match self {
            CompExternKind::Func => Space::CompFunc,
            CompExternKind::Value => Space::CompVal,
            CompExternKind::Type => Space::CompType,
            CompExternKind::Instance => Space::CompInst,
            CompExternKind::Component => Space::Comp,
            CompExternKind::Module => Space::CoreModule,
        }
    }
}

impl IndexSpaceOf for CoreExternKind {
    open spec fn space_of(&self) -> Space {
        match self {
            CoreExternKind::Func => Space::CoreFunc,
            CoreExternKind::Table => Space::CoreTable,
            CoreExternKind::Memory => Space::CoreMemory,
            CoreExternKind::Global => Space::CoreGlobal,
            CoreExternKind::Tag => Space::CoreTag,
            CoreExternKind::FuncExact => Space::CoreFunc,
        }
    }

    fn index_space_of(&self) -> (r: Space) {
        match self {
            CoreExternKind::Func => Space::CoreFunc,
            CoreExternKind::Table => Space::CoreTable,
            CoreExternKind::Memory => Space::CoreMemory,
            CoreExternKind::Global => Space::CoreGlobal,
            CoreExternKind::Tag => Space::CoreTag,
            CoreExternKind::FuncExact => Space::CoreFunc,
        }
    }
}

impl IndexSpaceOf for OuterAliasKind {
    open spec fn space_of(&self) -> Space {
        match self {
            OuterAliasKind::CoreModule => Space::CoreModule,
            OuterAliasKind::CoreType => Space::CoreType,
            OuterAliasKind::Type => Space::CompType,
            OuterAliasKind::Component => Space::Comp,
        }
    }

    fn index_space_of(&self) -> (r: Space) {
        match self {
            OuterAliasKind::CoreModule => Space::CoreModule,
            OuterAliasKind::CoreType => Space::CoreType,
            OuterAliasKind::Type => Space::CompType,
            OuterAliasKind::Component => Space::Comp,
        }
    }
}

impl IndexSpaceOf for CoreOuterAliasKind {
    open spec fn space_of(&self) -> Space {
        Space::CoreType
    }

    fn index_space_of(&self) -> (r: Space) {
        match self {
            CoreOuterAliasKind::Type => Space::CoreType,
        }
    }
}

impl IndexSpaceOf for InstantiationArgKind {
    open spec fn space_of(&self) -> Space {
        Space::CoreInst
    }

    fn index_space_of(&self) -> (r: Space) {
        match self {
            InstantiationArgKind::Instance => Space::CoreInst,
        }
    }
}

} // verus!
