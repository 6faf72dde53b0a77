//! Typed indices that adding an item to a component hands back: the index
//! the item takes in the index space it lands in.

use vstd::prelude::*;
use crate::idx_spaces::Space;

verus! {

/// The index of a core module.
#[derive(Clone, Copy, Debug, PartialEq, Eq, Structural)]
pub struct ModuleID(pub u32);

/// The index of a nested component.
#[derive(Clone, Copy, Debug, PartialEq, Eq, Structural)]
pub struct ComponentId(pub u32);

/// The index of a component instance.
#[derive(Clone, Copy, Debug, PartialEq, Eq, Structural)]
pub struct ComponentInstanceId(pub u32);

/// The index of a component-level function.
#[derive(Clone, Copy, Debug, PartialEq, Eq, Structural)]
pub struct ComponentFunctionId(pub u32);

/// The index of a component value.
#[derive(Clone, Copy, Debug, PartialEq, Eq, Structural)]
pub struct ValueID(pub u32);

/// The index of a component type.
#[derive(Clone, Copy, Debug, PartialEq, Eq, Structural)]
pub struct ComponentTypeId(pub u32);

/// The index of a core type.
#[derive(Clone, Copy, Debug, PartialEq, Eq, Structural)]
pub struct CoreTypeId(pub u32);

/// The index of a core instance.
#[derive(Clone, Copy, Debug, PartialEq, Eq, Structural)]
pub struct CoreInstanceId(pub u32);

/// The position of a custom section among the custom sections.
#[derive(Clone, Copy, Debug, PartialEq, Eq, Structural)]
pub struct CustomSectionID(pub u32);

/// The index of a core function.
#[derive(Clone, Copy, Debug, PartialEq, Eq, Structural)]
pub struct FunctionID(pub u32);

/// The index of a core table.
#[derive(Clone, Copy, Debug, PartialEq, Eq, Structural)]
pub struct TableID(pub u32);

/// The index of a core memory.
#[derive(Clone, Copy, Debug, PartialEq, Eq, Structural)]
pub struct MemoryID(pub u32);

/// The index of a core global.
#[derive(Clone, Copy, Debug, PartialEq, Eq, Structural)]
pub struct GlobalID(pub u32);

/// The index of a core tag.
#[derive(Clone, Copy, Debug, PartialEq, Eq, Structural)]
pub struct TagID(pub u32);

/// The index an alias takes: which index space it lands in depends on the
/// kind of item it aliases.
#[derive(Clone, Copy, Debug, PartialEq, Eq, Structural)]
pub enum AliasId {
    Component(ComponentId),
    ComponentFunc(ComponentFunctionId),
    Value(ValueID),
    ComponentType(ComponentTypeId),
    ComponentInstance(ComponentInstanceId),
    CoreInstance(CoreInstanceId),
    Module(ModuleID),
    CoreType(CoreTypeId),
    CoreFunc(FunctionID),
    CoreMemory(MemoryID),
    CoreTable(TableID),
    CoreGlobal(GlobalID),
    CoreTag(TagID),
}

impl AliasId {
    /// The index space of the index.
    pub open spec fn space(self) -> Space {
        match self {
            AliasId::Component(_) => Space::Comp,
            AliasId::ComponentFunc(_) => Space::CompFunc,
            AliasId::Value(_) => Space::CompVal,
            AliasId::ComponentType(_) => Space::CompType,
            AliasId::ComponentInstance(_) => Space::CompInst,
            AliasId::CoreInstance(_) => Space::CoreInst,
            AliasId::Module(_) => Space::CoreModule,
            AliasId::CoreType(_) => Space::CoreType,
            AliasId::CoreFunc(_) => Space::CoreFunc,
            AliasId::CoreMemory(_) => Space::CoreMemory,
            AliasId::CoreTable(_) => Space::CoreTable,
            AliasId::CoreGlobal(_) => Space::CoreGlobal,
            AliasId::CoreTag(_) => Space::CoreTag,
        }
    }

    /// The index within its space.
    pub open spec fn id(self) -> u32 {
        match self {
            AliasId::Component(i) => i.0,
            AliasId::ComponentFunc(i) => i.0,
            AliasId::Value(i) => i.0,
            AliasId::ComponentType(i) => i.0,
            AliasId::ComponentInstance(i) => i.0,
            AliasId::CoreInstance(i) => i.0,
            AliasId::Module(i) => i.0,
            AliasId::CoreType(i) => i.0,
            AliasId::CoreFunc(i) => i.0,
            AliasId::CoreMemory(i) => i.0,
            AliasId::CoreTable(i) => i.0,
            AliasId::CoreGlobal(i) => i.0,
            AliasId::CoreTag(i) => i.0,
        }
    }

    /// The typed index `id` of index space `space`.
    pub fn new(space: Space, id: u32) -> (r: AliasId)
        requires
            space != Space::NA,
        ensures
            r.space() == space,
            r.id() == id,
    {
        match space {
            Space::Comp => AliasId::Component(ComponentId(id)),
            Space::CompFunc => AliasId::ComponentFunc(ComponentFunctionId(id)),
            Space::CompVal => AliasId::Value(ValueID(id)),
            Space::CompType => AliasId::ComponentType(ComponentTypeId(id)),
            Space::CompInst => AliasId::ComponentInstance(ComponentInstanceId(id)),
            Space::CoreInst => AliasId::CoreInstance(CoreInstanceId(id)),
            Space::CoreModule => AliasId::Module(ModuleID(id)),
            Space::CoreType => AliasId::CoreType(CoreTypeId(id)),
            Space::CoreFunc => AliasId::CoreFunc(FunctionID(id)),
            Space::CoreMemory => AliasId::CoreMemory(MemoryID(id)),
            Space::CoreTable => AliasId::CoreTable(TableID(id)),
            Space::CoreGlobal => AliasId::CoreGlobal(GlobalID(id)),
            Space::CoreTag => AliasId::CoreTag(TagID(id)),
            Space::NA => {
                proof {
                    assert(false);
                }
                AliasId::Component(ComponentId(id))
            },
        }
    }

    /// The index within its space.
    pub fn index(&self) -> (r: u32)
        ensures
            r == self.id(),
    {
        match self {
            AliasId::Component(i) => i.0,
            AliasId::ComponentFunc(i) => i.0,
            AliasId::Value(i) => i.0,
            AliasId::ComponentType(i) => i.0,
            AliasId::ComponentInstance(i) => i.0,
            AliasId::CoreInstance(i) => i.0,
            AliasId::Module(i) => i.0,
            AliasId::CoreType(i) => i.0,
            AliasId::CoreFunc(i) => i.0,
            AliasId::CoreMemory(i) => i.0,
            AliasId::CoreTable(i) => i.0,
            AliasId::CoreGlobal(i) => i.0,
            AliasId::CoreTag(i) => i.0,
        }
    }

    /// The index of an alias of a component-level function.
    pub fn unwrap_component_func(&self) -> (r: ComponentFunctionId)
        requires
            self is ComponentFunc,
        ensures
            r.0 == self.id(),
    {
        match self {
            AliasId::ComponentFunc(i) => *i,
            _ => {
                proof {
                    assert(false);
                }
                ComponentFunctionId(0)
            },
        }
    }

    /// The index of an alias of a component type.
    pub fn unwrap_component_type(&self) -> (r: ComponentTypeId)
        requires
            self is ComponentType,
        ensures
            r.0 == self.id(),
    {
        match self {
            AliasId::ComponentType(i) => *i,
            _ => {
                proof {
                    assert(false);
                }
                ComponentTypeId(0)
            },
        }
    }

    /// The index of an alias of a core function.
    pub fn unwrap_core_func(&self) -> (r: FunctionID)
        requires
            self is CoreFunc,
        ensures
            r.0 == self.id(),
    {
        match self {
            AliasId::CoreFunc(i) => *i,
            _ => {
                proof {
                    assert(false);
                }
                FunctionID(0)
            },
        }
    }

    /// The index of an alias of a core memory.
    pub fn unwrap_core_memory(&self) -> (r: MemoryID)
        requires
            self is CoreMemory,
        ensures
            r.0 == self.id(),
    {
        match self {
            AliasId::CoreMemory(i) => *i,
            _ => {
                proof {
                    assert(false);
                }
                MemoryID(0)
            },
        }
    }

    /// The index of an alias of a core table.
    pub fn unwrap_core_table(&self) -> (r: TableID)
        requires
            self is CoreTable,
        ensures
            r.0 == self.id(),
    {
        match self {
            AliasId::CoreTable(i) => *i,
            _ => {
                proof {
                    assert(false);
                }
                TableID(0)
            },
        }
    }

    /// The index of an alias of a core global.
    pub fn unwrap_core_global(&self) -> (r: GlobalID)
        requires
            self is CoreGlobal,
        ensures
            r.0 == self.id(),
    {
        match self {
            AliasId::CoreGlobal(i) => *i,
            _ => {
                proof {
                    assert(false);
                }
                GlobalID(0)
            },
        }
    }

    /// The index of an alias of a core tag.
    pub fn unwrap_core_tag(&self) -> (r: TagID)
        requires
            self is CoreTag,
        ensures
            r.0 == self.id(),
    {
        match self {
            AliasId::CoreTag(i) => *i,
            _ => {
                proof {
                    assert(false);
                }
                TagID(0)
            },
        }
    }
}

/// The index a canonical function takes: lifted functions and the
/// thread-spawn built-ins are component functions, the others core
/// functions.
#[derive(Clone, Copy, Debug, PartialEq, Eq, Structural)]
pub enum CanonFuncId {
    Component(ComponentFunctionId),
    Core(FunctionID),
}

impl CanonFuncId {
    /// The index space of the index.
    pub open spec fn space(self) -> Space {
        match self {
            CanonFuncId::Component(_) => Space::CompFunc,
            CanonFuncId::Core(_) => Space::CoreFunc,
        }
    }

    /// The index within its space.
    pub open spec fn id(self) -> u32 {
        match self {
            CanonFuncId::Component(i) => i.0,
            CanonFuncId::Core(i) => i.0,
        }
    }

    /// The typed index `id` of function index space `space`.
    pub fn new(space: Space, id: u32) -> (r: CanonFuncId)
        requires
            space == Space::CompFunc || space == Space::CoreFunc,
        ensures
            r.space() == space,
            r.id() == id,
    {
        if space == Space::CompFunc {
            CanonFuncId::Component(ComponentFunctionId(id))
        } else {
            CanonFuncId::Core(FunctionID(id))
        }
    }

    /// The index of a component-level canonical function.
    pub fn unwrap_component(&self) -> (r: ComponentFunctionId)
        requires
            self is Component,
        ensures
            r.0 == self.id(),
    {
        match self {
            CanonFuncId::Component(i) => *i,
            CanonFuncId::Core(_) => {
                proof {
                    assert(false);
                }
                ComponentFunctionId(0)
            },
        }
    }

    /// The index of a core-level canonical function.
    pub fn unwrap_core(&self) -> (r: FunctionID)
        requires
            self is Core,
        ensures
            r.0 == self.id(),
    {
        match self {
            CanonFuncId::Core(i) => *i,
            CanonFuncId::Component(_) => {
                proof {
                    assert(false);
                }
                FunctionID(0)
            },
        }
    }
}

} // verus!
