//! The payloads a component binary is read into, in binary order, and the
//! errors reading or parsing it can give.

use vstd::prelude::*;
use crate::items::{
    ComponentImport, ComponentExport, Instance, CoreType, ComponentType, ComponentInstance,
    ComponentAlias, CanonicalFunction, ComponentStartFunction, CustomSection, Module,
};

verus! {

/// Why a component could not be parsed or encoded.
#[derive(Debug)]
pub enum Error {
    /// The binary is malformed: the reader's message and the offset it
    /// stopped at.
    BinaryReader { message: String, offset: usize },
    /// A section with an id the component model does not define.
    UnknownSection { section_id: u8 },
    /// A payload a component does not hold at its top level (such as a
    /// section of a core module read as a component), by its description.
    UnhandledPayload(String),
    /// The binary holds more items than the index spaces of a component
    /// tree can number.
    TooManyItems,
    /// A nested module section whose declared range runs past the end of
    /// the binary.
    SectionOutOfBounds { start: u64, end: u64 },
    /// An item being encoded refers to an item that was given no actual
    /// index (or one a binary cannot hold).
    UnassignedReference,
    /// An item being encoded has no binary form: a core type index relative
    /// to a recursion group or canonicalized, a built-in the encoder does
    /// not know, or a table, global or tag type the encoder refuses.
    NotEncodable,
}

/// The kinds of index-to-name map a component name section holds.
#[derive(Clone, Copy, Debug, PartialEq, Eq, Structural)]
pub enum NameMapKind {
    CoreFuncs,
    CoreGlobals,
    CoreTables,
    CoreModules,
    CoreInstances,
    CoreTypes,
    Types,
    Instances,
    Components,
    Funcs,
    Values,
    CoreMemories,
    CoreTags,
}

/// One subsection of a component name section.
#[derive(Debug)]
pub enum NameSubsection {
    /// The name of the component itself.
    Component(String),
    /// Names of the items of one index space, by index.
    Names(NameMapKind, Vec<(u32, String)>),
    /// A subsection of a kind not known here.
    Unknown,
}

/// One payload of a binary, in the order the binary holds them. The
/// payloads of a nested module or component follow its section payload
/// and end with its own `End`.
#[derive(Debug)]
pub enum Payload {
    /// The header of a module or component.
    Version,
    /// The end of a module or component.
    End,
    ComponentImports(Vec<ComponentImport>),
    ComponentExports(Vec<ComponentExport>),
    CoreInstances(Vec<Instance>),
    CoreTypes(Vec<CoreType>),
    ComponentTypes(Vec<ComponentType>),
    ComponentInstances(Vec<ComponentInstance>),
    Aliases(Vec<ComponentAlias>),
    Canons(Vec<CanonicalFunction>),
    /// A nested core module, with its bytes.
    ModuleSection(Module),
    /// A nested component; its payloads follow.
    ComponentSection,
    Start(ComponentStartFunction),
    /// The component name section.
    ComponentNames(Vec<NameSubsection>),
    /// Any other custom section.
    Custom(CustomSection),
    /// A section with an id the component model does not define.
    UnknownSection { id: u8 },
    /// Any other payload, by its description.
    Other(String),
    /// Reading failed here; nothing follows.
    Malformed(Error),
}

} // verus!
