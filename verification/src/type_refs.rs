//! The references canonical functions and component types make into index
//! spaces.

use vstd::prelude::*;
use crate::idx_spaces::Space;
use crate::refs::{
    Depth, IndexedRef, RefKind, RefRole, GetTypeRefs, GetItemRef, GetItemRefs, GetFuncRefs,
    GetMemRefs, GetTableRefs, GetParamRefs, GetResultRefs, ReferencedIndices,
};
use crate::items::{
    ComponentValType, CanonicalOption, CanonicalFunction, VariantCase, ComponentDefinedType,
    ComponentFuncType, ComponentType, ComponentTypeDeclaration, InstanceTypeDeclaration,
};
use crate::item_refs::{plain, concat_refs, lemma_concat_refs_step, lemma_concat_refs_all, val_refs, opt_val_refs};

verus! {

broadcast use Depth::lemma_at_level;

fn mk_ref(space: Space, index: u32) -> (r: RefKind)
    requires
        space != Space::NA,
    ensures
        r == plain(space, index),
{
    RefKind::new(IndexedRef { depth: Depth::default(), space, index })
}

// ---------------------------------------------------------------------
// Canonical options and functions
// ---------------------------------------------------------------------

impl GetTypeRefs for CanonicalOption {
    open spec fn spec_type_refs(&self) -> Seq<RefKind> {
        match self {
            CanonicalOption::CoreType(id) => seq![plain(Space::CoreType, *id)],
            _ => Seq::empty(),
        }
    }

    fn get_type_refs(&self) -> (r: Vec<RefKind>) {
        match self {
            CanonicalOption::CoreType(id) => {
                let v = vec![mk_ref(Space::CoreType, *id)];
                proof {
                    assert(v@ =~= self.spec_type_refs());
                }
                v
            },
            _ => Vec::new(),
        }
    }
}

impl GetFuncRefs for CanonicalOption {
    /// `realloc`, `post-return` and `callback` name core functions.
    open spec fn spec_func_refs(&self) -> Seq<RefKind> {
        match self {
            CanonicalOption::Realloc(id) => seq![plain(Space::CoreFunc, *id)],
            CanonicalOption::PostReturn(id) => seq![plain(Space::CoreFunc, *id)],
            CanonicalOption::Callback(id) => seq![plain(Space::CoreFunc, *id)],
            _ => Seq::empty(),
        }
    }

    fn get_func_refs(&self) -> (r: Vec<RefKind>) {
        let v = match self {
            CanonicalOption::Realloc(id) => vec![mk_ref(Space::CoreFunc, *id)],
            CanonicalOption::PostReturn(id) => vec![mk_ref(Space::CoreFunc, *id)],
            CanonicalOption::Callback(id) => vec![mk_ref(Space::CoreFunc, *id)],
            _ => Vec::new(),
        };
        proof {
            assert(v@ =~= self.spec_func_refs());
        }
        v
    }
}

impl GetMemRefs for CanonicalOption {
    open spec fn spec_mem_refs(&self) -> Seq<RefKind> {
        match self {
            CanonicalOption::Memory(id) => seq![plain(Space::CoreMemory, *id)],
            _ => Seq::empty(),
        }
    }

    fn get_mem_refs(&self) -> (r: Vec<RefKind>) {
        match self {
            CanonicalOption::Memory(id) => {
                let v = vec![mk_ref(Space::CoreMemory, *id)];
                proof {
                    assert(v@ =~= self.spec_mem_refs());
                }
                v
            },
            _ => Vec::new(),
        }
    }
}

/// Which references of an option a walk collects.
#[derive(Clone, Copy, Debug, PartialEq, Eq, Structural)]
pub enum OptionRefs {
    Types,
    Funcs,
    Mems,
}

/// The references of one option, of kind `which`.
pub open spec fn option_refs(o: CanonicalOption, which: OptionRefs) -> Seq<RefKind> {
    match which {
        OptionRefs::Types => o.spec_type_refs(),
        OptionRefs::Funcs => o.spec_func_refs(),
        OptionRefs::Mems => o.spec_mem_refs(),
    }
}

/// The references of kind `which` of a list of options, each option's in turn.
pub open spec fn options_refs(opts: Seq<CanonicalOption>, which: OptionRefs) -> Seq<RefKind> {
    concat_refs(opts.map_values(|o: CanonicalOption| option_refs(o, which)))
}

/// Appends the references of kind `which` of `opts`.
fn push_options_refs(refs: &mut Vec<RefKind>, opts: &Vec<CanonicalOption>, which: OptionRefs)
    ensures
        final(refs)@ == old(refs)@ + options_refs(opts@, which),
{
    let ghost start = refs@;
    let ghost parts = opts@.map_values(|o: CanonicalOption| option_refs(o, which));
    for i in 0..opts.len()
        invariant
            parts == opts@.map_values(|o: CanonicalOption| option_refs(o, which)),
            refs@ == start + concat_refs(parts.take(i as int)),
    {
        let mut more = match which {
            OptionRefs::Types => opts[i].get_type_refs(),
            OptionRefs::Funcs => opts[i].get_func_refs(),
            OptionRefs::Mems => opts[i].get_mem_refs(),
        };
        refs.append(&mut more);
        proof {
            lemma_concat_refs_step(parts, i as int);
            assert(refs@ =~= start + concat_refs(parts.take(i + 1)));
        }
    }
    proof {
        lemma_concat_refs_all(parts);
    }
}

/// The options of a canonical function (none for one that takes none).
pub open spec fn canon_options(c: CanonicalFunction) -> Seq<CanonicalOption> {
    match c {
        CanonicalFunction::Lift { options, .. } => options@,
        CanonicalFunction::Lower { options, .. } => options@,
        CanonicalFunction::TaskReturn { options, .. } => options@,
        CanonicalFunction::TypedWithOptions { options, .. } => options@,
        CanonicalFunction::ErrorContextNew { options } => options@,
        CanonicalFunction::ErrorContextDebugMessage { options } => options@,
        _ => Seq::empty(),
    }
}

/// The options of a canonical function.
fn options_of(c: &CanonicalFunction) -> (r: Option<&Vec<CanonicalOption>>)
    ensures
        match r {
            Some(o) => o@ == canon_options(*c),
            None => canon_options(*c) == Seq::<CanonicalOption>::empty(),
        },
{
    match c {
        CanonicalFunction::Lift { options, .. } => Some(options),
        CanonicalFunction::Lower { options, .. } => Some(options),
        CanonicalFunction::TaskReturn { options, .. } => Some(options),
        CanonicalFunction::TypedWithOptions { options, .. } => Some(options),
        CanonicalFunction::ErrorContextNew { options } => Some(options),
        CanonicalFunction::ErrorContextDebugMessage { options } => Some(options),
        _ => None,
    }
}

/// Appends the references of kind `which` of the options of `c`.
fn push_canon_options_refs(refs: &mut Vec<RefKind>, c: &CanonicalFunction, which: OptionRefs)
    ensures
        final(refs)@ == old(refs)@ + options_refs(canon_options(*c), which),
{
    match options_of(c) {
        Some(opts) => push_options_refs(refs, opts, which),
        None => {
            proof {
                assert(options_refs(canon_options(*c), which) =~= Seq::<RefKind>::empty());
                assert(final(refs)@ =~= old(refs)@ + options_refs(canon_options(*c), which));
            }
        },
    }
}

impl GetFuncRefs for CanonicalFunction {
    /// A lift names the core function it lifts, a lower and a thread spawn
    /// the component function they use; the options follow.
    open spec fn spec_func_refs(&self) -> Seq<RefKind> {
        let head = match self {
            CanonicalFunction::Lift { core_func_index, .. } => seq![plain(Space::CoreFunc, *core_func_index)],
            CanonicalFunction::Lower { func_index, .. } => seq![plain(Space::CompFunc, *func_index)],
            CanonicalFunction::ThreadSpawnRef { func_ty_index } => seq![plain(Space::CompFunc, *func_ty_index)],
            _ => Seq::empty(),
        };
        head + options_refs(canon_options(*self), OptionRefs::Funcs)
    }

    fn get_func_refs(&self) -> (r: Vec<RefKind>) {
        let mut refs = match self {
            CanonicalFunction::Lift { core_func_index, .. } => vec![mk_ref(Space::CoreFunc, *core_func_index)],
            CanonicalFunction::Lower { func_index, .. } => vec![mk_ref(Space::CompFunc, *func_index)],
            CanonicalFunction::ThreadSpawnRef { func_ty_index } => vec![mk_ref(Space::CompFunc, *func_ty_index)],
            _ => Vec::new(),
        };
        let ghost head = refs@;
        push_canon_options_refs(&mut refs, self, OptionRefs::Funcs);
        proof {
            assert(head =~= match self {
                CanonicalFunction::Lift { core_func_index, .. } => seq![plain(Space::CoreFunc, *core_func_index)],
                CanonicalFunction::Lower { func_index, .. } => seq![plain(Space::CompFunc, *func_index)],
                CanonicalFunction::ThreadSpawnRef { func_ty_index } => seq![plain(Space::CompFunc, *func_ty_index)],
                _ => Seq::<RefKind>::empty(),
            });
        }
        refs
    }
}

/// The type references a canonical function makes before those of its
/// options.
pub open spec fn canon_head_type_refs(c: CanonicalFunction) -> Seq<RefKind> {
    match c {
        CanonicalFunction::Lift { type_index, .. } => seq![plain(Space::CompType, type_index)],
        CanonicalFunction::Resource { resource, .. } => seq![plain(Space::CompType, resource)],
        CanonicalFunction::ThreadSpawnIndirect { func_ty_index, .. } => seq![plain(Space::CoreType, func_ty_index)],
        CanonicalFunction::ThreadNewIndirect { func_ty_index, .. } => seq![plain(Space::CoreType, func_ty_index)],
        CanonicalFunction::TaskReturn { result, .. } => opt_val_refs(result),
        CanonicalFunction::Typed { ty, .. } => seq![plain(Space::CompType, ty)],
        CanonicalFunction::TypedWithOptions { ty, .. } => seq![plain(Space::CompType, ty)],
        _ => Seq::empty(),
    }
}

impl GetTypeRefs for CanonicalFunction {
    /// A lift names its function type; resource built-ins name their
    /// resource type; indirect thread built-ins their core function type;
    /// a task return its result type; stream and future built-ins their
    /// payload type. The options follow.
    open spec fn spec_type_refs(&self) -> Seq<RefKind> {
        canon_head_type_refs(*self) + options_refs(canon_options(*self), OptionRefs::Types)
    }

    fn get_type_refs(&self) -> (r: Vec<RefKind>) {
        let mut refs = match self {
            CanonicalFunction::Lift { type_index, .. } => vec![mk_ref(Space::CompType, *type_index)],
            CanonicalFunction::Resource { resource, .. } => vec![mk_ref(Space::CompType, *resource)],
            CanonicalFunction::ThreadSpawnIndirect { func_ty_index, .. } => vec![mk_ref(Space::CoreType, *func_ty_index)],
            CanonicalFunction::ThreadNewIndirect { func_ty_index, .. } => vec![mk_ref(Space::CoreType, *func_ty_index)],
            CanonicalFunction::TaskReturn { result, .. } => {
                let mut v: Vec<RefKind> = Vec::new();
                if let Some(t) = result {
                    v = t.get_type_refs();
                }
                v
            },
            CanonicalFunction::Typed { ty, .. } => vec![mk_ref(Space::CompType, *ty)],
            CanonicalFunction::TypedWithOptions { ty, .. } => vec![mk_ref(Space::CompType, *ty)],
            _ => Vec::new(),
        };
        proof {
            assert(refs@ =~= canon_head_type_refs(*self));
        }
        push_canon_options_refs(&mut refs, self, OptionRefs::Types);
        refs
    }
}

/// The memory references a canonical function makes before those of its
/// options.
pub open spec fn canon_head_mem_refs(c: CanonicalFunction) -> Seq<RefKind> {
    match c {
        CanonicalFunction::WaitableSetWait { memory } => seq![plain(Space::CoreMemory, memory)],
        CanonicalFunction::WaitableSetPoll { memory } => seq![plain(Space::CoreMemory, memory)],
        _ => Seq::empty(),
    }
}

impl GetMemRefs for CanonicalFunction {
    /// Waiting on or polling a waitable set names a memory; the options
    /// follow.
    open spec fn spec_mem_refs(&self) -> Seq<RefKind> {
        canon_head_mem_refs(*self) + options_refs(canon_options(*self), OptionRefs::Mems)
    }

    fn get_mem_refs(&self) -> (r: Vec<RefKind>) {
        let mut refs = match self {
            CanonicalFunction::WaitableSetWait { memory } => vec![mk_ref(Space::CoreMemory, *memory)],
            CanonicalFunction::WaitableSetPoll { memory } => vec![mk_ref(Space::CoreMemory, *memory)],
            _ => Vec::new(),
        };
        proof {
            assert(refs@ =~= canon_head_mem_refs(*self));
        }
        push_canon_options_refs(&mut refs, self, OptionRefs::Mems);
        refs
    }
}

impl GetTableRefs for CanonicalFunction {
    /// The indirect thread built-ins name a table.
    open spec fn spec_tbl_refs(&self) -> Seq<RefKind> {
        match self {
            CanonicalFunction::ThreadSpawnIndirect { table_index, .. } => seq![plain(Space::CoreTable, *table_index)],
            CanonicalFunction::ThreadNewIndirect { table_index, .. } => seq![plain(Space::CoreTable, *table_index)],
            _ => Seq::empty(),
        }
    }

    fn get_tbl_refs(&self) -> (r: Vec<RefKind>) {
        let v = match self {
            CanonicalFunction::ThreadSpawnIndirect { table_index, .. } => vec![mk_ref(Space::CoreTable, *table_index)],
            CanonicalFunction::ThreadNewIndirect { table_index, .. } => vec![mk_ref(Space::CoreTable, *table_index)],
            _ => Vec::new(),
        };
        proof {
            assert(v@ =~= self.spec_tbl_refs());
        }
        v
    }
}

impl ReferencedIndices for CanonicalFunction {
    open spec fn spec_referenced_indices(&self) -> Seq<RefKind> {
        self.spec_func_refs() + self.spec_type_refs() + self.spec_mem_refs() + self.spec_tbl_refs()
    }

    fn referenced_indices(&self) -> (r: Vec<RefKind>) {
        let mut refs = self.get_func_refs();
        let mut t = self.get_type_refs();
        refs.append(&mut t);
        let mut m = self.get_mem_refs();
        refs.append(&mut m);
        let mut b = self.get_tbl_refs();
        refs.append(&mut b);
        refs
    }
}

// ---------------------------------------------------------------------
// Component types
// ---------------------------------------------------------------------

/// The references of a list of value types, each one's in turn.
pub open spec fn vals_refs(vs: Seq<ComponentValType>) -> Seq<RefKind> {
    concat_refs(vs.map_values(|v: ComponentValType| val_refs(v)))
}

/// Appends the references of `v`.
fn push_val_refs(refs: &mut Vec<RefKind>, v: &ComponentValType)
    ensures
        final(refs)@ == old(refs)@ + val_refs(*v),
{
    let mut more = v.get_type_refs();
    refs.append(&mut more);
}

/// Appends the references of an optional value type.
fn push_opt_val_refs(refs: &mut Vec<RefKind>, v: &Option<ComponentValType>)
    ensures
        final(refs)@ == old(refs)@ + opt_val_refs(*v),
{
    match v {
        Some(t) => push_val_refs(refs, t),
        None => {
            proof {
                assert(final(refs)@ =~= old(refs)@ + opt_val_refs(*v));
            }
        },
    }
}

/// The value types of the fields of a record (or parameters of a function).
pub open spec fn field_types(fields: Seq<(String, ComponentValType)>) -> Seq<ComponentValType> {
    fields.map_values(|f: (String, ComponentValType)| f.1)
}

/// The optional payload types of the cases of a variant.
pub open spec fn case_types(cases: Seq<VariantCase>) -> Seq<Option<ComponentValType>> {
    cases.map_values(|c: VariantCase| c.ty)
}

/// The references of a list of optional value types.
pub open spec fn opt_vals_refs(vs: Seq<Option<ComponentValType>>) -> Seq<RefKind> {
    concat_refs(vs.map_values(|v: Option<ComponentValType>| opt_val_refs(v)))
}

/// Appends the references of the field types of `fields`.
fn push_fields_refs(refs: &mut Vec<RefKind>, fields: &Vec<(String, ComponentValType)>)
    ensures
        final(refs)@ == old(refs)@ + vals_refs(field_types(fields@)),
{
    let ghost start = refs@;
    let ghost parts = field_types(fields@).map_values(|v: ComponentValType| val_refs(v));
    for i in 0..fields.len()
        invariant
            parts == field_types(fields@).map_values(|v: ComponentValType| val_refs(v)),
            parts.len() == fields@.len(),
            refs@ == start + concat_refs(parts.take(i as int)),
    {
        push_val_refs(refs, &fields[i].1);
        proof {
            lemma_concat_refs_step(parts, i as int);
            assert(refs@ =~= start + concat_refs(parts.take(i + 1)));
        }
    }
    proof {
        lemma_concat_refs_all(parts);
    }
}

/// Appends the references of the value types `vs`.
fn push_vals_refs(refs: &mut Vec<RefKind>, vs: &Vec<ComponentValType>)
    ensures
        final(refs)@ == old(refs)@ + vals_refs(vs@),
{
    let ghost start = refs@;
    let ghost parts = vs@.map_values(|v: ComponentValType| val_refs(v));
    for i in 0..vs.len()
        invariant
            parts == vs@.map_values(|v: ComponentValType| val_refs(v)),
            refs@ == start + concat_refs(parts.take(i as int)),
    {
        push_val_refs(refs, &vs[i]);
        proof {
            lemma_concat_refs_step(parts, i as int);
            assert(refs@ =~= start + concat_refs(parts.take(i + 1)));
        }
    }
    proof {
        lemma_concat_refs_all(parts);
    }
}

/// Appends the references of the payload types of the cases `cases`.
fn push_cases_refs(refs: &mut Vec<RefKind>, cases: &Vec<VariantCase>)
    ensures
        final(refs)@ == old(refs)@ + opt_vals_refs(case_types(cases@)),
{
    let ghost start = refs@;
    let ghost parts = case_types(cases@).map_values(|v: Option<ComponentValType>| opt_val_refs(v));
    for i in 0..cases.len()
        invariant
            parts == case_types(cases@).map_values(|v: Option<ComponentValType>| opt_val_refs(v)),
            parts.len() == cases@.len(),
            refs@ == start + concat_refs(parts.take(i as int)),
    {
        push_opt_val_refs(refs, &cases[i].ty);
        proof {
            lemma_concat_refs_step(parts, i as int);
            assert(refs@ =~= start + concat_refs(parts.take(i + 1)));
        }
    }
    proof {
        lemma_concat_refs_all(parts);
    }
}

impl GetTypeRefs for VariantCase {
    open spec fn spec_type_refs(&self) -> Seq<RefKind> {
        opt_val_refs(self.ty)
    }

    fn get_type_refs(&self) -> (r: Vec<RefKind>) {
        let mut refs: Vec<RefKind> = Vec::new();
        push_opt_val_refs(&mut refs, &self.ty);
        proof {
            assert(refs@ =~= self.spec_type_refs());
        }
        refs
    }
}

impl GetTypeRefs for ComponentDefinedType {
    /// The value types a defined type is built from, in order; an owned or
    /// borrowed handle names its resource type.
    open spec fn spec_type_refs(&self) -> Seq<RefKind> {
        match self {
            ComponentDefinedType::Record(fields) => vals_refs(field_types(fields@)),
            ComponentDefinedType::Variant(cases) => opt_vals_refs(case_types(cases@)),
            ComponentDefinedType::List(t) => val_refs(*t),
            ComponentDefinedType::FixedLengthList(t, _) => val_refs(*t),
            ComponentDefinedType::Option(t) => val_refs(*t),
            ComponentDefinedType::Tuple(ts) => vals_refs(ts@),
            ComponentDefinedType::Result { ok, err } => opt_val_refs(*ok) + opt_val_refs(*err),
            ComponentDefinedType::Own(id) => seq![plain(Space::CompType, *id)],
            ComponentDefinedType::Borrow(id) => seq![plain(Space::CompType, *id)],
            ComponentDefinedType::Future(t) => opt_val_refs(*t),
            ComponentDefinedType::Stream(t) => opt_val_refs(*t),
            ComponentDefinedType::MapOf(k, v) => val_refs(*k) + val_refs(*v),
            _ => Seq::empty(),
        }
    }

    fn get_type_refs(&self) -> (r: Vec<RefKind>) {
        let mut refs: Vec<RefKind> = Vec::new();
        match self {
            ComponentDefinedType::Record(fields) => push_fields_refs(&mut refs, fields),
            ComponentDefinedType::Variant(cases) => push_cases_refs(&mut refs, cases),
            ComponentDefinedType::List(t) => push_val_refs(&mut refs, t),
            ComponentDefinedType::FixedLengthList(t, _) => push_val_refs(&mut refs, t),
            ComponentDefinedType::Option(t) => push_val_refs(&mut refs, t),
            ComponentDefinedType::Tuple(ts) => push_vals_refs(&mut refs, ts),
            ComponentDefinedType::Result { ok, err } => {
                push_opt_val_refs(&mut refs, ok);
                push_opt_val_refs(&mut refs, err);
            },
            ComponentDefinedType::Own(id) => refs.push(mk_ref(Space::CompType, *id)),
            ComponentDefinedType::Borrow(id) => refs.push(mk_ref(Space::CompType, *id)),
            ComponentDefinedType::Future(t) => push_opt_val_refs(&mut refs, t),
            ComponentDefinedType::Stream(t) => push_opt_val_refs(&mut refs, t),
            ComponentDefinedType::MapOf(k, v) => {
                push_val_refs(&mut refs, k);
                push_val_refs(&mut refs, v);
            },
            ComponentDefinedType::Primitive(_) => {},
            ComponentDefinedType::Enum(_) => {},
            ComponentDefinedType::Flags(_) => {},
        }
        proof {
            assert(refs@ =~= self.spec_type_refs());
        }
        refs
    }
}

/// The references parameter `i` of `params` makes, in the role of that
/// parameter.
pub open spec fn param_refs_at(params: Seq<(String, ComponentValType)>, i: int) -> Seq<RefKind> {
    val_refs(params[i].1).map_values(|r: RefKind| RefKind { role: RefRole::Param(i as usize), ref_: r.ref_ })
}

impl GetParamRefs for ComponentFuncType {
    open spec fn spec_param_refs(&self) -> Seq<RefKind> {
        concat_refs(Seq::new(self.params@.len(), |i: int| param_refs_at(self.params@, i)))
    }

    fn get_param_refs(&self) -> (r: Vec<RefKind>) {
        let mut refs: Vec<RefKind> = Vec::new();
        let ghost parts = Seq::new(self.params@.len(), |i: int| param_refs_at(self.params@, i));
        for i in 0..self.params.len()
            invariant
                parts == Seq::new(self.params@.len(), |i: int| param_refs_at(self.params@, i)),
                refs@ == concat_refs(parts.take(i as int)),
        {
            let ghost before = refs@;
            match &self.params[i].1 {
                ComponentValType::Type(id) => {
                    let r = IndexedRef { depth: Depth::default(), space: Space::CompType, index: *id };
                    refs.push(RefKind::param(i, r));
                },
                ComponentValType::Primitive(_) => {},
            }
            proof {
                assert(refs@ =~= before + parts[i as int]);
                lemma_concat_refs_step(parts, i as int);
            }
        }
        proof {
            lemma_concat_refs_all(parts);
        }
        refs
    }
}

impl GetResultRefs for ComponentFuncType {
    open spec fn spec_result_refs(&self) -> Seq<RefKind> {
        opt_val_refs(self.result).map_values(|r: RefKind| RefKind { role: RefRole::Result(0), ref_: r.ref_ })
    }

    fn get_result_refs(&self) -> (r: Vec<RefKind>) {
        let mut refs: Vec<RefKind> = Vec::new();
        match &self.result {
            Some(ComponentValType::Type(id)) => {
                let r = IndexedRef { depth: Depth::default(), space: Space::CompType, index: *id };
                refs.push(RefKind::result(0, r));
            },
            _ => {},
        }
        proof {
            assert(refs@ =~= self.spec_result_refs());
        }
        refs
    }
}

impl ReferencedIndices for ComponentFuncType {
    open spec fn spec_referenced_indices(&self) -> Seq<RefKind> {
        self.spec_param_refs() + self.spec_result_refs()
    }

    fn referenced_indices(&self) -> (r: Vec<RefKind>) {
        let mut refs = self.get_param_refs();
        let mut more = self.get_result_refs();
        refs.append(&mut more);
        refs
    }
}

impl GetTypeRefs for ComponentTypeDeclaration {
    /// An export or import names its type outward; types, core types and
    /// aliases declared inside refer into the declaring type's own scope.
    open spec fn spec_type_refs(&self) -> Seq<RefKind> {
        match self {
            ComponentTypeDeclaration::Export { ty, .. } => ty.spec_type_refs(),
            ComponentTypeDeclaration::Import(i) => i.ty.spec_type_refs(),
            _ => Seq::empty(),
        }
    }

    fn get_type_refs(&self) -> (r: Vec<RefKind>) {
        match self {
            ComponentTypeDeclaration::Export { ty, .. } => ty.get_type_refs(),
            ComponentTypeDeclaration::Import(i) => i.ty.get_type_refs(),
            _ => Vec::new(),
        }
    }
}

impl GetItemRefs for ComponentTypeDeclaration {
    open spec fn spec_item_refs(&self) -> Seq<RefKind> {
        match self {
            ComponentTypeDeclaration::Alias(a) => seq![a.spec_item_ref()],
            _ => Seq::empty(),
        }
    }

    fn get_item_refs(&self) -> (r: Vec<RefKind>) {
        match self {
            ComponentTypeDeclaration::Alias(a) => {
                let v = vec![a.get_item_ref()];
                proof {
                    assert(v@ =~= self.spec_item_refs());
                }
                v
            },
            _ => Vec::new(),
        }
    }
}

impl ReferencedIndices for ComponentTypeDeclaration {
    open spec fn spec_referenced_indices(&self) -> Seq<RefKind> {
        self.spec_type_refs() + self.spec_item_refs()
    }

    fn referenced_indices(&self) -> (r: Vec<RefKind>) {
        let mut refs = self.get_type_refs();
        let mut more = self.get_item_refs();
        refs.append(&mut more);
        refs
    }
}

impl GetTypeRefs for InstanceTypeDeclaration {
    open spec fn spec_type_refs(&self) -> Seq<RefKind> {
        match self {
            InstanceTypeDeclaration::Export { ty, .. } => ty.spec_type_refs(),
            _ => Seq::empty(),
        }
    }

    fn get_type_refs(&self) -> (r: Vec<RefKind>) {
        match self {
            InstanceTypeDeclaration::Export { ty, .. } => ty.get_type_refs(),
            _ => Vec::new(),
        }
    }
}

impl GetItemRefs for InstanceTypeDeclaration {
    open spec fn spec_item_refs(&self) -> Seq<RefKind> {
        match self {
            InstanceTypeDeclaration::Alias(a) => seq![a.spec_item_ref()],
            _ => Seq::empty(),
        }
    }

    fn get_item_refs(&self) -> (r: Vec<RefKind>) {
        match self {
            InstanceTypeDeclaration::Alias(a) => {
                let v = vec![a.get_item_ref()];
                proof {
                    assert(v@ =~= self.spec_item_refs());
                }
                v
            },
            _ => Vec::new(),
        }
    }
}

impl ReferencedIndices for InstanceTypeDeclaration {
    open spec fn spec_referenced_indices(&self) -> Seq<RefKind> {
        self.spec_type_refs() + self.spec_item_refs()
    }

    fn referenced_indices(&self) -> (r: Vec<RefKind>) {
        let mut refs = self.get_type_refs();
        let mut more = self.get_item_refs();
        refs.append(&mut more);
        refs
    }
}

/// The type references declaration `i` of `decls` makes, in the role of
/// that declaration.
pub open spec fn decl_refs_at<D: GetTypeRefs>(decls: Seq<D>, i: int) -> Seq<RefKind> {
    decls[i].spec_type_refs().map_values(|r: RefKind| RefKind { role: RefRole::Decl(i as usize), ref_: r.ref_ })
}

/// The type references of the declarations `decls`, each in the role of
/// its declaration.
pub open spec fn decls_type_refs<D: GetTypeRefs>(decls: Seq<D>) -> Seq<RefKind> {
    concat_refs(Seq::new(decls.len(), |i: int| decl_refs_at(decls, i)))
}

/// The type references of the declarations `decls`, each in the role of
/// its declaration.
fn collect_decls_type_refs<D: GetTypeRefs>(decls: &Vec<D>) -> (r: Vec<RefKind>)
    requires
        forall|i: int| 0 <= i < decls@.len() ==> (#[trigger] decls@[i]).type_refs_readable(),
    ensures
        r@ == decls_type_refs(decls@),
{
    let mut refs: Vec<RefKind> = Vec::new();
    let ghost parts = Seq::new(decls@.len(), |i: int| decl_refs_at(decls@, i));
    for i in 0..decls.len()
        invariant
            forall|i: int| 0 <= i < decls@.len() ==> (#[trigger] decls@[i]).type_refs_readable(),
            parts == Seq::new(decls@.len(), |i: int| decl_refs_at(decls@, i)),
            refs@ == concat_refs(parts.take(i as int)),
    {
        let ghost before = refs@;
        let inner = decls[i].get_type_refs();
        for j in 0..inner.len()
            invariant
                refs@ == before + inner@.take(j as int).map_values(
                    |r: RefKind| RefKind { role: RefRole::Decl(i as usize), ref_: r.ref_ },
                ),
        {
            refs.push(RefKind::decl(i, inner[j].ref_));
            proof {
                assert(inner@.take(j + 1).map_values(
                    |r: RefKind| RefKind { role: RefRole::Decl(i as usize), ref_: r.ref_ },
                ) =~= inner@.take(j as int).map_values(
                    |r: RefKind| RefKind { role: RefRole::Decl(i as usize), ref_: r.ref_ },
                ).push(RefKind { role: RefRole::Decl(i as usize), ref_: inner@[j as int].ref_ }));
            }
        }
        proof {
            assert(inner@.take(inner@.len() as int) =~= inner@);
            assert(refs@ =~= before + parts[i as int]);
            lemma_concat_refs_step(parts, i as int);
        }
    }
    proof {
        lemma_concat_refs_all(parts);
    }
    refs
}

impl GetTypeRefs for ComponentType {
    /// A defined type's value types; for a component or instance type, the
    /// outward type references of its declarations, each in the role of
    /// its declaration; for a resource, what its core representation type
    /// refers to. A function type's references are those of its
    /// parameters and result.
    open spec fn spec_type_refs(&self) -> Seq<RefKind> {
        match self {
            ComponentType::Defined(d) => d.spec_type_refs(),
            ComponentType::Component(decls) => decls_type_refs(decls@),
            ComponentType::Instance(decls) => decls_type_refs(decls@),
            ComponentType::Resource { rep, .. } => rep.spec_type_refs(),
            ComponentType::Func(_) => Seq::empty(),
        }
    }

    open spec fn type_refs_readable(&self) -> bool {
        match self {
            ComponentType::Resource { rep, .. } => rep.type_refs_readable(),
            _ => true,
        }
    }

    fn get_type_refs(&self) -> (r: Vec<RefKind>) {
        match self {
            ComponentType::Defined(d) => d.get_type_refs(),
            ComponentType::Component(decls) => collect_decls_type_refs(decls),
            ComponentType::Instance(decls) => collect_decls_type_refs(decls),
            ComponentType::Func(_) => Vec::new(),
            ComponentType::Resource { rep, .. } => rep.get_type_refs(),
        }
    }
}

impl GetFuncRefs for ComponentType {
    /// A resource's destructor is a core function.
    open spec fn spec_func_refs(&self) -> Seq<RefKind> {
        match self {
            ComponentType::Resource { dtor: Some(f), .. } => seq![plain(Space::CoreFunc, *f)],
            _ => Seq::empty(),
        }
    }

    fn get_func_refs(&self) -> (r: Vec<RefKind>) {
        match self {
            ComponentType::Resource { dtor: Some(f), .. } => {
                let v = vec![mk_ref(Space::CoreFunc, *f)];
                proof {
                    assert(v@ =~= self.spec_func_refs());
                }
                v
            },
            _ => Vec::new(),
        }
    }
}

impl GetParamRefs for ComponentType {
    open spec fn spec_param_refs(&self) -> Seq<RefKind> {
        match self {
            ComponentType::Func(f) => f.spec_param_refs(),
            _ => Seq::empty(),
        }
    }

    fn get_param_refs(&self) -> (r: Vec<RefKind>) {
        match self {
            ComponentType::Func(f) => f.get_param_refs(),
            _ => Vec::new(),
        }
    }
}

impl GetResultRefs for ComponentType {
    open spec fn spec_result_refs(&self) -> Seq<RefKind> {
        match self {
            ComponentType::Func(f) => f.spec_result_refs(),
            _ => Seq::empty(),
        }
    }

    fn get_result_refs(&self) -> (r: Vec<RefKind>) {
        match self {
            ComponentType::Func(f) => f.get_result_refs(),
            _ => Vec::new(),
        }
    }
}

impl ReferencedIndices for ComponentType {
    open spec fn spec_referenced_indices(&self) -> Seq<RefKind> {
        self.spec_type_refs() + self.spec_func_refs() + self.spec_param_refs() + self.spec_result_refs()
    }

    open spec fn refs_readable(&self) -> bool {
        self.type_refs_readable()
    }

    fn referenced_indices(&self) -> (r: Vec<RefKind>) {
        let mut refs = self.get_type_refs();
        let mut f = self.get_func_refs();
        refs.append(&mut f);
        let mut p = self.get_param_refs();
        refs.append(&mut p);
        let mut q = self.get_result_refs();
        refs.append(&mut q);
        refs
    }
}

} // verus!
