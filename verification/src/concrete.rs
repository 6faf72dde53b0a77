//! Index-free descriptions of the types of a component's imports and
//! exports, for interfaces of the kind WIT defines: instances whose
//! exports are functions and types, and function types.
//!
//! Concretizing follows the references a type makes (aliases, imports,
//! instance type bodies, nested components) to the types they name and
//! builds a description that holds no index. Following stops after a
//! number of nested steps that grows with the size of the component tree
//! (see [`concretize_fuel`]): where a chain of references is that
//! long, the walk puts an `Unresolved` marker where it stopped, and the
//! import or export is then concretized as `Unresolved` as a whole, never
//! as a type the input does not give.

use vstd::prelude::*;
use crate::idx_spaces::{Space, IndexSpaceOf};
use crate::items::{
    ComponentType, ComponentTypeRef, ComponentValType, ComponentDefinedType, ComponentFuncType,
    ComponentInstance, ComponentExport, ComponentAlias, InstanceTypeDeclaration, TypeBounds, VariantCase,
};
use crate::kinds::CompExternKind;
use crate::component::{Component, Built};
use crate::refs::{IndexedRef, Depth, RefKind, GetTypeRefs, GetItemRef, GetCompRefs};
use crate::resolve::ResolvedItem;
use crate::settle::{settle, settled};

verus! {

/// A type with no index in it.
#[derive(Debug)]
pub enum ConcreteType {
    /// An instance: its function exports, by name, and its type exports, by
    /// name.
    Instance { funcs: Vec<(String, ConcreteFuncType)>, type_exports: Vec<(String, ConcreteValType)> },
    /// A function type.
    Func(ConcreteFuncType),
    /// A resource.
    Resource,
    /// What an import or export leads to where following it would take
    /// more nested steps than the limit: the walk stopped there.
    Unresolved,
}

/// A function signature with no index in it.
#[derive(Debug)]
pub struct ConcreteFuncType {
    pub is_async: bool,
    pub params: Vec<(String, ConcreteValType)>,
    pub result: Option<ConcreteValType>,
}

/// A value type with no index in it.
#[derive(Debug)]
pub enum ConcreteValType {
    Primitive(wasmparser::PrimitiveValType),
    Record(Vec<(String, Box<ConcreteValType>)>),
    Variant(Vec<(String, Option<Box<ConcreteValType>>)>),
    List(Box<ConcreteValType>),
    Tuple(Vec<ConcreteValType>),
    Option(Box<ConcreteValType>),
    Result { ok: Option<Box<ConcreteValType>>, err: Option<Box<ConcreteValType>> },
    Flags(Vec<String>),
    Enum(Vec<String>),
    /// A map from the first type to the second.
    MapOf(Box<ConcreteValType>, Box<ConcreteValType>),
    FixedSizeList(Box<ConcreteValType>, u32),
    /// A handle to a resource whose name is not known.
    Resource,
    /// A handle to the resource an instance type exports under this name.
    NamedResource(String),
    /// A future or a stream.
    AsyncHandle,
    /// What a reference leads to where following it would take more
    /// nested steps than the limit: the walk stopped there.
    Unresolved,
}

/// What a [`ConcreteValType`] describes.
pub enum ValDesc {
    Primitive(wasmparser::PrimitiveValType),
    Record(Seq<(Seq<char>, ValDesc)>),
    Variant(Seq<(Seq<char>, Option<ValDesc>)>),
    List(Box<ValDesc>),
    Tuple(Seq<ValDesc>),
    Option(Box<ValDesc>),
    Result { ok: Option<Box<ValDesc>>, err: Option<Box<ValDesc>> },
    Flags(Seq<Seq<char>>),
    Enum(Seq<Seq<char>>),
    MapOf(Box<ValDesc>, Box<ValDesc>),
    FixedSizeList(Box<ValDesc>, u32),
    Resource,
    NamedResource(Seq<char>),
    AsyncHandle,
    Unresolved,
}

/// What a [`ConcreteFuncType`] describes.
pub struct FuncDesc {
    pub is_async: bool,
    pub params: Seq<(Seq<char>, ValDesc)>,
    pub result: Option<ValDesc>,
}

/// What a [`ConcreteType`] describes.
pub enum TypeDesc {
    Instance { funcs: Seq<(Seq<char>, FuncDesc)>, type_exports: Seq<(Seq<char>, ValDesc)> },
    Func(FuncDesc),
    Resource,
    Unresolved,
}

impl ConcreteValType {
    /// What this value type describes.
    pub open spec fn desc(&self) -> ValDesc
        decreases self,
    {
        match self {
            ConcreteValType::Primitive(p) => ValDesc::Primitive(*p),
            ConcreteValType::Record(fs) => ValDesc::Record(boxed_fields_desc(fs@)),
            ConcreteValType::Variant(cs) => ValDesc::Variant(cases_desc(cs@)),
            ConcreteValType::List(t) => ValDesc::List(Box::new(t.desc())),
            ConcreteValType::Tuple(ts) => ValDesc::Tuple(vals_desc(ts@)),
            ConcreteValType::Option(t) => ValDesc::Option(Box::new(t.desc())),
            ConcreteValType::Result { ok, err } => ValDesc::Result { ok: opt_box_desc(*ok), err: opt_box_desc(*err) },
            ConcreteValType::Flags(ns) => ValDesc::Flags(strings_view(ns@)),
            ConcreteValType::Enum(ns) => ValDesc::Enum(strings_view(ns@)),
            ConcreteValType::MapOf(k, v) => ValDesc::MapOf(Box::new(k.desc()), Box::new(v.desc())),
            ConcreteValType::FixedSizeList(t, n) => ValDesc::FixedSizeList(Box::new(t.desc()), *n),
            ConcreteValType::Resource => ValDesc::Resource,
            ConcreteValType::NamedResource(n) => ValDesc::NamedResource(n@),
            ConcreteValType::AsyncHandle => ValDesc::AsyncHandle,
            ConcreteValType::Unresolved => ValDesc::Unresolved,
        }
    }
}

/// What named, boxed value types describe.
pub open spec fn boxed_fields_desc(s: Seq<(String, Box<ConcreteValType>)>) -> Seq<(Seq<char>, ValDesc)>
    decreases s,
{
    if s.len() == 0 {
        Seq::empty()
    } else {
        boxed_fields_desc(s.drop_last()).push((s.last().0@, s.last().1.desc()))
    }
}

/// What variant cases describe.
pub open spec fn cases_desc(s: Seq<(String, Option<Box<ConcreteValType>>)>) -> Seq<(Seq<char>, Option<ValDesc>)>
    decreases s,
{
    if s.len() == 0 {
        Seq::empty()
    } else {
        cases_desc(s.drop_last()).push(
            (
                s.last().0@,
                match s.last().1 {
                    Some(t) => Some(t.desc()),
                    None => None,
                },
            ),
        )
    }
}

/// What value types describe.
pub open spec fn vals_desc(s: Seq<ConcreteValType>) -> Seq<ValDesc>
    decreases s,
{
    if s.len() == 0 {
        Seq::empty()
    } else {
        vals_desc(s.drop_last()).push(s.last().desc())
    }
}

/// What an optional boxed value type describes.
pub open spec fn opt_box_desc(o: Option<Box<ConcreteValType>>) -> Option<Box<ValDesc>>
    decreases o,
{
    match o {
        Some(t) => Some(Box::new(t.desc())),
        None => None,
    }
}

/// The texts of strings.
pub open spec fn strings_view(s: Seq<String>) -> Seq<Seq<char>> {
    s.map_values(|x: String| x@)
}

/// What named value types describe.
pub open spec fn named_vals_desc(s: Seq<(String, ConcreteValType)>) -> Seq<(Seq<char>, ValDesc)>
    decreases s.len(),
{
    if s.len() == 0 {
        Seq::empty()
    } else {
        named_vals_desc(s.drop_last()).push((s.last().0@, s.last().1.desc()))
    }
}

impl ConcreteFuncType {
    /// What this signature describes.
    pub open spec fn desc(&self) -> FuncDesc {
        FuncDesc {
            is_async: self.is_async,
            params: named_vals_desc(self.params@),
            result: match self.result {
                Some(v) => Some(v.desc()),
                None => None,
            },
        }
    }
}

/// What named signatures describe.
pub open spec fn named_funcs_desc(s: Seq<(String, ConcreteFuncType)>) -> Seq<(Seq<char>, FuncDesc)>
    decreases s.len(),
{
    if s.len() == 0 {
        Seq::empty()
    } else {
        named_funcs_desc(s.drop_last()).push((s.last().0@, s.last().1.desc()))
    }
}

impl ConcreteType {
    /// What this type describes.
    pub open spec fn desc(&self) -> TypeDesc {
        match self {
            ConcreteType::Instance { funcs, type_exports } => TypeDesc::Instance {
                funcs: named_funcs_desc(funcs@),
                type_exports: named_vals_desc(type_exports@),
            },
            ConcreteType::Func(f) => TypeDesc::Func(f.desc()),
            ConcreteType::Resource => TypeDesc::Resource,
            ConcreteType::Unresolved => TypeDesc::Unresolved,
        }
    }
}

/// What an optional type describes.
pub open spec fn opt_type_desc(o: Option<ConcreteType>) -> Option<TypeDesc> {
    match o {
        Some(t) => Some(t.desc()),
        None => None,
    }
}

/// What an optional signature describes.
pub open spec fn opt_func_desc(o: Option<ConcreteFuncType>) -> Option<FuncDesc> {
    match o {
        Some(f) => Some(f.desc()),
        None => None,
    }
}

/// The signature that stands for a function whose type the walk did not
/// reach: no parameters, and an [`ConcreteValType::Unresolved`] result.
pub open spec fn unresolved_func_desc() -> FuncDesc {
    FuncDesc { is_async: false, params: Seq::empty(), result: Some(ValDesc::Unresolved) }
}

fn unresolved_func() -> (r: ConcreteFuncType)
    ensures
        r.desc() == unresolved_func_desc(),
{
    let r = ConcreteFuncType { is_async: false, params: Vec::new(), result: Some(ConcreteValType::Unresolved) };
    proof {
        assert(named_vals_desc(r.params@) =~= Seq::empty());
    }
    r
}

/// How many nested steps concretizing takes at least.
pub const CONCRETIZE_FUEL: u32 = 1024;

/// The items of component `c` and of all the components nested in it.
pub open spec fn tree_items(c: Component) -> nat
    decreases c, 1int,
{
    c.total_items() + comps_items(c, c.components@.len() as int)
}

/// The items of the first `n` components nested in `c`, and of theirs.
pub open spec fn comps_items(c: Component, n: int) -> nat
    decreases c, 0int, n,
{
    if n <= 0 || n > c.components@.len() {
        0
    } else {
        comps_items(c, n - 1) + tree_items(c.components@[n - 1])
    }
}

/// How many nested steps concretizing `c` takes at most: [`CONCRETIZE_FUEL`]
/// and eight steps for each item of the component tree, up to `u32::MAX`.
pub open spec fn concretize_fuel(c: Component) -> nat {
    let f = CONCRETIZE_FUEL + 8 * tree_items(c);
    if f > u32::MAX { u32::MAX as nat } else { f as nat }
}

impl Component {
    /// The items of this component tree, if below `cap`; else `cap`.
    fn tree_items_capped(&self, cap: u64) -> (r: u64)
        ensures
            r == (if tree_items(*self) < cap { tree_items(*self) } else { cap as nat }),
        decreases *self,
    {
        let own = sat_add(0, self.modules.len() as u64, cap);
        let own = sat_add(own, self.alias.items.len() as u64, cap);
        let own = sat_add(own, self.core_types.len() as u64, cap);
        let own = sat_add(own, self.component_types.items.len() as u64, cap);
        let own = sat_add(own, self.imports.len() as u64, cap);
        let own = sat_add(own, self.exports.len() as u64, cap);
        let own = sat_add(own, self.instances.len() as u64, cap);
        let own = sat_add(own, self.component_instance.len() as u64, cap);
        let own = sat_add(own, self.canons.items.len() as u64, cap);
        let own = sat_add(own, self.custom_sections.len() as u64, cap);
        let own = sat_add(own, self.start_section.len() as u64, cap);
        let own = sat_add(own, self.components.len() as u64, cap);
        let mut acc = own;
        for i in 0..self.components.len()
            invariant
                acc == (if self.total_items() + comps_items(*self, i as int) < cap {
                    self.total_items() + comps_items(*self, i as int)
                } else {
                    cap as nat
                }),
        {
            proof {
                assert(decreases_to!(*self => self.components));
                assert(decreases_to!(*self => self.components@[i as int]));
            }
            let sub = self.components[i].tree_items_capped(cap);
            acc = sat_add(acc, sub, cap);
        }
        proof {
            assert(self.components@.len() as int == self.components.len());
        }
        acc
    }

    /// How many nested steps concretizing this component takes at most.
    pub fn concretize_fuel(&self) -> (r: u32)
        ensures
            r == concretize_fuel(*self),
    {
        let cap: u64 = (u32::MAX as u64 - CONCRETIZE_FUEL as u64) / 8 + 1;
        let n = self.tree_items_capped(cap);
        if n >= cap {
            u32::MAX
        } else {
            CONCRETIZE_FUEL + 8 * (n as u32)
        }
    }
}

/// `a + b`, or `cap` where that is not below `cap`.
fn sat_add(a: u64, b: u64, cap: u64) -> (r: u64)
    requires
        a <= cap,
    ensures
        r == (if a + b < cap { (a + b) as nat } else { cap as nat }),
{
    if b >= cap - a {
        cap
    } else {
        a + b
    }
}

impl Component {
    /// The component and all the components nested in it are well formed.
    pub open spec fn deep_wf(self) -> bool
        decreases self,
    {
        &&& self.wf()
        &&& forall|i: int| 0 <= i < self.components@.len() ==> (#[trigger] self.components@[i]).deep_wf()
    }
}

/// A component that is what a description says is well formed, and so are
/// its nested components.
pub proof fn lemma_realizes_deep_wf(c: Component, b: Built)
    requires
        c.realizes(b),
    ensures
        c.deep_wf(),
    decreases b,
{
    assert forall|i: int| 0 <= i < c.components@.len() implies (#[trigger] c.components@[i]).deep_wf() by {
        assert(c.components@[i].realizes(b.components[i]));
        lemma_realizes_deep_wf(c.components@[i], b.components[i]);
    }
}

/// Where references inside a type are resolved: in a component's own
/// scope, or in the body of one of its instance types, whose enclosing
/// scope is the component's.
pub struct TypeScope<'a> {
    pub comp: &'a Component,
    pub body: Option<&'a Vec<InstanceTypeDeclaration>>,
}

/// The declaration gives the next index of the type index space of an
/// instance type body.
pub open spec fn decl_adds_type(d: InstanceTypeDeclaration) -> bool {
    match d {
        InstanceTypeDeclaration::Type(_) => true,
        InstanceTypeDeclaration::Alias(a) => a.space_of() == Space::CompType,
        InstanceTypeDeclaration::Export { ty: ComponentTypeRef::Type(_), .. } => true,
        _ => false,
    }
}

/// The number of types the declarations `ds` give.
pub open spec fn decl_type_count(ds: Seq<InstanceTypeDeclaration>) -> nat
    decreases ds.len(),
{
    if ds.len() == 0 {
        0
    } else {
        decl_type_count(ds.drop_last()) + if decl_adds_type(ds.last()) {
            1nat
        } else {
            0nat
        }
    }
}

/// The position of the declaration of `ds` that gives type `n` of the
/// body.
pub open spec fn body_type_pos(ds: Seq<InstanceTypeDeclaration>, n: nat) -> Option<int> {
    if exists|k: int| 0 <= k < ds.len() && decl_adds_type(ds[k]) && #[trigger] decl_type_count(ds.take(k)) == n {
        Some(choose|k: int| 0 <= k < ds.len() && decl_adds_type(ds[k]) && #[trigger] decl_type_count(ds.take(k)) == n)
    } else {
        None
    }
}

/// Counting up to a later position counts at least as many types, and
/// one more past a declaration that gives one.
proof fn lemma_type_count_grows(ds: Seq<InstanceTypeDeclaration>, j: int, k: int)
    requires
        0 <= j <= k <= ds.len(),
    ensures
        decl_type_count(ds.take(j)) <= decl_type_count(ds.take(k)),
        j < k && decl_adds_type(ds[j]) ==> decl_type_count(ds.take(j)) < decl_type_count(ds.take(k)),
    decreases k - j,
{
    if j < k {
        lemma_type_count_grows(ds, j, k - 1);
        assert(ds.take(k).drop_last() =~= ds.take(k - 1));
        if j == k - 1 {
            assert(ds.take(k).last() == ds[j]);
        }
    }
}

/// The item the declaration at position `k` of `ds` gives as type `idx`.
pub open spec fn body_item<'a>(ds: &'a Vec<InstanceTypeDeclaration>, k: int, idx: u32) -> ResolvedItem<'a> {
    match ds@[k] {
        InstanceTypeDeclaration::Type(ty) => ResolvedItem::CompType(idx, &ty),
        InstanceTypeDeclaration::Alias(a) => ResolvedItem::Alias(idx, &a),
        _ => ResolvedItem::InstTyDeclExport(idx, &ds@[k]),
    }
}

/// The position of the declaration of `ds` that gives type `n`.
fn find_body_type(ds: &Vec<InstanceTypeDeclaration>, n: u32) -> (r: Option<usize>)
    ensures
        r == (match body_type_pos(ds@, n as nat) {
            Some(k) => Some(k as usize),
            None => None::<usize>,
        }),
        r matches Some(k) ==> body_type_pos(ds@, n as nat) == Some(k as int),
{
    let mut count: usize = 0;
    let mut i: usize = 0;
    while i < ds.len()
        invariant
            0 <= i <= ds@.len(),
            count == decl_type_count(ds@.take(i as int)),
            count <= i,
            forall|k: int| 0 <= k < i && decl_adds_type(ds@[k]) ==> #[trigger] decl_type_count(ds@.take(k)) != n,
        decreases ds@.len() - i,
    {
        let adds = match &ds[i] {
            InstanceTypeDeclaration::Type(_) => true,
            InstanceTypeDeclaration::Alias(a) => a.index_space_of() == Space::CompType,
            InstanceTypeDeclaration::Export { ty: ComponentTypeRef::Type(_), .. } => true,
            _ => false,
        };
        proof {
            assert(adds == decl_adds_type(ds@[i as int]));
            assert(ds@.take(i + 1).drop_last() =~= ds@.take(i as int));
            assert(ds@.take(i + 1).last() == ds@[i as int]);
        }
        if adds && count == n as usize {
            proof {
                let k = i as int;
                assert(decl_type_count(ds@.take(k)) == n);
                let c = choose|k: int| 0 <= k < ds@.len() && decl_adds_type(ds@[k]) && #[trigger] decl_type_count(ds@.take(k)) == n;
                if c != k {
                    if c < k {
                        lemma_type_count_grows(ds@, c, k);
                    } else {
                        lemma_type_count_grows(ds@, k, c);
                    }
                }
                assert(body_type_pos(ds@, n as nat) == Some(k));
            }
            return Some(i);
        }
        if adds {
            count = count + 1;
        }
        i = i + 1;
    }
    proof {
        assert(ds@.take(ds@.len() as int) =~= ds@);
        assert(!exists|k: int| 0 <= k < ds@.len() && decl_adds_type(ds@[k]) && #[trigger] decl_type_count(ds@.take(k)) == n);
    }
    None
}

/// What `r` names in `cx`, if anything: in a component's scope, an item
/// of it; in an instance type body, a type the body gives (for the
/// current scope) or an item of the component (one scope out).
pub open spec fn scope_resolve<'a>(cx: TypeScope<'a>, r: IndexedRef) -> Option<ResolvedItem<'a>> {
    let comp_item = if cx.comp.resolvable(r) {
        Some(cx.comp.resolve_spec(r))
    } else {
        None
    };
    match cx.body {
        None => if r.depth.level() == 0 {
            comp_item
        } else {
            None
        },
        Some(ds) => if r.depth.level() == 0 {
            if r.space == Space::CompType {
                match body_type_pos(ds@, r.index as nat) {
                    Some(k) => Some(body_item(ds, k, r.index)),
                    None => None,
                }
            } else {
                None
            }
        } else if r.depth.level() == 1 {
            comp_item
        } else {
            None
        },
    }
}

impl<'a> TypeScope<'a> {
    /// Resolves `r` in this scope.
    pub fn resolve(&self, r: &IndexedRef) -> (res: Option<ResolvedItem<'a>>)
        requires
            self.comp.wf(),
        ensures
            res == scope_resolve(*self, *r),
    {
        let level = r.depth.val();
        match self.body {
            None => if level == 0 {
                self.comp.try_resolve(r)
            } else {
                None
            },
            Some(ds) => if level == 0 {
                if r.space == Space::CompType {
                    match find_body_type(ds, r.index) {
                        Some(k) => {
                            proof {
                                assert(body_type_pos(ds@, r.index as nat) == Some(k as int));
                            }
                            let item = match &ds[k] {
                                InstanceTypeDeclaration::Type(ty) => ResolvedItem::CompType(r.index, ty),
                                InstanceTypeDeclaration::Alias(a) => ResolvedItem::Alias(r.index, a),
                                d => ResolvedItem::InstTyDeclExport(r.index, d),
                            };
                            proof {
                                assert(item == body_item(ds, k as int, r.index));
                            }
                            Some(item)
                        },
                        None => None,
                    }
                } else {
                    None
                }
            } else if level == 1 {
                self.comp.try_resolve(r)
            } else {
                None
            },
        }
    }
}

/// A reference of the current scope to type `index`.
pub open spec fn type_ref(index: u32) -> IndexedRef {
    IndexedRef { depth: Depth::at_level(0), space: Space::CompType, index }
}

fn make_type_ref(index: u32) -> (r: IndexedRef)
    ensures
        r == type_ref(index),
{
    IndexedRef { depth: Depth::default(), space: Space::CompType, index }
}

/// `resolved` is, or names through at most `16 - depth` more aliases, a
/// resource type or an import of a resource.
pub open spec fn resolved_is_resource<'a>(resolved: Option<ResolvedItem<'a>>, cx: TypeScope<'a>, depth: nat) -> bool
    decreases 17 - depth,
{
    if depth > 16 {
        false
    } else {
        match resolved {
            Some(ResolvedItem::CompType(_, ComponentType::Resource { .. })) => true,
            Some(ResolvedItem::Import(_, imp)) => imp.ty matches ComponentTypeRef::Type(TypeBounds::SubResource),
            Some(ResolvedItem::Alias(_, a)) => resolved_is_resource(
                scope_resolve(cx, a.spec_item_ref().ref_),
                cx,
                depth + 1,
            ),
            _ => false,
        }
    }
}

/// Whether `resolved` is, or names through aliases, a resource.
fn is_resource<'a>(resolved: Option<ResolvedItem<'a>>, cx: &TypeScope<'a>, depth: u32) -> (r: bool)
    requires
        cx.comp.wf(),
    ensures
        r == resolved_is_resource(resolved, *cx, depth as nat),
    decreases 17 - depth,
{
    if depth > 16 {
        return false;
    }
    match resolved {
        Some(ResolvedItem::CompType(_, ComponentType::Resource { .. })) => true,
        Some(ResolvedItem::Import(_, imp)) => matches!(imp.ty, ComponentTypeRef::Type(TypeBounds::SubResource)),
        Some(ResolvedItem::Alias(_, a)) => {
            let next = cx.resolve(&a.get_item_ref().ref_);
            is_resource(next, cx, depth + 1)
        },
        _ => false,
    }
}

/// The last name recorded for key `k`.
pub open spec fn map_get(m: Seq<(u32, String)>, k: u32) -> Option<String>
    decreases m.len(),
{
    if m.len() == 0 {
        None
    } else if m.last().0 == k {
        Some(m.last().1)
    } else {
        map_get(m.drop_last(), k)
    }
}

/// The last name recorded for key `k`.
fn map_lookup(m: &Vec<(u32, String)>, k: u32) -> (r: Option<String>)
    ensures
        r == map_get(m@, k),
{
    let mut i = m.len();
    proof {
        assert(m@.take(i as int) =~= m@);
    }
    while i > 0
        invariant
            i <= m@.len(),
            map_get(m@, k) == map_get(m@.take(i as int), k),
        decreases i,
    {
        proof {
            assert(m@.take(i as int).drop_last() =~= m@.take(i - 1));
            assert(m@.take(i as int).last() == m@[i - 1]);
        }
        if m[i - 1].0 == k {
            return Some(m[i - 1].1.clone());
        }
        i = i - 1;
    }
    proof {
        assert(m@.take(0) =~= Seq::<(u32, String)>::empty());
    }
    None
}

/// The declaration gives the next index of the type space of an instance
/// type body, as counted when naming resources: every alias counts.
pub open spec fn counts_as_type(d: InstanceTypeDeclaration) -> bool {
    match d {
        InstanceTypeDeclaration::Export { ty: ComponentTypeRef::Type(_), .. } => true,
        InstanceTypeDeclaration::Type(_) => true,
        InstanceTypeDeclaration::Alias(_) => true,
        _ => false,
    }
}

/// The number of declarations of `ds` that count as types.
pub open spec fn inst_type_count(ds: Seq<InstanceTypeDeclaration>) -> nat
    decreases ds.len(),
{
    if ds.len() == 0 {
        0
    } else {
        inst_type_count(ds.drop_last()) + if counts_as_type(ds.last()) {
            1nat
        } else {
            0nat
        }
    }
}

/// The resources an instance type body exports, by the index of their
/// type: the resource exported at type `n` gives `(n, name)`.
pub open spec fn inst_resource_map(ds: Seq<InstanceTypeDeclaration>) -> Seq<(u32, String)>
    decreases ds.len(),
{
    if ds.len() == 0 {
        Seq::empty()
    } else {
        let prev = inst_resource_map(ds.drop_last());
        match ds.last() {
            InstanceTypeDeclaration::Export { name, ty: ComponentTypeRef::Type(TypeBounds::SubResource) } => prev.push(
                (inst_type_count(ds.drop_last()) as u32, name),
            ),
            _ => prev,
        }
    }
}

/// The names of the resources an instance type body exports, by the index
/// of their type.
fn build_instance_resource_map(ds: &Vec<InstanceTypeDeclaration>) -> (r: Vec<(u32, String)>)
    ensures
        r@ == inst_resource_map(ds@),
{
    let mut out: Vec<(u32, String)> = Vec::new();
    let mut count: usize = 0;
    for i in 0..ds.len()
        invariant
            out@ == inst_resource_map(ds@.take(i as int)),
            count == inst_type_count(ds@.take(i as int)),
            count <= i,
    {
        proof {
            assert(ds@.take(i + 1).drop_last() =~= ds@.take(i as int));
            assert(ds@.take(i + 1).last() == ds@[i as int]);
        }
        match &ds[i] {
            InstanceTypeDeclaration::Export { name, ty: ComponentTypeRef::Type(TypeBounds::SubResource) } => {
                out.push((count as u32, name.clone()));
                count = count + 1;
            },
            InstanceTypeDeclaration::Export { ty: ComponentTypeRef::Type(_), .. } => {
                count = count + 1;
            },
            InstanceTypeDeclaration::Type(_) => {
                count = count + 1;
            },
            InstanceTypeDeclaration::Alias(_) => {
                count = count + 1;
            },
            _ => {},
        }
    }
    proof {
        assert(ds@.take(ds@.len() as int) =~= ds@);
    }
    out
}

/// The resources a component exports as types, by the index of the type:
/// each type export whose type is, or names, a resource gives
/// `(index, name)`.
pub open spec fn comp_resource_map<'a>(exports: Seq<ComponentExport>, cx: TypeScope<'a>) -> Seq<(u32, String)>
    decreases exports.len(),
{
    if exports.len() == 0 {
        Seq::empty()
    } else {
        let prev = comp_resource_map(exports.drop_last(), cx);
        let e = exports.last();
        if e.kind == CompExternKind::Type && resolved_is_resource(scope_resolve(cx, type_ref(e.index)), cx, 0) {
            prev.push((e.index, e.name))
        } else {
            prev
        }
    }
}

/// The names of the resources the component of `cx` exports as types.
fn build_component_resource_map<'a>(cx: &TypeScope<'a>) -> (r: Vec<(u32, String)>)
    requires
        cx.comp.wf(),
    ensures
        r@ == comp_resource_map(cx.comp.exports@, *cx),
{
    let exports = &cx.comp.exports;
    let mut out: Vec<(u32, String)> = Vec::new();
    for i in 0..exports.len()
        invariant
            cx.comp.wf(),
            exports@ == cx.comp.exports@,
            out@ == comp_resource_map(exports@.take(i as int), *cx),
    {
        proof {
            assert(exports@.take(i + 1).drop_last() =~= exports@.take(i as int));
            assert(exports@.take(i + 1).last() == exports@[i as int]);
        }
        let e = &exports[i];
        if e.kind == CompExternKind::Type {
            let resolved = cx.resolve(&make_type_ref(e.index));
            if is_resource(resolved, cx, 0) {
                out.push((e.index, e.name.clone()));
            }
        }
    }
    proof {
        assert(exports@.take(exports@.len() as int) =~= exports@);
    }
    out
}

// ---------------------------------------------------------------------
// What concretizing gives
// ---------------------------------------------------------------------

/// What `r` names in the own scope of component `c`, if anything.
pub open spec fn comp_lookup<'a>(c: &'a Component, r: IndexedRef) -> Option<ResolvedItem<'a>> {
    if c.resolvable(r) {
        Some(c.resolve_spec(r))
    } else {
        None
    }
}

/// The first of `refs`, if any.
pub open spec fn first_ref(refs: Seq<RefKind>) -> Option<RefKind> {
    if refs.len() > 0 {
        Some(refs[0])
    } else {
        None
    }
}

/// The own scope of component `c`.
pub open spec fn comp_scope<'a>(c: &'a Component) -> TypeScope<'a> {
    TypeScope { comp: c, body: None }
}

/// A reference of the current scope to component instance `index`.
pub open spec fn inst_ref(index: u32) -> IndexedRef {
    IndexedRef { depth: Depth::at_level(0), space: Space::CompInst, index }
}

/// The nested component that component instance `idx` of `c`
/// instantiates, if it is one that `c` instantiates.
pub open spec fn instantiated_comp<'a>(c: &'a Component, idx: u32) -> Option<&'a Component> {
    match comp_lookup(c, inst_ref(idx)) {
        Some(ResolvedItem::CompInst(_, inst)) => match first_ref(inst.spec_comp_refs()) {
            Some(cr) => match comp_lookup(c, cr.ref_) {
                Some(ResolvedItem::Component(_, n)) => Some(n),
                _ => None,
            },
            None => None,
        },
        _ => None,
    }
}

/// The name of the first of `refs` whose index has a name in `rm`.
pub open spec fn first_mapped(refs: Seq<RefKind>, rm: Seq<(u32, String)>) -> Option<String>
    decreases refs.len(),
{
    if refs.len() == 0 {
        None
    } else {
        match map_get(rm, refs[0].ref_.index) {
            Some(n) => Some(n),
            None => first_mapped(refs.drop_first(), rm),
        }
    }
}

/// The signature of the first function named `name` in `funcs`.
pub open spec fn find_func(funcs: Seq<(Seq<char>, FuncDesc)>, name: Seq<char>) -> Option<FuncDesc>
    decreases funcs.len(),
{
    if funcs.len() == 0 {
        None
    } else if funcs[0].0 == name {
        Some(funcs[0].1)
    } else {
        find_func(funcs.drop_first(), name)
    }
}

/// What the first export of `c` named `name` is, concretized.
pub open spec fn export_desc<'a>(c: &'a Component, name: Seq<char>, f: nat) -> Option<TypeDesc>
    decreases f, 0nat,
{
    if f == 0 {
        Some(TypeDesc::Unresolved)
    } else {
        let g = (f - 1) as nat;
        match c.first_export_named(name) {
            None => None,
            Some(i) => match comp_lookup(c, c.exports@[i].spec_item_ref().ref_) {
                Some(ResolvedItem::CompType(_, ty)) => comp_type_desc(c, ty, g),
                Some(ResolvedItem::CompInst(_, ComponentInstance::FromExports(es))) => from_exports_desc(c, es@, g),
                Some(ResolvedItem::CompInst(_, inst)) => {
                    let via_comp = match first_ref(inst.spec_comp_refs()) {
                        Some(cr) => match comp_lookup(c, cr.ref_) {
                            Some(ResolvedItem::Component(_, n)) => comp_func_exports_desc(n, g),
                            _ => None,
                        },
                        None => None,
                    };
                    if via_comp is Some {
                        via_comp
                    } else {
                        import_desc(c, name, g)
                    }
                },
                Some(ResolvedItem::Import(_, imp)) => match first_ref(imp.spec_type_refs()) {
                    Some(tr) => match comp_lookup(c, tr.ref_) {
                        Some(ResolvedItem::CompType(_, ty)) => comp_type_desc(c, ty, g),
                        _ => None,
                    },
                    None => None,
                },
                _ => None,
            },
        }
    }
}

/// What the type of the first import of `c` named `name` is, concretized.
pub open spec fn import_desc<'a>(c: &'a Component, name: Seq<char>, f: nat) -> Option<TypeDesc>
    decreases f, 0nat,
{
    if f == 0 {
        Some(TypeDesc::Unresolved)
    } else {
        let g = (f - 1) as nat;
        match c.first_import_named(name) {
            Some(i) => match c.import_type_ref(i) {
                Some(t) => match comp_lookup(c, t.ref_) {
                    Some(ResolvedItem::CompType(_, ty)) => comp_type_desc(c, ty, g),
                    _ => None,
                },
                None => None,
            },
            None => None,
        }
    }
}

/// What component type `ty` of `c` is, concretized: an instance type or a
/// function type, or a resource.
pub open spec fn comp_type_desc<'a>(c: &'a Component, ty: &'a ComponentType, f: nat) -> Option<TypeDesc>
    decreases f, 0nat,
{
    if f == 0 {
        Some(TypeDesc::Unresolved)
    } else {
        let g = (f - 1) as nat;
        match ty {
            ComponentType::Instance(ds) => {
                let cx = TypeScope { comp: c, body: Some(ds) };
                let rm = inst_resource_map(ds@);
                Some(TypeDesc::Instance { funcs: inst_funcs_desc(ds@, cx, rm, g), type_exports: inst_types_desc(ds@, cx, rm, g) })
            },
            ComponentType::Func(ft) => Some(TypeDesc::Func(func_ty_desc(ft, comp_scope(c), Seq::empty(), g))),
            ComponentType::Resource { .. } => Some(TypeDesc::Resource),
            _ => None,
        }
    }
}

/// The function exports among the declarations `ds` of an instance type
/// body, concretized.
pub open spec fn inst_funcs_desc<'a>(
    ds: Seq<InstanceTypeDeclaration>,
    cx: TypeScope<'a>,
    rm: Seq<(u32, String)>,
    h: nat,
) -> Seq<(Seq<char>, FuncDesc)>
    decreases h, ds.len(),
{
    if ds.len() == 0 {
        Seq::empty()
    } else {
        let prev = inst_funcs_desc(ds.drop_last(), cx, rm, h);
        match ds.last() {
            InstanceTypeDeclaration::Export { name, .. } => match first_ref(ds.last().spec_type_refs()) {
                Some(tr) => match func_of_resolved(scope_resolve(cx, tr.ref_), cx, rm, h) {
                    Some(fd) => prev.push((name@, fd)),
                    None => prev,
                },
                None => prev,
            },
            _ => prev,
        }
    }
}

/// The type exports among the declarations `ds` of an instance type body,
/// concretized: a resource export by its name, an export of a type equal
/// to another by what that type is.
pub open spec fn inst_types_desc<'a>(
    ds: Seq<InstanceTypeDeclaration>,
    cx: TypeScope<'a>,
    rm: Seq<(u32, String)>,
    h: nat,
) -> Seq<(Seq<char>, ValDesc)>
    decreases h, ds.len(),
{
    if ds.len() == 0 {
        Seq::empty()
    } else {
        let prev = inst_types_desc(ds.drop_last(), cx, rm, h);
        match ds.last() {
            InstanceTypeDeclaration::Export { name, ty } => match first_ref(ds.last().spec_type_refs()) {
                Some(tr) => {
                    let resolved = scope_resolve(cx, tr.ref_);
                    if func_of_resolved(resolved, cx, rm, h) is Some {
                        prev
                    } else {
                        match ty {
                            ComponentTypeRef::Type(TypeBounds::SubResource) => prev.push(
                                (name@, ValDesc::NamedResource(name@)),
                            ),
                            ComponentTypeRef::Type(TypeBounds::Eq(_)) => match val_of_resolved(resolved, cx, rm, h) {
                                Some(v) => prev.push((name@, v)),
                                None => prev,
                            },
                            _ => prev,
                        }
                    }
                },
                None => prev,
            },
            _ => prev,
        }
    }
}

/// What a resolved item is as a value type, where it is a defined type,
/// a resource, or an import whose type is one.
pub open spec fn val_of_resolved<'a>(
    resolved: Option<ResolvedItem<'a>>,
    cx: TypeScope<'a>,
    rm: Seq<(u32, String)>,
    f: nat,
) -> Option<ValDesc>
    decreases f, 0nat,
{
    if f == 0 {
        Some(ValDesc::Unresolved)
    } else {
        let g = (f - 1) as nat;
        match resolved {
            Some(ResolvedItem::CompType(_, ComponentType::Defined(dt))) => Some(defined_desc(dt, cx, rm, g)),
            Some(ResolvedItem::CompType(_, ComponentType::Resource { .. })) => Some(ValDesc::Resource),
            Some(ResolvedItem::Import(_, imp)) => first_val_of_refs(imp.spec_type_refs(), cx, rm, g),
            _ => None,
        }
    }
}

/// What the first of `refs` that is a value type is.
pub open spec fn first_val_of_refs<'a>(
    refs: Seq<RefKind>,
    cx: TypeScope<'a>,
    rm: Seq<(u32, String)>,
    h: nat,
) -> Option<ValDesc>
    decreases h, refs.len(),
{
    if refs.len() == 0 {
        None
    } else {
        match val_of_resolved(comp_lookup(cx.comp, refs[0].ref_), cx, rm, h) {
            Some(v) => Some(v),
            None => first_val_of_refs(refs.drop_first(), cx, rm, h),
        }
    }
}

/// What a resolved item is as a function type, following outer aliases,
/// aliases of exports of instances and imports.
pub open spec fn func_of_resolved<'a>(
    resolved: Option<ResolvedItem<'a>>,
    cx: TypeScope<'a>,
    rm: Seq<(u32, String)>,
    f: nat,
) -> Option<FuncDesc>
    decreases f, 0nat,
{
    if f == 0 {
        Some(unresolved_func_desc())
    } else {
        let g = (f - 1) as nat;
        match resolved {
            Some(ResolvedItem::CompType(_, ComponentType::Func(ft))) => Some(func_ty_desc(ft, cx, rm, g)),
            Some(ResolvedItem::Alias(_, a)) => match a {
                ComponentAlias::Outer { .. } => func_of_resolved(scope_resolve(cx, a.spec_item_ref().ref_), cx, rm, g),
                ComponentAlias::InstanceExport { instance_index, name, .. } => match instantiated_comp(
                    cx.comp,
                    *instance_index,
                ) {
                    Some(n) => match export_desc(n, name@, g) {
                        Some(TypeDesc::Func(fd)) => Some(fd),
                        _ => None,
                    },
                    None => func_from_import_instance(cx.comp, *instance_index, name@, g),
                },
                _ => None,
            },
            Some(ResolvedItem::Import(_, imp)) => match first_ref(imp.spec_type_refs()) {
                Some(tr) => match comp_lookup(cx.comp, tr.ref_) {
                    Some(ResolvedItem::CompType(_, ComponentType::Func(ft))) => Some(func_ty_desc(ft, cx, rm, g)),
                    _ => None,
                },
                None => None,
            },
            _ => None,
        }
    }
}

/// What function type `ft` is, concretized.
pub open spec fn func_ty_desc<'a>(ft: &'a ComponentFuncType, cx: TypeScope<'a>, rm: Seq<(u32, String)>, f: nat) -> FuncDesc
    decreases f, 0nat,
{
    if f == 0 {
        FuncDesc { is_async: ft.async_, params: Seq::empty(), result: Some(ValDesc::Unresolved) }
    } else {
        let g = (f - 1) as nat;
        FuncDesc {
            is_async: ft.async_,
            params: named_types_desc(ft.params@, cx, rm, g),
            result: match ft.result {
                Some(t) => Some(val_desc(t, cx, rm, g)),
                None => None,
            },
        }
    }
}

/// What named value types (parameters, record fields) are.
pub open spec fn named_types_desc<'a>(
    ps: Seq<(String, ComponentValType)>,
    cx: TypeScope<'a>,
    rm: Seq<(u32, String)>,
    h: nat,
) -> Seq<(Seq<char>, ValDesc)>
    decreases h, ps.len(),
{
    if ps.len() == 0 {
        Seq::empty()
    } else {
        named_types_desc(ps.drop_last(), cx, rm, h).push((ps.last().0@, val_desc(ps.last().1, cx, rm, h)))
    }
}

/// What the cases of a variant are.
pub open spec fn cases_types_desc<'a>(
    cs: Seq<VariantCase>,
    cx: TypeScope<'a>,
    rm: Seq<(u32, String)>,
    h: nat,
) -> Seq<(Seq<char>, Option<ValDesc>)>
    decreases h, cs.len(),
{
    if cs.len() == 0 {
        Seq::empty()
    } else {
        cases_types_desc(cs.drop_last(), cx, rm, h).push(
            (
                cs.last().name@,
                match cs.last().ty {
                    Some(t) => Some(val_desc(t, cx, rm, h)),
                    None => None,
                },
            ),
        )
    }
}

/// What value types are.
pub open spec fn types_desc<'a>(ts: Seq<ComponentValType>, cx: TypeScope<'a>, rm: Seq<(u32, String)>, h: nat) -> Seq<ValDesc>
    decreases h, ts.len(),
{
    if ts.len() == 0 {
        Seq::empty()
    } else {
        types_desc(ts.drop_last(), cx, rm, h).push(val_desc(ts.last(), cx, rm, h))
    }
}

/// What value type `ty` is.
pub open spec fn val_desc<'a>(ty: ComponentValType, cx: TypeScope<'a>, rm: Seq<(u32, String)>, f: nat) -> ValDesc
    decreases f, 0nat,
{
    if f == 0 {
        ValDesc::Unresolved
    } else {
        let g = (f - 1) as nat;
        match ty {
            ComponentValType::Primitive(p) => ValDesc::Primitive(p),
            ComponentValType::Type(i) => from_resolved_desc(scope_resolve(cx, type_ref(i)), cx, rm, g),
        }
    }
}

/// What the type a resolved item names is, as a value type; a resource
/// where it names no value type.
pub open spec fn from_resolved_desc<'a>(
    resolved: Option<ResolvedItem<'a>>,
    cx: TypeScope<'a>,
    rm: Seq<(u32, String)>,
    f: nat,
) -> ValDesc
    decreases f, 0nat,
{
    if f == 0 {
        ValDesc::Unresolved
    } else {
        let g = (f - 1) as nat;
        match resolved {
            Some(ResolvedItem::CompType(_, ComponentType::Defined(dt))) => defined_desc(dt, cx, rm, g),
            Some(ResolvedItem::Alias(_, a)) => match a {
                ComponentAlias::Outer { .. } => from_resolved_desc(scope_resolve(cx, a.spec_item_ref().ref_), cx, rm, g),
                ComponentAlias::InstanceExport { instance_index, name, .. } => match instantiated_comp(
                    cx.comp,
                    *instance_index,
                ) {
                    None => type_from_import_instance(cx.comp, *instance_index, name@, g),
                    Some(_) => ValDesc::Resource,
                },
                _ => ValDesc::Resource,
            },
            Some(ResolvedItem::Import(_, imp)) => match first_ref(imp.spec_type_refs()) {
                Some(tr) => from_resolved_desc(scope_resolve(cx, tr.ref_), cx, rm, g),
                None => ValDesc::Resource,
            },
            Some(ResolvedItem::InstTyDeclExport(_, d)) => match first_ref(d.spec_type_refs()) {
                Some(tr) => from_resolved_desc(scope_resolve(cx, tr.ref_), cx, rm, g),
                None => ValDesc::Resource,
            },
            _ => ValDesc::Resource,
        }
    }
}

/// What defined type `dt` is: its parts concretized; an owned handle to a
/// resource by the resource's name where `rm` gives one.
pub open spec fn defined_desc<'a>(dt: &'a ComponentDefinedType, cx: TypeScope<'a>, rm: Seq<(u32, String)>, f: nat) -> ValDesc
    decreases f, 0nat,
{
    if f == 0 {
        ValDesc::Unresolved
    } else {
        let g = (f - 1) as nat;
        match dt {
            ComponentDefinedType::Primitive(p) => ValDesc::Primitive(*p),
            ComponentDefinedType::Record(fs) => ValDesc::Record(named_types_desc(fs@, cx, rm, g)),
            ComponentDefinedType::Variant(cs) => ValDesc::Variant(cases_types_desc(cs@, cx, rm, g)),
            ComponentDefinedType::List(t) => ValDesc::List(Box::new(val_desc(*t, cx, rm, g))),
            ComponentDefinedType::Tuple(ts) => ValDesc::Tuple(types_desc(ts@, cx, rm, g)),
            ComponentDefinedType::Option(t) => ValDesc::Option(Box::new(val_desc(*t, cx, rm, g))),
            ComponentDefinedType::Result { ok, err } => ValDesc::Result {
                ok: match ok {
                    Some(t) => Some(Box::new(val_desc(*t, cx, rm, g))),
                    None => None,
                },
                err: match err {
                    Some(t) => Some(Box::new(val_desc(*t, cx, rm, g))),
                    None => None,
                },
            },
            ComponentDefinedType::Flags(ns) => ValDesc::Flags(strings_view(ns@)),
            ComponentDefinedType::Enum(ns) => ValDesc::Enum(strings_view(ns@)),
            ComponentDefinedType::MapOf(k, v) => ValDesc::MapOf(
                Box::new(val_desc(*k, cx, rm, g)),
                Box::new(val_desc(*v, cx, rm, g)),
            ),
            ComponentDefinedType::FixedLengthList(t, n) => ValDesc::FixedSizeList(Box::new(val_desc(*t, cx, rm, g)), *n),
            ComponentDefinedType::Own(i) => match map_get(rm, *i) {
                Some(n) => ValDesc::NamedResource(n@),
                None => match scope_resolve(cx, type_ref(*i)) {
                    Some(ResolvedItem::Import(_, imp)) => match first_mapped(imp.spec_type_refs(), rm) {
                        Some(n) => ValDesc::NamedResource(n@),
                        None => ValDesc::Resource,
                    },
                    _ => ValDesc::Resource,
                },
            },
            ComponentDefinedType::Borrow(_) => ValDesc::Resource,
            ComponentDefinedType::Future(_) => ValDesc::AsyncHandle,
            ComponentDefinedType::Stream(_) => ValDesc::AsyncHandle,
        }
    }
}

/// What an optional part of a defined type (the ok or error type of a
/// result) is.
pub open spec fn part_desc<'a>(o: Option<ComponentValType>, cx: TypeScope<'a>, rm: Seq<(u32, String)>, h: nat) -> Option<
    Box<ValDesc>,
> {
    match o {
        Some(t) => Some(Box::new(val_desc(t, cx, rm, h))),
        None => None,
    }
}

/// Each named type of `ps` is described at its own position, under its
/// own name.
proof fn lemma_named_types_desc_at<'a>(ps: Seq<(String, ComponentValType)>, cx: TypeScope<'a>, rm: Seq<(u32, String)>, h: nat)
    ensures
        named_types_desc(ps, cx, rm, h).len() == ps.len(),
        forall|i: int|
            0 <= i < ps.len() ==> #[trigger] named_types_desc(ps, cx, rm, h)[i] == (ps[i].0@, val_desc(ps[i].1, cx, rm, h)),
    decreases ps.len(),
{
    if ps.len() > 0 {
        lemma_named_types_desc_at(ps.drop_last(), cx, rm, h);
        assert forall|i: int| 0 <= i < ps.len() - 1 implies #[trigger] ps.drop_last()[i] == ps[i] by {}
    }
}

/// Each case of `cs` is described at its own position, under its own name.
proof fn lemma_cases_types_desc_at<'a>(cs: Seq<VariantCase>, cx: TypeScope<'a>, rm: Seq<(u32, String)>, h: nat)
    ensures
        cases_types_desc(cs, cx, rm, h).len() == cs.len(),
        forall|i: int|
            0 <= i < cs.len() ==> #[trigger] cases_types_desc(cs, cx, rm, h)[i] == (
                cs[i].name@,
                match cs[i].ty {
                    Some(t) => Some(val_desc(t, cx, rm, h)),
                    None => None,
                },
            ),
    decreases cs.len(),
{
    if cs.len() > 0 {
        lemma_cases_types_desc_at(cs.drop_last(), cx, rm, h);
        assert forall|i: int| 0 <= i < cs.len() - 1 implies #[trigger] cs.drop_last()[i] == cs[i] by {}
    }
}

/// Each type of `ts` is described at its own position.
proof fn lemma_types_desc_at<'a>(ts: Seq<ComponentValType>, cx: TypeScope<'a>, rm: Seq<(u32, String)>, h: nat)
    ensures
        types_desc(ts, cx, rm, h).len() == ts.len(),
        forall|i: int| 0 <= i < ts.len() ==> #[trigger] types_desc(ts, cx, rm, h)[i] == val_desc(ts[i], cx, rm, h),
    decreases ts.len(),
{
    if ts.len() > 0 {
        lemma_types_desc_at(ts.drop_last(), cx, rm, h);
        assert forall|i: int| 0 <= i < ts.len() - 1 implies #[trigger] ts.drop_last()[i] == ts[i] by {}
    }
}

/// A defined type is concretized part by part, each part in its own place:
/// the element of a list, an option or a fixed-length list; the ok type of
/// a result in the ok place and its error type in the error place; the key
/// and value types of a map in theirs; and each record field, variant case
/// and tuple member at its own position, under its own name. Each part is
/// concretized as the value type it is, one nested step further down.
pub proof fn law_concretized_parts_keep_their_places<'a>(
    dt: &'a ComponentDefinedType,
    cx: TypeScope<'a>,
    rm: Seq<(u32, String)>,
    f: nat,
)
    requires
        f > 0,
    ensures
        ({
            let g = (f - 1) as nat;
            let d = defined_desc(dt, cx, rm, f);
            &&& *dt matches ComponentDefinedType::List(t) ==> d == ValDesc::List(Box::new(val_desc(t, cx, rm, g)))
            &&& *dt matches ComponentDefinedType::Option(t) ==> d == ValDesc::Option(Box::new(val_desc(t, cx, rm, g)))
            &&& *dt matches ComponentDefinedType::FixedLengthList(t, n) ==> d == ValDesc::FixedSizeList(
                Box::new(val_desc(t, cx, rm, g)),
                n,
            )
            &&& *dt matches ComponentDefinedType::MapOf(k, v) ==> d == ValDesc::MapOf(
                Box::new(val_desc(k, cx, rm, g)),
                Box::new(val_desc(v, cx, rm, g)),
            )
            &&& *dt matches ComponentDefinedType::Result { ok, err } ==> d == (ValDesc::Result {
                ok: part_desc(ok, cx, rm, g),
                err: part_desc(err, cx, rm, g),
            })
            &&& *dt matches ComponentDefinedType::Record(fs) ==> (d matches ValDesc::Record(ds) && ds.len() == fs@.len()
                && forall|i: int|
                0 <= i < fs@.len() ==> #[trigger] ds[i] == (fs@[i].0@, val_desc(fs@[i].1, cx, rm, g)))
            &&& *dt matches ComponentDefinedType::Tuple(ts) ==> (d matches ValDesc::Tuple(ds) && ds.len() == ts@.len()
                && forall|i: int| 0 <= i < ts@.len() ==> #[trigger] ds[i] == val_desc(ts@[i], cx, rm, g))
            &&& *dt matches ComponentDefinedType::Variant(cs) ==> (d matches ValDesc::Variant(ds) && ds.len() == cs@.len()
                && forall|i: int|
                0 <= i < cs@.len() ==> #[trigger] ds[i] == (
                    cs@[i].name@,
                    match cs@[i].ty {
                        Some(t) => Some(val_desc(t, cx, rm, g)),
                        None => None,
                    },
                ))
        }),
{
    let g = (f - 1) as nat;
    match dt {
        ComponentDefinedType::Record(fs) => lemma_named_types_desc_at(fs@, cx, rm, g),
        ComponentDefinedType::Tuple(ts) => lemma_types_desc_at(ts@, cx, rm, g),
        ComponentDefinedType::Variant(cs) => lemma_cases_types_desc_at(cs@, cx, rm, g),
        _ => {},
    }
}

/// A function type is concretized parameter by parameter, each at its own
/// position under its own name, and its result as the value type it is,
/// one nested step further down; whether it is async is kept.
pub proof fn law_concretized_function_keeps_its_parameters<'a>(
    ft: &'a ComponentFuncType,
    cx: TypeScope<'a>,
    rm: Seq<(u32, String)>,
    f: nat,
)
    requires
        f > 0,
    ensures
        ({
            let g = (f - 1) as nat;
            let d = func_ty_desc(ft, cx, rm, f);
            &&& d.is_async == ft.async_
            &&& d.params.len() == ft.params@.len()
            &&& forall|i: int|
                0 <= i < ft.params@.len() ==> #[trigger] d.params[i] == (
                    ft.params@[i].0@,
                    val_desc(ft.params@[i].1, cx, rm, g),
                )
            &&& d.result == match ft.result {
                Some(t) => Some(val_desc(t, cx, rm, g)),
                None => None,
            }
        }),
{
    lemma_named_types_desc_at(ft.params@, cx, rm, (f - 1) as nat);
}

/// An instance made of the exports `es` of component `c`, concretized:
/// its function exports.
pub open spec fn from_exports_desc<'a>(c: &'a Component, es: Seq<ComponentExport>, f: nat) -> Option<TypeDesc>
    decreases f, 0nat,
{
    if f == 0 {
        Some(TypeDesc::Unresolved)
    } else {
        let g = (f - 1) as nat;
        let cx = comp_scope(c);
        let rm = comp_resource_map(c.exports@, cx);
        Some(TypeDesc::Instance { funcs: exported_funcs_desc(es, cx, rm, g), type_exports: Seq::empty() })
    }
}

/// The interface component `c` exports, concretized: its function exports
/// and its type exports.
pub open spec fn comp_func_exports_desc<'a>(c: &'a Component, f: nat) -> Option<TypeDesc>
    decreases f, 0nat,
{
    if f == 0 {
        Some(TypeDesc::Unresolved)
    } else {
        let g = (f - 1) as nat;
        let cx = comp_scope(c);
        let rm = comp_resource_map(c.exports@, cx);
        Some(
            TypeDesc::Instance {
                funcs: exported_funcs_desc(c.exports@, cx, rm, g),
                type_exports: exported_types_desc(c.exports@, cx, rm, g),
            },
        )
    }
}

/// The function exports among `es`, concretized.
pub open spec fn exported_funcs_desc<'a>(
    es: Seq<ComponentExport>,
    cx: TypeScope<'a>,
    rm: Seq<(u32, String)>,
    h: nat,
) -> Seq<(Seq<char>, FuncDesc)>
    decreases h, es.len(),
{
    if es.len() == 0 {
        Seq::empty()
    } else {
        let prev = exported_funcs_desc(es.drop_last(), cx, rm, h);
        let e = es.last();
        if e.kind == CompExternKind::Func {
            match func_of_resolved(comp_lookup(cx.comp, e.spec_item_ref().ref_), cx, rm, h) {
                Some(fd) => prev.push((e.name@, fd)),
                None => prev,
            }
        } else {
            prev
        }
    }
}

/// The type exports among `es`, concretized: a resource by its name,
/// another type by what it is.
pub open spec fn exported_types_desc<'a>(
    es: Seq<ComponentExport>,
    cx: TypeScope<'a>,
    rm: Seq<(u32, String)>,
    h: nat,
) -> Seq<(Seq<char>, ValDesc)>
    decreases h, es.len(),
{
    if es.len() == 0 {
        Seq::empty()
    } else {
        let prev = exported_types_desc(es.drop_last(), cx, rm, h);
        let e = es.last();
        if e.kind == CompExternKind::Type {
            let resolved = scope_resolve(cx, type_ref(e.index));
            if resolved_is_resource(resolved, cx, 0) {
                prev.push((e.name@, ValDesc::NamedResource(e.name@)))
            } else {
                match val_of_resolved(resolved, cx, rm, h) {
                    Some(v) => prev.push((e.name@, v)),
                    None => prev,
                }
            }
        } else {
            prev
        }
    }
}

/// The type named `name` that the instance type of imported instance
/// `idx` of `c` exports, concretized; a resource where there is none.
pub open spec fn type_from_import_instance<'a>(c: &'a Component, idx: u32, name: Seq<char>, f: nat) -> ValDesc
    decreases f, 0nat,
{
    if f == 0 {
        ValDesc::Unresolved
    } else {
        let g = (f - 1) as nat;
        match comp_lookup(c, inst_ref(idx)) {
            Some(ResolvedItem::Import(_, imp)) => match first_ref(imp.spec_type_refs()) {
                Some(tr) => match comp_lookup(c, tr.ref_) {
                    Some(ResolvedItem::CompType(_, ComponentType::Instance(ds))) => named_decl_val(
                        ds@,
                        name,
                        TypeScope { comp: c, body: Some(ds) },
                        inst_resource_map(ds@),
                        g,
                    ),
                    _ => ValDesc::Resource,
                },
                None => ValDesc::Resource,
            },
            _ => ValDesc::Resource,
        }
    }
}

/// What the first export declaration of `ds` named `name` that carries a
/// type reference names; a resource where there is none.
pub open spec fn named_decl_val<'a>(
    ds: Seq<InstanceTypeDeclaration>,
    name: Seq<char>,
    cx: TypeScope<'a>,
    rm: Seq<(u32, String)>,
    h: nat,
) -> ValDesc
    decreases h, ds.len(),
{
    if ds.len() == 0 {
        ValDesc::Resource
    } else {
        match ds[0] {
            InstanceTypeDeclaration::Export { name: n, .. } => if n@ == name {
                match first_ref(ds[0].spec_type_refs()) {
                    Some(tr) => from_resolved_desc(scope_resolve(cx, tr.ref_), cx, rm, h),
                    None => named_decl_val(ds.drop_first(), name, cx, rm, h),
                }
            } else {
                named_decl_val(ds.drop_first(), name, cx, rm, h)
            },
            _ => named_decl_val(ds.drop_first(), name, cx, rm, h),
        }
    }
}

/// The function named `name` that the instance type of imported instance
/// `idx` of `c` exports, concretized.
pub open spec fn func_from_import_instance<'a>(c: &'a Component, idx: u32, name: Seq<char>, f: nat) -> Option<FuncDesc>
    decreases f, 0nat,
{
    if f == 0 {
        Some(unresolved_func_desc())
    } else {
        let g = (f - 1) as nat;
        match comp_lookup(c, inst_ref(idx)) {
            Some(ResolvedItem::Import(_, imp)) => match first_ref(imp.spec_type_refs()) {
                Some(tr) => match comp_lookup(c, tr.ref_) {
                    Some(ResolvedItem::CompType(_, ty)) => match comp_type_desc(c, ty, g) {
                        Some(TypeDesc::Instance { funcs, .. }) => find_func(funcs, name),
                        _ => None,
                    },
                    _ => None,
                },
                None => None,
            },
            _ => None,
        }
    }
}

// ---------------------------------------------------------------------
// Concretizing
// ---------------------------------------------------------------------

/// What an optional value type describes.
pub open spec fn opt_val_desc(o: Option<ConcreteValType>) -> Option<ValDesc> {
    match o {
        Some(v) => Some(v.desc()),
        None => None,
    }
}

/// A nested component that a reference of a component whose nested
/// components are all well formed names is well formed.
proof fn lemma_resolved_comp_deep_wf(c: &Component, r: IndexedRef)
    requires
        c.deep_wf(),
        c.resolvable(r),
    ensures
        c.resolve_spec(r) matches ResolvedItem::Component(_, n) ==> n.deep_wf(),
{
    c.lemma_resolvable_within(r);
    let loc = c.scope().space(r.space).lookup(r.index as usize).unwrap();
    if let ResolvedItem::Component(_, n) = c.resolve_spec(r) {
        assert(n == c.components@[loc.1 as int]);
    }
}

/// The component an instance of a component whose nested components are
/// all well formed instantiates is well formed.
proof fn lemma_instantiated_deep_wf(c: &Component, idx: u32)
    requires
        c.deep_wf(),
    ensures
        instantiated_comp(c, idx) matches Some(n) ==> n.deep_wf(),
{
    if let Some(ResolvedItem::CompInst(_, inst)) = comp_lookup(c, inst_ref(idx)) {
        if let Some(cr) = first_ref(inst.spec_comp_refs()) {
            if c.resolvable(cr.ref_) {
                lemma_resolved_comp_deep_wf(c, cr.ref_);
            }
        }
    }
}

fn make_inst_ref(index: u32) -> (r: IndexedRef)
    ensures
        r == inst_ref(index),
{
    IndexedRef { depth: Depth::default(), space: Space::CompInst, index }
}

/// The nested component that component instance `idx` of `c`
/// instantiates, if `c` instantiates it.
fn resolve_instantiated_comp<'a>(c: &'a Component, idx: u32) -> (r: Option<&'a Component>)
    requires
        c.wf(),
    ensures
        r == instantiated_comp(c, idx),
{
    match c.try_resolve(&make_inst_ref(idx)) {
        Some(ResolvedItem::CompInst(_, inst)) => {
            let refs = inst.get_comp_refs();
            if refs.len() == 0 {
                return None;
            }
            match c.try_resolve(&refs[0].ref_) {
                Some(ResolvedItem::Component(_, n)) => Some(n),
                _ => None,
            }
        },
        _ => None,
    }
}

/// The name of the first of `refs` whose index has a name in `rm`.
fn first_mapped_name(refs: &Vec<RefKind>, rm: &Vec<(u32, String)>) -> (r: Option<String>)
    ensures
        r == first_mapped(refs@, rm@),
{
    proof {
        assert(refs@.skip(0) =~= refs@);
    }
    for i in 0..refs.len()
        invariant
            first_mapped(refs@, rm@) == first_mapped(refs@.skip(i as int), rm@),
    {
        proof {
            assert(refs@.skip(i as int).drop_first() =~= refs@.skip(i + 1));
            assert(refs@.skip(i as int)[0] == refs@[i as int]);
        }
        if let Some(n) = map_lookup(rm, refs[i].ref_.index) {
            return Some(n);
        }
    }
    None
}

/// The position of the first signature named `name` among `funcs`.
fn find_func_pos(funcs: &Vec<(String, ConcreteFuncType)>, name: &String) -> (r: Option<usize>)
    ensures
        match r {
            Some(i) => i < funcs@.len() && find_func(named_funcs_desc(funcs@), name@) == Some(funcs@[i as int].1.desc()),
            None => find_func(named_funcs_desc(funcs@), name@) is None,
        },
{
    let ghost d = named_funcs_desc(funcs@);
    proof {
        lemma_named_funcs_desc(funcs@);
        assert(d.skip(0) =~= d);
    }
    for i in 0..funcs.len()
        invariant
            d == named_funcs_desc(funcs@),
            d.len() == funcs@.len(),
            forall|k: int| 0 <= k < funcs@.len() ==> #[trigger] d[k] == (funcs@[k].0@, funcs@[k].1.desc()),
            find_func(d, name@) == find_func(d.skip(i as int), name@),
    {
        proof {
            assert(d.skip(i as int).drop_first() =~= d.skip(i + 1));
            assert(d.skip(i as int)[0] == d[i as int]);
        }
        if funcs[i].0 == *name {
            proof {
                assert(d[i as int] == (funcs@[i as int].0@, funcs@[i as int].1.desc()));
            }
            return Some(i);
        }
    }
    proof {
        assert(d.skip(funcs@.len() as int).len() == 0);
    }
    None
}

/// The signature named `name` among `funcs`, taken out of them.
fn take_named_func(funcs: Vec<(String, ConcreteFuncType)>, name: &String) -> (r: Option<ConcreteFuncType>)
    ensures
        opt_func_desc(r) == find_func(named_funcs_desc(funcs@), name@),
{
    match find_func_pos(&funcs, name) {
        Some(i) => {
            let mut rest = funcs;
            let (_, ft) = rest.remove(i);
            Some(ft)
        },
        None => None,
    }
}

/// What named signatures describe, one by one.
proof fn lemma_named_funcs_desc(s: Seq<(String, ConcreteFuncType)>)
    ensures
        named_funcs_desc(s).len() == s.len(),
        forall|k: int| 0 <= k < s.len() ==> #[trigger] named_funcs_desc(s)[k] == (s[k].0@, s[k].1.desc()),
    decreases s.len(),
{
    if s.len() > 0 {
        lemma_named_funcs_desc(s.drop_last());
    }
}

impl Component {
    /// Concretizes the type of the first import named `name`: an instance
    /// type or a function type, or a resource. `None` where there is no
    /// such import, or its type is of another kind. Where a reference would
    /// take the walk past its step limit (eight steps per item of the
    /// component tree, and [`CONCRETIZE_FUEL`] more), the result is
    /// [`ConcreteType::Unresolved`]: no part of the type is handed out.
    pub fn concretize_import(&self, name: &str) -> (r: Option<ConcreteType>)
        requires
            self.deep_wf(),
        ensures
            opt_type_desc(r) == settled(import_desc(self, name@, concretize_fuel(*self))),
    {
        let fuel = self.concretize_fuel();
        settle(self.import_with_fuel(name, fuel))
    }

    /// Concretizes the type of the first export named `name`, following
    /// what it exports: a type, an instance made of exports, an instance of
    /// a nested component (the interface that component exports, or else
    /// the type of the import of the same name), or an import. `None` where
    /// there is no such export, or it exports something else. Where a
    /// reference would take the walk past its step limit (eight steps per item
    /// of the component tree, and [`CONCRETIZE_FUEL`] more),
    /// the result is [`ConcreteType::Unresolved`]: no part of the type is
    /// handed out.
    pub fn concretize_export(&self, name: &str) -> (r: Option<ConcreteType>)
        requires
            self.deep_wf(),
        ensures
            opt_type_desc(r) == settled(export_desc(self, name@, concretize_fuel(*self))),
    {
        let fuel = self.concretize_fuel();
        settle(self.export_with_fuel(name, fuel))
    }

    fn import_with_fuel(&self, name: &str, fuel: u32) -> (r: Option<ConcreteType>)
        requires
            self.deep_wf(),
        ensures
            opt_type_desc(r) == import_desc(self, name@, fuel as nat),
        decreases fuel, 0int,
    {
        if fuel == 0 {
            return Some(ConcreteType::Unresolved);
        }
        let g = fuel - 1;
        let i = match self.first_import_pos(name) {
            Some(i) => i,
            None => {
                return None;
            },
        };
        let refs = self.imports[i].get_type_refs();
        if refs.len() == 0 {
            return None;
        }
        proof {
            assert(self.import_type_ref(i as int) == Some(refs@[0]));
        }
        match self.try_resolve(&refs[0].ref_) {
            Some(ResolvedItem::CompType(_, ty)) => concretize_comp_type(self, ty, g),
            _ => None,
        }
    }

    fn export_with_fuel(&self, name: &str, fuel: u32) -> (r: Option<ConcreteType>)
        requires
            self.deep_wf(),
        ensures
            opt_type_desc(r) == export_desc(self, name@, fuel as nat),
        decreases fuel, 0int,
    {
        if fuel == 0 {
            return Some(ConcreteType::Unresolved);
        }
        let g = fuel - 1;
        let i = match self.first_export_pos(name) {
            Some(i) => i,
            None => {
                return None;
            },
        };
        let item = self.exports[i].get_item_ref();
        match self.try_resolve(&item.ref_) {
            Some(ResolvedItem::CompType(_, ty)) => concretize_comp_type(self, ty, g),
            Some(ResolvedItem::CompInst(_, ComponentInstance::FromExports(es))) => concretize_from_exports_instance(
                self,
                es,
                g,
            ),
            Some(ResolvedItem::CompInst(_, inst)) => {
                let refs = inst.get_comp_refs();
                let via_comp = if refs.len() > 0 {
                    match self.try_resolve(&refs[0].ref_) {
                        Some(ResolvedItem::Component(_, n)) => {
                            proof {
                                lemma_resolved_comp_deep_wf(self, refs@[0].ref_);
                            }
                            concretize_comp_func_exports(n, g)
                        },
                        _ => None,
                    }
                } else {
                    None
                };
                if via_comp.is_some() {
                    via_comp
                } else {
                    self.import_with_fuel(name, g)
                }
            },
            Some(ResolvedItem::Import(_, imp)) => {
                let refs = imp.get_type_refs();
                if refs.len() == 0 {
                    return None;
                }
                match self.try_resolve(&refs[0].ref_) {
                    Some(ResolvedItem::CompType(_, ty)) => concretize_comp_type(self, ty, g),
                    _ => None,
                }
            },
            _ => None,
        }
    }
}

/// Concretizes component type `ty` of `c`.
fn concretize_comp_type<'a>(c: &'a Component, ty: &'a ComponentType, fuel: u32) -> (r: Option<ConcreteType>)
    requires
        c.deep_wf(),
    ensures
        opt_type_desc(r) == comp_type_desc(c, ty, fuel as nat),
    decreases fuel, 0int,
{
    if fuel == 0 {
        return Some(ConcreteType::Unresolved);
    }
    let g = fuel - 1;
    match ty {
        ComponentType::Instance(ds) => {
            let cx = TypeScope { comp: c, body: Some(ds) };
            let rm = build_instance_resource_map(ds);
            let (funcs, type_exports) = concretize_instance_decls(ds, &cx, &rm, g);
            Some(ConcreteType::Instance { funcs, type_exports })
        },
        ComponentType::Func(ft) => {
            let cx = TypeScope { comp: c, body: None };
            let rm: Vec<(u32, String)> = Vec::new();
            Some(ConcreteType::Func(concretize_func_ty(ft, &cx, &rm, g)))
        },
        ComponentType::Resource { .. } => Some(ConcreteType::Resource),
        _ => None,
    }
}

/// Concretizes the function exports and the type exports of an instance
/// type body.
fn concretize_instance_decls<'a>(
    ds: &'a Vec<InstanceTypeDeclaration>,
    cx: &TypeScope<'a>,
    rm: &Vec<(u32, String)>,
    fuel: u32,
) -> (r: (Vec<(String, ConcreteFuncType)>, Vec<(String, ConcreteValType)>))
    requires
        cx.comp.deep_wf(),
    ensures
        named_funcs_desc(r.0@) == inst_funcs_desc(ds@, *cx, rm@, fuel as nat),
        named_vals_desc(r.1@) == inst_types_desc(ds@, *cx, rm@, fuel as nat),
    decreases fuel, 1int,
{
    let mut funcs: Vec<(String, ConcreteFuncType)> = Vec::new();
    let mut types: Vec<(String, ConcreteValType)> = Vec::new();
    for i in 0..ds.len()
        invariant
            cx.comp.deep_wf(),
            named_funcs_desc(funcs@) == inst_funcs_desc(ds@.take(i as int), *cx, rm@, fuel as nat),
            named_vals_desc(types@) == inst_types_desc(ds@.take(i as int), *cx, rm@, fuel as nat),
    {
        proof {
            assert(ds@.take(i + 1).drop_last() =~= ds@.take(i as int));
            assert(ds@.take(i + 1).last() == ds@[i as int]);
        }
        let ghost funcs0 = funcs@;
        let ghost types0 = types@;
        let d = &ds[i];
        if let InstanceTypeDeclaration::Export { name, ty } = d {
            let refs = d.get_type_refs();
            if refs.len() > 0 {
                let resolved = cx.resolve(&refs[0].ref_);
                match resolve_and_concretize_func(resolved, cx, rm, fuel) {
                    Some(ft) => {
                        funcs.push((name.clone(), ft));
                        proof {
                            assert(funcs@.drop_last() =~= funcs0);
                        }
                    },
                    None => match ty {
                        ComponentTypeRef::Type(TypeBounds::SubResource) => {
                            types.push((name.clone(), ConcreteValType::NamedResource(name.clone())));
                            proof {
                                assert(types@.drop_last() =~= types0);
                            }
                        },
                        ComponentTypeRef::Type(TypeBounds::Eq(_)) => {
                            let resolved2 = cx.resolve(&refs[0].ref_);
                            if let Some(v) = concretize_from_resolved_to_val(resolved2, cx, rm, fuel) {
                                types.push((name.clone(), v));
                                proof {
                                    assert(types@.drop_last() =~= types0);
                                }
                            }
                        },
                        _ => {},
                    },
                }
            }
        }
    }
    proof {
        assert(ds@.take(ds@.len() as int) =~= ds@);
    }
    (funcs, types)
}

/// Concretizes a resolved item as a value type, where it is a defined
/// type, a resource, or an import whose type is one.
fn concretize_from_resolved_to_val<'a>(
    resolved: Option<ResolvedItem<'a>>,
    cx: &TypeScope<'a>,
    rm: &Vec<(u32, String)>,
    fuel: u32,
) -> (r: Option<ConcreteValType>)
    requires
        cx.comp.deep_wf(),
    ensures
        opt_val_desc(r) == val_of_resolved(resolved, *cx, rm@, fuel as nat),
    decreases fuel, 0int,
{
    if fuel == 0 {
        return Some(ConcreteValType::Unresolved);
    }
    let g = fuel - 1;
    let ghost rv = resolved;
    match resolved {
        Some(ResolvedItem::CompType(_, ComponentType::Defined(dt))) => Some(concretize_defined_type(dt, cx, rm, g)),
        Some(ResolvedItem::CompType(_, ComponentType::Resource { .. })) => Some(ConcreteValType::Resource),
        Some(ResolvedItem::Import(_, imp)) => {
            let refs = imp.get_type_refs();
            proof {
                assert(refs@.skip(0) =~= refs@);
            }
            for i in 0..refs.len()
                invariant
                    cx.comp.deep_wf(),
                    g < fuel,
                    refs@ == imp.spec_type_refs(),
                    rv == resolved,
                    val_of_resolved(rv, *cx, rm@, fuel as nat) == first_val_of_refs(refs@, *cx, rm@, g as nat),
                    first_val_of_refs(refs@, *cx, rm@, g as nat) == first_val_of_refs(
                        refs@.skip(i as int),
                        *cx,
                        rm@,
                        g as nat,
                    ),
            {
                proof {
                    assert(refs@.skip(i as int).drop_first() =~= refs@.skip(i + 1));
                    assert(refs@.skip(i as int)[0] == refs@[i as int]);
                }
                let inner = cx.comp.try_resolve(&refs[i].ref_);
                let found = concretize_from_resolved_to_val(inner, cx, rm, g);
                if let Some(v) = found {
                    proof {
                        let sk = refs@.skip(i as int);
                        assert(sk[0] == refs@[i as int]);
                        assert(val_of_resolved(comp_lookup(cx.comp, sk[0].ref_), *cx, rm@, g as nat) == Some(v.desc()));
                        assert(first_val_of_refs(sk, *cx, rm@, g as nat) == Some(v.desc()));
                    }
                    return Some(v);
                }
            }
            None
        },
        _ => None,
    }
}

/// Concretizes a resolved item as a function type, following outer
/// aliases, aliases of exports of instances and imports.
fn resolve_and_concretize_func<'a>(
    resolved: Option<ResolvedItem<'a>>,
    cx: &TypeScope<'a>,
    rm: &Vec<(u32, String)>,
    fuel: u32,
) -> (r: Option<ConcreteFuncType>)
    requires
        cx.comp.deep_wf(),
    ensures
        opt_func_desc(r) == func_of_resolved(resolved, *cx, rm@, fuel as nat),
    decreases fuel, 0int,
{
    if fuel == 0 {
        return Some(unresolved_func());
    }
    let g = fuel - 1;
    match resolved {
        Some(ResolvedItem::CompType(_, ComponentType::Func(ft))) => Some(concretize_func_ty(ft, cx, rm, g)),
        Some(ResolvedItem::Alias(_, a)) => match a {
            ComponentAlias::Outer { .. } => {
                let next = cx.resolve(&a.get_item_ref().ref_);
                resolve_and_concretize_func(next, cx, rm, g)
            },
            ComponentAlias::InstanceExport { instance_index, name, .. } => match resolve_instantiated_comp(
                cx.comp,
                *instance_index,
            ) {
                Some(n) => {
                    proof {
                        lemma_instantiated_deep_wf(cx.comp, *instance_index);
                    }
                    match n.export_with_fuel(name.as_str(), g) {
                        Some(ConcreteType::Func(ft)) => Some(ft),
                        _ => None,
                    }
                },
                None => resolve_func_from_import_instance(cx.comp, *instance_index, name, g),
            },
            _ => None,
        },
        Some(ResolvedItem::Import(_, imp)) => {
            let refs = imp.get_type_refs();
            if refs.len() == 0 {
                return None;
            }
            match cx.comp.try_resolve(&refs[0].ref_) {
                Some(ResolvedItem::CompType(_, ComponentType::Func(ft))) => Some(concretize_func_ty(ft, cx, rm, g)),
                _ => None,
            }
        },
        _ => None,
    }
}

/// Concretizes function type `ft`.
fn concretize_func_ty<'a>(
    ft: &'a ComponentFuncType,
    cx: &TypeScope<'a>,
    rm: &Vec<(u32, String)>,
    fuel: u32,
) -> (r: ConcreteFuncType)
    requires
        cx.comp.deep_wf(),
    ensures
        r.desc() == func_ty_desc(ft, *cx, rm@, fuel as nat),
    decreases fuel, 0int,
{
    if fuel == 0 {
        return ConcreteFuncType { is_async: ft.async_, params: Vec::new(), result: Some(ConcreteValType::Unresolved) };
    }
    let g = fuel - 1;
    let mut params: Vec<(String, ConcreteValType)> = Vec::new();
    for i in 0..ft.params.len()
        invariant
            cx.comp.deep_wf(),
                    g < fuel,
            named_vals_desc(params@) == named_types_desc(ft.params@.take(i as int), *cx, rm@, g as nat),
    {
        proof {
            assert(ft.params@.take(i + 1).drop_last() =~= ft.params@.take(i as int));
            assert(ft.params@.take(i + 1).last() == ft.params@[i as int]);
        }
        let ghost params0 = params@;
        let v = concretize_val_type(&ft.params[i].1, cx, rm, g);
        params.push((ft.params[i].0.clone(), v));
        proof {
            assert(params@.drop_last() =~= params0);
        }
    }
    proof {
        assert(ft.params@.take(ft.params@.len() as int) =~= ft.params@);
    }
    let result = match &ft.result {
        Some(t) => Some(concretize_val_type(t, cx, rm, g)),
        None => None,
    };
    ConcreteFuncType { is_async: ft.async_, params, result }
}

/// Concretizes value type `ty`.
fn concretize_val_type<'a>(
    ty: &'a ComponentValType,
    cx: &TypeScope<'a>,
    rm: &Vec<(u32, String)>,
    fuel: u32,
) -> (r: ConcreteValType)
    requires
        cx.comp.deep_wf(),
    ensures
        r.desc() == val_desc(*ty, *cx, rm@, fuel as nat),
    decreases fuel, 0int,
{
    if fuel == 0 {
        return ConcreteValType::Unresolved;
    }
    let g = fuel - 1;
    match ty {
        ComponentValType::Primitive(p) => ConcreteValType::Primitive(*p),
        ComponentValType::Type(i) => {
            let resolved = cx.resolve(&make_type_ref(*i));
            concretize_from_resolved(resolved, cx, rm, g)
        },
    }
}

/// Concretizes the type a resolved item names, as a value type.
fn concretize_from_resolved<'a>(
    resolved: Option<ResolvedItem<'a>>,
    cx: &TypeScope<'a>,
    rm: &Vec<(u32, String)>,
    fuel: u32,
) -> (r: ConcreteValType)
    requires
        cx.comp.deep_wf(),
    ensures
        r.desc() == from_resolved_desc(resolved, *cx, rm@, fuel as nat),
    decreases fuel, 0int,
{
    if fuel == 0 {
        return ConcreteValType::Unresolved;
    }
    let g = fuel - 1;
    match resolved {
        Some(ResolvedItem::CompType(_, ComponentType::Defined(dt))) => concretize_defined_type(dt, cx, rm, g),
        Some(ResolvedItem::Alias(_, a)) => match a {
            ComponentAlias::Outer { .. } => {
                let next = cx.resolve(&a.get_item_ref().ref_);
                concretize_from_resolved(next, cx, rm, g)
            },
            ComponentAlias::InstanceExport { instance_index, name, .. } => match resolve_instantiated_comp(
                cx.comp,
                *instance_index,
            ) {
                None => resolve_type_from_import_instance(cx.comp, *instance_index, name, g),
                Some(_) => ConcreteValType::Resource,
            },
            _ => ConcreteValType::Resource,
        },
        Some(ResolvedItem::Import(_, imp)) => {
            let refs = imp.get_type_refs();
            if refs.len() == 0 {
                return ConcreteValType::Resource;
            }
            let next = cx.resolve(&refs[0].ref_);
            concretize_from_resolved(next, cx, rm, g)
        },
        Some(ResolvedItem::InstTyDeclExport(_, d)) => {
            let refs = d.get_type_refs();
            if refs.len() == 0 {
                return ConcreteValType::Resource;
            }
            let next = cx.resolve(&refs[0].ref_);
            concretize_from_resolved(next, cx, rm, g)
        },
        _ => ConcreteValType::Resource,
    }
}

/// Copies strings.
fn copy_names(ns: &Vec<String>) -> (r: Vec<String>)
    ensures
        strings_view(r@) == strings_view(ns@),
{
    let mut out: Vec<String> = Vec::new();
    for i in 0..ns.len()
        invariant
            out@ =~= ns@.take(i as int),
    {
        out.push(ns[i].clone());
    }
    proof {
        assert(ns@.take(ns@.len() as int) =~= ns@);
    }
    out
}

/// Concretizes named value types (the fields of a record).
fn concretize_fields<'a>(
    fields: &'a Vec<(String, ComponentValType)>,
    cx: &TypeScope<'a>,
    rm: &Vec<(u32, String)>,
    fuel: u32,
) -> (r: Vec<(String, Box<ConcreteValType>)>)
    requires
        cx.comp.deep_wf(),
    ensures
        boxed_fields_desc(r@) == named_types_desc(fields@, *cx, rm@, fuel as nat),
    decreases fuel, 1int,
{
    let mut out: Vec<(String, Box<ConcreteValType>)> = Vec::new();
    for i in 0..fields.len()
        invariant
            cx.comp.deep_wf(),
            boxed_fields_desc(out@) == named_types_desc(fields@.take(i as int), *cx, rm@, fuel as nat),
    {
        proof {
            assert(fields@.take(i + 1).drop_last() =~= fields@.take(i as int));
            assert(fields@.take(i + 1).last() == fields@[i as int]);
        }
        let ghost out0 = out@;
        let v = concretize_val_type(&fields[i].1, cx, rm, fuel);
        out.push((fields[i].0.clone(), Box::new(v)));
        proof {
            assert(out@.drop_last() =~= out0);
        }
    }
    proof {
        assert(fields@.take(fields@.len() as int) =~= fields@);
    }
    out
}

/// Concretizes the cases of a variant.
fn concretize_cases<'a>(
    cases: &'a Vec<VariantCase>,
    cx: &TypeScope<'a>,
    rm: &Vec<(u32, String)>,
    fuel: u32,
) -> (r: Vec<(String, Option<Box<ConcreteValType>>)>)
    requires
        cx.comp.deep_wf(),
    ensures
        cases_desc(r@) == cases_types_desc(cases@, *cx, rm@, fuel as nat),
    decreases fuel, 1int,
{
    let mut out: Vec<(String, Option<Box<ConcreteValType>>)> = Vec::new();
    for i in 0..cases.len()
        invariant
            cx.comp.deep_wf(),
            cases_desc(out@) == cases_types_desc(cases@.take(i as int), *cx, rm@, fuel as nat),
    {
        proof {
            assert(cases@.take(i + 1).drop_last() =~= cases@.take(i as int));
            assert(cases@.take(i + 1).last() == cases@[i as int]);
        }
        let ghost out0 = out@;
        let v = match &cases[i].ty {
            Some(t) => Some(Box::new(concretize_val_type(t, cx, rm, fuel))),
            None => None,
        };
        out.push((cases[i].name.clone(), v));
        proof {
            assert(out@.drop_last() =~= out0);
        }
    }
    proof {
        assert(cases@.take(cases@.len() as int) =~= cases@);
    }
    out
}

/// Concretizes value types (the members of a tuple).
fn concretize_tuple<'a>(
    ts: &'a Vec<ComponentValType>,
    cx: &TypeScope<'a>,
    rm: &Vec<(u32, String)>,
    fuel: u32,
) -> (r: Vec<ConcreteValType>)
    requires
        cx.comp.deep_wf(),
    ensures
        vals_desc(r@) == types_desc(ts@, *cx, rm@, fuel as nat),
    decreases fuel, 1int,
{
    let mut out: Vec<ConcreteValType> = Vec::new();
    for i in 0..ts.len()
        invariant
            cx.comp.deep_wf(),
            vals_desc(out@) == types_desc(ts@.take(i as int), *cx, rm@, fuel as nat),
    {
        proof {
            assert(ts@.take(i + 1).drop_last() =~= ts@.take(i as int));
            assert(ts@.take(i + 1).last() == ts@[i as int]);
        }
        let ghost out0 = out@;
        let v = concretize_val_type(&ts[i], cx, rm, fuel);
        out.push(v);
        proof {
            assert(out@.drop_last() =~= out0);
        }
    }
    proof {
        assert(ts@.take(ts@.len() as int) =~= ts@);
    }
    out
}

/// Concretizes an optional value type.
fn concretize_opt<'a>(
    t: &'a Option<ComponentValType>,
    cx: &TypeScope<'a>,
    rm: &Vec<(u32, String)>,
    fuel: u32,
) -> (r: Option<Box<ConcreteValType>>)
    requires
        cx.comp.deep_wf(),
    ensures
        opt_box_desc(r) == match *t {
            Some(x) => Some(Box::new(val_desc(x, *cx, rm@, fuel as nat))),
            None => None,
        },
    decreases fuel, 1int,
{
    match t {
        Some(x) => {
            let v = concretize_val_type(x, cx, rm, fuel);
            proof {
                assert(opt_box_desc(Some(Box::new(v))) == Some(Box::new(v.desc())));
            }
            Some(Box::new(v))
        },
        None => None,
    }
}

/// Concretizes defined type `dt`.
fn concretize_defined_type<'a>(
    dt: &'a ComponentDefinedType,
    cx: &TypeScope<'a>,
    rm: &Vec<(u32, String)>,
    fuel: u32,
) -> (r: ConcreteValType)
    requires
        cx.comp.deep_wf(),
    ensures
        r.desc() == defined_desc(dt, *cx, rm@, fuel as nat),
    decreases fuel, 0int,
{
    if fuel == 0 {
        return ConcreteValType::Unresolved;
    }
    let g = fuel - 1;
    match dt {
        ComponentDefinedType::Primitive(p) => ConcreteValType::Primitive(*p),
        ComponentDefinedType::Record(fields) => ConcreteValType::Record(concretize_fields(fields, cx, rm, g)),
        ComponentDefinedType::Variant(cases) => ConcreteValType::Variant(concretize_cases(cases, cx, rm, g)),
        ComponentDefinedType::List(t) => ConcreteValType::List(Box::new(concretize_val_type(t, cx, rm, g))),
        ComponentDefinedType::Tuple(ts) => ConcreteValType::Tuple(concretize_tuple(ts, cx, rm, g)),
        ComponentDefinedType::Option(t) => ConcreteValType::Option(Box::new(concretize_val_type(t, cx, rm, g))),
        ComponentDefinedType::Result { ok, err } => {
            let ok_c = concretize_opt(ok, cx, rm, g);
            let err_c = concretize_opt(err, cx, rm, g);
            ConcreteValType::Result { ok: ok_c, err: err_c }
        },
        ComponentDefinedType::Flags(ns) => ConcreteValType::Flags(copy_names(ns)),
        ComponentDefinedType::Enum(ns) => ConcreteValType::Enum(copy_names(ns)),
        ComponentDefinedType::MapOf(k, v) => {
            let kc = concretize_val_type(k, cx, rm, g);
            let vc = concretize_val_type(v, cx, rm, g);
            ConcreteValType::MapOf(Box::new(kc), Box::new(vc))
        },
        ComponentDefinedType::FixedLengthList(t, n) => ConcreteValType::FixedSizeList(
            Box::new(concretize_val_type(t, cx, rm, g)),
            *n,
        ),
        ComponentDefinedType::Own(i) => match map_lookup(rm, *i) {
            Some(n) => ConcreteValType::NamedResource(n),
            None => match cx.resolve(&make_type_ref(*i)) {
                Some(ResolvedItem::Import(_, imp)) => {
                    let refs = imp.get_type_refs();
                    match first_mapped_name(&refs, rm) {
                        Some(n) => ConcreteValType::NamedResource(n),
                        None => ConcreteValType::Resource,
                    }
                },
                _ => ConcreteValType::Resource,
            },
        },
        ComponentDefinedType::Borrow(_) => ConcreteValType::Resource,
        ComponentDefinedType::Future(_) => ConcreteValType::AsyncHandle,
        ComponentDefinedType::Stream(_) => ConcreteValType::AsyncHandle,
    }
}

/// Concretizes an instance made of the exports `es` of `c`: its function
/// exports.
fn concretize_from_exports_instance<'a>(c: &'a Component, es: &'a Vec<ComponentExport>, fuel: u32) -> (r: Option<ConcreteType>)
    requires
        c.deep_wf(),
    ensures
        opt_type_desc(r) == from_exports_desc(c, es@, fuel as nat),
    decreases fuel, 0int,
{
    if fuel == 0 {
        return Some(ConcreteType::Unresolved);
    }
    let g = fuel - 1;
    let cx = TypeScope { comp: c, body: None };
    let rm = build_component_resource_map(&cx);
    let mut funcs: Vec<(String, ConcreteFuncType)> = Vec::new();
    for i in 0..es.len()
        invariant
            c.deep_wf(),
            g < fuel,
            cx == comp_scope(c),
            rm@ == comp_resource_map(c.exports@, cx),
            named_funcs_desc(funcs@) == exported_funcs_desc(es@.take(i as int), cx, rm@, g as nat),
    {
        proof {
            assert(es@.take(i + 1).drop_last() =~= es@.take(i as int));
            assert(es@.take(i + 1).last() == es@[i as int]);
        }
        let ghost funcs0 = funcs@;
        let e = &es[i];
        if e.kind == CompExternKind::Func {
            let resolved = c.try_resolve(&e.get_item_ref().ref_);
            if let Some(ft) = resolve_and_concretize_func(resolved, &cx, &rm, g) {
                funcs.push((e.name.clone(), ft));
                proof {
                    assert(funcs@.drop_last() =~= funcs0);
                }
            }
        }
    }
    proof {
        assert(es@.take(es@.len() as int) =~= es@);
    }
    Some(ConcreteType::Instance { funcs, type_exports: Vec::new() })
}

/// Concretizes the interface component `c` exports: its function exports
/// and its type exports.
fn concretize_comp_func_exports<'a>(c: &'a Component, fuel: u32) -> (r: Option<ConcreteType>)
    requires
        c.deep_wf(),
    ensures
        opt_type_desc(r) == comp_func_exports_desc(c, fuel as nat),
    decreases fuel, 0int,
{
    if fuel == 0 {
        return Some(ConcreteType::Unresolved);
    }
    let g = fuel - 1;
    let cx = TypeScope { comp: c, body: None };
    let rm = build_component_resource_map(&cx);
    let es = &c.exports;
    let mut funcs: Vec<(String, ConcreteFuncType)> = Vec::new();
    let mut types: Vec<(String, ConcreteValType)> = Vec::new();
    for i in 0..es.len()
        invariant
            c.deep_wf(),
            g < fuel,
            es@ == c.exports@,
            cx == comp_scope(c),
            rm@ == comp_resource_map(c.exports@, cx),
            named_funcs_desc(funcs@) == exported_funcs_desc(es@.take(i as int), cx, rm@, g as nat),
            named_vals_desc(types@) == exported_types_desc(es@.take(i as int), cx, rm@, g as nat),
    {
        proof {
            assert(es@.take(i + 1).drop_last() =~= es@.take(i as int));
            assert(es@.take(i + 1).last() == es@[i as int]);
        }
        let ghost funcs0 = funcs@;
        let ghost types0 = types@;
        let e = &es[i];
        if e.kind == CompExternKind::Func {
            let resolved = c.try_resolve(&e.get_item_ref().ref_);
            if let Some(ft) = resolve_and_concretize_func(resolved, &cx, &rm, g) {
                funcs.push((e.name.clone(), ft));
                proof {
                    assert(funcs@.drop_last() =~= funcs0);
                }
            }
        } else if e.kind == CompExternKind::Type {
            let tr = make_type_ref(e.index);
            let resolved = cx.resolve(&tr);
            if is_resource(cx.resolve(&tr), &cx, 0) {
                types.push((e.name.clone(), ConcreteValType::NamedResource(e.name.clone())));
                proof {
                    assert(types@.drop_last() =~= types0);
                }
            } else if let Some(v) = concretize_from_resolved_to_val(resolved, &cx, &rm, g) {
                types.push((e.name.clone(), v));
                proof {
                    assert(types@.drop_last() =~= types0);
                }
            }
        }
    }
    proof {
        assert(es@.take(es@.len() as int) =~= es@);
    }
    Some(ConcreteType::Instance { funcs, type_exports: types })
}

/// Concretizes the type named `wanted` that the instance type of
/// imported instance `idx` of `c` exports.
fn resolve_type_from_import_instance<'a>(c: &'a Component, idx: u32, wanted: &String, fuel: u32) -> (r: ConcreteValType)
    requires
        c.deep_wf(),
    ensures
        r.desc() == type_from_import_instance(c, idx, wanted@, fuel as nat),
    decreases fuel, 0int,
{
    if fuel == 0 {
        return ConcreteValType::Unresolved;
    }
    let g = fuel - 1;
    let imp = match c.try_resolve(&make_inst_ref(idx)) {
        Some(ResolvedItem::Import(_, imp)) => imp,
        _ => {
            return ConcreteValType::Resource;
        },
    };
    let refs = imp.get_type_refs();
    if refs.len() == 0 {
        return ConcreteValType::Resource;
    }
    let ds = match c.try_resolve(&refs[0].ref_) {
        Some(ResolvedItem::CompType(_, ComponentType::Instance(ds))) => ds,
        _ => {
            return ConcreteValType::Resource;
        },
    };
    let inner = TypeScope { comp: c, body: Some(ds) };
    let rm = build_instance_resource_map(ds);
    proof {
        assert(ds@.skip(0) =~= ds@);
    }
    for i in 0..ds.len()
        invariant
            c.deep_wf(),
            g < fuel,
            type_from_import_instance(c, idx, wanted@, fuel as nat) == named_decl_val(
                ds@,
                wanted@,
                inner,
                rm@,
                g as nat,
            ),
            inner == (TypeScope { comp: c, body: Some(ds) }),
            rm@ == inst_resource_map(ds@),
            named_decl_val(ds@, wanted@, inner, rm@, g as nat) == named_decl_val(
                ds@.skip(i as int),
                wanted@,
                inner,
                rm@,
                g as nat,
            ),
    {
        proof {
            assert(ds@.skip(i as int).drop_first() =~= ds@.skip(i + 1));
            assert(ds@.skip(i as int)[0] == ds@[i as int]);
        }
        if let InstanceTypeDeclaration::Export { name, .. } = &ds[i] {
            if *name == *wanted {
                let trs = ds[i].get_type_refs();
                if trs.len() > 0 {
                    proof {
                        let sk = ds@.skip(i as int);
                        assert(sk[0] == ds@[i as int]);
                        assert(first_ref(sk[0].spec_type_refs()) == Some(trs@[0]));
                        assert(named_decl_val(sk, wanted@, inner, rm@, g as nat) == from_resolved_desc(
                            scope_resolve(inner, trs@[0].ref_),
                            inner,
                            rm@,
                            g as nat,
                        ));
                    }
                    let resolved = inner.resolve(&trs[0].ref_);
                    return concretize_from_resolved(resolved, &inner, &rm, g);
                }
            }
        }
    }
    ConcreteValType::Resource
}

/// Concretizes the function named `func_name` that the instance type of
/// imported instance `idx` of `c` exports.
fn resolve_func_from_import_instance<'a>(c: &'a Component, idx: u32, func_name: &String, fuel: u32) -> (r: Option<ConcreteFuncType>)
    requires
        c.deep_wf(),
    ensures
        opt_func_desc(r) == func_from_import_instance(c, idx, func_name@, fuel as nat),
    decreases fuel, 0int,
{
    if fuel == 0 {
        return Some(unresolved_func());
    }
    let g = fuel - 1;
    let imp = match c.try_resolve(&make_inst_ref(idx)) {
        Some(ResolvedItem::Import(_, imp)) => imp,
        _ => {
            return None;
        },
    };
    let refs = imp.get_type_refs();
    if refs.len() == 0 {
        return None;
    }
    let ty = match c.try_resolve(&refs[0].ref_) {
        Some(ResolvedItem::CompType(_, ty)) => ty,
        _ => {
            return None;
        },
    };
    match concretize_comp_type(c, ty, g) {
        Some(ConcreteType::Instance { funcs, .. }) => take_named_func(funcs, func_name),
        _ => None,
    }
}

} // verus!
