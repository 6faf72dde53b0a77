//! The encode phase: the planned items of a component, in plan order, each
//! with the indices it holds rewritten to the actual IDs that the assign
//! phase gave the items they name; then the binary of those items.
//!
//! Each planned item becomes a section of its own. Modules, custom sections,
//! core types, and component and instance types (whose bodies have scopes
//! of their own) are written as they are; a nested component is written,
//! in its turn, from its own plan and actual IDs.

use vstd::prelude::*;
use crate::assign::{ActualIds, PlanIds, plan_ids_ok, ids_fit};
use crate::collect::{ComponentItem, ComponentPlan, plan_ok};
use crate::component::Component;
use crate::fix::{
    scope_at, canon_fixable, canon_fixed, alias_fixed, import_fixed, export_fixed, comp_instance_fixed,
    core_instance_fixed, start_fixed, try_fix_canon, fix_alias, fix_import, fix_export, fix_comp_instance,
    fix_core_instance, fix_start, comp_type_fixed, has_body, has_body_exec, fix_comp_type,
};
use crate::idx_spaces::ScopeId;
use crate::items::{
    Module, CoreType, ComponentType, ComponentImport, ComponentExport, ComponentInstance, CanonicalFunction,
    ComponentAlias, Instance, ComponentStartFunction, CustomSection,
};
use crate::payload::Error;
use crate::plain::{items_plain, items_plain_exec};
use crate::emit::{component_bytes, emit};

verus! {

/// One section of an encoded component: a planned item with its indices
/// fixed, or a nested component as its own sections.
#[derive(Debug)]
pub enum EncodedItem<'a> {
    Module(&'a Module),
    CoreInstance(Instance),
    CoreType(&'a CoreType),
    ComponentType(&'a ComponentType),
    FixedType(ComponentType),
    Import(ComponentImport),
    Export(ComponentExport),
    ComponentInstance(ComponentInstance),
    Canon(CanonicalFunction),
    Alias(ComponentAlias),
    Component(Vec<EncodedItem<'a>>),
    Start(ComponentStartFunction),
    Custom(&'a CustomSection),
}

/// `e` is planned item `it` of `c`, seen from the innermost scope of
/// `stack` (that of `c`), with its indices fixed; `n` is the actual IDs of
/// a nested component.
pub open spec fn item_encoded<'a>(
    c: Component,
    it: ComponentItem,
    n: Option<PlanIds>,
    e: EncodedItem<'a>,
    stack: Seq<(&'a ActualIds, ScopeId)>,
) -> bool
    decreases c, 0int,
{
    let (ids, s) = scope_at(stack, 0);
    match it {
        ComponentItem::Module { idx } => e matches EncodedItem::Module(m) && *m == c.modules@[idx as int],
        ComponentItem::CompType { idx, .. } => if has_body(c.component_types.items@[idx as int]) {
            e matches EncodedItem::ComponentType(t) && *t == c.component_types.items@[idx as int]
        } else {
            e matches EncodedItem::FixedType(t) && comp_type_fixed(c.component_types.items@[idx as int], t, ids, s)
        },
        ComponentItem::CoreType { idx, .. } => e matches EncodedItem::CoreType(t) && *t == c.core_types@[idx as int],
        ComponentItem::CompInst { idx } => e matches EncodedItem::ComponentInstance(x)
            && comp_instance_fixed(c.component_instance@[idx as int], x, ids, s),
        ComponentItem::CanonicalFunc { idx } => e matches EncodedItem::Canon(x)
            && canon_fixable(c.canons.items@[idx as int], ids, s) && canon_fixed(c.canons.items@[idx as int], x, ids, s),
        ComponentItem::Alias { idx } => e matches EncodedItem::Alias(x) && alias_fixed(c.alias.items@[idx as int], x, stack),
        ComponentItem::Import { idx } => e matches EncodedItem::Import(x) && import_fixed(c.imports@[idx as int], x, ids, s),
        ComponentItem::Export { idx } => e matches EncodedItem::Export(x) && export_fixed(c.exports@[idx as int], x, ids, s),
        ComponentItem::Inst { idx } => e matches EncodedItem::CoreInstance(x)
            && core_instance_fixed(c.instances@[idx as int], x, ids, s),
        ComponentItem::Start { idx } => e matches EncodedItem::Start(x) && start_fixed(c.start_section@[idx as int], x, ids, s),
        ComponentItem::CustomSection { idx } => e matches EncodedItem::Custom(x) && *x == c.custom_sections@[idx as int],
        ComponentItem::Component { idx, plan } => idx < c.components@.len() && (n matches Some(t) && (e matches EncodedItem::Component(v)
            && sections_encoded(c.components@[idx as int], plan, t, v@, stack.push((&t.ids, c.components@[idx as int].space_id))))),
    }
}

/// `r` is the sections of component `c` by plan `p`: one per planned item,
/// in plan order, each encoded by the actual IDs `t` (and, for outer
/// aliases, those of the enclosing scopes of `stack`).
pub open spec fn sections_encoded<'a>(
    c: Component,
    p: ComponentPlan,
    t: PlanIds,
    r: Seq<EncodedItem<'a>>,
    stack: Seq<(&'a ActualIds, ScopeId)>,
) -> bool
    decreases c, 1int,
{
    &&& r.len() == p.items@.len()
    &&& t.nested@.len() == p.items@.len()
    &&& forall|i: int| 0 <= i < p.items@.len() ==> item_encoded(c, #[trigger] p.items@[i], t.nested@[i], r[i], stack)
}

/// `r` is the sections of the root component `c` by plan `p` and actual
/// IDs `t`.
pub open spec fn encoding_of<'a>(c: Component, p: ComponentPlan, t: &'a PlanIds, r: Seq<EncodedItem<'a>>) -> bool {
    sections_encoded(c, p, *t, r, seq![(&t.ids, c.space_id)])
}

/// The scopes `stack` with `top` pushed on.
fn push_scope<'a>(stack: &Vec<(&'a ActualIds, ScopeId)>, top: (&'a ActualIds, ScopeId)) -> (r: Vec<(&'a ActualIds, ScopeId)>)
    ensures
        r@ == stack@.push(top),
{
    let mut out: Vec<(&'a ActualIds, ScopeId)> = Vec::new();
    for k in 0..stack.len()
        invariant
            out@ == stack@.take(k as int),
    {
        out.push(stack[k]);
        proof {
            assert(stack@.take(k + 1) =~= stack@.take(k as int).push(stack@[k as int]));
        }
    }
    proof {
        assert(stack@.take(stack@.len() as int) =~= stack@);
    }
    out.push(top);
    out
}

/// The sections of component `c` by plan `plan` and actual IDs `t`, where
/// every index they hold has an actual ID (`None` where one has not).
fn encode_items<'a>(
    c: &'a Component,
    plan: &ComponentPlan,
    t: &'a PlanIds,
    stack: &Vec<(&'a ActualIds, ScopeId)>,
) -> (r: Option<Vec<EncodedItem<'a>>>)
    requires
        plan_ok(*c, *plan),
        plan_ids_ok(*c, *plan, *t),
        stack@.len() > 0,
        *stack@.last().0 == t.ids,
        stack@.last().1 == c.space_id,
    ensures
        r matches Some(v) ==> sections_encoded(*c, *plan, *t, v@, stack@),
        r is None ==> forall|v: Seq<EncodedItem<'a>>| !sections_encoded(*c, *plan, *t, v, stack@),
    decreases *c,
{
    let n = plan.items.len();
    let (ids, s) = stack[stack.len() - 1];
    proof {
        assert(scope_at(stack@, 0) == (t.ids, c.space_id));
        assert(t.ids.scope_map().contains_key(c.space_id));
    }
    let mut out: Vec<EncodedItem<'a>> = Vec::new();
    for i in 0..n
        invariant
            n == plan.items@.len(),
            plan_ok(*c, *plan),
            plan_ids_ok(*c, *plan, *t),
            stack@.len() > 0,
            *stack@.last().0 == t.ids,
            stack@.last().1 == c.space_id,
            *ids == t.ids,
            s == c.space_id,
            scope_at(stack@, 0) == (t.ids, c.space_id),
            t.ids.scope_map().contains_key(c.space_id),
            out@.len() == i,
            forall|j: int| 0 <= j < i ==> item_encoded(*c, #[trigger] plan.items@[j], t.nested@[j], out@[j], stack@),
    {
        let ghost item = plan.items@[i as int];
        proof {
            let locs = crate::collect::plan_locs(plan.items@);
            assert(locs[i as int] == item.loc());
            assert(c.holds(locs[i as int]));
        }
        let e: EncodedItem<'a> = match &plan.items[i] {
            ComponentItem::Module { idx } => EncodedItem::Module(&c.modules[*idx]),
            ComponentItem::CompType { idx, .. } => {
                let ty = &c.component_types.items[*idx];
                if has_body_exec(ty) {
                    EncodedItem::ComponentType(ty)
                } else {
                    match fix_comp_type(ty, ids, s) {
                        Some(x) => EncodedItem::FixedType(x),
                        None => {
                            proof { lemma_no_encoding(*c, *plan, *t, stack@, i as int); }
                            return None;
                        },
                    }
                }
            },
            ComponentItem::CoreType { idx, .. } => EncodedItem::CoreType(&c.core_types[*idx]),
            ComponentItem::CustomSection { idx } => EncodedItem::Custom(&c.custom_sections[*idx]),
            ComponentItem::CompInst { idx } => match fix_comp_instance(&c.component_instance[*idx], ids, s) {
                Some(x) => EncodedItem::ComponentInstance(x),
                None => {
                    proof { lemma_no_encoding(*c, *plan, *t, stack@, i as int); }
                    return None;
                },
            },
            ComponentItem::CanonicalFunc { idx } => match try_fix_canon(&c.canons.items[*idx], ids, s) {
                Some(x) => EncodedItem::Canon(x),
                None => {
                    proof { lemma_no_encoding(*c, *plan, *t, stack@, i as int); }
                    return None;
                },
            },
            ComponentItem::Alias { idx } => match fix_alias(&c.alias.items[*idx], stack) {
                Some(x) => EncodedItem::Alias(x),
                None => {
                    proof { lemma_no_encoding(*c, *plan, *t, stack@, i as int); }
                    return None;
                },
            },
            ComponentItem::Import { idx } => match fix_import(&c.imports[*idx], ids, s) {
                Some(x) => EncodedItem::Import(x),
                None => {
                    proof { lemma_no_encoding(*c, *plan, *t, stack@, i as int); }
                    return None;
                },
            },
            ComponentItem::Export { idx } => match fix_export(&c.exports[*idx], ids, s) {
                Some(x) => EncodedItem::Export(x),
                None => {
                    proof { lemma_no_encoding(*c, *plan, *t, stack@, i as int); }
                    return None;
                },
            },
            ComponentItem::Inst { idx } => match fix_core_instance(&c.instances[*idx], ids, s) {
                Some(x) => EncodedItem::CoreInstance(x),
                None => {
                    proof { lemma_no_encoding(*c, *plan, *t, stack@, i as int); }
                    return None;
                },
            },
            ComponentItem::Start { idx } => match fix_start(&c.start_section[*idx], ids, s) {
                Some(x) => EncodedItem::Start(x),
                None => {
                    proof { lemma_no_encoding(*c, *plan, *t, stack@, i as int); }
                    return None;
                },
            },
            ComponentItem::Component { idx, plan: inner } => {
                proof {
                    assert(crate::collect::item_ok(*c, item));
                    assert(decreases_to!(*c => c.components));
                    assert(decreases_to!(*c => c.components@[*idx as int]));
                }
                let tn = match &t.nested[i] {
                    Some(tn) => tn,
                    None => {
                        proof { assert(false); }
                        return None;
                    },
                };
                let sub = &c.components[*idx];
                let st2 = push_scope(stack, (&tn.ids, sub.space_id));
                match encode_items(sub, inner, tn, &st2) {
                    Some(v) => EncodedItem::Component(v),
                    None => {
                        proof {
                            assert(st2@ == stack@.push((&tn.ids, sub.space_id)));
                            assert forall|e: EncodedItem<'a>| !item_encoded(*c, item, t.nested@[i as int], e, stack@) by {
                                if e is Component {
                                    assert(!sections_encoded(*sub, *inner, *tn, e->Component_0@, st2@));
                                }
                            }
                            lemma_no_encoding(*c, *plan, *t, stack@, i as int);
                        }
                        return None;
                    },
                }
            },
        };
        out.push(e);
        proof {
            assert(item_encoded(*c, plan.items@[i as int], t.nested@[i as int], out@[i as int], stack@));
        }
    }
    Some(out)
}

/// Where planned item `i` has no encoding, the plan has none.
proof fn lemma_no_encoding<'a>(c: Component, p: ComponentPlan, t: PlanIds, stack: Seq<(&'a ActualIds, ScopeId)>, i: int)
    requires
        0 <= i < p.items@.len(),
        forall|e: EncodedItem<'a>| !item_encoded(c, p.items@[i], t.nested@[i], e, stack),
    ensures
        forall|v: Seq<EncodedItem<'a>>| !sections_encoded(c, p, t, v, stack),
{
    assert forall|v: Seq<EncodedItem<'a>>| !sections_encoded(c, p, t, v, stack) by {
        if sections_encoded(c, p, t, v, stack) {
            assert(item_encoded(c, p.items@[i], t.nested@[i], v[i], stack));
        }
    }
}

impl Component {
    /// Encodes this component into its binary: the items are planned
    /// (every item after the items it refers to), given their actual IDs in
    /// plan order, written each with its indices rewritten to those IDs,
    /// and the sections are written out with `wasm_encoder`.
    ///
    /// `UnassignedReference` where an item refers to an item that has no
    /// actual ID; `NotEncodable` where an item has no binary form.
    pub fn encode(&self) -> (r: Result<Vec<u8>, Error>)
        requires
            self.collectable(),
            forall|p: ComponentPlan| plan_ok(*self, p) ==> #[trigger] ids_fit(*self, p),
        ensures
            match r {
                Ok(b) => exists|p: ComponentPlan, t: PlanIds, v: Seq<EncodedItem<'_>>|
                    plan_ok(*self, p) && plan_ids_ok(*self, p, t) && #[trigger] encoding_of(*self, p, &t, v)
                    && items_plain(v) && component_bytes(v) == Some(b@),
                Err(Error::UnassignedReference) => exists|p: ComponentPlan, t: PlanIds|
                    plan_ok(*self, p) && #[trigger] plan_ids_ok(*self, p, t)
                    && forall|v: Seq<EncodedItem<'_>>| !encoding_of(*self, p, &t, v),
                Err(Error::NotEncodable) => exists|p: ComponentPlan, t: PlanIds, v: Seq<EncodedItem<'_>>|
                    plan_ok(*self, p) && plan_ids_ok(*self, p, t) && #[trigger] encoding_of(*self, p, &t, v)
                    && (!items_plain(v) || component_bytes(v) is None),
                Err(_) => false,
            },
    {
        let plan = self.collect_root();
        let t = self.assign_indices(&plan);
        let mut stack: Vec<(&ActualIds, ScopeId)> = Vec::new();
        stack.push((&t.ids, self.space_id));
        proof {
            assert(stack@ =~= seq![(&t.ids, self.space_id)]);
        }
        match encode_items(self, &plan, &t, &stack) {
            None => {
                proof {
                    assert forall|v: Seq<EncodedItem<'_>>| !encoding_of(*self, plan, &t, v) by {}
                }
                Err(Error::UnassignedReference)
            },
            Some(v) => {
                proof {
                    assert(encoding_of(*self, plan, &t, v@));
                }
                if !items_plain_exec(&v) {
                    return Err(Error::NotEncodable);
                }
                match emit(&v) {
                    Some(b) => Ok(b),
                    None => Err(Error::NotEncodable),
                }
            },
        }
    }
}

} // verus!
