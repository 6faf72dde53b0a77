//! The actual IDs that items are given when a component is encoded.
//!
//! Items may be encoded in another order than they were parsed in (after
//! instrumentation injected new ones), so the index an item finally gets is
//! only known at encode time. Per scope and index space, an [`IdTracker`]
//! hands out the actual IDs in encoding order and remembers, for each
//! assumed ID, the actual ID it was given.

use vstd::prelude::*;
use std::collections::HashMap;
use crate::idx_spaces::{ScopeId, Space, IndexSpaceOf, subtype_of_section};
use crate::refs::IndexedRef;
use crate::component::Component;
use crate::collect::{ComponentPlan, ComponentItem, ItemLoc, plan_locs, plan_ok};
use crate::section::ComponentSection;

verus! {

broadcast use vstd::std_specs::hash::group_hash_axioms;

/// Actual IDs of one index space of one scope.
#[derive(Clone, Debug)]
pub struct IdTracker {
    /// `assumed_id -> actual_id`.
    actual_ids: HashMap<usize, usize>,
    /// The actual ID the next encoded item will be given.
    current_id: usize,
}

impl IdTracker {
    /// The actual IDs given so far, by assumed ID.
    pub closed spec fn actual_map(self) -> Map<usize, usize> {
        self.actual_ids@
    }

    /// The actual ID the next encoded item will be given.
    pub closed spec fn counter(self) -> usize {
        self.current_id
    }

    /// Well-formedness: every actual ID given is below the counter, and no
    /// two assumed IDs share one.
    pub open spec fn wf(self) -> bool {
        &&& forall|a: usize| #[trigger] self.actual_map().contains_key(a) ==> self.actual_map()[a] < self.counter()
        &&& forall|a: usize, b: usize|
            #![trigger self.actual_map()[a], self.actual_map()[b]]
            self.actual_map().contains_key(a) && self.actual_map().contains_key(b) && a != b
                ==> self.actual_map()[a] != self.actual_map()[b]
    }

    /// A tracker that has given no actual ID.
    pub fn new() -> (r: Self)
        ensures
            r.actual_map() == Map::<usize, usize>::empty(),
            r.counter() == 0,
            r.wf(),
    {
        IdTracker { actual_ids: HashMap::new(), current_id: 0 }
    }

    /// The actual ID the next encoded item will be given.
    pub fn curr_id(&self) -> (r: usize)
        ensures
            r == self.counter(),
    {
        self.current_id
    }

    /// Gives the item with assumed ID `assumed_id` the next actual ID.
    pub fn assign_actual_id(&mut self, assumed_id: usize)
        requires
            old(self).wf(),
            old(self).counter() < usize::MAX,
        ensures
            final(self).wf(),
            final(self).actual_map() == old(self).actual_map().insert(assumed_id, old(self).counter()),
            final(self).counter() == old(self).counter() + 1,
    {
        let id = self.curr_id();
        self.actual_ids.insert(assumed_id, id);
        self.next();
        proof {
            let m = self.actual_map();
            assert forall|a: usize| #[trigger] m.contains_key(a) implies m[a] < self.counter() by {
                if a != assumed_id {
                    assert(old(self).actual_map().contains_key(a));
                }
            }
            assert forall|a: usize, b: usize|
                #![trigger m[a], m[b]]
                m.contains_key(a) && m.contains_key(b) && a != b implies m[a] != m[b] by {
                if a != assumed_id && b != assumed_id {
                    assert(old(self).actual_map()[a] != old(self).actual_map()[b]);
                } else if a == assumed_id {
                    assert(old(self).actual_map().contains_key(b));
                    assert(old(self).actual_map()[b] < old(self).counter());
                } else {
                    assert(old(self).actual_map().contains_key(a));
                    assert(old(self).actual_map()[a] < old(self).counter());
                }
            }
        }
    }

    /// Uses up the current actual ID and returns it.
    fn next(&mut self) -> (r: usize)
        requires
            old(self).counter() < usize::MAX,
        ensures
            r == old(self).counter(),
            final(self).counter() == old(self).counter() + 1,
            final(self).actual_map() == old(self).actual_map(),
    {
        let curr = self.current_id;
        self.current_id += 1;
        curr
    }

    /// The actual ID given to the item with assumed ID `id`, if any.
    pub fn lookup_actual_id(&self, id: usize) -> (r: Option<&usize>)
        ensures
            match r {
                Some(v) => self.actual_map().contains_key(id) && *v == self.actual_map()[id],
                None => !self.actual_map().contains_key(id),
            },
    {
        self.actual_ids.get(&id)
    }
}

/// `after` is `before` once [`IdTracker::assign_actual_id`] gave assumed
/// ID `a` the next actual ID.
pub open spec fn tracker_step(before: IdTracker, after: IdTracker, a: usize) -> bool {
    &&& after.actual_map() == before.actual_map().insert(a, before.counter())
    &&& after.counter() == before.counter() + 1
}

/// A run of assignments: `states[j + 1]` is `states[j]` after assumed ID
/// `assumed[j]` was given the next actual ID.
pub open spec fn tracker_run(states: Seq<IdTracker>, assumed: Seq<usize>) -> bool {
    &&& states.len() == assumed.len() + 1
    &&& forall|j: int| 0 <= j < assumed.len() ==> #[trigger] tracker_step(states[j], states[j + 1], assumed[j])
}

/// From a tracker that has given no actual ID, a run of assignments gives
/// each assumed ID assigned the position of its last assignment in the run,
/// and gives no other assumed ID one; the counter ends at the length of
/// the run.
pub proof fn law_actual_ids_are_positions(states: Seq<IdTracker>, assumed: Seq<usize>)
    requires
        tracker_run(states, assumed),
        states[0].actual_map() == Map::<usize, usize>::empty(),
        states[0].counter() == 0,
        assumed.len() <= usize::MAX,
    ensures
        states.last().actual_map() == positions(assumed),
        states.last().counter() == assumed.len(),
    decreases assumed.len(),
{
    let k = assumed.len() as int;
    if k > 0 {
        let st = states.drop_last();
        assert(tracker_run(st, assumed.drop_last())) by {
            assert forall|j: int| 0 <= j < k - 1 implies #[trigger] tracker_step(st[j], st[j + 1], assumed.drop_last()[j]) by {
                assert(tracker_step(states[j], states[j + 1], assumed[j]));
            }
        }
        law_actual_ids_are_positions(st, assumed.drop_last());
        assert(tracker_step(states[k - 1], states[k], assumed[k - 1]));
    } else {
        assert(positions(assumed) == Map::<usize, usize>::empty());
    }
}

/// The actual IDs of all index spaces of one scope.
#[derive(Clone, Debug)]
pub struct IdsForScope {
    // Component-level spaces
    comp: IdTracker,
    comp_func: IdTracker,
    comp_val: IdTracker,
    comp_type: IdTracker,
    comp_inst: IdTracker,
    // Core spaces added by the component model
    core_inst: IdTracker,
    module: IdTracker,
    // Core spaces that exist at the component level
    core_type: IdTracker,
    core_func: IdTracker,
    core_memory: IdTracker,
    core_table: IdTracker,
    core_global: IdTracker,
    core_tag: IdTracker,
}

impl IdsForScope {
    /// The tracker of index space `sp` (`NA` has none; it is given the
    /// component tracker here only to make this total).
    pub closed spec fn tracker(self, sp: Space) -> IdTracker {
        match sp {
            Space::Comp => self.comp,
            Space::CompFunc => self.comp_func,
            Space::CompVal => self.comp_val,
            Space::CompType => self.comp_type,
            Space::CompInst => self.comp_inst,
            Space::CoreInst => self.core_inst,
            Space::CoreModule => self.module,
            Space::CoreType => self.core_type,
            Space::CoreFunc => self.core_func,
            Space::CoreMemory => self.core_memory,
            Space::CoreTable => self.core_table,
            Space::CoreGlobal => self.core_global,
            Space::CoreTag => self.core_tag,
            Space::NA => self.comp,
        }
    }

    /// This scope with the tracker of `sp` replaced by `t`.
    closed spec fn with_tracker(self, sp: Space, t: IdTracker) -> IdsForScope {
        IdsForScope {
            comp: if sp == Space::Comp { t } else { self.comp },
            comp_func: if sp == Space::CompFunc { t } else { self.comp_func },
            comp_val: if sp == Space::CompVal { t } else { self.comp_val },
            comp_type: if sp == Space::CompType { t } else { self.comp_type },
            comp_inst: if sp == Space::CompInst { t } else { self.comp_inst },
            core_inst: if sp == Space::CoreInst { t } else { self.core_inst },
            module: if sp == Space::CoreModule { t } else { self.module },
            core_type: if sp == Space::CoreType { t } else { self.core_type },
            core_func: if sp == Space::CoreFunc { t } else { self.core_func },
            core_memory: if sp == Space::CoreMemory { t } else { self.core_memory },
            core_table: if sp == Space::CoreTable { t } else { self.core_table },
            core_global: if sp == Space::CoreGlobal { t } else { self.core_global },
            core_tag: if sp == Space::CoreTag { t } else { self.core_tag },
        }
    }

    proof fn lemma_with_tracker(self, sp: Space, t: IdTracker)
        requires
            sp != Space::NA,
        ensures
            self.with_tracker(sp, t).tracker(sp) == t,
            forall|o: Space| o != sp && o != Space::NA ==> #[trigger] self.with_tracker(sp, t).tracker(o)
                == self.tracker(o),
    {
        match sp {
            Space::Comp => {},
            Space::CompFunc => {},
            Space::CompVal => {},
            Space::CompType => {},
            Space::CompInst => {},
            Space::CoreInst => {},
            Space::CoreModule => {},
            Space::CoreType => {},
            Space::CoreFunc => {},
            Space::CoreMemory => {},
            Space::CoreTable => {},
            Space::CoreGlobal => {},
            Space::CoreTag => {},
            Space::NA => {},
        }
        assert forall|o: Space| o != sp && o != Space::NA implies #[trigger] self.with_tracker(sp, t).tracker(o)
            == self.tracker(o) by {
            match o {
                Space::Comp => {},
                Space::CompFunc => {},
                Space::CompVal => {},
                Space::CompType => {},
                Space::CompInst => {},
                Space::CoreInst => {},
                Space::CoreModule => {},
                Space::CoreType => {},
                Space::CoreFunc => {},
                Space::CoreMemory => {},
                Space::CoreTable => {},
                Space::CoreGlobal => {},
                Space::CoreTag => {},
                Space::NA => {},
            }
        }
    }

    /// Every tracker is well formed.
    pub open spec fn wf(self) -> bool {
        forall|sp: Space| sp != Space::NA ==> #[trigger] self.tracker(sp).wf()
    }

    /// No tracker has given an actual ID.
    pub open spec fn is_fresh(self) -> bool {
        forall|sp: Space| #[trigger] self.tracker(sp).actual_map() == Map::<usize, usize>::empty()
            && self.tracker(sp).counter() == 0
    }

    /// Trackers that have given no actual ID.
    pub fn new() -> (r: Self)
        ensures
            r.is_fresh(),
            r.wf(),
    {
        let r = IdsForScope {
            comp: IdTracker::new(),
            comp_func: IdTracker::new(),
            comp_val: IdTracker::new(),
            comp_type: IdTracker::new(),
            comp_inst: IdTracker::new(),
            core_inst: IdTracker::new(),
            module: IdTracker::new(),
            core_type: IdTracker::new(),
            core_func: IdTracker::new(),
            core_memory: IdTracker::new(),
            core_table: IdTracker::new(),
            core_global: IdTracker::new(),
            core_tag: IdTracker::new(),
        };
        assert forall|sp: Space| #[trigger] r.tracker(sp).actual_map() == Map::<usize, usize>::empty()
            && r.tracker(sp).counter() == 0 by {}
        assert forall|sp: Space| sp != Space::NA implies #[trigger] r.tracker(sp).wf() by {}
        r
    }

    /// Gives the item with assumed ID `assumed_id` of index space `space`
    /// the next actual ID of that space; nothing for `NA`.
    pub fn assign_actual_id(&mut self, space: &Space, assumed_id: usize)
        requires
            old(self).wf(),
            *space != Space::NA ==> old(self).tracker(*space).counter() < usize::MAX,
        ensures
            final(self).wf(),
            *space == Space::NA ==> *final(self) == *old(self),
            *space != Space::NA ==> {
                &&& final(self).tracker(*space).actual_map() == old(self).tracker(*space).actual_map().insert(
                    assumed_id,
                    old(self).tracker(*space).counter(),
                )
                &&& final(self).tracker(*space).counter() == old(self).tracker(*space).counter() + 1
                &&& forall|o: Space| o != *space && o != Space::NA ==> #[trigger] final(self).tracker(o)
                    == old(self).tracker(o)
            },
    {
        let ghost sp = *space;
        if let Some(space) = self.get_space_mut(space) {
            space.assign_actual_id(assumed_id);
            proof {
                old(self).lemma_with_tracker(sp, *space);
            }
        }
    }

    /// The tracker of index space `space`, to be changed; none for `NA`.
    fn get_space_mut(&mut self, space: &Space) -> (r: Option<&mut IdTracker>)
        ensures
            (r is None) <==> *space == Space::NA,
            r is None ==> *final(self) == *old(self),
            r is Some ==> *r->0 == old(self).tracker(*space) && *final(self) == old(self).with_tracker(
                *space,
                *final(r->0),
            ),
    {
        match space {
            Space::Comp => Some(&mut self.comp),
            Space::CompFunc => Some(&mut self.comp_func),
            Space::CompVal => Some(&mut self.comp_val),
            Space::CompType => Some(&mut self.comp_type),
            Space::CompInst => Some(&mut self.comp_inst),
            Space::CoreInst => Some(&mut self.core_inst),
            Space::CoreModule => Some(&mut self.module),
            Space::CoreType => Some(&mut self.core_type),
            Space::CoreFunc => Some(&mut self.core_func),
            Space::CoreMemory => Some(&mut self.core_memory),
            Space::CoreTable => Some(&mut self.core_table),
            Space::CoreGlobal => Some(&mut self.core_global),
            Space::CoreTag => Some(&mut self.core_tag),
            Space::NA => None,
        }
    }

    /// The tracker of index space `space`; none for `NA`.
    pub(crate) fn get_space(&self, space: &Space) -> (r: Option<&IdTracker>)
        ensures
            (r is None) <==> *space == Space::NA,
            r is Some ==> *r->0 == self.tracker(*space),
    {
        match space {
            Space::Comp => Some(&self.comp),
            Space::CompFunc => Some(&self.comp_func),
            Space::CompVal => Some(&self.comp_val),
            Space::CompType => Some(&self.comp_type),
            Space::CompInst => Some(&self.comp_inst),
            Space::CoreInst => Some(&self.core_inst),
            Space::CoreModule => Some(&self.module),
            Space::CoreType => Some(&self.core_type),
            Space::CoreFunc => Some(&self.core_func),
            Space::CoreMemory => Some(&self.core_memory),
            Space::CoreTable => Some(&self.core_table),
            Space::CoreGlobal => Some(&self.core_global),
            Space::CoreTag => Some(&self.core_tag),
            Space::NA => None,
        }
    }

    /// The actual ID given to the item that `r` refers to (its index taken
    /// as an assumed ID of its index space).
    pub(crate) fn lookup_actual_id_or_panic(&self, r: &IndexedRef) -> (res: usize)
        requires
            r.space != Space::NA,
            self.tracker(r.space).actual_map().contains_key(r.index as usize),
        ensures
            res == self.tracker(r.space).actual_map()[r.index as usize],
    {
        let space = self.get_space(&r.space).unwrap();
        *space.lookup_actual_id(r.index as usize).unwrap()
    }
}

/// The actual IDs of every scope, by scope identity.
#[derive(Clone, Debug)]
pub struct ActualIds {
    scopes: HashMap<ScopeId, IdsForScope>,
}

impl ActualIds {
    /// The actual IDs of each scope that has some.
    pub closed spec fn scope_map(self) -> Map<ScopeId, IdsForScope> {
        self.scopes@
    }

    /// Every scope's trackers are well formed.
    pub open spec fn wf(self) -> bool {
        forall|id: ScopeId| #[trigger] self.scope_map().contains_key(id) ==> self.scope_map()[id].wf()
    }

    /// The actual IDs given so far in index space `sp` of scope `id`
    /// (none for a scope without trackers).
    pub open spec fn prior_map(self, id: ScopeId, sp: Space) -> Map<usize, usize> {
        if self.scope_map().contains_key(id) {
            self.scope_map()[id].tracker(sp).actual_map()
        } else {
            Map::empty()
        }
    }

    /// The next actual ID of index space `sp` of scope `id` (zero for a
    /// scope without trackers).
    pub open spec fn prior_counter(self, id: ScopeId, sp: Space) -> usize {
        if self.scope_map().contains_key(id) {
            self.scope_map()[id].tracker(sp).counter()
        } else {
            0
        }
    }

    /// No scope has actual IDs.
    pub fn new() -> (r: Self)
        ensures
            r.scope_map() == Map::<ScopeId, IdsForScope>::empty(),
            r.wf(),
    {
        ActualIds { scopes: HashMap::new() }
    }

    /// Makes sure scope `id` has trackers.
    pub fn add_scope(&mut self, id: ScopeId)
        requires
            old(self).wf(),
        ensures
            final(self).wf(),
            final(self).scope_map().dom() == old(self).scope_map().dom().insert(id),
            old(self).scope_map().contains_key(id) ==> final(self).scope_map() == old(self).scope_map(),
            !old(self).scope_map().contains_key(id) ==> final(self).scope_map()[id].is_fresh(),
            forall|k: ScopeId| k != id && #[trigger] old(self).scope_map().contains_key(k)
                ==> final(self).scope_map()[k] == old(self).scope_map()[k],
    {
        if !self.scopes.contains_key(&id) {
            self.scopes.insert(id, IdsForScope::new());
        }
        proof {
            assert(self.scope_map().dom() =~= old(self).scope_map().dom().insert(id));
        }
    }

    /// The actual IDs of scope `id`, if it has any.
    pub fn get_scope(&self, id: ScopeId) -> (r: Option<&IdsForScope>)
        ensures
            match r {
                Some(s) => self.scope_map().contains_key(id) && *s == self.scope_map()[id],
                None => !self.scope_map().contains_key(id),
            },
    {
        self.scopes.get(&id)
    }

    /// The relation between the actual IDs before and after the item with
    /// assumed ID `assumed_id` of index space `sp` of scope `id` was given
    /// the next actual ID there.
    pub open spec fn assign_step(before: ActualIds, after: ActualIds, id: ScopeId, sp: Space, assumed_id: usize) -> bool {
        &&& after.wf()
        &&& after.scope_map().dom() == before.scope_map().dom().insert(id)
        &&& forall|k: ScopeId| k != id && #[trigger] before.scope_map().contains_key(k)
            ==> after.scope_map()[k] == before.scope_map()[k]
        &&& sp != Space::NA ==> {
            &&& after.scope_map()[id].tracker(sp).actual_map() == before.prior_map(id, sp).insert(
                assumed_id,
                before.prior_counter(id, sp),
            )
            &&& after.scope_map()[id].tracker(sp).counter() == before.prior_counter(id, sp) + 1
        }
        &&& forall|o: Space| o != sp && o != Space::NA ==> #[trigger] after.prior_map(id, o) == before.prior_map(id, o)
        &&& forall|o: Space| o != sp && o != Space::NA ==> #[trigger] after.prior_counter(id, o) == before.prior_counter(id, o)
    }

    /// Gives the item with assumed ID `assumed_id` of index space `space` of
    /// scope `id` the next actual ID there (creating the scope's trackers
    /// when needed).
    pub fn assign_actual_id(&mut self, id: ScopeId, space: &Space, assumed_id: usize)
        requires
            old(self).wf(),
            *space != Space::NA ==> old(self).prior_counter(id, *space) < usize::MAX,
        ensures
            ActualIds::assign_step(*old(self), *final(self), id, *space, assumed_id),
    {
        if !self.scopes.contains_key(&id) {
            self.scopes.insert(id, IdsForScope::new());
        }
        let mut ids = self.scopes.remove(&id).unwrap();
        let ghost taken = ids;
        proof {
            assert(ids.tracker(*space).actual_map() == old(self).prior_map(id, *space));
            assert(ids.tracker(*space).counter() == old(self).prior_counter(id, *space));
            assert forall|o: Space| #[trigger] taken.tracker(o).counter() == old(self).prior_counter(id, o) by {
                if !old(self).scope_map().contains_key(id) {
                    assert(taken.is_fresh());
                    assert(taken.tracker(o).actual_map() == Map::<usize, usize>::empty());
                }
            }
        }
        ids.assign_actual_id(space, assumed_id);
        self.scopes.insert(id, ids);
        proof {
            assert(self.scope_map().dom() =~= old(self).scope_map().dom().insert(id));
            assert forall|o: Space| o != *space && o != Space::NA implies #[trigger] self.prior_map(id, o)
                == old(self).prior_map(id, o) by {
                if *space == Space::NA {
                } else {
                    assert(self.scope_map()[id].tracker(o) == ids.tracker(o));
                }
            }
            assert forall|o: Space| o != *space && o != Space::NA implies #[trigger] self.prior_counter(id, o)
                == old(self).prior_counter(id, o) by {
                assert(taken.tracker(o).counter() == old(self).prior_counter(id, o));
                if *space == Space::NA {
                    assert(ids == taken);
                } else {
                    assert(self.scope_map()[id].tracker(o) == ids.tracker(o));
                    assert(ids.tracker(o) == taken.tracker(o));
                }
            }
        }
    }

    /// The actual ID given to the item that `r` refers to, looked up in
    /// scope `scope_id` (the scope that `r`'s depth leads to from the node
    /// holding `r`).
    pub fn lookup_actual_id_or_panic(&self, scope_id: ScopeId, r: &IndexedRef) -> (res: usize)
        requires
            self.scope_map().contains_key(scope_id),
            r.space != Space::NA,
            self.scope_map()[scope_id].tracker(r.space).actual_map().contains_key(r.index as usize),
        ensures
            res == self.scope_map()[scope_id].tracker(r.space).actual_map()[r.index as usize],
    {
        let ids = self.scopes.get(&scope_id).unwrap();
        ids.lookup_actual_id_or_panic(r)
    }
}


impl ActualIds {
    /// An item gets, as its actual ID, the number of items of its index
    /// space and scope given one before it: assigning one, then looking it
    /// up, gives that number.
    pub proof fn lemma_assigned_actual_id_is_found(
        before: ActualIds,
        after: ActualIds,
        id: ScopeId,
        sp: Space,
        assumed_id: usize,
    )
        requires
            before.wf(),
            sp != Space::NA,
            ActualIds::assign_step(before, after, id, sp, assumed_id),
        ensures
            after.scope_map().contains_key(id),
            after.scope_map()[id].tracker(sp).actual_map().contains_key(assumed_id),
            after.scope_map()[id].tracker(sp).actual_map()[assumed_id] == before.prior_counter(id, sp),
    {
        assert(after.scope_map().dom().contains(id));
    }

    /// No two items of one index space of one scope share an actual ID.
    pub proof fn lemma_actual_ids_distinct(ids: ActualIds, id: ScopeId, sp: Space, a: usize, b: usize)
        requires
            ids.wf(),
            sp != Space::NA,
            ids.scope_map().contains_key(id),
            a != b,
            ids.scope_map()[id].tracker(sp).actual_map().contains_key(a),
            ids.scope_map()[id].tracker(sp).actual_map().contains_key(b),
        ensures
            ids.scope_map()[id].tracker(sp).actual_map()[a] != ids.scope_map()[id].tracker(sp).actual_map()[b],
    {
        assert(ids.scope_map()[id].wf());
        assert(ids.scope_map()[id].tracker(sp).wf());
    }
}

/// The scope a node's actual ID is assigned in: a node with a nested scope
/// of its own lives in the enclosing scope, unless it is an inner node of
/// that nested scope.
pub open spec fn spec_assign_scope(node_has_nested_scope: Seq<bool>, scope_stack: Seq<ScopeId>, is_inner_node: bool) -> ScopeId {
    let nested = node_has_nested_scope.len() > 0 && node_has_nested_scope.last();
    if nested && !is_inner_node {
        scope_stack[scope_stack.len() - 2]
    } else {
        scope_stack.last()
    }
}

/// Assigns actual IDs to the items of a component in encoding order.
pub(crate) struct Assigner {
    pub(crate) ids: ActualIds,
}

impl Assigner {
    /// Gives the node with assumed ID `assumed_id` of index space `space`
    /// its actual ID. `node_has_nested_scope` tells, per entered node,
    /// whether it opened a nested scope; `scope_stack` holds the entered
    /// scopes, innermost last.
    pub(crate) fn assign_actual_id(
        &mut self,
        node_has_nested_scope: &Vec<bool>,
        scope_stack: &Vec<ScopeId>,
        is_inner_node: bool,
        space: &Space,
        assumed_id: u32,
    )
        requires
            old(self).ids.wf(),
            scope_stack@.len() >= 1,
            (node_has_nested_scope@.len() > 0 && node_has_nested_scope@.last() && !is_inner_node)
                ==> scope_stack@.len() >= 2,
            *space != Space::NA ==> old(self).ids.prior_counter(
                spec_assign_scope(node_has_nested_scope@, scope_stack@, is_inner_node),
                *space,
            ) < usize::MAX,
        ensures
            ActualIds::assign_step(
                old(self).ids,
                final(self).ids,
                spec_assign_scope(node_has_nested_scope@, scope_stack@, is_inner_node),
                *space,
                assumed_id as usize,
            ),
    {
        let n = node_has_nested_scope.len();
        let nested = if n > 0 { node_has_nested_scope[n - 1] } else { false };
        let depth = scope_stack.len();
        let scope_id = if nested && !is_inner_node {
            scope_stack[depth - 2]
        } else {
            scope_stack[depth - 1]
        };
        self.ids.assign_actual_id(scope_id, space, assumed_id as usize)
    }
}


// ---------------------------------------------------------------------
// Actual IDs in the order of a plan.
// ---------------------------------------------------------------------

impl Component {
    /// The index space the item at `l` takes its IDs in (`NA` for start
    /// functions and custom sections).
    pub open spec fn item_space(self, l: ItemLoc) -> Space {
        match l.section {
            ComponentSection::Component => Space::Comp,
            ComponentSection::Module => self.modules@[l.idx as int].space_of(),
            ComponentSection::CoreType => self.core_types@[l.idx as int].space_of(),
            ComponentSection::ComponentType => self.component_types.items@[l.idx as int].space_of(),
            ComponentSection::ComponentImport => self.imports@[l.idx as int].space_of(),
            ComponentSection::ComponentExport => self.exports@[l.idx as int].space_of(),
            ComponentSection::CoreInstance => self.instances@[l.idx as int].space_of(),
            ComponentSection::ComponentInstance => self.component_instance@[l.idx as int].space_of(),
            ComponentSection::Canon => self.canons.items@[l.idx as int].space_of(),
            ComponentSection::Alias => self.alias.items@[l.idx as int].space_of(),
            ComponentSection::ComponentStartSection => self.start_section@[l.idx as int].space_of(),
            ComponentSection::CustomSection => self.custom_sections@[l.idx as int].space_of(),
        }
    }

    /// The assumed IDs the component's scope gave the item at `l`, in the
    /// order they were given.
    pub open spec fn loc_ids(self, l: ItemLoc) -> Seq<usize> {
        let sp = self.item_space(l);
        let m = self.scope().space(sp).id_map(subtype_of_section(l.section));
        if sp != Space::NA && m.contains_key(l.idx) {
            m[l.idx].ids()
        } else {
            Seq::empty()
        }
    }

    /// The index space the item at `l` takes its IDs in.
    fn item_space_of(&self, l: &ItemLoc) -> (r: Space)
        requires
            self.holds(*l),
        ensures
            r == self.item_space(*l),
    {
        let i = l.idx;
        match l.section {
            ComponentSection::Component => Space::Comp,
            ComponentSection::Module => self.modules[i].index_space_of(),
            ComponentSection::CoreType => self.core_types[i].index_space_of(),
            ComponentSection::ComponentType => self.component_types.items[i].index_space_of(),
            ComponentSection::ComponentImport => self.imports[i].index_space_of(),
            ComponentSection::ComponentExport => self.exports[i].index_space_of(),
            ComponentSection::CoreInstance => self.instances[i].index_space_of(),
            ComponentSection::ComponentInstance => self.component_instance[i].index_space_of(),
            ComponentSection::Canon => self.canons.items[i].index_space_of(),
            ComponentSection::Alias => self.alias.items[i].index_space_of(),
            ComponentSection::ComponentStartSection => self.start_section[i].index_space_of(),
            ComponentSection::CustomSection => self.custom_sections[i].index_space_of(),
        }
    }
}

/// The assumed IDs of index space `sp` that the items `locs` of `c` hold,
/// in the order of `locs`.
pub open spec fn planned_ids(c: Component, locs: Seq<ItemLoc>, sp: Space) -> Seq<usize>
    decreases locs.len(),
{
    if locs.len() == 0 {
        Seq::empty()
    } else {
        planned_ids(c, locs.drop_last(), sp) + if c.item_space(locs.last()) == sp {
            c.loc_ids(locs.last())
        } else {
            Seq::empty()
        }
    }
}

/// Each ID of `s` with its position in `s` (the last, for an ID held
/// twice).
pub open spec fn positions(s: Seq<usize>) -> Map<usize, usize>
    decreases s.len(),
{
    if s.len() == 0 {
        Map::empty()
    } else {
        positions(s.drop_last()).insert(s.last(), (s.len() - 1) as usize)
    }
}

/// The IDs the first items of a plan hold are at most those all of its
/// items hold.
proof fn lemma_planned_ids_prefix(c: Component, locs: Seq<ItemLoc>, i: int, sp: Space)
    requires
        0 <= i <= locs.len(),
    ensures
        planned_ids(c, locs.take(i), sp).len() <= planned_ids(c, locs, sp).len(),
    decreases locs.len() - i,
{
    if i < locs.len() {
        lemma_planned_ids_prefix(c, locs, i + 1, sp);
        assert(locs.take(i + 1).drop_last() =~= locs.take(i));
    } else {
        assert(locs.take(i) =~= locs);
    }
}

/// An ID that `s` holds once is given its position in `s`: the number of
/// IDs before it.
pub proof fn law_actual_id_is_position(s: Seq<usize>, j: int)
    requires
        s.no_duplicates(),
        s.len() <= usize::MAX,
        0 <= j < s.len(),
    ensures
        positions(s).contains_key(s[j]),
        positions(s)[s[j]] == j,
    decreases s.len(),
{
    if j < s.len() - 1 {
        assert(s.drop_last()[j] == s[j]);
        assert(s.drop_last().no_duplicates());
        law_actual_id_is_position(s.drop_last(), j);
        assert(s.last() != s[j]);
    }
}

impl Component {
    /// Gives the items of this component's own scope their actual IDs in
    /// the order of `plan`: per index space, the assumed IDs of the planned
    /// items get `0, 1, 2, ...` in plan order.
    pub fn assign_scope_indices(&self, plan: &ComponentPlan) -> (r: ActualIds)
        requires
            self.wf(),
            forall|i: int| 0 <= i < plan.items@.len() ==> self.holds(#[trigger] plan_locs(plan.items@)[i]),
            forall|sp: Space| #[trigger] planned_ids(*self, plan_locs(plan.items@), sp).len() <= usize::MAX,
        ensures
            r.wf(),
            r.scope_map().contains_key(self.space_id),
            forall|sp: Space| sp != Space::NA ==> #[trigger] r.prior_map(self.space_id, sp) == positions(
                planned_ids(*self, plan_locs(plan.items@), sp),
            ),
            forall|sp: Space| sp != Space::NA ==> #[trigger] r.prior_counter(self.space_id, sp) == planned_ids(
                *self,
                plan_locs(plan.items@),
                sp,
            ).len(),
    {
        let ghost locs = plan_locs(plan.items@);
        let mut ids = ActualIds::new();
        ids.add_scope(self.space_id);
        let scope = self.index_store.get(&self.space_id);
        proof {
            assert forall|sp: Space| sp != Space::NA implies #[trigger] ids.prior_map(self.space_id, sp) == positions(
                planned_ids(*self, locs.take(0), sp),
            ) by {
                assert(locs.take(0) =~= Seq::<ItemLoc>::empty());
                assert(ids.scope_map()[self.space_id].is_fresh());
                assert(ids.scope_map()[self.space_id].tracker(sp).actual_map() == Map::<usize, usize>::empty());
            }
            assert forall|sp: Space| sp != Space::NA implies #[trigger] ids.prior_counter(self.space_id, sp)
                == planned_ids(*self, locs.take(0), sp).len() by {
                assert(locs.take(0) =~= Seq::<ItemLoc>::empty());
                assert(ids.scope_map()[self.space_id].is_fresh());
                assert(ids.scope_map()[self.space_id].tracker(sp).actual_map() == Map::<usize, usize>::empty());
            }
        }
        let n = plan.items.len();
        for i in 0..n
            invariant
                n == plan.items@.len(),
                locs == plan_locs(plan.items@),
                self.wf(),
                *scope == self.scope(),
                forall|j: int| 0 <= j < plan.items@.len() ==> self.holds(#[trigger] plan_locs(plan.items@)[j]),
                forall|sp: Space| #[trigger] planned_ids(*self, locs, sp).len() <= usize::MAX,
                ids.wf(),
                ids.scope_map().contains_key(self.space_id),
                forall|sp: Space| sp != Space::NA ==> #[trigger] ids.prior_map(self.space_id, sp) == positions(
                    planned_ids(*self, locs.take(i as int), sp),
                ),
                forall|sp: Space| sp != Space::NA ==> #[trigger] ids.prior_counter(self.space_id, sp) == planned_ids(
                    *self,
                    locs.take(i as int),
                    sp,
                ).len(),
        {
            let l = plan.items[i].location();
            proof {
                assert(locs[i as int] == l);
                assert(locs.take(i + 1).drop_last() =~= locs.take(i as int));
                assert(locs.take(i + 1).last() == l);
            }
            let sp = self.item_space_of(&l);
            let ghost before = planned_ids(*self, locs.take(i as int), sp);
            let ghost lids = self.loc_ids(l);
            match scope.get_space(&sp) {
                None => {
                    proof {
                        assert forall|o: Space| o != Space::NA implies #[trigger] planned_ids(*self, locs.take(i + 1), o)
                            == planned_ids(*self, locs.take(i as int), o) by {
                            assert(planned_ids(*self, locs.take(i as int), o) + Seq::<usize>::empty()
                                =~= planned_ids(*self, locs.take(i as int), o));
                        }
                    }
                },
                Some(space) => match space.assumed_ids_at(&l.section, l.idx) {
                    None => {
                        proof {
                            assert(lids =~= Seq::<usize>::empty());
                            assert forall|o: Space| o != Space::NA implies #[trigger] planned_ids(*self, locs.take(i + 1), o)
                                == planned_ids(*self, locs.take(i as int), o) by {
                                assert(planned_ids(*self, locs.take(i as int), o) + Seq::<usize>::empty()
                                    =~= planned_ids(*self, locs.take(i as int), o));
                            }
                        }
                    },
                    Some(a) => {
                        proof {
                            assert(lids == a.ids());
                            lemma_planned_ids_prefix(*self, locs, i + 1, sp);
                        }
                        let m = a.count();
                        for k in 0..m
                            invariant
                                m == a.ids().len(),
                                lids == a.ids(),
                                sp != Space::NA,
                                before + lids == planned_ids(*self, locs.take(i + 1), sp),
                                planned_ids(*self, locs.take(i + 1), sp).len() <= usize::MAX,
                                ids.wf(),
                                ids.scope_map().contains_key(self.space_id),
                                ids.prior_map(self.space_id, sp) == positions(before + lids.take(k as int)),
                                ids.prior_counter(self.space_id, sp) == (before + lids.take(k as int)).len(),
                                forall|o: Space| o != sp && o != Space::NA ==> #[trigger] ids.prior_map(self.space_id, o)
                                    == positions(planned_ids(*self, locs.take(i as int), o)),
                                forall|o: Space| o != sp && o != Space::NA ==> #[trigger] ids.prior_counter(self.space_id, o)
                                    == planned_ids(*self, locs.take(i as int), o).len(),
                        {
                            let id = a.unwrap_for_idx(k);
                            let ghost pre = ids;
                            proof {
                                assert((before + lids.take(k + 1)).drop_last() =~= before + lids.take(k as int));
                                assert((before + lids.take(k + 1)).last() == id);
                                assert((before + lids.take(k + 1)).len() <= (before + lids).len());
                            }
                            ids.assign_actual_id(self.space_id, &sp, id);
                            proof {
                                ActualIds::lemma_assigned_actual_id_is_found(pre, ids, self.space_id, sp, id);
                                assert(ids.prior_map(self.space_id, sp) =~= positions(before + lids.take(k + 1)));
                            }
                        }
                        proof {
                            assert(lids.take(m as int) =~= lids);
                            assert forall|o: Space| o != sp && o != Space::NA implies #[trigger] planned_ids(*self, locs.take(i + 1), o)
                                == planned_ids(*self, locs.take(i as int), o) by {
                                assert(planned_ids(*self, locs.take(i as int), o) + Seq::<usize>::empty()
                                    =~= planned_ids(*self, locs.take(i as int), o));
                            }
                        }
                    },
                },
            }
        }
        proof {
            assert(locs.take(n as int) =~= locs);
        }
        ids
    }
}


// ---------------------------------------------------------------------
// Actual IDs of every component a plan reaches.
// ---------------------------------------------------------------------

/// The actual IDs of a component's own scope, and, for each planned item
/// that is a nested component, the actual IDs of that component (`None`
/// for other items).
#[derive(Debug)]
pub struct PlanIds {
    pub ids: ActualIds,
    pub nested: Vec<Option<PlanIds>>,
}

/// `ids` gives the planned items of `c`'s own scope their positions in
/// plan order, per index space.
pub open spec fn scope_ids_ok(c: Component, locs: Seq<ItemLoc>, ids: ActualIds) -> bool {
    &&& ids.wf()
    &&& ids.scope_map().contains_key(c.space_id)
    &&& forall|sp: Space| sp != Space::NA ==> #[trigger] ids.prior_map(c.space_id, sp) == positions(planned_ids(c, locs, sp))
    &&& forall|sp: Space| sp != Space::NA ==> #[trigger] ids.prior_counter(c.space_id, sp) == planned_ids(c, locs, sp).len()
}

/// The planned IDs of each space of `c`, and of each component its plan
/// `p` reaches, can be numbered in a `usize`.
pub open spec fn ids_fit(c: Component, p: ComponentPlan) -> bool
    decreases c,
{
    &&& forall|sp: Space| #[trigger] planned_ids(c, plan_locs(p.items@), sp).len() <= usize::MAX
    &&& forall|i: int| 0 <= i < p.items@.len() ==> match #[trigger] p.items@[i] {
        ComponentItem::Component { idx, plan } => idx < c.components@.len() ==> ids_fit(c.components@[idx as int], plan),
        _ => true,
    }
}

/// `t` gives every scope that plan `p` of `c` reaches its actual IDs in
/// plan order: `c`'s own, and that of each nested component by its own
/// plan.
pub open spec fn plan_ids_ok(c: Component, p: ComponentPlan, t: PlanIds) -> bool
    decreases c,
{
    &&& scope_ids_ok(c, plan_locs(p.items@), t.ids)
    &&& t.nested@.len() == p.items@.len()
    &&& forall|i: int| 0 <= i < p.items@.len() ==> match #[trigger] p.items@[i] {
        ComponentItem::Component { idx, plan } => idx < c.components@.len() && (t.nested@[i] matches Some(n)
            && plan_ids_ok(c.components@[idx as int], plan, n)),
        _ => t.nested@[i] is None,
    }
}

impl Component {
    /// Gives every scope that `plan` reaches its actual IDs in the order
    /// of the plan: this component's own items, and those of each nested
    /// component in the order of its own plan.
    pub fn assign_indices(&self, plan: &ComponentPlan) -> (r: PlanIds)
        requires
            self.collectable(),
            plan_ok(*self, *plan),
            ids_fit(*self, *plan),
        ensures
            plan_ids_ok(*self, *plan, r),
        decreases *self,
    {
        let ids = self.assign_scope_indices(plan);
        let mut nested: Vec<Option<PlanIds>> = Vec::new();
        let n = plan.items.len();
        for i in 0..n
            invariant
                n == plan.items@.len(),
                self.collectable(),
                plan_ok(*self, *plan),
                ids_fit(*self, *plan),
                nested@.len() == i,
                forall|j: int| 0 <= j < i ==> match #[trigger] plan.items@[j] {
                    ComponentItem::Component { idx, plan } => idx < self.components@.len() && (nested@[j] matches Some(t)
                        && plan_ids_ok(self.components@[idx as int], plan, t)),
                    _ => nested@[j] is None,
                },
        {
            let ghost item = plan.items@[i as int];
            let ghost prev = nested@;
            match &plan.items[i] {
                ComponentItem::Component { idx, plan: inner } => {
                    proof {
                        assert(crate::collect::item_ok(*self, item));
                        assert(self.components@[*idx as int].collectable());
                        assert(decreases_to!(*self => self.components));
                        assert(decreases_to!(*self => self.components@[*idx as int]));
                    }
                    let t = self.components[*idx].assign_indices(inner);
                    nested.push(Some(t));
                },
                _ => {
                    nested.push(None);
                },
            }
            proof {
                assert forall|j: int| 0 <= j < i + 1 implies match #[trigger] plan.items@[j] {
                    ComponentItem::Component { idx, plan } => idx < self.components@.len() && (nested@[j] matches Some(t)
                        && plan_ids_ok(self.components@[idx as int], plan, t)),
                    _ => nested@[j] is None,
                } by {
                    if j < i {
                        assert(nested@[j] == prev[j]);
                    }
                }
            }
        }
        PlanIds { ids, nested }
    }
}

} // verus!
