//! Building a component from the payloads of its binary.
//!
//! The payloads are taken as a stack: the next payload is the last one.
//! Each top-level payload of the component adds its items to the item
//! vector of its kind, gives each item the next assumed ID of its index
//! space, and adds one `(count, kind)` entry to the section list. A nested
//! component is built from its own payloads; the payloads of a nested
//! module are skipped.

use vstd::prelude::*;
use crate::idx_spaces::{
    IndexSpaceOf, IndexScope, IndexStore, IdxSpace, ScopeId, Space, SpaceSubtype, Entry, run_entries, records,
    entry_spaces, count_space, subtype_of_section, lemma_records_empty, lemma_records_run,
    lemma_records_one, lemma_count_space_take_bound,
};
use crate::items::{CoreType, Module, ComponentStartFunction, CustomSection};
use crate::nodes::{Aliases, Canons, ComponentTypes};
use crate::payload::{Error, NameSubsection, Payload};
use crate::component::{
    Built, Component, ComponentNames, VecLens, vec_len, positions_within, names_from, component_name_from,
    lemma_nested_same, lemma_nested_push, tree_uids, comps_uids, uids_distinct, lemma_comps_uids_push,
    lemma_comps_uids_member,
};
use crate::scopes::{CompUniqueId, IndexScopeRegistry};
use crate::section::ComponentSection;
use crate::wasm::{payloads_of, read_payloads};
use crate::refs::{IndexedRef, Depth};

verus! {

/// `n` copies of section kind `s`.
pub open spec fn same_sections(n: nat, s: ComponentSection) -> Seq<ComponentSection> {
    Seq::new(n, |_i: int| s)
}

/// The log of the IDs a run of `items` of section `s` gets, for positions
/// `base..` of the section's item vector.
pub open spec fn items_entries<I: IndexSpaceOf>(items: Seq<I>, s: ComponentSection, base: int) -> Seq<Entry> {
    run_entries(items.map_values(|it: I| it.space_of()), same_sections(items.len(), s), base)
}

/// The number of core type IDs a core type defines: one per type of a
/// recursion group, one for a module type.
pub open spec fn core_type_ids(t: CoreType) -> nat {
    match t {
        CoreType::Rec(g) => g.types@.len(),
        CoreType::Module(_) => 1,
    }
}

/// The log of the IDs core type `t`, at position `idx`, gets.
pub open spec fn core_type_entries(t: CoreType, idx: int) -> Seq<Entry> {
    Seq::new(core_type_ids(t), |_i: int| Entry { space: Space::CoreType, sub: SpaceSubtype::Main, idx: idx as usize })
}

/// The log of the IDs the core types `ts` get, for positions `base..`.
pub open spec fn core_types_entries(ts: Seq<CoreType>, base: int) -> Seq<Entry>
    decreases ts.len(),
{
    if ts.len() == 0 {
        Seq::empty()
    } else {
        core_types_entries(ts.drop_last(), base) + core_type_entries(ts.last(), base + ts.len() - 1)
    }
}

/// The number of core type IDs the core types `ts` define.
pub open spec fn core_types_ids(ts: Seq<CoreType>) -> nat
    decreases ts.len(),
{
    if ts.len() == 0 {
        0
    } else {
        core_types_ids(ts.drop_last()) + core_type_ids(ts.last())
    }
}

impl Built {
    /// One more section entry.
    pub open spec fn with_section(self, count: nat, kind: ComponentSection) -> Built {
        Built { sections: self.sections.push((count as u32, kind)), ..self }
    }

    /// What a section payload of a list of items adds: the items, an entry
    /// per item in the log, and one section entry.
    pub open spec fn add_payload(self, p: Payload) -> Built {
        match p {
            Payload::ComponentImports(items) => Built {
                imports: self.imports + items@,
                entries: self.entries + items_entries(items@, ComponentSection::ComponentImport, self.imports.len() as int),
                ..self.with_section(items@.len(), ComponentSection::ComponentImport)
            },
            Payload::ComponentExports(items) => Built {
                exports: self.exports + items@,
                entries: self.entries + items_entries(items@, ComponentSection::ComponentExport, self.exports.len() as int),
                ..self.with_section(items@.len(), ComponentSection::ComponentExport)
            },
            Payload::CoreInstances(items) => Built {
                instances: self.instances + items@,
                entries: self.entries + items_entries(items@, ComponentSection::CoreInstance, self.instances.len() as int),
                ..self.with_section(items@.len(), ComponentSection::CoreInstance)
            },
            Payload::CoreTypes(items) => Built {
                core_types: self.core_types + items@,
                entries: self.entries + core_types_entries(items@, self.core_types.len() as int),
                ..self.with_section(items@.len(), ComponentSection::CoreType)
            },
            Payload::ComponentTypes(items) => Built {
                component_types: self.component_types + items@,
                entries: self.entries + items_entries(items@, ComponentSection::ComponentType, self.component_types.len() as int),
                ..self.with_section(items@.len(), ComponentSection::ComponentType)
            },
            Payload::ComponentInstances(items) => Built {
                component_instance: self.component_instance + items@,
                entries: self.entries + items_entries(
                    items@,
                    ComponentSection::ComponentInstance,
                    self.component_instance.len() as int,
                ),
                ..self.with_section(items@.len(), ComponentSection::ComponentInstance)
            },
            Payload::Aliases(items) => Built {
                alias: self.alias + items@,
                entries: self.entries + items_entries(items@, ComponentSection::Alias, self.alias.len() as int),
                ..self.with_section(items@.len(), ComponentSection::Alias)
            },
            Payload::Canons(items) => Built {
                canons: self.canons + items@,
                entries: self.entries + items_entries(items@, ComponentSection::Canon, self.canons.len() as int),
                ..self.with_section(items@.len(), ComponentSection::Canon)
            },
            Payload::Start(s) => Built {
                start_section: self.start_section.push(s),
                ..self.with_section(1, ComponentSection::ComponentStartSection)
            },
            Payload::ComponentNames(subs) => Built { name_subsections: self.name_subsections + subs@, ..self },
            Payload::Custom(c) => Built {
                custom_sections: self.custom_sections.push(c),
                ..self.with_section(1, ComponentSection::CustomSection)
            },
            _ => self,
        }
    }

    /// What a nested module adds: the module, its ID and a section entry.
    pub open spec fn add_module(self, m: Module) -> Built {
        Built {
            modules: self.modules.push(m),
            entries: self.entries.push(
                Entry { space: Space::CoreModule, sub: SpaceSubtype::Main, idx: self.modules.len() as usize },
            ),
            ..self.with_section(1, ComponentSection::Module)
        }
    }

    /// What a nested component adds: the component, its ID and a section
    /// entry.
    pub open spec fn add_component(self, c: Built) -> Built {
        Built {
            components: self.components.push(c),
            entries: self.entries.push(
                Entry { space: Space::Comp, sub: SpaceSubtype::Main, idx: self.components.len() as usize },
            ),
            ..self.with_section(1, ComponentSection::Component)
        }
    }
}

/// A payload that opens a nested module or component.
pub open spec fn opens_nested(p: Payload) -> bool {
    p is ModuleSection || p is ComponentSection
}

/// The index, at or below `i`, of the `End` that closes the nesting `depth`
/// levels deep at `i` in the payload stack `s` (next payload last), or -1
/// if the stack holds none.
pub open spec fn closing_end(s: Seq<Payload>, i: int, depth: nat) -> int
    decreases i + 1,
{
    if i < 0 {
        -1
    } else if s[i] is End {
        if depth == 0 {
            i
        } else {
            closing_end(s, i - 1, (depth - 1) as nat)
        }
    } else if opens_nested(s[i]) {
        closing_end(s, i - 1, depth + 1)
    } else {
        closing_end(s, i - 1, depth)
    }
}

/// The `End` found is at or below where the search started.
pub proof fn lemma_closing_end_bounds(s: Seq<Payload>, i: int, depth: nat)
    requires
        -1 <= i < s.len(),
    ensures
        -1 <= closing_end(s, i, depth) <= i,
        closing_end(s, i, depth) >= 0 ==> s[closing_end(s, i, depth)] is End,
    decreases i + 1,
{
    if i >= 0 {
        if s[i] is End {
            if depth > 0 {
                lemma_closing_end_bounds(s, i - 1, (depth - 1) as nat);
            }
        } else if opens_nested(s[i]) {
            lemma_closing_end_bounds(s, i - 1, depth + 1);
        } else {
            lemma_closing_end_bounds(s, i - 1, depth);
        }
    }
}

/// The payloads of a nested module or component, whose section payload
/// was just taken off the stack `rest`: all above its closing `End`.
pub open spec fn nested_part(rest: Seq<Payload>) -> Seq<Payload> {
    let e = closing_end(rest, rest.len() - 1, 0);
    if e >= 0 {
        rest.subrange(e + 1, rest.len() as int)
    } else {
        rest
    }
}

/// What remains of the stack `rest` after a nested module or component
/// and its closing `End`.
pub open spec fn after_nested(rest: Seq<Payload>) -> Seq<Payload> {
    let e = closing_end(rest, rest.len() - 1, 0);
    if e >= 0 {
        rest.subrange(0, e)
    } else {
        Seq::empty()
    }
}

/// The nested part and what follows it are both shorter than the stack.
pub proof fn lemma_nested_split(rest: Seq<Payload>)
    ensures
        nested_part(rest).len() <= rest.len(),
        after_nested(rest).len() < rest.len() || rest.len() == 0,
        rest.len() > 0 && closing_end(rest, rest.len() - 1, 0) >= 0 ==> after_nested(rest).len() + nested_part(rest).len() + 1
            == rest.len(),
{
    if rest.len() > 0 {
        lemma_closing_end_bounds(rest, rest.len() - 1, 0);
    }
}

/// The first unreadable payload, in binary order, of the stack `s`.
pub open spec fn malformed_in(s: Seq<Payload>) -> Option<Error>
    decreases s.len(),
{
    if s.len() == 0 {
        None
    } else {
        match s.last() {
            Payload::Malformed(e) => Some(e),
            _ => malformed_in(s.drop_last()),
        }
    }
}

/// The component the payload stack `rest` (next payload last) builds, up
/// to its `End`, on top of `b`; or the error of the first payload that is
/// not a part of a component.
pub open spec fn parse_spec(rest: Seq<Payload>, b: Built) -> Result<Built, Error>
    decreases rest.len(),
{
    if rest.len() == 0 {
        Ok(b)
    } else {
        let r = rest.drop_last();
        proof {
            lemma_nested_split(r);
        }
        match rest.last() {
            Payload::End => Ok(b),
            Payload::Version => parse_spec(r, b),
            Payload::ModuleSection(m) => match malformed_in(nested_part(r)) {
                Some(e) => Err(e),
                None => parse_spec(after_nested(r), b.add_module(m)),
            },
            Payload::ComponentSection => match parse_spec(nested_part(r), Built::empty()) {
                Ok(sub) => parse_spec(after_nested(r), b.add_component(sub)),
                Err(e) => Err(e),
            },
            Payload::UnknownSection { id } => Err(Error::UnknownSection { section_id: id }),
            Payload::Other(s) => Err(Error::UnhandledPayload(s)),
            Payload::Malformed(e) => Err(e),
            p => parse_spec(r, b.add_payload(p)),
        }
    }
}


/// A bound on what a payload adds to a component (items, log entries,
/// section entries).
pub open spec fn payload_weight(p: Payload) -> nat {
    match p {
        Payload::ComponentImports(v) => 3 + 2 * v@.len(),
        Payload::ComponentExports(v) => 3 + 2 * v@.len(),
        Payload::CoreInstances(v) => 3 + 2 * v@.len(),
        Payload::CoreTypes(v) => 3 + 2 * v@.len() + core_types_ids(v@),
        Payload::ComponentTypes(v) => 3 + 2 * v@.len(),
        Payload::ComponentInstances(v) => 3 + 2 * v@.len(),
        Payload::Aliases(v) => 3 + 2 * v@.len(),
        Payload::Canons(v) => 3 + 2 * v@.len(),
        _ => 3,
    }
}

/// The total weight of a stack of payloads.
pub open spec fn total_weight(s: Seq<Payload>) -> nat
    decreases s.len(),
{
    if s.len() == 0 {
        0
    } else {
        total_weight(s.drop_last()) + payload_weight(s.last())
    }
}

/// The weight of a stack is that of its lower part plus that of its upper
/// part.
pub proof fn lemma_total_weight_split(s: Seq<Payload>, k: int)
    requires
        0 <= k <= s.len(),
    ensures
        total_weight(s) == total_weight(s.subrange(0, k)) + total_weight(s.subrange(k, s.len() as int)),
    decreases s.len(),
{
    if s.len() > k {
        lemma_total_weight_split(s.drop_last(), k);
        assert(s.drop_last().subrange(0, k) =~= s.subrange(0, k));
        assert(s.subrange(k, s.len() as int).drop_last() =~= s.drop_last().subrange(k, s.len() - 1));
        assert(s.subrange(k, s.len() as int).last() == s.last());
    } else {
        assert(s.subrange(0, k) =~= s);
        assert(s.subrange(k, s.len() as int) =~= Seq::<Payload>::empty());
    }
}

/// Reversing a stack keeps its weight.
pub(crate) proof fn lemma_total_weight_reverse(s: Seq<Payload>)
    ensures
        total_weight(s.reverse()) == total_weight(s),
    decreases s.len(),
{
    if s.len() > 0 {
        let r = s.reverse();
        lemma_total_weight_reverse(s.drop_last());
        lemma_total_weight_split(r, 1);
        assert(r.subrange(1, r.len() as int) =~= s.drop_last().reverse());
        let one = seq![s.last()];
        assert(r.subrange(0, 1) =~= one);
        assert(one.drop_last() =~= Seq::<Payload>::empty());
        assert(total_weight(one.drop_last()) == 0);
        assert(total_weight(one) == payload_weight(s.last()));
        assert(total_weight(s) == total_weight(s.drop_last()) + payload_weight(s.last()));
    }
}

impl Built {
    /// How much the component holds: items, log entries and section
    /// entries, counted together.
    pub open spec fn size(self) -> nat {
        self.sections.len() + self.entries.len() + self.imports.len() + self.exports.len() + self.alias.len()
            + self.components.len() + self.component_types.len() + self.component_instance.len()
            + self.instances.len() + self.modules.len() + self.core_types.len() + self.canons.len()
            + self.start_section.len() + self.custom_sections.len()
    }
}

/// The log entries of one core type number its IDs.
proof fn lemma_core_type_entries_len(ts: Seq<CoreType>, base: int)
    ensures
        core_types_entries(ts, base).len() == core_types_ids(ts),
    decreases ts.len(),
{
    if ts.len() > 0 {
        lemma_core_type_entries_len(ts.drop_last(), base);
    }
}

/// Adds the entry `(count, kind)` of one binary section to the section
/// list: the number of items the section payload held (none for an empty
/// one) and its kind.
pub fn add_to_sections(
    sections: &mut Vec<(u32, ComponentSection)>,
    new_sections: &[ComponentSection],
    num_sections: &mut usize,
    payload_kind: ComponentSection,
)
    requires
        forall|i: int| 0 <= i < new_sections@.len() ==> new_sections@[i] == payload_kind,
        new_sections@.len() <= u32::MAX,
        *old(num_sections) < usize::MAX,
    ensures
        final(sections)@ == old(sections)@.push((new_sections@.len() as u32, payload_kind)),
        *final(num_sections) == *old(num_sections) + 1,
{
    if new_sections.len() == 0 {
        sections.push((0, payload_kind));
        *num_sections += 1;
        return;
    }
    let n = new_sections.len();
    let mut i: usize = 0;
    while i < n
        invariant
            n == new_sections@.len(),
            n > 0,
            n <= u32::MAX,
            forall|j: int| 0 <= j < n ==> new_sections@[j] == payload_kind,
            i == 0 ==> sections@ == old(sections)@ && *num_sections == *old(num_sections),
            i != 0 ==> i == n && sections@ == old(sections)@.push((n as u32, payload_kind))
                && *num_sections == *old(num_sections) + 1,
            *old(num_sections) < usize::MAX,
        decreases n - i,
    {
        let kind = new_sections[i];
        let mut count: u32 = 1;
        while i + (count as usize) < n && new_sections[i + count as usize] == kind
            invariant
                i == 0,
                n == new_sections@.len(),
                1 <= count <= n,
                n <= u32::MAX,
                kind == payload_kind,
                forall|j: int| 0 <= j < n ==> new_sections@[j] == payload_kind,
            decreases n - count,
        {
            count += 1;
        }
        sections.push((count, kind));
        *num_sections += 1;
        i += count as usize;
    }
}

/// The index of the `End` that closes the nested module or component whose
/// section payload was just taken off `stack`, if the stack holds it.
fn find_closing_end(stack: &Vec<Payload>) -> (r: Option<usize>)
    ensures
        match r {
            Some(e) => closing_end(stack@, stack@.len() - 1, 0) == e as int,
            None => closing_end(stack@, stack@.len() - 1, 0) == -1,
        },
{
    let mut depth: usize = 0;
    let mut i: usize = stack.len();
    while i > 0
        invariant
            i <= stack@.len(),
            stack@.len() <= usize::MAX,
            depth <= stack@.len() - i,
            closing_end(stack@, stack@.len() - 1, 0) == closing_end(stack@, i - 1, depth as nat),
        decreases i,
    {
        let j = i - 1;
        match &stack[j] {
            Payload::End => {
                if depth == 0 {
                    return Some(j);
                }
                depth -= 1;
            },
            Payload::ModuleSection(_) | Payload::ComponentSection => {
                depth += 1;
            },
            _ => {},
        }
        i = j;
    }
    None
}

/// The first unreadable payload, in binary order, of `stack`.
fn take_malformed(stack: Vec<Payload>) -> (r: Option<Error>)
    ensures
        r == malformed_in(stack@),
{
    let mut rest = stack;
    let ghost s0 = rest@;
    while rest.len() > 0
        invariant
            malformed_in(rest@) == malformed_in(s0),
            s0 == stack@,
        decreases rest@.len(),
    {
        let ghost before = rest@;
        let p = rest.pop().unwrap();
        proof {
            assert(p == before.last());
            assert(rest@ == before.drop_last());
        }
        match p {
            Payload::Malformed(e) => {
                proof {
                    assert(before.len() > 0);
                    assert(malformed_in(before) == Some(e));
                }
                return Some(e);
            },
            _ => {},
        }
    }
    None
}


/// `n` copies of section kind `s`.
fn repeat_section(s: ComponentSection, n: usize) -> (r: Vec<ComponentSection>)
    ensures
        r@ == same_sections(n as nat, s),
{
    let mut v: Vec<ComponentSection> = Vec::new();
    for i in 0..n
        invariant
            v@ =~= same_sections(i as nat, s),
    {
        v.push(s);
    }
    v
}

/// Giving a run of IDs keeps each position a scope gives IDs to inside
/// its item vector, when the vector the run is for has grown to hold the
/// run's items.
proof fn lemma_run_positions(
    before: IndexScope,
    after: IndexScope,
    spaces: Seq<Space>,
    section: ComponentSection,
    base: int,
    lens_old: VecLens,
    lens_new: VecLens,
)
    requires
        positions_within(before, lens_old),
        IndexScope::assigned_run(before, after, spaces, same_sections(spaces.len(), section), base, spaces.len() as int),
        forall|sp: Space, sub: SpaceSubtype| vec_len(sp, sub, lens_old) <= #[trigger] vec_len(sp, sub, lens_new),
        forall|j: int| 0 <= j < spaces.len() && spaces[j] != Space::NA
            ==> base + j < #[trigger] vec_len(spaces[j], subtype_of_section(section), lens_new),
    ensures
        positions_within(after, lens_new),
{
    let sections = same_sections(spaces.len(), section);
    assert forall|sp: Space, sub: SpaceSubtype, k: usize| sp != Space::NA
        && #[trigger] after.space(sp).id_map(sub).contains_key(k) implies k < vec_len(sp, sub, lens_new) by {
        if before.space(sp).id_map(sub).contains_key(k) {
            assert(k < vec_len(sp, sub, lens_old));
            assert(vec_len(sp, sub, lens_old) <= vec_len(sp, sub, lens_new));
        } else {
            let j = k - base;
            assert(spaces[j] == sp);
            assert(sections[j] == section);
            assert(base + j < vec_len(spaces[j], subtype_of_section(section), lens_new));
        }
    }
}

/// Giving one ID keeps each position a scope gives IDs to inside its item
/// vector, when the vector has grown to hold the new item.
pub(crate) proof fn lemma_one_position(
    before: IndexScope,
    after: IndexScope,
    sp: Space,
    section: ComponentSection,
    vec_idx: usize,
    lens_old: VecLens,
    lens_new: VecLens,
)
    requires
        positions_within(before, lens_old),
        sp != Space::NA,
        IdxSpace::assign_step(before.space(sp), after.space(sp), section, vec_idx, before.space(sp).counter()),
        forall|o: Space| o != sp && o != Space::NA ==> #[trigger] after.space(o) == before.space(o),
        forall|s: Space, sub: SpaceSubtype| vec_len(s, sub, lens_old) <= #[trigger] vec_len(s, sub, lens_new),
        vec_idx < vec_len(sp, subtype_of_section(section), lens_new),
    ensures
        positions_within(after, lens_new),
{
    assert forall|o: Space, sub: SpaceSubtype, k: usize| o != Space::NA
        && #[trigger] after.space(o).id_map(sub).contains_key(k) implies k < vec_len(o, sub, lens_new) by {
        if o != sp {
            assert(after.space(o) == before.space(o));
            assert(vec_len(o, sub, lens_old) <= vec_len(o, sub, lens_new));
        } else if sub != subtype_of_section(section) || k != vec_idx {
            assert(before.space(o).id_map(sub).contains_key(k));
            assert(vec_len(o, sub, lens_old) <= vec_len(o, sub, lens_new));
        }
    }
    assert forall|o: Space| o != Space::NA implies #[trigger] after.space(o).cache()
        == Map::<usize, (SpaceSubtype, usize, Option<usize>)>::empty() by {
        if o != sp {
            assert(after.space(o) == before.space(o));
        }
    }
}

/// The entries of a log count at most all of them in each space.
proof fn lemma_counts_bounded(evs: Seq<Entry>)
    ensures
        forall|sp: Space| #[trigger] count_space(entry_spaces(evs), sp) <= evs.len(),
{
    assert forall|sp: Space| #[trigger] count_space(entry_spaces(evs), sp) <= evs.len() by {
        lemma_count_space_take_bound(entry_spaces(evs), evs.len() as int, sp);
        assert(entry_spaces(evs).take(evs.len() as int) =~= entry_spaces(evs));
    }
}

/// Gives a run of items, about to be appended at position `base` of the
/// item vector of `section`, their assumed IDs in scope `space_id`.
fn index_run<I: IndexSpaceOf>(
    store: &mut IndexStore,
    space_id: ScopeId,
    items: &Vec<I>,
    section: ComponentSection,
    base: usize,
    Ghost(start): Ghost<IndexScope>,
    Ghost(entries): Ghost<Seq<Entry>>,
    Ghost(lens_old): Ghost<VecLens>,
    Ghost(lens_new): Ghost<VecLens>,
)
    requires
        old(store).wf(),
        old(store).scope_map().contains_key(space_id),
        records(start, old(store).scope_map()[space_id], entries),
        forall|sp: Space| #[trigger] start.space(sp).counter() == 0,
        positions_within(old(store).scope_map()[space_id], lens_old),
        entries.len() + items@.len() < u32::MAX,
        base + items@.len() <= u32::MAX,
        forall|sp: Space, sub: SpaceSubtype| vec_len(sp, sub, lens_old) <= #[trigger] vec_len(sp, sub, lens_new),
        forall|j: int| 0 <= j < items@.len() && items@[j].space_of() != Space::NA
            ==> base + j < #[trigger] vec_len(items@[j].space_of(), subtype_of_section(section), lens_new),
    ensures
        final(store).wf(),
        final(store).scope_map().dom() == old(store).scope_map().dom(),
        records(start, final(store).scope_map()[space_id], entries + items_entries(items@, section, base as int)),
        positions_within(final(store).scope_map()[space_id], lens_new),
{
    let n = items.len();
    let sections = repeat_section(section, n);
    let ghost before = store.scope_map()[space_id];
    proof {
        lemma_counts_bounded(entries);
        assert forall|sp: Space| #[trigger] before.space(sp).counter() + items@.len() < usize::MAX by {
            if sp != Space::NA {
                assert(before.space(sp).counter() == count_space(entry_spaces(entries), sp));
            } else {
                assert(before.space(Space::NA) == before.space(Space::Comp));
                assert(before.space(Space::Comp).counter() == count_space(entry_spaces(entries), Space::Comp));
            }
        }
    }
    store.assign_assumed_id_for(&space_id, items.as_slice(), base, &sections);
    proof {
        let spaces = items@.map_values(|it: I| it.space_of());
        lemma_records_run(start, before, store.scope_map()[space_id], entries, spaces, sections@, base as int);
        assert forall|j: int| 0 <= j < spaces.len() && spaces[j] != Space::NA
            implies base + j < #[trigger] vec_len(spaces[j], subtype_of_section(section), lens_new) by {
            assert(spaces[j] == items@[j].space_of());
        }
        lemma_run_positions(before, store.scope_map()[space_id], spaces, section, base as int, lens_old, lens_new);
    }
}


impl Component {
    /// A component with nothing in it, with identity `uid`.
    pub(crate) fn empty(uid: CompUniqueId) -> (r: Component)
        ensures
            r.realizes(Built::empty()),
            r.unique_id() == uid.0,
    {
        let mut store = IndexStore::new();
        let space_id = store.new_scope();
        let r = Component {
            uid,
            components: Vec::new(),
            modules: Vec::new(),
            component_types: ComponentTypes::new(Vec::new()),
            component_instance: Vec::new(),
            canons: Canons::new(Vec::new()),
            alias: Aliases::new(Vec::new()),
            imports: Vec::new(),
            exports: Vec::new(),
            core_types: Vec::new(),
            instances: Vec::new(),
            space_id,
            scope_registry: IndexScopeRegistry::new(),
            index_store: store,
            custom_sections: Vec::new(),
            start_section: Vec::new(),
            sections: Vec::new(),
            num_sections: 0,
            component_name: None,
            names: ComponentNames::new(),
        };
        proof {
            let sc = r.scope();
            assert(sc.is_fresh_scope(space_id));
            assert forall|sp: Space, sub: SpaceSubtype, k: usize| sp != Space::NA
                && #[trigger] sc.space(sp).id_map(sub).contains_key(k) implies k < vec_len(sp, sub, r.lens()) by {
                assert(sc.space(sp).is_fresh());
            }
            assert forall|sp: Space| sp != Space::NA implies #[trigger] sc.space(sp).cache()
                == Map::<usize, (SpaceSubtype, usize, Option<usize>)>::empty() by {
                assert(sc.space(sp).is_fresh());
            }
            assert forall|sp: Space| sp != Space::NA implies #[trigger] sc.space(sp).wf() by {
                assert(sc.wf());
            }
            lemma_records_empty(sc);
            assert(sc.is_fresh_scope(sc.id) && records(sc, sc, Built::empty().entries));
            assert forall|k: crate::payload::NameMapKind| #[trigger] r.names_of(k) == names_from(Built::empty().name_subsections, k) by {
            }
        }
        r
    }

    /// Adds the imports of an import section payload.
    fn add_imports(&mut self, items: Vec<crate::items::ComponentImport>, Ghost(b): Ghost<Built>)
        requires
            old(self).realizes(b),
            b.size() + payload_weight(Payload::ComponentImports(items)) < u32::MAX,
        ensures
            final(self).realizes(b.add_payload(Payload::ComponentImports(items))),
            final(self).unique_id() == old(self).unique_id(),
            final(self).components@ == old(self).components@,
    {
        let ghost start = choose|st: IndexScope| #[trigger] st.is_fresh_scope(self.scope().id) && records(st, self.scope(), b.entries);
        let ghost lens_old = self.lens();
        let ghost lens_new = VecLens { imports: lens_old.imports + items@.len(), ..lens_old };
        let base = self.imports.len();
        let n = items.len();
        proof {
            assert forall|sp: Space| #[trigger] start.space(sp).counter() == 0 by {
                assert(start.space(sp).is_fresh());
            }
        }
        index_run(
            &mut self.index_store,
            self.space_id,
            &items,
            ComponentSection::ComponentImport,
            base,
            Ghost(start),
            Ghost(b.entries),
            Ghost(lens_old),
            Ghost(lens_new),
        );
        let ghost items_v = items@;
        let mut moved = items;
        self.imports.append(&mut moved);
        let sects = repeat_section(ComponentSection::ComponentImport, n);
        add_to_sections(&mut self.sections, sects.as_slice(), &mut self.num_sections, ComponentSection::ComponentImport);
        proof {
            let b2 = b.add_payload(Payload::ComponentImports(items));
            assert(start.is_fresh_scope(self.scope().id));
            assert(self.lens() == lens_new);
            assert(self.wf());
            assert(self.imports@ == b2.imports);
            assert(self.sections@ == b2.sections);
            lemma_nested_same(*old(self), *self, b, b2);
            assert(self.components@ == old(self).components@);
            assert(records(start, self.scope(), b2.entries));
            assert(self.nested_realize(b2));
            assert forall|k: crate::payload::NameMapKind| #[trigger] self.names_of(k) == names_from(b2.name_subsections, k) by {
                assert(old(self).names_of(k) == names_from(b.name_subsections, k));
            }
        }
    }
    /// Adds the exports of an export section payload.
    fn add_exports(&mut self, items: Vec<crate::items::ComponentExport>, Ghost(b): Ghost<Built>)
        requires
            old(self).realizes(b),
            b.size() + payload_weight(Payload::ComponentExports(items)) < u32::MAX,
        ensures
            final(self).realizes(b.add_payload(Payload::ComponentExports(items))),
            final(self).unique_id() == old(self).unique_id(),
            final(self).components@ == old(self).components@,
    {
        let ghost start = choose|st: IndexScope| #[trigger] st.is_fresh_scope(self.scope().id) && records(st, self.scope(), b.entries);
        let ghost lens_old = self.lens();
        let ghost lens_new = VecLens { exports: lens_old.exports + items@.len(), ..lens_old };
        let base = self.exports.len();
        let n = items.len();
        proof {
            assert forall|sp: Space| #[trigger] start.space(sp).counter() == 0 by {
                assert(start.space(sp).is_fresh());
            }
        }
        index_run(
            &mut self.index_store,
            self.space_id,
            &items,
            ComponentSection::ComponentExport,
            base,
            Ghost(start),
            Ghost(b.entries),
            Ghost(lens_old),
            Ghost(lens_new),
        );
        let ghost items_v = items@;
        let mut moved = items;
        self.exports.append(&mut moved);
        let sects = repeat_section(ComponentSection::ComponentExport, n);
        add_to_sections(&mut self.sections, sects.as_slice(), &mut self.num_sections, ComponentSection::ComponentExport);
        proof {
            let b2 = b.add_payload(Payload::ComponentExports(items));
            assert(start.is_fresh_scope(self.scope().id));
            assert(self.lens() == lens_new);
            assert(self.wf());
            assert(self.exports@ == b2.exports);
            assert(self.sections@ == b2.sections);
            lemma_nested_same(*old(self), *self, b, b2);
            assert(self.components@ == old(self).components@);
            assert(records(start, self.scope(), b2.entries));
            assert(self.nested_realize(b2));
            assert forall|k: crate::payload::NameMapKind| #[trigger] self.names_of(k) == names_from(b2.name_subsections, k) by {
                assert(old(self).names_of(k) == names_from(b.name_subsections, k));
            }
        }
    }
    /// Adds the core instances of a core instance section payload.
    fn add_core_instances(&mut self, items: Vec<crate::items::Instance>, Ghost(b): Ghost<Built>)
        requires
            old(self).realizes(b),
            b.size() + payload_weight(Payload::CoreInstances(items)) < u32::MAX,
        ensures
            final(self).realizes(b.add_payload(Payload::CoreInstances(items))),
            final(self).unique_id() == old(self).unique_id(),
            final(self).components@ == old(self).components@,
    {
        let ghost start = choose|st: IndexScope| #[trigger] st.is_fresh_scope(self.scope().id) && records(st, self.scope(), b.entries);
        let ghost lens_old = self.lens();
        let ghost lens_new = VecLens { instances: lens_old.instances + items@.len(), ..lens_old };
        let base = self.instances.len();
        let n = items.len();
        proof {
            assert forall|sp: Space| #[trigger] start.space(sp).counter() == 0 by {
                assert(start.space(sp).is_fresh());
            }
        }
        index_run(
            &mut self.index_store,
            self.space_id,
            &items,
            ComponentSection::CoreInstance,
            base,
            Ghost(start),
            Ghost(b.entries),
            Ghost(lens_old),
            Ghost(lens_new),
        );
        let ghost items_v = items@;
        let mut moved = items;
        self.instances.append(&mut moved);
        let sects = repeat_section(ComponentSection::CoreInstance, n);
        add_to_sections(&mut self.sections, sects.as_slice(), &mut self.num_sections, ComponentSection::CoreInstance);
        proof {
            let b2 = b.add_payload(Payload::CoreInstances(items));
            assert(start.is_fresh_scope(self.scope().id));
            assert(self.lens() == lens_new);
            assert(self.wf());
            assert(self.instances@ == b2.instances);
            assert(self.sections@ == b2.sections);
            lemma_nested_same(*old(self), *self, b, b2);
            assert(self.components@ == old(self).components@);
            assert(records(start, self.scope(), b2.entries));
            assert(self.nested_realize(b2));
            assert forall|k: crate::payload::NameMapKind| #[trigger] self.names_of(k) == names_from(b2.name_subsections, k) by {
                assert(old(self).names_of(k) == names_from(b.name_subsections, k));
            }
        }
    }
    /// Adds the component types of a component type section payload.
    fn add_component_types(&mut self, items: Vec<crate::items::ComponentType>, Ghost(b): Ghost<Built>)
        requires
            old(self).realizes(b),
            b.size() + payload_weight(Payload::ComponentTypes(items)) < u32::MAX,
        ensures
            final(self).realizes(b.add_payload(Payload::ComponentTypes(items))),
            final(self).unique_id() == old(self).unique_id(),
            final(self).components@ == old(self).components@,
    {
        let ghost start = choose|st: IndexScope| #[trigger] st.is_fresh_scope(self.scope().id) && records(st, self.scope(), b.entries);
        let ghost lens_old = self.lens();
        let ghost lens_new = VecLens { component_types: lens_old.component_types + items@.len(), ..lens_old };
        let base = self.component_types.items.len();
        let n = items.len();
        proof {
            assert forall|sp: Space| #[trigger] start.space(sp).counter() == 0 by {
                assert(start.space(sp).is_fresh());
            }
        }
        index_run(
            &mut self.index_store,
            self.space_id,
            &items,
            ComponentSection::ComponentType,
            base,
            Ghost(start),
            Ghost(b.entries),
            Ghost(lens_old),
            Ghost(lens_new),
        );
        let ghost items_v = items@;
        let mut moved = items;
        self.component_types.items.append(&mut moved);
        let sects = repeat_section(ComponentSection::ComponentType, n);
        add_to_sections(&mut self.sections, sects.as_slice(), &mut self.num_sections, ComponentSection::ComponentType);
        proof {
            let b2 = b.add_payload(Payload::ComponentTypes(items));
            assert(start.is_fresh_scope(self.scope().id));
            assert(self.lens() == lens_new);
            assert(self.wf());
            assert(self.component_types.items@ == b2.component_types);
            assert(self.sections@ == b2.sections);
            lemma_nested_same(*old(self), *self, b, b2);
            assert(self.components@ == old(self).components@);
            assert(records(start, self.scope(), b2.entries));
            assert(self.nested_realize(b2));
            assert forall|k: crate::payload::NameMapKind| #[trigger] self.names_of(k) == names_from(b2.name_subsections, k) by {
                assert(old(self).names_of(k) == names_from(b.name_subsections, k));
            }
        }
    }
    /// Adds the component instances of a component instance section payload.
    fn add_component_instances(&mut self, items: Vec<crate::items::ComponentInstance>, Ghost(b): Ghost<Built>)
        requires
            old(self).realizes(b),
            b.size() + payload_weight(Payload::ComponentInstances(items)) < u32::MAX,
        ensures
            final(self).realizes(b.add_payload(Payload::ComponentInstances(items))),
            final(self).unique_id() == old(self).unique_id(),
            final(self).components@ == old(self).components@,
    {
        let ghost start = choose|st: IndexScope| #[trigger] st.is_fresh_scope(self.scope().id) && records(st, self.scope(), b.entries);
        let ghost lens_old = self.lens();
        let ghost lens_new = VecLens { component_instance: lens_old.component_instance + items@.len(), ..lens_old };
        let base = self.component_instance.len();
        let n = items.len();
        proof {
            assert forall|sp: Space| #[trigger] start.space(sp).counter() == 0 by {
                assert(start.space(sp).is_fresh());
            }
        }
        index_run(
            &mut self.index_store,
            self.space_id,
            &items,
            ComponentSection::ComponentInstance,
            base,
            Ghost(start),
            Ghost(b.entries),
            Ghost(lens_old),
            Ghost(lens_new),
        );
        let ghost items_v = items@;
        let mut moved = items;
        self.component_instance.append(&mut moved);
        let sects = repeat_section(ComponentSection::ComponentInstance, n);
        add_to_sections(&mut self.sections, sects.as_slice(), &mut self.num_sections, ComponentSection::ComponentInstance);
        proof {
            let b2 = b.add_payload(Payload::ComponentInstances(items));
            assert(start.is_fresh_scope(self.scope().id));
            assert(self.lens() == lens_new);
            assert(self.wf());
            assert(self.component_instance@ == b2.component_instance);
            assert(self.sections@ == b2.sections);
            lemma_nested_same(*old(self), *self, b, b2);
            assert(self.components@ == old(self).components@);
            assert(records(start, self.scope(), b2.entries));
            assert(self.nested_realize(b2));
            assert forall|k: crate::payload::NameMapKind| #[trigger] self.names_of(k) == names_from(b2.name_subsections, k) by {
                assert(old(self).names_of(k) == names_from(b.name_subsections, k));
            }
        }
    }
    /// Adds the aliases of an alias section payload.
    fn add_aliases(&mut self, items: Vec<crate::items::ComponentAlias>, Ghost(b): Ghost<Built>)
        requires
            old(self).realizes(b),
            b.size() + payload_weight(Payload::Aliases(items)) < u32::MAX,
        ensures
            final(self).realizes(b.add_payload(Payload::Aliases(items))),
            final(self).unique_id() == old(self).unique_id(),
            final(self).components@ == old(self).components@,
    {
        let ghost start = choose|st: IndexScope| #[trigger] st.is_fresh_scope(self.scope().id) && records(st, self.scope(), b.entries);
        let ghost lens_old = self.lens();
        let ghost lens_new = VecLens { alias: lens_old.alias + items@.len(), ..lens_old };
        let base = self.alias.items.len();
        let n = items.len();
        proof {
            assert forall|sp: Space| #[trigger] start.space(sp).counter() == 0 by {
                assert(start.space(sp).is_fresh());
            }
        }
        index_run(
            &mut self.index_store,
            self.space_id,
            &items,
            ComponentSection::Alias,
            base,
            Ghost(start),
            Ghost(b.entries),
            Ghost(lens_old),
            Ghost(lens_new),
        );
        let ghost items_v = items@;
        let mut moved = items;
        self.alias.items.append(&mut moved);
        let sects = repeat_section(ComponentSection::Alias, n);
        add_to_sections(&mut self.sections, sects.as_slice(), &mut self.num_sections, ComponentSection::Alias);
        proof {
            let b2 = b.add_payload(Payload::Aliases(items));
            assert(start.is_fresh_scope(self.scope().id));
            assert(self.lens() == lens_new);
            assert(self.wf());
            assert(self.alias.items@ == b2.alias);
            assert(self.sections@ == b2.sections);
            lemma_nested_same(*old(self), *self, b, b2);
            assert(self.components@ == old(self).components@);
            assert(records(start, self.scope(), b2.entries));
            assert(self.nested_realize(b2));
            assert forall|k: crate::payload::NameMapKind| #[trigger] self.names_of(k) == names_from(b2.name_subsections, k) by {
                assert(old(self).names_of(k) == names_from(b.name_subsections, k));
            }
        }
    }
    /// Adds the canonical functions of a canonical section payload.
    fn add_canons(&mut self, items: Vec<crate::items::CanonicalFunction>, Ghost(b): Ghost<Built>)
        requires
            old(self).realizes(b),
            b.size() + payload_weight(Payload::Canons(items)) < u32::MAX,
        ensures
            final(self).realizes(b.add_payload(Payload::Canons(items))),
            final(self).unique_id() == old(self).unique_id(),
            final(self).components@ == old(self).components@,
    {
        let ghost start = choose|st: IndexScope| #[trigger] st.is_fresh_scope(self.scope().id) && records(st, self.scope(), b.entries);
        let ghost lens_old = self.lens();
        let ghost lens_new = VecLens { canons: lens_old.canons + items@.len(), ..lens_old };
        let base = self.canons.items.len();
        let n = items.len();
        proof {
            assert forall|sp: Space| #[trigger] start.space(sp).counter() == 0 by {
                assert(start.space(sp).is_fresh());
            }
        }
        index_run(
            &mut self.index_store,
            self.space_id,
            &items,
            ComponentSection::Canon,
            base,
            Ghost(start),
            Ghost(b.entries),
            Ghost(lens_old),
            Ghost(lens_new),
        );
        let ghost items_v = items@;
        let mut moved = items;
        self.canons.items.append(&mut moved);
        let sects = repeat_section(ComponentSection::Canon, n);
        add_to_sections(&mut self.sections, sects.as_slice(), &mut self.num_sections, ComponentSection::Canon);
        proof {
            let b2 = b.add_payload(Payload::Canons(items));
            assert(start.is_fresh_scope(self.scope().id));
            assert(self.lens() == lens_new);
            assert(self.wf());
            assert(self.canons.items@ == b2.canons);
            assert(self.sections@ == b2.sections);
            lemma_nested_same(*old(self), *self, b, b2);
            assert(self.components@ == old(self).components@);
            assert(records(start, self.scope(), b2.entries));
            assert(self.nested_realize(b2));
            assert forall|k: crate::payload::NameMapKind| #[trigger] self.names_of(k) == names_from(b2.name_subsections, k) by {
                assert(old(self).names_of(k) == names_from(b.name_subsections, k));
            }
        }
    }
}


/// Gives core type `ty`, at position `idx` of the core type vector, its
/// top-level IDs in scope `space_id`: one per type of a recursion group,
/// all for that position, and one for a module type. Returns the section
/// kind of core types.
fn get_sections_for_core_ty_and_assign_top_level_ids(
    ty: &CoreType,
    idx: usize,
    space_id: ScopeId,
    store: &mut IndexStore,
    Ghost(start): Ghost<IndexScope>,
    Ghost(entries): Ghost<Seq<Entry>>,
    Ghost(lens): Ghost<VecLens>,
) -> (r: ComponentSection)
    requires
        old(store).wf(),
        old(store).scope_map().contains_key(space_id),
        records(start, old(store).scope_map()[space_id], entries),
        forall|sp: Space| #[trigger] start.space(sp).counter() == 0,
        positions_within(old(store).scope_map()[space_id], lens),
        idx < lens.core_types,
        idx < usize::MAX,
        entries.len() + core_type_ids(*ty) < u32::MAX,
    ensures
        r == ComponentSection::CoreType,
        final(store).wf(),
        final(store).scope_map().dom() == old(store).scope_map().dom(),
        records(start, final(store).scope_map()[space_id], entries + core_type_entries(*ty, idx as int)),
        positions_within(final(store).scope_map()[space_id], lens),
{
    let n: usize = match ty {
        CoreType::Rec(g) => g.types.len(),
        CoreType::Module(_) => 1,
    };
    let ghost e = Entry { space: Space::CoreType, sub: SpaceSubtype::Main, idx };
    for k in 0..n
        invariant
            n == core_type_ids(*ty),
            e == (Entry { space: Space::CoreType, sub: SpaceSubtype::Main, idx }),
            store.wf(),
            store.scope_map().dom() == old(store).scope_map().dom(),
            store.scope_map().contains_key(space_id),
            records(start, store.scope_map()[space_id], entries + Seq::new(k as nat, |_i: int| e)),
            forall|sp: Space| #[trigger] start.space(sp).counter() == 0,
            positions_within(store.scope_map()[space_id], lens),
            idx < lens.core_types,
            idx < usize::MAX,
            entries.len() + n < u32::MAX,
    {
        let ghost before = store.scope_map()[space_id];
        let ghost evs = entries + Seq::new(k as nat, |_i: int| e);
        proof {
            lemma_counts_bounded(evs);
            assert(before.space(Space::CoreType).counter() == count_space(entry_spaces(evs), Space::CoreType));
        }
        let got = store.assign_assumed_id(&space_id, &Space::CoreType, &ComponentSection::CoreType, idx);
        proof {
            let after = store.scope_map()[space_id];
            assert(subtype_of_section(ComponentSection::CoreType) == SpaceSubtype::Main);
            assert(got.unwrap() == before.space(Space::CoreType).counter());
            assert(IdxSpace::assign_step(
                before.space(Space::CoreType),
                after.space(Space::CoreType),
                ComponentSection::CoreType,
                idx,
                before.space(Space::CoreType).counter(),
            ));
            assert(after.wf());
            assert(after.id == before.id);
            assert(records(start, before, evs));
            assert(forall|o: Space| o != Space::CoreType && o != Space::NA ==> #[trigger] after.space(o) == before.space(o));
            lemma_records_one(start, before, after, evs, Space::CoreType, ComponentSection::CoreType, idx);
            assert(e == Entry { space: Space::CoreType, sub: subtype_of_section(ComponentSection::CoreType), idx: idx });
            assert(evs.push(e) =~= entries + Seq::new((k + 1) as nat, |_i: int| e));
            assert(records(start, after, evs.push(e)));
            lemma_one_position(before, after, Space::CoreType, ComponentSection::CoreType, idx, lens, lens);
        }
    }
    proof {
        assert(Seq::new(n as nat, |_i: int| e) =~= core_type_entries(*ty, idx as int));
    }
    ComponentSection::CoreType
}

impl Component {
    /// Adds the core types of a core type section payload.
    fn add_core_types(&mut self, items: Vec<CoreType>, Ghost(b): Ghost<Built>)
        requires
            old(self).realizes(b),
            b.size() + payload_weight(Payload::CoreTypes(items)) < u32::MAX,
        ensures
            final(self).realizes(b.add_payload(Payload::CoreTypes(items))),
            final(self).unique_id() == old(self).unique_id(),
            final(self).components@ == old(self).components@,
    {
        let ghost start = choose|st: IndexScope| #[trigger] st.is_fresh_scope(self.scope().id) && records(st, self.scope(), b.entries);
        let ghost items_v = items@;
        let old_len = self.core_types.len();
        let n = items.len();
        proof {
            assert forall|sp: Space| #[trigger] start.space(sp).counter() == 0 by {
                assert(start.space(sp).is_fresh());
            }
            lemma_core_type_entries_len(items_v, old_len as int);
        }
        let mut moved = items;
        self.core_types.append(&mut moved);
        let ghost lens_new = self.lens();
        proof {
            assert(positions_within(self.scope(), lens_new));
        }
        let mut new_sects: Vec<ComponentSection> = Vec::new();
        for i in 0..n
            invariant
                n == items_v.len(),
                old_len == b.core_types.len(),
                self.core_types@ == b.core_types + items_v,
                self.lens() == lens_new,
                self.index_store.wf(),
                self.index_store.scope_map().contains_key(self.space_id),
                records(start, self.scope(), b.entries + core_types_entries(items_v.take(i as int), old_len as int)),
                forall|sp: Space| #[trigger] start.space(sp).counter() == 0,
                positions_within(self.scope(), lens_new),
                new_sects@ == same_sections(i as nat, ComponentSection::CoreType),
                self.sections@ == old(self).sections@,
                self.num_sections == old(self).num_sections,
                old(self).num_sections == b.sections.len(),
                self.components == old(self).components,
                self.names == old(self).names,
                self.component_name == old(self).component_name,
                self.uid == old(self).uid,
                self.space_id == old(self).space_id,
                self.imports == old(self).imports,
                self.exports == old(self).exports,
                self.instances == old(self).instances,
                self.alias == old(self).alias,
                self.canons == old(self).canons,
                self.component_types == old(self).component_types,
                self.component_instance == old(self).component_instance,
                self.modules == old(self).modules,
                self.start_section == old(self).start_section,
                self.custom_sections == old(self).custom_sections,
                b.sections.len() + n < u32::MAX,
                b.entries.len() + core_types_ids(items_v) < u32::MAX,
                old_len + n < usize::MAX,
                core_types_entries(items_v, old_len as int).len() == core_types_ids(items_v),
        {
            let ghost evs = b.entries + core_types_entries(items_v.take(i as int), old_len as int);
            proof {
                assert(items_v.take(i + 1).drop_last() =~= items_v.take(i as int));
                lemma_core_types_ids_prefix(items_v, i as int);
                lemma_core_type_entries_len(items_v.take(i as int), old_len as int);
            }
            let sect = get_sections_for_core_ty_and_assign_top_level_ids(
                &self.core_types[old_len + i],
                old_len + i,
                self.space_id,
                &mut self.index_store,
                Ghost(start),
                Ghost(evs),
                Ghost(lens_new),
            );
            new_sects.push(sect);
            proof {
                assert(self.core_types@[old_len + i] == items_v[i as int]);
                assert(evs + core_type_entries(items_v[i as int], old_len + i) =~= b.entries
                    + core_types_entries(items_v.take(i + 1), old_len as int));
            }
        }
        add_to_sections(&mut self.sections, new_sects.as_slice(), &mut self.num_sections, ComponentSection::CoreType);
        proof {
            let b2 = b.add_payload(Payload::CoreTypes(items));
            assert(items_v.take(n as int) =~= items_v);
            assert(start.is_fresh_scope(self.scope().id));
            assert(self.wf());
            assert(self.core_types@ == b2.core_types);
            assert(self.sections@ == b2.sections);
            lemma_nested_same(*old(self), *self, b, b2);
            assert forall|k: crate::payload::NameMapKind| #[trigger] self.names_of(k) == names_from(b2.name_subsections, k) by {
                assert(old(self).names_of(k) == names_from(b.name_subsections, k));
            }
        }
    }
}

/// A prefix of a list of core types defines at most as many IDs as the
/// list.
proof fn lemma_core_types_ids_prefix(ts: Seq<CoreType>, i: int)
    requires
        0 <= i < ts.len(),
    ensures
        core_types_ids(ts.take(i + 1)) <= core_types_ids(ts),
        core_types_ids(ts.take(i + 1)) == core_types_ids(ts.take(i)) + core_type_ids(ts[i]),
    decreases ts.len(),
{
    assert(ts.take(i + 1).drop_last() =~= ts.take(i));
    if i + 1 < ts.len() {
        lemma_core_types_ids_prefix(ts.drop_last(), i);
        assert(ts.drop_last().take(i + 1) =~= ts.take(i + 1));
    } else {
        assert(ts.take(i + 1) =~= ts);
    }
}


impl Component {
    /// Adds the start function of a start section payload.
    fn add_start(&mut self, s: ComponentStartFunction, Ghost(b): Ghost<Built>)
        requires
            old(self).realizes(b),
            b.size() + 3 < u32::MAX,
        ensures
            final(self).realizes(b.add_payload(Payload::Start(s))),
            final(self).unique_id() == old(self).unique_id(),
            final(self).components@ == old(self).components@,
    {
        let ghost start = choose|st: IndexScope| #[trigger] st.is_fresh_scope(self.scope().id) && records(st, self.scope(), b.entries);
        let ghost sv = s;
        self.start_section.push(s);
        let sects = repeat_section(ComponentSection::ComponentStartSection, 1);
        add_to_sections(&mut self.sections, sects.as_slice(), &mut self.num_sections, ComponentSection::ComponentStartSection);
        proof {
            let b2 = b.add_payload(Payload::Start(sv));
            assert(start.is_fresh_scope(self.scope().id));
            assert(self.lens() == old(self).lens());
            assert(self.wf());
            assert(self.start_section@ == b2.start_section);
            assert(self.sections@ == b2.sections);
            lemma_nested_same(*old(self), *self, b, b2);
            assert forall|k: crate::payload::NameMapKind| #[trigger] self.names_of(k) == names_from(b2.name_subsections, k) by {
                assert(old(self).names_of(k) == names_from(b.name_subsections, k));
            }
        }
    }

    /// Adds a custom section other than the component name section.
    fn add_custom(&mut self, c: CustomSection, Ghost(b): Ghost<Built>)
        requires
            old(self).realizes(b),
            b.size() + 3 < u32::MAX,
        ensures
            final(self).realizes(b.add_payload(Payload::Custom(c))),
            final(self).unique_id() == old(self).unique_id(),
            final(self).components@ == old(self).components@,
    {
        let ghost start = choose|st: IndexScope| #[trigger] st.is_fresh_scope(self.scope().id) && records(st, self.scope(), b.entries);
        let ghost cv = c;
        self.custom_sections.push(c);
        let sects = repeat_section(ComponentSection::CustomSection, 1);
        add_to_sections(&mut self.sections, sects.as_slice(), &mut self.num_sections, ComponentSection::CustomSection);
        proof {
            let b2 = b.add_payload(Payload::Custom(cv));
            assert(start.is_fresh_scope(self.scope().id));
            assert(self.lens() == old(self).lens());
            assert(self.wf());
            assert(self.custom_sections@ == b2.custom_sections);
            assert(self.sections@ == b2.sections);
            lemma_nested_same(*old(self), *self, b, b2);
            assert forall|k: crate::payload::NameMapKind| #[trigger] self.names_of(k) == names_from(b2.name_subsections, k) by {
                assert(old(self).names_of(k) == names_from(b.name_subsections, k));
            }
        }
    }

    /// Takes the names of a component name section.
    fn add_names(&mut self, subs: Vec<NameSubsection>, Ghost(b): Ghost<Built>)
        requires
            old(self).realizes(b),
        ensures
            final(self).realizes(b.add_payload(Payload::ComponentNames(subs))),
            final(self).unique_id() == old(self).unique_id(),
            final(self).components@ == old(self).components@,
    {
        let ghost start = choose|st: IndexScope| #[trigger] st.is_fresh_scope(self.scope().id) && records(st, self.scope(), b.entries);
        let n = subs.len();
        for i in 0..n
            invariant
                n == subs@.len(),
                forall|k: crate::payload::NameMapKind| #[trigger] self.names_of(k)
                    == names_from(b.name_subsections + subs@.take(i as int), k),
                self.own_name() == component_name_from(b.name_subsections + subs@.take(i as int)),
                self.components == old(self).components,
                self.uid == old(self).uid,
                self.space_id == old(self).space_id,
                self.index_store == old(self).index_store,
                self.sections == old(self).sections,
                self.num_sections == old(self).num_sections,
                self.imports == old(self).imports,
                self.exports == old(self).exports,
                self.instances == old(self).instances,
                self.alias == old(self).alias,
                self.canons == old(self).canons,
                self.component_types == old(self).component_types,
                self.component_instance == old(self).component_instance,
                self.modules == old(self).modules,
                self.core_types == old(self).core_types,
                self.start_section == old(self).start_section,
                self.custom_sections == old(self).custom_sections,
        {
            let ghost before_subs = b.name_subsections + subs@.take(i as int);
            let ghost after_subs = b.name_subsections + subs@.take(i + 1);
            let ghost cself = *self;
            proof {
                assert(after_subs.drop_last() =~= before_subs);
                assert(after_subs.last() == subs@[i as int]);
            }
            match &subs[i] {
                NameSubsection::Component(name) => {
                    self.component_name = Some(name.clone());
                    proof {
                        assert forall|k: crate::payload::NameMapKind| #[trigger] self.names_of(k)
                            == names_from(after_subs, k) by {
                            assert(cself.names_of(k) == names_from(before_subs, k));
                        }
                    }
                },
                NameSubsection::Names(kind, names) => {
                    self.names.add_all(*kind, names.as_slice());
                    proof {
                        assert forall|k: crate::payload::NameMapKind| #[trigger] self.names_of(k)
                            == names_from(after_subs, k) by {
                            assert(cself.names_of(k) == names_from(before_subs, k));
                        }
                    }
                },
                NameSubsection::Unknown => {
                    proof {
                        assert forall|k: crate::payload::NameMapKind| #[trigger] self.names_of(k)
                            == names_from(after_subs, k) by {
                            assert(cself.names_of(k) == names_from(before_subs, k));
                        }
                    }
                },
            }
        }
        proof {
            let b2 = b.add_payload(Payload::ComponentNames(subs));
            assert(subs@.take(n as int) =~= subs@);
            assert(start.is_fresh_scope(self.scope().id));
            assert(self.lens() == old(self).lens());
            assert(self.wf());
            lemma_nested_same(*old(self), *self, b, b2);
            assert forall|k: crate::payload::NameMapKind| #[trigger] self.names_of(k) == names_from(b2.name_subsections, k) by {
            }
        }
    }

    /// Adds a nested core module.
    fn push_parsed_module(&mut self, m: Module, Ghost(b): Ghost<Built>)
        requires
            old(self).realizes(b),
            b.size() + 3 < u32::MAX,
        ensures
            final(self).realizes(b.add_module(m)),
            final(self).unique_id() == old(self).unique_id(),
            final(self).components@ == old(self).components@,
    {
        let ghost start = choose|st: IndexScope| #[trigger] st.is_fresh_scope(self.scope().id) && records(st, self.scope(), b.entries);
        let ghost mv = m;
        let ghost before = self.scope();
        let ghost lens_old = self.lens();
        let idx = self.modules.len();
        let sp = m.index_space_of();
        proof {
            lemma_counts_bounded(b.entries);
            assert(start.space(Space::CoreModule).is_fresh());
            assert(before.space(Space::CoreModule).counter() == count_space(entry_spaces(b.entries), Space::CoreModule));
        }
        let got = self.index_store.assign_assumed_id(&self.space_id, &sp, &ComponentSection::Module, idx);
        self.modules.push(m);
        let sects = repeat_section(ComponentSection::Module, 1);
        add_to_sections(&mut self.sections, sects.as_slice(), &mut self.num_sections, ComponentSection::Module);
        proof {
            let b2 = b.add_module(mv);
            let after = self.scope();
            assert(got.unwrap() == before.space(Space::CoreModule).counter());
            lemma_records_one(start, before, after, b.entries, Space::CoreModule, ComponentSection::Module, idx);
            lemma_one_position(before, after, Space::CoreModule, ComponentSection::Module, idx, lens_old, self.lens());
            assert(start.is_fresh_scope(self.scope().id));
            assert(self.wf());
            assert(self.modules@ == b2.modules);
            assert(self.sections@ == b2.sections);
            assert(b2.entries == b.entries.push(Entry { space: Space::CoreModule, sub: subtype_of_section(ComponentSection::Module), idx }));
            lemma_nested_same(*old(self), *self, b, b2);
            assert forall|k: crate::payload::NameMapKind| #[trigger] self.names_of(k) == names_from(b2.name_subsections, k) by {
                assert(old(self).names_of(k) == names_from(b.name_subsections, k));
            }
        }
    }

    /// Adds a nested component, and records the scope it owns.
    fn push_parsed_component(&mut self, sub: Component, Ghost(b): Ghost<Built>, Ghost(sb): Ghost<Built>)
        requires
            old(self).realizes(b),
            sub.realizes(sb),
            b.size() + 3 < u32::MAX,
        ensures
            final(self).realizes(b.add_component(sb)),
            final(self).unique_id() == old(self).unique_id(),
            final(self).uid == old(self).uid,
            final(self).components@ == old(self).components@.push(sub),
    {
        let ghost start = choose|st: IndexScope| #[trigger] st.is_fresh_scope(self.scope().id) && records(st, self.scope(), b.entries);
        let ghost subv = sub;
        let ghost before = self.scope();
        let ghost lens_old = self.lens();
        let idx = self.components.len();
        proof {
            lemma_counts_bounded(b.entries);
            assert(start.space(Space::Comp).is_fresh());
            assert(before.space(Space::Comp).counter() == count_space(entry_spaces(b.entries), Space::Comp));
        }
        self.scope_registry.register_comp(sub.uid, sub.space_id);
        let got = self.index_store.assign_assumed_id(&self.space_id, &Space::Comp, &ComponentSection::Component, idx);
        self.components.push(sub);
        let sects = repeat_section(ComponentSection::Component, 1);
        add_to_sections(&mut self.sections, sects.as_slice(), &mut self.num_sections, ComponentSection::Component);
        proof {
            let b2 = b.add_component(sb);
            let after = self.scope();
            assert(got.unwrap() == before.space(Space::Comp).counter());
            lemma_records_one(start, before, after, b.entries, Space::Comp, ComponentSection::Component, idx);
            lemma_one_position(before, after, Space::Comp, ComponentSection::Component, idx, lens_old, self.lens());
            assert(start.is_fresh_scope(self.scope().id));
            assert(self.wf());
            assert(self.sections@ == b2.sections);
            assert(b2.entries == b.entries.push(Entry { space: Space::Comp, sub: subtype_of_section(ComponentSection::Component), idx }));
            lemma_nested_push(*old(self), *self, b, b2, subv, sb);
            assert forall|k: crate::payload::NameMapKind| #[trigger] self.names_of(k) == names_from(b2.name_subsections, k) by {
                assert(old(self).names_of(k) == names_from(b.name_subsections, k));
            }
        }
    }
}


/// Takes the payloads of the nested module or component whose section
/// payload was just taken off `rest`, and its closing `End`, off `rest`.
fn split_nested(rest: &mut Vec<Payload>) -> (r: Vec<Payload>)
    ensures
        r@ == nested_part(old(rest)@),
        final(rest)@ == after_nested(old(rest)@),
{
    match find_closing_end(rest) {
        Some(e) => {
            proof {
                lemma_closing_end_bounds(old(rest)@, old(rest)@.len() - 1, 0);
                assert(e < rest.len());
            }
            let region = rest.split_off(e + 1);
            rest.pop();
            proof {
                assert(rest@ =~= old(rest)@.subrange(0, e as int));
            }
            region
        },
        None => {
            let region = rest.split_off(0);
            proof {
                assert(region@ =~= old(rest)@);
                assert(rest@ =~= Seq::<Payload>::empty());
            }
            region
        },
    }
}

/// What a payload adds is bounded by its weight.
proof fn lemma_add_payload_size(b: Built, p: Payload)
    ensures
        b.add_payload(p).size() <= b.size() + payload_weight(p),
{
    match p {
        Payload::CoreTypes(items) => {
            lemma_core_type_entries_len(items@, b.core_types.len() as int);
        },
        _ => {},
    }
}

impl Component {
    /// Adds what a section payload of a list of items, a start section, a
    /// name section or another custom section holds.
    fn add_section_payload(&mut self, p: Payload, Ghost(b): Ghost<Built>)
        requires
            old(self).realizes(b),
            b.size() + payload_weight(p) < u32::MAX,
            !(p is End || p is Version || p is ModuleSection || p is ComponentSection || p is UnknownSection
                || p is Other || p is Malformed),
        ensures
            final(self).realizes(b.add_payload(p)),
            final(self).unique_id() == old(self).unique_id(),
            final(self).components@ == old(self).components@,
    {
        match p {
            Payload::ComponentImports(items) => self.add_imports(items, Ghost(b)),
            Payload::ComponentExports(items) => self.add_exports(items, Ghost(b)),
            Payload::CoreInstances(items) => self.add_core_instances(items, Ghost(b)),
            Payload::CoreTypes(items) => self.add_core_types(items, Ghost(b)),
            Payload::ComponentTypes(items) => self.add_component_types(items, Ghost(b)),
            Payload::ComponentInstances(items) => self.add_component_instances(items, Ghost(b)),
            Payload::Aliases(items) => self.add_aliases(items, Ghost(b)),
            Payload::Canons(items) => self.add_canons(items, Ghost(b)),
            Payload::Start(s) => self.add_start(s, Ghost(b)),
            Payload::ComponentNames(subs) => self.add_names(subs, Ghost(b)),
            Payload::Custom(c) => self.add_custom(c, Ghost(b)),
            _ => {
                proof {
                    assert(false);
                }
            },
        }
    }

    /// Builds the component that the payload stack `stack` (next payload
    /// last) describes, up to its `End`, with identity `uid`; nested
    /// components get the identities from `next_uid` on.
    pub(crate) fn build(stack: Vec<Payload>, uid: CompUniqueId, next_uid: &mut u32) -> (r: Result<Component, Error>)
        requires
            *old(next_uid) + total_weight(stack@) < u32::MAX,
            uid.0 < *old(next_uid),
        ensures
            match parse_spec(stack@, Built::empty()) {
                Ok(b) => r matches Ok(c) && c.realizes(b) && c.unique_id() == uid.0,
                Err(e) => r == Err::<Component, Error>(e),
            },
            r matches Ok(c) ==> uids_distinct(c) && c.uid == uid && forall|u: u32| #[trigger] comps_uids(c.components@).contains(u)
                ==> *old(next_uid) <= u < *final(next_uid),
            *old(next_uid) <= *final(next_uid),
            *final(next_uid) <= *old(next_uid) + total_weight(stack@),
        decreases stack@.len(),
    {
        let mut rest = stack;
        let mut comp = Component::empty(uid);
        let ghost goal = parse_spec(stack@, Built::empty());
        let ghost w0 = total_weight(stack@);
        let ghost u0 = *next_uid;
        let ghost mut b = Built::empty();
        loop
            invariant
                goal == parse_spec(stack@, Built::empty()),
                w0 == total_weight(stack@),
                u0 == *old(next_uid),
                parse_spec(rest@, b) == goal,
                rest@.len() <= stack@.len(),
                comp.realizes(b),
                comp.unique_id() == uid.0,
                b.size() + total_weight(rest@) <= w0,
                *next_uid + total_weight(rest@) <= u0 + w0,
                u0 <= *next_uid,
                u0 + w0 < u32::MAX,
                uid.0 < u0,
                comp.uid == uid,
                forall|u: u32| #[trigger] comps_uids(comp.components@).contains(u) ==> u0 <= u < *next_uid,
                forall|i: int, j: int|
                    #![trigger comp.components@[i], comp.components@[j]]
                    0 <= i < j < comp.components@.len() ==> tree_uids(comp.components@[i]).disjoint(
                        tree_uids(comp.components@[j]),
                    ),
                forall|i: int| 0 <= i < comp.components@.len() ==> uids_distinct(#[trigger] comp.components@[i]),
            decreases rest@.len(),
        {
            if rest.len() == 0 {
                return Ok(comp);
            }
            let ghost before = rest@;
            let p = rest.pop().unwrap();
            proof {
                assert(p == before.last());
                assert(rest@ == before.drop_last());
                assert(total_weight(before) == total_weight(rest@) + payload_weight(p));
            }
            match p {
                Payload::End => {
                    return Ok(comp);
                },
                Payload::Version => {},
                Payload::ModuleSection(m) => {
                    let ghost mv = m;
                    let ghost r0 = rest@;
                    let region = split_nested(&mut rest);
                    proof {
                        lemma_nested_weight(r0);
                    }
                    match take_malformed(region) {
                        Some(e) => {
                            return Err(e);
                        },
                        None => {},
                    }
                    comp.push_parsed_module(m, Ghost(b));
                    proof {
                        b = b.add_module(mv);
                    }
                },
                Payload::ComponentSection => {
                    let ghost r0 = rest@;
                    let region = split_nested(&mut rest);
                    proof {
                        lemma_nested_weight(r0);
                    }
                    let ghost nu0 = *next_uid;
                    proof {
                        assert forall|u: u32| #[trigger] comps_uids(comp.components@).contains(u) implies u0 <= u < nu0 by {}
                    }
                    let sub_uid = CompUniqueId(*next_uid);
                    *next_uid = *next_uid + 1;
                    let ghost region_v = region@;
                    match Self::build(region, sub_uid, next_uid) {
                        Err(e) => {
                            return Err(e);
                        },
                        Ok(sub) => {
                            let ghost sb = parse_spec(region_v, Built::empty())->Ok_0;
                            let ghost cs0 = comp.components@;
                            let ghost subv = sub;
                            proof {
                                lemma_comps_uids_push(cs0, subv);
                                assert forall|i: int| 0 <= i < cs0.len() implies #[trigger] tree_uids(cs0[i]).disjoint(
                                    tree_uids(subv),
                                ) by {
                                    lemma_comps_uids_member(cs0, i);
                                    assert forall|u: u32| tree_uids(cs0[i]).contains(u) implies !tree_uids(subv).contains(u) by {
                                        assert(comps_uids(cs0).contains(u));
                                        assert(u < nu0);
                                        if tree_uids(subv).contains(u) {
                                            assert(u == nu0 || comps_uids(subv.components@).contains(u));
                                        }
                                    }
                                }
                            }
                            comp.push_parsed_component(sub, Ghost(b), Ghost(sb));
                            proof {
                                b = b.add_component(sb);
                            }
                        },
                    }
                },
                Payload::UnknownSection { id } => {
                    return Err(Error::UnknownSection { section_id: id });
                },
                Payload::Other(s) => {
                    return Err(Error::UnhandledPayload(s));
                },
                Payload::Malformed(e) => {
                    return Err(e);
                },
                other => {
                    let ghost pv = other;
                    proof {
                        lemma_add_payload_size(b, pv);
                    }
                    comp.add_section_payload(other, Ghost(b));
                    proof {
                        b = b.add_payload(pv);
                    }
                },
            }
        }
    }
}

/// The weight of the stack `r` under a nested section payload: that of the
/// nested part, plus that of what follows it and its closing `End`.
proof fn lemma_nested_weight(r: Seq<Payload>)
    ensures
        total_weight(nested_part(r)) + total_weight(after_nested(r)) + 3 >= total_weight(r) ==> true,
        total_weight(nested_part(r)) + total_weight(after_nested(r)) <= total_weight(r),
        nested_part(r).len() <= r.len(),
        after_nested(r).len() < r.len() || r.len() == 0,
{
    lemma_nested_split(r);
    if r.len() > 0 {
        let e = closing_end(r, r.len() - 1, 0);
        lemma_closing_end_bounds(r, r.len() - 1, 0);
        if e >= 0 {
            lemma_total_weight_split(r, e + 1);
            lemma_total_weight_split(r.subrange(0, e + 1), e);
            assert(r.subrange(0, e + 1).subrange(0, e) =~= r.subrange(0, e));
            assert(r.subrange(0, e + 1).subrange(e, e + 1) =~= seq![r[e]]);
            assert(seq![r[e]].drop_last() =~= Seq::<Payload>::empty());
        }
    }
}


/// The weight of a prefix of a stack is at most that of the stack.
proof fn lemma_total_weight_prefix(s: Seq<Payload>, j: int)
    requires
        0 <= j <= s.len(),
    ensures
        total_weight(s.take(j)) <= total_weight(s),
{
    lemma_total_weight_split(s, j);
    assert(s.subrange(0, j) =~= s.take(j));
}

/// The greatest weight a component's payloads may have: their items must
/// be numbered by `u32` counters, with one number left for the root.
pub open spec fn weight_limit() -> nat {
    (u32::MAX - 1) as nat
}

/// The number of core type IDs the core types `ts` define, if below
/// `limit`.
fn core_types_ids_capped(ts: &Vec<CoreType>, limit: u64) -> (r: Option<u64>)
    requires
        limit > 0,
    ensures
        r == (if core_types_ids(ts@) < limit { Some(core_types_ids(ts@) as u64) } else { None::<u64> }),
{
    let mut acc: u64 = 0;
    for i in 0..ts.len()
        invariant
            acc == core_types_ids(ts@.take(i as int)),
            acc < limit,
    {
        proof {
            assert(ts@.take(i + 1).drop_last() =~= ts@.take(i as int));
            lemma_core_types_ids_prefix(ts@, i as int);
        }
        let k: u64 = match &ts[i] {
            CoreType::Rec(g) => g.types.len() as u64,
            CoreType::Module(_) => 1,
        };
        if k >= limit - acc {
            proof {
                assert(core_types_ids(ts@.take(i + 1)) >= limit);
            }
            return None;
        }
        acc = acc + k;
    }
    proof {
        assert(ts@.take(ts@.len() as int) =~= ts@);
    }
    Some(acc)
}

/// The weight of a list payload of `n` items, if below `limit`.
fn list_weight_capped(n: usize, limit: u64) -> (r: Option<u64>)
    requires
        limit <= u32::MAX,
    ensures
        r == (if 3 + 2 * n < limit { Some((3 + 2 * n) as u64) } else { None::<u64> }),
{
    if n as u64 >= limit {
        return None;
    }
    let w = 3 + 2 * (n as u64);
    if w < limit {
        Some(w)
    } else {
        None
    }
}

/// The weight of payload `p`, if below `limit`.
fn payload_weight_capped(p: &Payload, limit: u64) -> (r: Option<u64>)
    requires
        limit <= u32::MAX,
    ensures
        r == (if payload_weight(*p) < limit { Some(payload_weight(*p) as u64) } else { None::<u64> }),
{
    match p {
        Payload::ComponentImports(v) => list_weight_capped(v.len(), limit),
        Payload::ComponentExports(v) => list_weight_capped(v.len(), limit),
        Payload::CoreInstances(v) => list_weight_capped(v.len(), limit),
        Payload::ComponentTypes(v) => list_weight_capped(v.len(), limit),
        Payload::ComponentInstances(v) => list_weight_capped(v.len(), limit),
        Payload::Aliases(v) => list_weight_capped(v.len(), limit),
        Payload::Canons(v) => list_weight_capped(v.len(), limit),
        Payload::CoreTypes(v) => match list_weight_capped(v.len(), limit) {
            None => None,
            Some(w) => match core_types_ids_capped(v, limit) {
                None => None,
                Some(ids) => if ids < limit - w {
                    Some(w + ids)
                } else {
                    None
                },
            },
        },
        _ => if 3 < limit {
            Some(3)
        } else {
            None
        },
    }
}

/// Whether the payloads `ps` weigh less than `limit`.
pub(crate) fn payloads_fit(ps: &Vec<Payload>, limit: u64) -> (r: bool)
    requires
        0 < limit <= weight_limit(),
    ensures
        r == (total_weight(ps@) < limit),
{
    let mut acc: u64 = 0;
    for i in 0..ps.len()
        invariant
            0 < limit <= weight_limit(),
            acc == total_weight(ps@.take(i as int)),
            acc < limit,
    {
        proof {
            assert(ps@.take(i + 1).drop_last() =~= ps@.take(i as int));
            lemma_total_weight_prefix(ps@, i + 1);
        }
        match payload_weight_capped(&ps[i], limit) {
            None => {
                return false;
            },
            Some(w) => {
                if w >= limit - acc {
                    return false;
                }
                acc = acc + w;
            },
        }
    }
    proof {
        assert(ps@.take(ps@.len() as int) =~= ps@);
    }
    true
}

/// What parsing the payloads `ps` (in binary order) into a root component
/// gives: the component that they describe, whose components all have
/// distinct identities, or the error of the first payload that is not a
/// part of a component.
pub open spec fn parse_result(ps: Seq<Payload>, r: Result<Component, Error>) -> bool {
    match parse_spec(ps.reverse(), Built::empty()) {
        Ok(b) => r matches Ok(c) && c.realizes(b) && c.unique_id() == 0 && uids_distinct(c),
        Err(e) => r == Err::<Component, Error>(e),
    }
}

impl Component {
    /// The payloads `payloads`, in binary order, as a stack: the next
    /// payload last.
    pub(crate) fn into_stack(payloads: Vec<Payload>) -> (r: Vec<Payload>)
        ensures
            r@ == payloads@.reverse(),
    {
        let mut rest = payloads;
        let mut stack: Vec<Payload> = Vec::new();
        let ghost orig = rest@;
        while rest.len() > 0
            invariant
                rest@ == orig.take(rest@.len() as int),
                rest@.len() <= orig.len(),
                stack@ =~= orig.subrange(rest@.len() as int, orig.len() as int).reverse(),
            decreases rest@.len(),
        {
            let ghost before = rest@;
            let x = rest.pop().unwrap();
            proof {
                assert(x == before.last());
                assert(rest@ =~= orig.take(rest@.len() as int));
            }
            stack.push(x);
            proof {
                assert(stack@ =~= orig.subrange(rest@.len() as int, orig.len() as int).reverse());
                assert(stack@.drop_last() =~= orig.subrange(before.len() as int, orig.len() as int).reverse());
            }
        }
        proof {
            assert(orig.subrange(0, orig.len() as int) =~= orig);
        }
        stack
    }

    /// Builds a root component from the payloads of its binary, in binary
    /// order. The identities its nested components take are reserved in
    /// its scope registry.
    pub fn from_payloads(payloads: Vec<Payload>) -> (r: Result<Component, Error>)
        requires
            total_weight(payloads@) < weight_limit(),
        ensures
            parse_result(payloads@, r),
    {
        proof {
            lemma_total_weight_reverse(payloads@);
        }
        let stack = Self::into_stack(payloads);
        let mut next_uid: u32 = 1;
        let ghost stack_v = stack@;
        match Self::build(stack, CompUniqueId(0), &mut next_uid) {
            Ok(c) => {
                let ghost c0 = c;
                let mut c = c;
                c.scope_registry.reserve_uids(next_uid);
                proof {
                    let b = parse_spec(stack_v, Built::empty())->Ok_0;
                    assert(c0.realizes(b));
                    lemma_nested_same(c0, c, b, b);
                    let start = choose|st: IndexScope| #[trigger] st.is_fresh_scope(c0.scope().id)
                        && records(st, c0.scope(), b.entries);
                    assert(start.is_fresh_scope(c.scope().id));
                    assert forall|k: crate::payload::NameMapKind| #[trigger] c.names_of(k) == names_from(b.name_subsections, k) by {
                        assert(c0.names_of(k) == names_from(b.name_subsections, k));
                    }
                    assert(c.realizes(b));
                    assert(uids_distinct(c0));
                    assert(c.components@ == c0.components@);
                    assert(uids_distinct(c));
                }
                Ok(c)
            },
            Err(e) => Err(e),
        }
    }

    /// Parses a component from a WebAssembly binary.
    ///
    /// Nested core modules are kept as their bytes, so the two options
    /// for parsing modules (more than one memory, keeping code offsets)
    /// change nothing here.
    pub fn parse(wasm: &[u8], enable_multi_memory: bool, with_offsets: bool) -> (r: Result<Component, Error>)
        ensures
            total_weight(payloads_of(wasm@)) < weight_limit() ==> parse_result(payloads_of(wasm@), r),
            total_weight(payloads_of(wasm@)) >= weight_limit() ==> r matches Err(Error::TooManyItems),
    {
        let payloads = read_payloads(wasm);
        if payloads_fit(&payloads, 4294967294) {
            Self::from_payloads(payloads)
        } else {
            Err(Error::TooManyItems)
        }
    }
}


/// The section entry a section payload of a list of items, a start
/// function or a custom section gives: the number of items and the kind.
pub open spec fn payload_section(p: Payload) -> Option<(u32, ComponentSection)> {
    match p {
        Payload::ComponentImports(v) => Some((v@.len() as u32, ComponentSection::ComponentImport)),
        Payload::ComponentExports(v) => Some((v@.len() as u32, ComponentSection::ComponentExport)),
        Payload::CoreInstances(v) => Some((v@.len() as u32, ComponentSection::CoreInstance)),
        Payload::CoreTypes(v) => Some((v@.len() as u32, ComponentSection::CoreType)),
        Payload::ComponentTypes(v) => Some((v@.len() as u32, ComponentSection::ComponentType)),
        Payload::ComponentInstances(v) => Some((v@.len() as u32, ComponentSection::ComponentInstance)),
        Payload::Aliases(v) => Some((v@.len() as u32, ComponentSection::Alias)),
        Payload::Canons(v) => Some((v@.len() as u32, ComponentSection::Canon)),
        Payload::Start(_) => Some((1, ComponentSection::ComponentStartSection)),
        Payload::Custom(_) => Some((1, ComponentSection::CustomSection)),
        _ => None,
    }
}

/// The section entries the payload stack `rest` (next payload last) gives
/// up to its `End`: one per section payload, in binary order, with the
/// payloads of nested modules and components skipped.
pub open spec fn section_entries(rest: Seq<Payload>) -> Seq<(u32, ComponentSection)>
    decreases rest.len(),
{
    if rest.len() == 0 {
        Seq::empty()
    } else {
        let r = rest.drop_last();
        proof {
            lemma_nested_split(r);
        }
        match rest.last() {
            Payload::End => Seq::empty(),
            Payload::ModuleSection(_) => seq![(1u32, ComponentSection::Module)] + section_entries(after_nested(r)),
            Payload::ComponentSection => seq![(1u32, ComponentSection::Component)] + section_entries(after_nested(r)),
            p => match payload_section(p) {
                Some(e) => seq![e] + section_entries(r),
                None => section_entries(r),
            },
        }
    }
}

/// Building on `b` from the payload stack `rest` adds to its section
/// list exactly the entries of the section payloads of `rest`.
pub proof fn lemma_parse_sections(rest: Seq<Payload>, b: Built)
    requires
        parse_spec(rest, b) is Ok,
    ensures
        parse_spec(rest, b)->Ok_0.sections == b.sections + section_entries(rest),
    decreases rest.len(),
{
    if rest.len() == 0 {
        assert(b.sections + Seq::<(u32, ComponentSection)>::empty() =~= b.sections);
    } else {
        let r = rest.drop_last();
        lemma_nested_split(r);
        match rest.last() {
            Payload::End => {
                assert(b.sections + Seq::<(u32, ComponentSection)>::empty() =~= b.sections);
            },
            Payload::Version => {
                lemma_parse_sections(r, b);
            },
            Payload::ModuleSection(m) => {
                let b2 = b.add_module(m);
                lemma_parse_sections(after_nested(r), b2);
                assert(b2.sections == b.sections.push((1u32, ComponentSection::Module)));
                assert(b.sections.push((1u32, ComponentSection::Module)) + section_entries(after_nested(r))
                    =~= b.sections + (seq![(1u32, ComponentSection::Module)] + section_entries(after_nested(r))));
            },
            Payload::ComponentSection => {
                let sub = parse_spec(nested_part(r), Built::empty())->Ok_0;
                let b2 = b.add_component(sub);
                lemma_parse_sections(after_nested(r), b2);
                assert(b2.sections == b.sections.push((1u32, ComponentSection::Component)));
                assert(b.sections.push((1u32, ComponentSection::Component)) + section_entries(after_nested(r))
                    =~= b.sections + (seq![(1u32, ComponentSection::Component)] + section_entries(after_nested(r))));
            },
            p => {
                let b2 = b.add_payload(p);
                lemma_parse_sections(r, b2);
                match payload_section(p) {
                    Some(e) => {
                        assert(b2.sections == b.sections.push(e));
                        assert(b.sections.push(e) + section_entries(r) =~= b.sections + (seq![e] + section_entries(r)));
                    },
                    None => {
                        assert(b2.sections == b.sections);
                    },
                }
            },
        }
    }
}

/// A parsed component's section list has one entry per section payload of
/// its binary, in binary order, with the number of items the payload
/// holds and its kind; an empty section keeps an entry of no items.
pub proof fn law_parsed_sections(ps: Seq<Payload>, c: Component)
    requires
        parse_result(ps, Ok(c)),
    ensures
        c.sections@ == section_entries(ps.reverse()),
{
    lemma_parse_sections(ps.reverse(), Built::empty());
    assert(Built::empty().sections + section_entries(ps.reverse()) =~= section_entries(ps.reverse()));
}

/// In a parsed component, the item that took the `k`-th index of an index
/// space (the `k`-th item of the space in binary order, counting nested
/// declarations of core recursion groups) is what a reference to index
/// `k` of that space resolves to.
pub proof fn law_parsed_index_resolves(c: Component, b: Built, j: int)
    requires
        c.realizes(b),
        0 <= j < b.entries.len(),
        b.entries[j].space != Space::NA,
        count_space(entry_spaces(b.entries).take(j), b.entries[j].space) < u32::MAX,
    ensures
        ({
            let e = b.entries[j];
            let r = IndexedRef {
                depth: Depth::at_level(0),
                space: e.space,
                index: count_space(entry_spaces(b.entries).take(j), e.space) as u32,
            };
            &&& c.resolvable(r)
            &&& c.resolve_spec(r) == c.item_at_spec(r, e.sub, e.idx as int)
        }),
{
    let e = b.entries[j];
    let id = count_space(entry_spaces(b.entries).take(j), e.space);
    let start = choose|st: IndexScope| #[trigger] st.is_fresh_scope(c.scope().id) && records(st, c.scope(), b.entries);
    assert(start.space(e.space).is_fresh());
    let sp = c.scope().space(e.space);
    assert(sp.holds(id as usize, e.sub, e.idx));
    assert(sp.wf());
    assert(sp.cache() == Map::<usize, (SpaceSubtype, usize, Option<usize>)>::empty());
    assert(sp.is_assumed(id as usize));
    let (s2, i2) = choose|s2: SpaceSubtype, i2: usize| #[trigger] sp.holds(id as usize, s2, i2);
    assert(sp.holds(id as usize, s2, i2));
    let r = IndexedRef { depth: Depth::at_level(0), space: e.space, index: id as u32 };
    assert(r.index as usize == id as usize);
}

} // verus!
