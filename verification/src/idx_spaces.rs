//! Index spaces and index scopes of a component.
//!
//! Every item of a component that enters an index space is given an
//! *assumed ID* when it is parsed or injected: the next free number of
//! that index space. The index space remembers, for the item vector the
//! item lives in (the main vector of its section, or the import, export or
//! alias vector), at which position the item sits, so that an assumed ID
//! can be turned back into the place of the item in the IR.

use vstd::prelude::*;
use std::collections::HashMap;
use vstd::std_specs::iter::IteratorSpec;
use crate::section::ComponentSection;
use crate::refs::IndexedRef;

verus! {

broadcast use vstd::std_specs::hash::group_hash_axioms;

/// The identity of one index scope in an [`IndexStore`].
pub type ScopeId = usize;

/// The index spaces of the component model.
#[derive(Clone, Copy, Debug, PartialEq, Eq, Hash, Structural)]
pub enum Space {
    // Component-level spaces
    Comp,
    CompFunc,
    CompVal,
    CompType,
    CompInst,
    // Core-level spaces
    CoreInst,
    CoreModule,
    CoreType,
    CoreFunc,
    CoreMemory,
    CoreTable,
    CoreGlobal,
    CoreTag,
    /// Not part of any index space.
    NA,
}

/// The item vector of a component in which an item of an index space lives.
#[derive(Clone, Copy, Debug, PartialEq, Eq, Structural)]
pub enum SpaceSubtype {
    Export,
    Import,
    Alias,
    Main,
}

/// Where an item of an index space is found: its item vector, its position
/// in that vector, and, for an entry that holds several IDs (a core
/// recursion group), the position among the entry's IDs.
pub type ItemLocation = (SpaceSubtype, usize, Option<usize>);

/// The item vector that items of `section` are kept in.
pub open spec fn subtype_of_section(section: ComponentSection) -> SpaceSubtype {
    match section {
        ComponentSection::ComponentImport => SpaceSubtype::Import,
        ComponentSection::ComponentExport => SpaceSubtype::Export,
        ComponentSection::Alias => SpaceSubtype::Alias,
        _ => SpaceSubtype::Main,
    }
}

/// `k` is the first position of `id` in `s`.
pub open spec fn is_first_pos(s: Seq<usize>, id: usize, k: int) -> bool {
    &&& 0 <= k < s.len()
    &&& s[k] == id
    &&& forall|j: int| 0 <= j < k ==> s[j] != id
}

/// The first position of `id` in `s` (meaningful when `s` contains `id`).
pub open spec fn first_pos(s: Seq<usize>, id: usize) -> int {
    choose|k: int| is_first_pos(s, id, k)
}

proof fn lemma_first_pos_unique(s: Seq<usize>, id: usize, k: int)
    requires
        is_first_pos(s, id, k),
    ensures
        first_pos(s, id) == k,
{
    let c = first_pos(s, id);
    assert(is_first_pos(s, id, c));
    if c < k {
        assert(s[c] != id);
    } else if k < c {
        assert(s[k] != id);
    }
}

proof fn lemma_contains_has_first_pos(s: Seq<usize>, id: usize)
    requires
        s.contains(id),
    ensures
        is_first_pos(s, id, first_pos(s, id)),
    decreases s.len(),
{
    if s[0] == id {
        assert(is_first_pos(s, id, 0));
    } else {
        let t = s.drop_first();
        assert(t.contains(id)) by {
            let i = choose|i: int| 0 <= i < s.len() && s[i] == id;
            assert(t[i - 1] == id);
        }
        lemma_contains_has_first_pos(t, id);
        let k = first_pos(t, id);
        assert(is_first_pos(s, id, k + 1)) by {
            assert forall|j: int| 0 <= j < k + 1 implies s[j] != id by {
                if j > 0 {
                    assert(s[j] == t[j - 1]);
                }
            }
        }
    }
}

/// The assumed IDs given to one position of an item vector.
#[derive(Clone, Debug)]
pub enum AssumedIdForIdx {
    /// A single assumed ID.
    Single(usize),
    /// Several assumed IDs for one position (a core recursion group takes a
    /// single position in the core type vector, but has one core type ID per
    /// subtype).
    Multiple(Vec<usize>),
}

impl AssumedIdForIdx {
    /// The IDs held, in the order they were given.
    pub open spec fn ids(self) -> Seq<usize> {
        match self {
            AssumedIdForIdx::Single(x) => seq![x],
            AssumedIdForIdx::Multiple(v) => v@,
        }
    }

    /// Whether `assumed_id` is held, and, for several IDs, at which position.
    pub open spec fn spec_matches(self, assumed_id: usize) -> (bool, Option<usize>) {
        match self {
            AssumedIdForIdx::Single(x) => (x == assumed_id, None),
            AssumedIdForIdx::Multiple(v) => if v@.contains(assumed_id) {
                (true, Some(first_pos(v@, assumed_id) as usize))
            } else {
                (false, None)
            },
        }
    }

    proof fn lemma_matches_iff_contains(self, assumed_id: usize)
        ensures
            self.spec_matches(assumed_id).0 <==> self.ids().contains(assumed_id),
    {
        if let AssumedIdForIdx::Single(x) = self {
            if x == assumed_id {
                assert(self.ids()[0] == assumed_id);
            }
        }
    }

    /// Returns whether this holds `assumed_id` and, for several IDs, the
    /// position of its first occurrence.
    pub fn matches(&self, assumed_id: usize) -> (r: (bool, Option<usize>))
        ensures
            r == self.spec_matches(assumed_id),
    {
        match self {
            AssumedIdForIdx::Single(my_id) => {
                return (*my_id == assumed_id, None);
            },
            AssumedIdForIdx::Multiple(sub_ids) => {
                let n = sub_ids.len();
                for idx in 0..n
                    invariant
                        n == sub_ids@.len(),
                        *self == AssumedIdForIdx::Multiple(*sub_ids),
                        forall|j: int| 0 <= j < idx ==> sub_ids@[j] != assumed_id,
                {
                    if sub_ids[idx] == assumed_id {
                        proof {
                            lemma_first_pos_unique(sub_ids@, assumed_id, idx as int);
                            assert(sub_ids@.contains(assumed_id));
                        }
                        return (true, Some(idx));
                    }
                }
            },
        }
        (false, None)
    }

    /// Adds one more ID; the result always holds several IDs.
    pub fn append(&mut self, assumed_id: usize)
        ensures
            final(self).ids() == old(self).ids().push(assumed_id),
            *final(self) is Multiple,
    {
        let single = match &*self {
            AssumedIdForIdx::Single(my_id) => Some(*my_id),
            AssumedIdForIdx::Multiple(_) => None,
        };
        match single {
            Some(my_id) => {
                let mut v: Vec<usize> = Vec::new();
                v.push(my_id);
                v.push(assumed_id);
                *self = AssumedIdForIdx::Multiple(v);
                assert(self.ids() =~= seq![my_id].push(assumed_id));
            },
            None => {
                if let AssumedIdForIdx::Multiple(sub_ids) = self {
                    sub_ids.push(assumed_id);
                }
            },
        }
    }

    /// The number of IDs held.
    pub fn count(&self) -> (r: usize)
        ensures
            r == self.ids().len(),
    {
        match self {
            AssumedIdForIdx::Single(_) => 1,
            AssumedIdForIdx::Multiple(v) => v.len(),
        }
    }

    /// The single ID held.
    pub fn unwrap_single(&self) -> (r: usize)
        requires
            self is Single,
        ensures
            r == self->Single_0,
    {
        match self {
            AssumedIdForIdx::Single(my_id) => *my_id,
            AssumedIdForIdx::Multiple(_) => {
                proof {
                    assert(false);
                }
                0
            },
        }
    }

    /// The ID at position `subvec_idx` of the IDs held.
    pub fn unwrap_for_idx(&self, subvec_idx: usize) -> (r: usize)
        requires
            subvec_idx < self.ids().len(),
        ensures
            r == self.ids()[subvec_idx as int],
    {
        match self {
            AssumedIdForIdx::Single(my_id) => *my_id,
            AssumedIdForIdx::Multiple(subvec) => subvec[subvec_idx],
        }
    }
}

/// One index space of one scope: the counter of assumed IDs given so far,
/// and, per item vector, which assumed IDs were given to which position.
#[derive(Clone, Debug)]
pub struct IdxSpace {
    /// The ID that the next item assigned in this space will be given.
    current_id: usize,
    /// `main_idx -> assumed IDs` for the main item vector of a section.
    main_assumed_ids: HashMap<usize, AssumedIdForIdx>,
    /// `alias_idx -> assumed IDs` for the alias vector.
    alias_assumed_ids: HashMap<usize, AssumedIdForIdx>,
    /// `import_idx -> assumed IDs` for the import vector.
    imports_assumed_ids: HashMap<usize, AssumedIdForIdx>,
    /// `export_idx -> assumed IDs` for the export vector.
    exports_assumed_ids: HashMap<usize, AssumedIdForIdx>,
    /// Lookups made so far by [`IdxSpace::index_from_assumed_id`].
    index_from_assumed_id_cache: HashMap<usize, ItemLocation>,
}

impl IdxSpace {
    /// The ID that the next assigned item will be given.
    pub closed spec fn counter(self) -> usize {
        self.current_id
    }

    /// The assumed IDs given to positions of the item vector `sub`.
    pub closed spec fn id_map(self, sub: SpaceSubtype) -> Map<usize, AssumedIdForIdx> {
        match sub {
            SpaceSubtype::Main => self.main_assumed_ids@,
            SpaceSubtype::Alias => self.alias_assumed_ids@,
            SpaceSubtype::Import => self.imports_assumed_ids@,
            SpaceSubtype::Export => self.exports_assumed_ids@,
        }
    }

    /// The lookups cached so far.
    pub closed spec fn cache(self) -> Map<usize, ItemLocation> {
        self.index_from_assumed_id_cache@
    }

    /// Position `idx` of item vector `sub` holds the assumed ID `id`.
    pub open spec fn holds(self, id: usize, sub: SpaceSubtype, idx: usize) -> bool {
        &&& self.id_map(sub).contains_key(idx)
        &&& self.id_map(sub)[idx].ids().contains(id)
    }

    /// `id` has been given to some item.
    pub open spec fn is_assumed(self, id: usize) -> bool {
        exists|sub: SpaceSubtype, idx: usize| #[trigger] self.holds(id, sub, idx)
    }

    /// Where the item with assumed ID `id` lives, if any item has it.
    pub open spec fn locate(self, id: usize) -> Option<ItemLocation> {
        if self.is_assumed(id) {
            let (sub, idx) = choose|sub: SpaceSubtype, idx: usize| #[trigger] self.holds(id, sub, idx);
            Some((sub, idx, self.id_map(sub)[idx].spec_matches(id).1))
        } else {
            None
        }
    }

    /// What a lookup of `id` answers: a cached answer if there is one,
    /// else where the item lives.
    pub open spec fn lookup(self, id: usize) -> Option<ItemLocation> {
        if self.cache().contains_key(id) {
            Some(self.cache()[id])
        } else {
            self.locate(id)
        }
    }

    /// Well-formedness: every ID given is below the counter and was given
    /// to exactly one position; every cached ID is below the counter and
    /// its cached answer names the position that holds it.
    pub open spec fn wf(self) -> bool {
        &&& forall|id: usize, sub: SpaceSubtype, idx: usize| #[trigger]
            self.holds(id, sub, idx) ==> id < self.counter()
        &&& forall|id: usize, s1: SpaceSubtype, i1: usize, s2: SpaceSubtype, i2: usize|
            #![trigger self.holds(id, s1, i1), self.holds(id, s2, i2)]
            self.holds(id, s1, i1) && self.holds(id, s2, i2) ==> s1 == s2 && i1 == i2
        &&& forall|id: usize| #[trigger] self.cache().contains_key(id) ==> id < self.counter()
        &&& forall|id: usize| #[trigger] self.cache().contains_key(id) ==> place_of(self.locate(id)) == place_of(
            Some(self.cache()[id]),
        )
    }

    /// No ID has been given and nothing is cached.
    pub open spec fn is_fresh(self) -> bool {
        &&& self.counter() == 0
        &&& forall|sub: SpaceSubtype| #[trigger] self.id_map(sub) == Map::<usize, AssumedIdForIdx>::empty()
        &&& self.cache() == Map::<usize, ItemLocation>::empty()
    }

    /// The relation between a space before and after
    /// [`IdxSpace::assign_assumed_id`] gave `id` to position `vec_idx` of the
    /// item vector of `section`.
    pub open spec fn assign_step(
        before: IdxSpace,
        after: IdxSpace,
        section: ComponentSection,
        vec_idx: usize,
        id: usize,
    ) -> bool {
        let sub = subtype_of_section(section);
        let m0 = before.id_map(sub);
        let m1 = after.id_map(sub);
        &&& id == before.counter()
        &&& after.counter() == before.counter() + 1
        &&& after.cache() == before.cache()
        &&& forall|s: SpaceSubtype| s != sub ==> #[trigger] after.id_map(s) == before.id_map(s)
        &&& m1.dom() == m0.dom().insert(vec_idx)
        &&& forall|k: usize| k != vec_idx && #[trigger] m0.contains_key(k) ==> m1[k] == m0[k]
        &&& m1[vec_idx].ids() == (if m0.contains_key(vec_idx) {
            m0[vec_idx].ids().push(id)
        } else {
            seq![id]
        })
        &&& (m1[vec_idx] is Single <==> !m0.contains_key(vec_idx))
    }

    /// A space in which no ID has been given.
    pub fn new() -> (r: Self)
        ensures
            r.is_fresh(),
            r.wf(),
    {
        let r = IdxSpace {
            current_id: 0,
            main_assumed_ids: HashMap::new(),
            alias_assumed_ids: HashMap::new(),
            imports_assumed_ids: HashMap::new(),
            exports_assumed_ids: HashMap::new(),
            index_from_assumed_id_cache: HashMap::new(),
        };
        assert forall|sub: SpaceSubtype| #[trigger] r.id_map(sub) == Map::<usize, AssumedIdForIdx>::empty() by {
        }
        r
    }

    /// The ID that the next assigned item will be given.
    pub fn curr_id(&self) -> (r: usize)
        ensures
            r == self.counter(),
    {
        self.current_id
    }

    /// Uses up the current ID and returns it.
    fn next(&mut self) -> (r: usize)
        requires
            old(self).counter() < usize::MAX,
        ensures
            r == old(self).counter(),
            final(self).counter() == old(self).counter() + 1,
            forall|sub: SpaceSubtype| #[trigger] final(self).id_map(sub) == old(self).id_map(sub),
            final(self).cache() == old(self).cache(),
    {
        let curr = self.current_id;
        self.current_id += 1;
        curr
    }

    /// The map of assumed IDs kept for the items of `section`.
    fn map_for(&self, section: &ComponentSection) -> (r: &HashMap<usize, AssumedIdForIdx>)
        ensures
            r@ == self.id_map(subtype_of_section(*section)),
    {
        match section {
            ComponentSection::ComponentImport => &self.imports_assumed_ids,
            ComponentSection::ComponentExport => &self.exports_assumed_ids,
            ComponentSection::Alias => &self.alias_assumed_ids,
            ComponentSection::Component
            | ComponentSection::Module
            | ComponentSection::CoreType
            | ComponentSection::ComponentType
            | ComponentSection::CoreInstance
            | ComponentSection::ComponentInstance
            | ComponentSection::Canon
            | ComponentSection::CustomSection
            | ComponentSection::ComponentStartSection => &self.main_assumed_ids,
        }
    }

    /// The assumed IDs given to position `vec_idx` of the item vector of
    /// `section`, if any were given.
    pub fn assumed_ids_at(&self, section: &ComponentSection, vec_idx: usize) -> (r: Option<&AssumedIdForIdx>)
        ensures
            match r {
                Some(a) => self.id_map(subtype_of_section(*section)).contains_key(vec_idx)
                    && *a == self.id_map(subtype_of_section(*section))[vec_idx],
                None => !self.id_map(subtype_of_section(*section)).contains_key(vec_idx),
            },
    {
        self.map_for(section).get(&vec_idx)
    }

    /// The single assumed ID given to position `vec_idx` of the item vector
    /// of `section`, if any.
    pub fn lookup_assumed_id(&self, section: &ComponentSection, vec_idx: usize) -> (r: Option<usize>)
        requires
            self.id_map(subtype_of_section(*section)).contains_key(vec_idx) ==> self.id_map(
                subtype_of_section(*section),
            )[vec_idx] is Single,
        ensures
            r == (if self.id_map(subtype_of_section(*section)).contains_key(vec_idx) {
                Some(self.id_map(subtype_of_section(*section))[vec_idx]->Single_0)
            } else {
                None
            }),
    {
        let vector = self.map_for(section);
        match vector.get(&vec_idx) {
            Some(res) => Some(res.unwrap_single()),
            None => None,
        }
    }

    /// The assumed ID at position `subvec_idx` among those given to position
    /// `vec_idx` of the item vector of `section`, if any were given.
    pub fn lookup_assumed_id_with_subvec(
        &self,
        section: &ComponentSection,
        vec_idx: usize,
        subvec_idx: usize,
    ) -> (r: Option<usize>)
        requires
            self.id_map(subtype_of_section(*section)).contains_key(vec_idx) ==> subvec_idx
                < self.id_map(subtype_of_section(*section))[vec_idx].ids().len(),
        ensures
            r == (if self.id_map(subtype_of_section(*section)).contains_key(vec_idx) {
                Some(self.id_map(subtype_of_section(*section))[vec_idx].ids()[subvec_idx as int])
            } else {
                None
            }),
    {
        let vector = self.map_for(section);
        match vector.get(&vec_idx) {
            Some(res) => Some(res.unwrap_for_idx(subvec_idx)),
            None => None,
        }
    }

    /// Searches one item vector's map for `assumed_id`.
    fn search_map(map: &HashMap<usize, AssumedIdForIdx>, assumed_id: usize) -> (r: Option<
        (usize, Option<usize>),
    >)
        ensures
            r matches Some((idx, p)) ==> map@.contains_key(idx) && map@[idx].spec_matches(
                assumed_id,
            ) == (true, p),
            r is None ==> forall|idx: usize| #[trigger]
                map@.contains_key(idx) ==> !map@[idx].spec_matches(assumed_id).0,
    {
        let ghost pairs = map.iter().remaining();
        for (idx, assumed) in it: map.iter()
            invariant
                it.seq() == pairs,
                forall|i: int| 0 <= i < it.index() ==> !(*pairs[i].1).spec_matches(assumed_id).0,
        {
            let (matches, opt_subidx) = assumed.matches(assumed_id);
            if matches {
                return Some((*idx, opt_subidx));
            }
        }
        proof {
            assert forall|idx: usize| #[trigger] map@.contains_key(idx) implies !map@[idx].spec_matches(assumed_id).0 by {
                assert(pairs.contains((&idx, &map@[idx])));
            }
        }
        None
    }

    proof fn lemma_found(self, id: usize, sub: SpaceSubtype, idx: usize, p: Option<usize>)
        requires
            self.wf(),
            self.id_map(sub).contains_key(idx),
            self.id_map(sub)[idx].spec_matches(id) == (true, p),
        ensures
            self.locate(id) == Some((sub, idx, p)),
    {
        self.id_map(sub)[idx].lemma_matches_iff_contains(id);
        assert(self.holds(id, sub, idx));
        let (s2, i2) = choose|s2: SpaceSubtype, i2: usize| #[trigger] self.holds(id, s2, i2);
        assert(self.holds(id, s2, i2));
    }

    proof fn lemma_not_found(self, id: usize)
        requires
            forall|sub: SpaceSubtype, idx: usize| #[trigger]
                self.id_map(sub).contains_key(idx) ==> !self.id_map(sub)[idx].spec_matches(id).0,
        ensures
            self.locate(id) is None,
    {
        assert forall|sub: SpaceSubtype, idx: usize| !#[trigger] self.holds(id, sub, idx) by {
            if self.id_map(sub).contains_key(idx) {
                self.id_map(sub)[idx].lemma_matches_iff_contains(id);
            }
        }
    }

    /// Where the item with assumed ID `assumed_id` lives, searching all item
    /// vectors.
    fn search(&self, assumed_id: usize) -> (r: Option<ItemLocation>)
        requires
            self.wf(),
        ensures
            r == self.locate(assumed_id),
    {
        let subs = [SpaceSubtype::Main, SpaceSubtype::Import, SpaceSubtype::Export, SpaceSubtype::Alias];
        let mut i: usize = 0;
        while i < 4
            invariant
                self.wf(),
                0 <= i <= 4,
                subs@ == seq![SpaceSubtype::Main, SpaceSubtype::Import, SpaceSubtype::Export, SpaceSubtype::Alias],
                forall|j: int, idx: usize| 0 <= j < i && #[trigger] self.id_map(subs@[j]).contains_key(idx)
                    ==> !self.id_map(subs@[j])[idx].spec_matches(assumed_id).0,
            decreases 4 - i,
        {
            let subty = subs[i];
            let map = match subty {
                SpaceSubtype::Main => &self.main_assumed_ids,
                SpaceSubtype::Import => &self.imports_assumed_ids,
                SpaceSubtype::Export => &self.exports_assumed_ids,
                SpaceSubtype::Alias => &self.alias_assumed_ids,
            };
            assert(map@ == self.id_map(subty));
            if let Some((idx, opt_subidx)) = Self::search_map(map, assumed_id) {
                proof {
                    self.lemma_found(assumed_id, subty, idx, opt_subidx);
                }
                return Some((subty, idx, opt_subidx));
            }
            i += 1;
        }
        proof {
            assert forall|sub: SpaceSubtype, idx: usize| #[trigger]
                self.id_map(sub).contains_key(idx) implies !self.id_map(sub)[idx].spec_matches(assumed_id).0 by {
                let j: int = match sub {
                    SpaceSubtype::Main => 0,
                    SpaceSubtype::Import => 1,
                    SpaceSubtype::Export => 2,
                    SpaceSubtype::Alias => 3,
                };
                assert(subs@[j] == sub);
            }
            self.lemma_not_found(assumed_id);
        }
        None
    }

    /// Where the item with assumed ID `assumed_id` lives: the item vector,
    /// the position in it, and the position among the IDs of that position.
    /// The answer is cached for later lookups.
    pub fn index_from_assumed_id(&mut self, assumed_id: usize) -> (r: Option<ItemLocation>)
        requires
            old(self).wf(),
        ensures
            r == old(self).lookup(assumed_id),
            final(self).wf(),
            final(self).counter() == old(self).counter(),
            forall|sub: SpaceSubtype| #[trigger] final(self).id_map(sub) == old(self).id_map(sub),
            final(self).cache() == (if old(self).cache().contains_key(assumed_id) || r is None {
                old(self).cache()
            } else {
                old(self).cache().insert(assumed_id, r.unwrap())
            }),
    {
        if let Some(cached_data) = self.index_from_assumed_id_cache.get(&assumed_id) {
            return Some(*cached_data);
        }
        let found = self.search(assumed_id);
        if let Some(result) = found {
            proof {
                let (sub, idx) = choose|sub: SpaceSubtype, idx: usize| #[trigger] self.holds(assumed_id, sub, idx);
                assert(self.holds(assumed_id, sub, idx));
                assert(assumed_id < self.counter());
            }
            self.index_from_assumed_id_cache.insert(assumed_id, result);
            proof {
                assert forall|sub: SpaceSubtype| #[trigger] self.id_map(sub) == old(self).id_map(sub) by {}
                assert forall|id: usize, sub: SpaceSubtype, idx: usize| #[trigger] self.holds(id, sub, idx)
                    == old(self).holds(id, sub, idx) by {
                    assert(self.id_map(sub) == old(self).id_map(sub));
                }
                assert forall|id: usize| #[trigger] self.cache().contains_key(id) implies place_of(self.locate(id))
                    == place_of(Some(self.cache()[id])) by {
                    if old(self).is_assumed(id) {
                        let (s1, i1) = choose|s1: SpaceSubtype, i1: usize| #[trigger] old(self).holds(id, s1, i1);
                        assert(old(self).holds(id, s1, i1));
                        assert(self.holds(id, s1, i1));
                        let (s2, i2) = choose|s2: SpaceSubtype, i2: usize| #[trigger] self.holds(id, s2, i2);
                        assert(self.holds(id, s2, i2));
                        assert(old(self).holds(id, s2, i2));
                    }
                    if self.is_assumed(id) {
                        let (s2, i2) = choose|s2: SpaceSubtype, i2: usize| #[trigger] self.holds(id, s2, i2);
                        assert(self.holds(id, s2, i2));
                        assert(old(self).holds(id, s2, i2));
                    }
                }
            }
        }
        found
    }

    /// A lookup answers the item vector and position that hold the ID.
    pub proof fn lemma_lookup_holds(self, id: usize)
        requires
            self.wf(),
            self.lookup(id) is Some,
        ensures
            self.holds(id, self.lookup(id).unwrap().0, self.lookup(id).unwrap().1),
    {
        assert(self.locate(id) is Some);
        let (sub, idx) = choose|sub: SpaceSubtype, idx: usize| #[trigger] self.holds(id, sub, idx);
        assert(self.holds(id, sub, idx));
    }

    /// Where the item with assumed ID `assumed_id` lives, without caching
    /// the answer.
    pub fn index_from_assumed_id_no_cache(&self, assumed_id: usize) -> (r: Option<ItemLocation>)
        requires
            self.wf(),
        ensures
            r == self.lookup(assumed_id),
    {
        if let Some(cached_data) = self.index_from_assumed_id_cache.get(&assumed_id) {
            return Some(*cached_data);
        }
        self.search(assumed_id)
    }

    /// Gives `vec_idx` one more assumed ID in the map `to_update`.
    fn record(to_update: &mut HashMap<usize, AssumedIdForIdx>, vec_idx: usize, assumed_id: usize)
        ensures
            final(to_update)@.dom() == old(to_update)@.dom().insert(vec_idx),
            forall|k: usize| k != vec_idx && #[trigger] old(to_update)@.contains_key(k)
                ==> final(to_update)@[k] == old(to_update)@[k],
            final(to_update)@[vec_idx].ids() == (if old(to_update)@.contains_key(vec_idx) {
                old(to_update)@[vec_idx].ids().push(assumed_id)
            } else {
                seq![assumed_id]
            }),
            (final(to_update)@[vec_idx] is Single <==> !old(to_update)@.contains_key(vec_idx)),
    {
        match to_update.remove(&vec_idx) {
            Some(mut entry) => {
                entry.append(assumed_id);
                to_update.insert(vec_idx, entry);
            },
            None => {
                to_update.insert(vec_idx, AssumedIdForIdx::Single(assumed_id));
            },
        }
    }

    /// Gives the next assumed ID of this space to position `vec_idx` of the
    /// item vector of `section`, and returns it.
    pub fn assign_assumed_id(&mut self, section: &ComponentSection, vec_idx: usize) -> (r: usize)
        requires
            old(self).wf(),
            old(self).counter() < usize::MAX,
        ensures
            IdxSpace::assign_step(*old(self), *final(self), *section, vec_idx, r),
            final(self).wf(),
    {
        let assumed_id = self.curr_id();
        self.next();
        let ghost mid = *self;
        match section {
            ComponentSection::ComponentImport => Self::record(&mut self.imports_assumed_ids, vec_idx, assumed_id),
            ComponentSection::ComponentExport => Self::record(&mut self.exports_assumed_ids, vec_idx, assumed_id),
            ComponentSection::Alias => Self::record(&mut self.alias_assumed_ids, vec_idx, assumed_id),
            ComponentSection::Component
            | ComponentSection::Module
            | ComponentSection::CoreType
            | ComponentSection::ComponentType
            | ComponentSection::CoreInstance
            | ComponentSection::ComponentInstance
            | ComponentSection::Canon
            | ComponentSection::CustomSection
            | ComponentSection::ComponentStartSection => Self::record(&mut self.main_assumed_ids, vec_idx, assumed_id),
        }
        proof {
            let sub = subtype_of_section(*section);
            assert forall|s: SpaceSubtype| s != sub implies #[trigger] self.id_map(s) == old(self).id_map(s) by {
                assert(mid.id_map(s) == old(self).id_map(s));
            }
            assert(mid.id_map(sub) == old(self).id_map(sub));
            assert(self.id_map(sub).dom() =~= old(self).id_map(sub).dom().insert(vec_idx));
            IdxSpace::lemma_assign_keeps_wf(*old(self), *self, *section, vec_idx, assumed_id);
        }
        assumed_id
    }

    /// An assumed ID handed out by [`IdxSpace::assign_assumed_id`] is found
    /// again, by [`IdxSpace::index_from_assumed_id`], at the position it was
    /// assigned for: in the item vector of its section, at `vec_idx`, and,
    /// when that position already held IDs, after all of them.
    pub proof fn lemma_assigned_id_is_found(
        before: IdxSpace,
        after: IdxSpace,
        section: ComponentSection,
        vec_idx: usize,
        id: usize,
    )
        requires
            before.wf(),
            IdxSpace::assign_step(before, after, section, vec_idx, id),
        ensures
            after.lookup(id) == Some(
                (
                    subtype_of_section(section),
                    vec_idx,
                    if before.id_map(subtype_of_section(section)).contains_key(vec_idx) {
                        Some(before.id_map(subtype_of_section(section))[vec_idx].ids().len() as usize)
                    } else {
                        None
                    },
                ),
            ),
    {
        let sub = subtype_of_section(section);
        IdxSpace::lemma_assign_keeps_wf(before, after, section, vec_idx, id);
        assert(!after.cache().contains_key(id));
        assert(after.holds(id, sub, vec_idx));
        let (s2, i2) = choose|s2: SpaceSubtype, i2: usize| #[trigger] after.holds(id, s2, i2);
        assert(after.holds(id, s2, i2));
        let m0 = before.id_map(sub);
        let e1 = after.id_map(sub)[vec_idx];
        if m0.contains_key(vec_idx) {
            let old_ids = m0[vec_idx].ids();
            assert(e1.ids() == old_ids.push(id));
            assert forall|j: int| 0 <= j < old_ids.len() implies e1.ids()[j] != id by {
                assert(old_ids.contains(old_ids[j]));
                assert(before.holds(old_ids[j], sub, vec_idx));
            }
            assert(is_first_pos(e1.ids(), id, old_ids.len() as int));
            lemma_first_pos_unique(e1.ids(), id, old_ids.len() as int);
            assert(e1.ids().contains(id));
        }
    }

    /// Assigning an ID moves no other item: every other assumed ID is still
    /// found in the same item vector at the same position, and IDs that were
    /// not given before are still not given.
    pub proof fn lemma_assign_keeps_other_places(
        before: IdxSpace,
        after: IdxSpace,
        section: ComponentSection,
        vec_idx: usize,
        id: usize,
        other: usize,
    )
        requires
            before.wf(),
            IdxSpace::assign_step(before, after, section, vec_idx, id),
            other != id,
        ensures
            after.is_assumed(other) == before.is_assumed(other),
            place_of(after.locate(other)) == place_of(before.locate(other)),
    {
        IdxSpace::lemma_assign_keeps_wf(before, after, section, vec_idx, id);
        if before.is_assumed(other) {
            let (s1, i1) = choose|s1: SpaceSubtype, i1: usize| #[trigger] before.holds(other, s1, i1);
            assert(before.holds(other, s1, i1));
            assert(after.holds(other, s1, i1));
            let (s2, i2) = choose|s2: SpaceSubtype, i2: usize| #[trigger] after.holds(other, s2, i2);
            assert(after.holds(other, s2, i2));
        }
        if after.is_assumed(other) {
            let (s2, i2) = choose|s2: SpaceSubtype, i2: usize| #[trigger] after.holds(other, s2, i2);
            assert(after.holds(other, s2, i2));
            assert(before.holds(other, s2, i2));
        }
    }

    pub proof fn lemma_assign_keeps_wf(
        before: IdxSpace,
        after: IdxSpace,
        section: ComponentSection,
        vec_idx: usize,
        id: usize,
    )
        requires
            before.wf(),
            IdxSpace::assign_step(before, after, section, vec_idx, id),
        ensures
            after.wf(),
            forall|x: usize, s: SpaceSubtype, i: usize| #[trigger] after.holds(x, s, i) <==> (
                before.holds(x, s, i) || (x == id && s == subtype_of_section(section) && i == vec_idx)),
    {
        let sub = subtype_of_section(section);
        assert forall|x: usize, s: SpaceSubtype, i: usize| #[trigger] after.holds(x, s, i) <==> (
            before.holds(x, s, i) || (x == id && s == sub && i == vec_idx)) by {
            if s == sub && i == vec_idx {
                let m0 = before.id_map(sub);
                if m0.contains_key(vec_idx) {
                    let old_ids = m0[vec_idx].ids();
                    let new_ids = old_ids.push(id);
                    if new_ids.contains(x) {
                        let k = choose|k: int| 0 <= k < new_ids.len() && new_ids[k] == x;
                        if k < old_ids.len() {
                            assert(old_ids[k] == x);
                        }
                    }
                    if old_ids.contains(x) {
                        let k = choose|k: int| 0 <= k < old_ids.len() && old_ids[k] == x;
                        assert(new_ids[k] == x);
                    }
                    assert(new_ids[old_ids.len() as int] == id);
                } else {
                    assert(seq![id][0] == id);
                }
            }
        }
        assert forall|x: usize| #[trigger] after.cache().contains_key(x) implies place_of(after.locate(x))
            == place_of(Some(after.cache()[x])) by {
            assert(before.cache().contains_key(x));
            assert(x != id);
            if before.is_assumed(x) {
                let (s1, i1) = choose|s1: SpaceSubtype, i1: usize| #[trigger] before.holds(x, s1, i1);
                assert(before.holds(x, s1, i1));
                assert(after.holds(x, s1, i1));
                let (s2, i2) = choose|s2: SpaceSubtype, i2: usize| #[trigger] after.holds(x, s2, i2);
                assert(after.holds(x, s2, i2));
                assert(before.holds(x, s2, i2));
            }
            if after.is_assumed(x) {
                let (s2, i2) = choose|s2: SpaceSubtype, i2: usize| #[trigger] after.holds(x, s2, i2);
                assert(after.holds(x, s2, i2));
                assert(before.holds(x, s2, i2));
            }
        }
    }
}

/// A run of assignments in one index space: `states[j + 1]` is
/// `states[j]` after [`IdxSpace::assign_assumed_id`] gave `ids[j]` to
/// position `idxs[j]` of the item vector of `secs[j]`.
pub open spec fn assign_run(states: Seq<IdxSpace>, secs: Seq<ComponentSection>, idxs: Seq<usize>, ids: Seq<usize>) -> bool {
    &&& states.len() == ids.len() + 1
    &&& secs.len() == ids.len()
    &&& idxs.len() == ids.len()
    &&& forall|j: int| 0 <= j < ids.len() ==> #[trigger] IdxSpace::assign_step(states[j], states[j + 1], secs[j], idxs[j], ids[j])
}

/// Assumed IDs are given in order: from a space with no IDs, a run of `k`
/// assignments hands out `0, 1, ..., k - 1`, the counter ends at `k`, and
/// every ID handed out is still held where it was put, by that position
/// alone.
pub proof fn law_assumed_ids_are_consecutive(
    states: Seq<IdxSpace>,
    secs: Seq<ComponentSection>,
    idxs: Seq<usize>,
    ids: Seq<usize>,
)
    requires
        assign_run(states, secs, idxs, ids),
        states[0].is_fresh(),
        states[0].wf(),
    ensures
        forall|j: int| 0 <= j < ids.len() ==> #[trigger] ids[j] == j,
        states.last().counter() == ids.len(),
        states.last().wf(),
        forall|j: int| 0 <= j < ids.len() ==> states.last().holds(#[trigger] ids[j], subtype_of_section(secs[j]), idxs[j]),
    decreases ids.len(),
{
    let k = ids.len() as int;
    if k > 0 {
        let st = states.drop_last();
        assert(assign_run(st, secs.drop_last(), idxs.drop_last(), ids.drop_last())) by {
            assert forall|j: int| 0 <= j < k - 1 implies #[trigger] IdxSpace::assign_step(
                st[j],
                st[j + 1],
                secs.drop_last()[j],
                idxs.drop_last()[j],
                ids.drop_last()[j],
            ) by {
                assert(IdxSpace::assign_step(states[j], states[j + 1], secs[j], idxs[j], ids[j]));
            }
        }
        law_assumed_ids_are_consecutive(st, secs.drop_last(), idxs.drop_last(), ids.drop_last());
        let before = states[k - 1];
        let after = states[k];
        assert(IdxSpace::assign_step(before, after, secs[k - 1], idxs[k - 1], ids[k - 1]));
        assert(st.last() == before);
        IdxSpace::lemma_assign_keeps_wf(before, after, secs[k - 1], idxs[k - 1], ids[k - 1]);
        assert forall|j: int| 0 <= j < k implies after.holds(#[trigger] ids[j], subtype_of_section(secs[j]), idxs[j]) by {
            if j < k - 1 {
                assert(ids.drop_last()[j] == ids[j]);
                assert(before.holds(ids.drop_last()[j], subtype_of_section(secs.drop_last()[j]), idxs.drop_last()[j]));
            }
        }
        assert forall|j: int| 0 <= j < k implies #[trigger] ids[j] == j by {
            if j < k - 1 {
                assert(ids.drop_last()[j] == ids[j]);
            }
        }
    }
}

/// The item vector and position of a location, leaving out the position
/// among several IDs.
pub open spec fn place_of(loc: Option<ItemLocation>) -> Option<(SpaceSubtype, usize)> {
    match loc {
        Some((sub, idx, _)) => Some((sub, idx)),
        None => None,
    }
}

/// Counts the entries of `s` equal to `sp`.
pub open spec fn count_space(s: Seq<Space>, sp: Space) -> nat
    decreases s.len(),
{
    if s.len() == 0 {
        0
    } else {
        count_space(s.drop_last(), sp) + if s.last() == sp { 1nat } else { 0nat }
    }
}

/// A node of the IR that takes a place in an index space.
pub trait IndexSpaceOf {
    /// The index space the node takes a place in.
    spec fn space_of(&self) -> Space;

    /// The index space the node takes a place in.
    fn index_space_of(&self) -> (r: Space)
        ensures
            r == self.space_of(),
    ;
}

/// All index spaces visible at one lexical level of a component (a
/// component, a component type or an instance type).
#[derive(Clone, Debug)]
pub struct IndexScope {
    pub id: ScopeId,
    // Component-level spaces
    pub comp: IdxSpace,
    pub comp_func: IdxSpace,
    pub comp_val: IdxSpace,
    pub comp_type: IdxSpace,
    pub comp_inst: IdxSpace,
    // Core spaces added by the component model
    pub core_inst: IdxSpace,
    pub module: IdxSpace,
    // Core spaces that exist at the component level
    pub core_type: IdxSpace,
    pub core_func: IdxSpace,
    pub core_memory: IdxSpace,
    pub core_table: IdxSpace,
    pub core_global: IdxSpace,
    pub core_tag: IdxSpace,
}

impl IndexScope {
    /// The index space `sp` of this scope (`NA` has none; it is given the
    /// component space here only to make this total).
    pub open spec fn space(self, sp: Space) -> IdxSpace {
        match sp {
            Space::Comp => self.comp,
            Space::CompFunc => self.comp_func,
            Space::CompVal => self.comp_val,
            Space::CompType => self.comp_type,
            Space::CompInst => self.comp_inst,
            Space::CoreInst => self.core_inst,
            Space::CoreModule => self.module,
            Space::CoreType => self.core_type,
            Space::CoreFunc => self.core_func,
            Space::CoreMemory => self.core_memory,
            Space::CoreTable => self.core_table,
            Space::CoreGlobal => self.core_global,
            Space::CoreTag => self.core_tag,
            Space::NA => self.comp,
        }
    }

    /// This scope with index space `sp` replaced by `s`.
    pub open spec fn with_space(self, sp: Space, s: IdxSpace) -> IndexScope {
        IndexScope {
            id: self.id,
            comp: if sp == Space::Comp { s } else { self.comp },
            comp_func: if sp == Space::CompFunc { s } else { self.comp_func },
            comp_val: if sp == Space::CompVal { s } else { self.comp_val },
            comp_type: if sp == Space::CompType { s } else { self.comp_type },
            comp_inst: if sp == Space::CompInst { s } else { self.comp_inst },
            core_inst: if sp == Space::CoreInst { s } else { self.core_inst },
            module: if sp == Space::CoreModule { s } else { self.module },
            core_type: if sp == Space::CoreType { s } else { self.core_type },
            core_func: if sp == Space::CoreFunc { s } else { self.core_func },
            core_memory: if sp == Space::CoreMemory { s } else { self.core_memory },
            core_table: if sp == Space::CoreTable { s } else { self.core_table },
            core_global: if sp == Space::CoreGlobal { s } else { self.core_global },
            core_tag: if sp == Space::CoreTag { s } else { self.core_tag },
        }
    }

    proof fn lemma_with_space(self, sp: Space, s: IdxSpace)
        requires
            sp != Space::NA,
        ensures
            self.with_space(sp, s).space(sp) == s,
            self.with_space(sp, s).id == self.id,
            forall|o: Space| o != sp && o != Space::NA ==> #[trigger] self.with_space(sp, s).space(o) == self.space(o),
    {
        match sp {
            Space::Comp => {},
            Space::CompFunc => {},
            Space::CompVal => {},
            Space::CompType => {},
            Space::CompInst => {},
            Space::CoreInst => {},
            Space::CoreModule => {},
            Space::CoreType => {},
            Space::CoreFunc => {},
            Space::CoreMemory => {},
            Space::CoreTable => {},
            Space::CoreGlobal => {},
            Space::CoreTag => {},
            Space::NA => {},
        }
        assert forall|o: Space| o != sp && o != Space::NA implies #[trigger] self.with_space(sp, s).space(o) == self.space(o) by {
            match o {
                Space::Comp => {},
                Space::CompFunc => {},
                Space::CompVal => {},
                Space::CompType => {},
                Space::CompInst => {},
                Space::CoreInst => {},
                Space::CoreModule => {},
                Space::CoreType => {},
                Space::CoreFunc => {},
                Space::CoreMemory => {},
                Space::CoreTable => {},
                Space::CoreGlobal => {},
                Space::CoreTag => {},
                Space::NA => {},
            }
        }
    }

    /// Every index space of the scope is well formed.
    pub open spec fn wf(self) -> bool {
        forall|sp: Space| sp != Space::NA ==> #[trigger] self.space(sp).wf()
    }

    /// A scope with identity `id` in which no ID has been given.
    pub open spec fn is_fresh_scope(self, id: ScopeId) -> bool {
        &&& self.id == id
        &&& forall|sp: Space| #[trigger] self.space(sp).is_fresh()
    }

    /// A new scope with identity `id` and empty index spaces.
    pub fn new(id: ScopeId) -> (r: Self)
        ensures
            r.is_fresh_scope(id),
            r.wf(),
    {
        let r = Self {
            id,
            comp: IdxSpace::new(),
            comp_func: IdxSpace::new(),
            comp_val: IdxSpace::new(),
            comp_type: IdxSpace::new(),
            comp_inst: IdxSpace::new(),
            core_inst: IdxSpace::new(),
            module: IdxSpace::new(),
            core_type: IdxSpace::new(),
            core_func: IdxSpace::new(),
            core_memory: IdxSpace::new(),
            core_table: IdxSpace::new(),
            core_global: IdxSpace::new(),
            core_tag: IdxSpace::new(),
        };
        assert forall|sp: Space| #[trigger] r.space(sp).is_fresh() by {}
        assert forall|sp: Space| sp != Space::NA implies #[trigger] r.space(sp).wf() by {}
        r
    }

    /// The index space `space`, to be changed; none for `NA`.
    pub fn get_space_mut(&mut self, space: &Space) -> (r: Option<&mut IdxSpace>)
        ensures
            (r is None) <==> *space == Space::NA,
            r is None ==> *final(self) == *old(self),
            r is Some ==> *r->0 == old(self).space(*space) && *final(self) == old(self).with_space(
                *space,
                *final(r->0),
            ),
    {
        match space {
            Space::Comp => Some(&mut self.comp),
            Space::CompFunc => Some(&mut self.comp_func),
            Space::CompVal => Some(&mut self.comp_val),
            Space::CompType => Some(&mut self.comp_type),
            Space::CompInst => Some(&mut self.comp_inst),
            Space::CoreInst => Some(&mut self.core_inst),
            Space::CoreModule => Some(&mut self.module),
            Space::CoreType => Some(&mut self.core_type),
            Space::CoreFunc => Some(&mut self.core_func),
            Space::CoreMemory => Some(&mut self.core_memory),
            Space::CoreTable => Some(&mut self.core_table),
            Space::CoreGlobal => Some(&mut self.core_global),
            Space::CoreTag => Some(&mut self.core_tag),
            Space::NA => None,
        }
    }

    /// The index space `space`; none for `NA`.
    pub fn get_space(&self, space: &Space) -> (r: Option<&IdxSpace>)
        ensures
            (r is None) <==> *space == Space::NA,
            r is Some ==> *r->0 == self.space(*space),
    {
        match space {
            Space::Comp => Some(&self.comp),
            Space::CompFunc => Some(&self.comp_func),
            Space::CompVal => Some(&self.comp_val),
            Space::CompType => Some(&self.comp_type),
            Space::CompInst => Some(&self.comp_inst),
            Space::CoreInst => Some(&self.core_inst),
            Space::CoreModule => Some(&self.module),
            Space::CoreType => Some(&self.core_type),
            Space::CoreFunc => Some(&self.core_func),
            Space::CoreMemory => Some(&self.core_memory),
            Space::CoreTable => Some(&self.core_table),
            Space::CoreGlobal => Some(&self.core_global),
            Space::CoreTag => Some(&self.core_tag),
            Space::NA => None,
        }
    }

    /// Gives the next assumed ID of index space `space` to position
    /// `curr_idx` of the item vector of `section`; nothing for `NA`.
    pub fn assign_assumed_id(
        &mut self,
        space: &Space,
        section: &ComponentSection,
        curr_idx: usize,
    ) -> (r: Option<usize>)
        requires
            old(self).wf(),
            *space != Space::NA ==> old(self).space(*space).counter() < usize::MAX,
        ensures
            final(self).wf(),
            final(self).id == old(self).id,
            *space == Space::NA ==> r is None && *final(self) == *old(self),
            *space != Space::NA ==> {
                &&& r is Some
                &&& IdxSpace::assign_step(
                    old(self).space(*space),
                    final(self).space(*space),
                    *section,
                    curr_idx,
                    r.unwrap(),
                )
                &&& forall|o: Space| o != *space && o != Space::NA ==> #[trigger] final(self).space(o) == old(self).space(o)
            },
    {
        let ghost sp = *space;
        match self.get_space_mut(space) {
            Some(s) => {
                let id = s.assign_assumed_id(section, curr_idx);
                proof {
                    old(self).lemma_with_space(sp, *s);
                }
                Some(id)
            },
            None => None,
        }
    }

    /// Scope `cur` is `start` after the first `i` items (with index spaces
    /// `spaces`, for positions `curr_idx..` of the item vectors of
    /// `sections`) were given assumed IDs in order.
    pub open spec fn assigned_run(
        start: IndexScope,
        cur: IndexScope,
        spaces: Seq<Space>,
        sections: Seq<ComponentSection>,
        curr_idx: int,
        i: int,
    ) -> bool {
        &&& cur.wf()
        &&& cur.id == start.id
        &&& forall|sp: Space| sp != Space::NA ==> #[trigger] cur.space(sp).counter()
            == start.space(sp).counter() + count_space(spaces.take(i), sp)
        &&& forall|j: int| 0 <= j < i && #[trigger] spaces[j] != Space::NA
            ==> cur.space(spaces[j]).holds(
            (start.space(spaces[j]).counter() + count_space(spaces.take(j), spaces[j])) as usize,
            subtype_of_section(sections[j]),
            (curr_idx + j) as usize,
        )
        &&& forall|sp: Space, id: usize| sp != Space::NA && #[trigger] cur.space(sp).is_assumed(id)
            ==> start.space(sp).is_assumed(id) || start.space(sp).counter() <= id
        &&& forall|sp: Space, id: usize, sub: SpaceSubtype, idx: usize| sp != Space::NA
            && #[trigger] start.space(sp).holds(id, sub, idx) ==> cur.space(sp).holds(id, sub, idx)
        &&& forall|sp: Space, sub: SpaceSubtype, k: usize| sp != Space::NA
            && #[trigger] cur.space(sp).id_map(sub).contains_key(k)
            ==> start.space(sp).id_map(sub).contains_key(k) || (curr_idx <= k < curr_idx + i
                && spaces[k - curr_idx] == sp && subtype_of_section(sections[k - curr_idx]) == sub)
        &&& forall|sp: Space| sp != Space::NA ==> #[trigger] cur.space(sp).cache() == start.space(sp).cache()
    }

    /// The facts about one step of a run that the lemmas below share.
    pub open spec fn run_step(
        start: IndexScope,
        before: IndexScope,
        after: IndexScope,
        spaces: Seq<Space>,
        sections: Seq<ComponentSection>,
        curr_idx: int,
        i: int,
    ) -> bool {
        &&& 0 <= i < spaces.len()
        &&& spaces.len() == sections.len()
        &&& 0 <= curr_idx
        &&& curr_idx + spaces.len() <= usize::MAX
        &&& IndexScope::assigned_run(start, before, spaces, sections, curr_idx, i)
        &&& after.wf()
        &&& after.id == before.id
        &&& spaces[i] == Space::NA ==> after == before
        &&& spaces[i] != Space::NA ==> {
            &&& IdxSpace::assign_step(
                before.space(spaces[i]),
                after.space(spaces[i]),
                sections[i],
                (curr_idx + i) as usize,
                before.space(spaces[i]).counter(),
            )
            &&& forall|o: Space| o != spaces[i] && o != Space::NA ==> #[trigger] after.space(o) == before.space(o)
        }
    }

    #[verifier::spinoff_prover]
    proof fn lemma_run_step_counters(
        start: IndexScope,
        before: IndexScope,
        after: IndexScope,
        spaces: Seq<Space>,
        sections: Seq<ComponentSection>,
        curr_idx: int,
        i: int,
    )
        requires
            IndexScope::run_step(start, before, after, spaces, sections, curr_idx, i),
        ensures
            forall|sp: Space| sp != Space::NA ==> #[trigger] after.space(sp).counter()
                == start.space(sp).counter() + count_space(spaces.take(i + 1), sp),
    {
        let sp = spaces[i];
        assert(spaces.take(i + 1).drop_last() =~= spaces.take(i));
        assert(spaces.take(i + 1).last() == sp);
        assert forall|o: Space| o != Space::NA implies #[trigger] after.space(o).counter()
            == start.space(o).counter() + count_space(spaces.take(i + 1), o) by {
            if o != sp && sp != Space::NA {
                assert(after.space(o) == before.space(o));
            }
        }
    }

    #[verifier::spinoff_prover]
    proof fn lemma_run_step_holds(
        start: IndexScope,
        before: IndexScope,
        after: IndexScope,
        spaces: Seq<Space>,
        sections: Seq<ComponentSection>,
        curr_idx: int,
        i: int,
    )
        requires
            IndexScope::run_step(start, before, after, spaces, sections, curr_idx, i),
        ensures
            forall|j: int| 0 <= j < i + 1 && #[trigger] spaces[j] != Space::NA
                ==> after.space(spaces[j]).holds(
                (start.space(spaces[j]).counter() + count_space(spaces.take(j), spaces[j])) as usize,
                subtype_of_section(sections[j]),
                (curr_idx + j) as usize,
            ),
    {
        let sp = spaces[i];
        if sp != Space::NA {
            let id = before.space(sp).counter();
            IdxSpace::lemma_assign_keeps_wf(
                before.space(sp),
                after.space(sp),
                sections[i],
                (curr_idx + i) as usize,
                id,
            );
        }
        assert forall|j: int| 0 <= j < i + 1 && #[trigger] spaces[j] != Space::NA
            implies after.space(spaces[j]).holds(
            (start.space(spaces[j]).counter() + count_space(spaces.take(j), spaces[j])) as usize,
            subtype_of_section(sections[j]),
            (curr_idx + j) as usize,
        ) by {
            if j < i && spaces[j] != sp {
                assert(after.space(spaces[j]) == before.space(spaces[j]));
            }
        }
    }

    #[verifier::spinoff_prover]
    proof fn lemma_run_step_assumed(
        start: IndexScope,
        before: IndexScope,
        after: IndexScope,
        spaces: Seq<Space>,
        sections: Seq<ComponentSection>,
        curr_idx: int,
        i: int,
    )
        requires
            IndexScope::run_step(start, before, after, spaces, sections, curr_idx, i),
        ensures
            forall|sp: Space, id: usize| sp != Space::NA && #[trigger] after.space(sp).is_assumed(id)
                ==> start.space(sp).is_assumed(id) || start.space(sp).counter() <= id,
    {
        let sp = spaces[i];
        if sp != Space::NA {
            let id = before.space(sp).counter();
            IdxSpace::lemma_assign_keeps_wf(
                before.space(sp),
                after.space(sp),
                sections[i],
                (curr_idx + i) as usize,
                id,
            );
            assert forall|o: Space, x: usize| o != Space::NA && #[trigger] after.space(o).is_assumed(x)
                implies start.space(o).is_assumed(x) || start.space(o).counter() <= x by {
                if o == sp {
                    let (s2, i2) = choose|s2: SpaceSubtype, i2: usize| #[trigger] after.space(o).holds(x, s2, i2);
                    assert(after.space(o).holds(x, s2, i2));
                    if x != id {
                        assert(before.space(o).holds(x, s2, i2));
                        assert(before.space(o).is_assumed(x));
                    }
                } else {
                    assert(after.space(o) == before.space(o));
                }
            }
        }
    }

    #[verifier::spinoff_prover]
    proof fn lemma_run_step_keeps(
        start: IndexScope,
        before: IndexScope,
        after: IndexScope,
        spaces: Seq<Space>,
        sections: Seq<ComponentSection>,
        curr_idx: int,
        i: int,
    )
        requires
            IndexScope::run_step(start, before, after, spaces, sections, curr_idx, i),
        ensures
            forall|sp: Space, id: usize, sub: SpaceSubtype, idx: usize| sp != Space::NA
                && #[trigger] start.space(sp).holds(id, sub, idx) ==> after.space(sp).holds(id, sub, idx),
    {
        let s0 = spaces[i];
        if s0 != Space::NA {
            let id0 = before.space(s0).counter();
            IdxSpace::lemma_assign_keeps_wf(
                before.space(s0),
                after.space(s0),
                sections[i],
                (curr_idx + i) as usize,
                id0,
            );
        }
        assert forall|sp: Space, id: usize, sub: SpaceSubtype, idx: usize| sp != Space::NA
            && #[trigger] start.space(sp).holds(id, sub, idx) implies after.space(sp).holds(id, sub, idx) by {
            assert(before.space(sp).holds(id, sub, idx));
            if sp != s0 {
                assert(after.space(sp) == before.space(sp));
            }
        }
    }

    #[verifier::spinoff_prover]
    proof fn lemma_run_step_dom(
        start: IndexScope,
        before: IndexScope,
        after: IndexScope,
        spaces: Seq<Space>,
        sections: Seq<ComponentSection>,
        curr_idx: int,
        i: int,
    )
        requires
            IndexScope::run_step(start, before, after, spaces, sections, curr_idx, i),
        ensures
            forall|sp: Space, sub: SpaceSubtype, k: usize| sp != Space::NA
                && #[trigger] after.space(sp).id_map(sub).contains_key(k)
                ==> start.space(sp).id_map(sub).contains_key(k) || (curr_idx <= k < curr_idx + i + 1
                    && spaces[k - curr_idx] == sp && subtype_of_section(sections[k - curr_idx]) == sub),
            forall|sp: Space| sp != Space::NA ==> #[trigger] after.space(sp).cache() == start.space(sp).cache(),
    {
        let s0 = spaces[i];
        assert forall|sp: Space, sub: SpaceSubtype, k: usize| sp != Space::NA
            && #[trigger] after.space(sp).id_map(sub).contains_key(k)
            implies start.space(sp).id_map(sub).contains_key(k) || (curr_idx <= k < curr_idx + i + 1
                && spaces[k - curr_idx] == sp && subtype_of_section(sections[k - curr_idx]) == sub) by {
            if sp == s0 && s0 != Space::NA {
                let sub0 = subtype_of_section(sections[i]);
                if sub == sub0 {
                    if k != curr_idx + i {
                        assert(before.space(sp).id_map(sub).contains_key(k));
                    }
                } else {
                    assert(after.space(sp).id_map(sub) == before.space(sp).id_map(sub));
                }
            } else {
                assert(after.space(sp) == before.space(sp));
            }
        }
        assert forall|sp: Space| sp != Space::NA implies #[trigger] after.space(sp).cache() == start.space(sp).cache() by {
            if sp != s0 || s0 == Space::NA {
                assert(after.space(sp) == before.space(sp));
            }
        }
    }

    proof fn lemma_assigned_run_step(
        start: IndexScope,
        before: IndexScope,
        after: IndexScope,
        spaces: Seq<Space>,
        sections: Seq<ComponentSection>,
        curr_idx: int,
        i: int,
    )
        requires
            IndexScope::run_step(start, before, after, spaces, sections, curr_idx, i),
        ensures
            IndexScope::assigned_run(start, after, spaces, sections, curr_idx, i + 1),
    {
        IndexScope::lemma_run_step_counters(start, before, after, spaces, sections, curr_idx, i);
        IndexScope::lemma_run_step_holds(start, before, after, spaces, sections, curr_idx, i);
        IndexScope::lemma_run_step_assumed(start, before, after, spaces, sections, curr_idx, i);
        IndexScope::lemma_run_step_keeps(start, before, after, spaces, sections, curr_idx, i);
        IndexScope::lemma_run_step_dom(start, before, after, spaces, sections, curr_idx, i);
    }

    /// Gives assumed IDs to a run of items, in order: item `i` takes a
    /// place in its index space for position `curr_idx + i` of the item
    /// vector of `sections[i]`.
    pub fn assign_assumed_id_for<I: IndexSpaceOf>(
        &mut self,
        items: &[I],
        curr_idx: usize,
        sections: &Vec<ComponentSection>,
    )
        requires
            old(self).wf(),
            items@.len() == sections@.len(),
            curr_idx + items@.len() <= usize::MAX,
            forall|sp: Space| #[trigger] old(self).space(sp).counter() + items@.len() < usize::MAX,
        ensures
            IndexScope::assigned_run(
                *old(self),
                *final(self),
                items@.map_values(|it: I| it.space_of()),
                sections@,
                curr_idx as int,
                items@.len() as int,
            ),
    {
        let n = items.len();
        let ghost spaces = items@.map_values(|it: I| it.space_of());
        for i in 0..n
            invariant
                n == items@.len(),
                n == sections@.len(),
                spaces == items@.map_values(|it: I| it.space_of()),
                curr_idx + n <= usize::MAX,
                forall|sp: Space| #[trigger] old(self).space(sp).counter() + n < usize::MAX,
                IndexScope::assigned_run(*old(self), *self, spaces, sections@, curr_idx as int, i as int),
        {
            let ghost before = *self;
            let sp = items[i].index_space_of();
            proof {
                lemma_count_space_take_bound(spaces, i as int, sp);
                assert(spaces[i as int] == sp);
            }
            self.assign_assumed_id(&sp, &sections[i], curr_idx + i);
            proof {
                IndexScope::lemma_assigned_run_step(*old(self), before, *self, spaces, sections@, curr_idx as int, i as int);
            }
        }
    }

    /// As [`IndexScope::assign_assumed_id_for`], for boxed items.
    pub fn assign_assumed_id_for_boxed<I: IndexSpaceOf>(
        &mut self,
        items: &[Box<I>],
        curr_idx: usize,
        sections: &Vec<ComponentSection>,
    )
        requires
            old(self).wf(),
            items@.len() == sections@.len(),
            curr_idx + items@.len() <= usize::MAX,
            forall|sp: Space| #[trigger] old(self).space(sp).counter() + items@.len() < usize::MAX,
        ensures
            IndexScope::assigned_run(
                *old(self),
                *final(self),
                items@.map_values(|it: Box<I>| (*it).space_of()),
                sections@,
                curr_idx as int,
                items@.len() as int,
            ),
    {
        let n = items.len();
        let ghost spaces = items@.map_values(|it: Box<I>| (*it).space_of());
        for i in 0..n
            invariant
                n == items@.len(),
                n == sections@.len(),
                spaces == items@.map_values(|it: Box<I>| (*it).space_of()),
                curr_idx + n <= usize::MAX,
                forall|sp: Space| #[trigger] old(self).space(sp).counter() + n < usize::MAX,
                IndexScope::assigned_run(*old(self), *self, spaces, sections@, curr_idx as int, i as int),
        {
            let ghost before = *self;
            let sp = items[i].index_space_of();
            proof {
                lemma_count_space_take_bound(spaces, i as int, sp);
                assert(spaces[i as int] == sp);
            }
            self.assign_assumed_id(&sp, &sections[i], curr_idx + i);
            proof {
                IndexScope::lemma_assigned_run_step(*old(self), before, *self, spaces, sections@, curr_idx as int, i as int);
            }
        }
    }

    /// The single assumed ID of position `vec_idx` of the item vector of
    /// `section` in index space `space`.
    pub fn lookup_assumed_id(&self, space: &Space, section: &ComponentSection, vec_idx: usize) -> (r: usize)
        requires
            *space != Space::NA,
            self.space(*space).id_map(subtype_of_section(*section)).contains_key(vec_idx),
            self.space(*space).id_map(subtype_of_section(*section))[vec_idx] is Single,
        ensures
            r == self.space(*space).id_map(subtype_of_section(*section))[vec_idx]->Single_0,
    {
        match self.get_space(space) {
            Some(s) => match s.lookup_assumed_id(section, vec_idx) {
                Some(id) => id,
                None => {
                    proof {
                        assert(false);
                    }
                    0
                },
            },
            None => {
                proof {
                    assert(false);
                }
                0
            },
        }
    }

    /// The assumed ID at position `subvec_idx` among those of position
    /// `vec_idx` of the item vector of `section` in index space `space`.
    pub fn lookup_assumed_id_with_subvec(
        &self,
        space: &Space,
        section: &ComponentSection,
        vec_idx: usize,
        subvec_idx: usize,
    ) -> (r: usize)
        requires
            *space != Space::NA,
            self.space(*space).id_map(subtype_of_section(*section)).contains_key(vec_idx),
            subvec_idx < self.space(*space).id_map(subtype_of_section(*section))[vec_idx].ids().len(),
        ensures
            r == self.space(*space).id_map(subtype_of_section(*section))[vec_idx].ids()[subvec_idx as int],
    {
        match self.get_space(space) {
            Some(s) => match s.lookup_assumed_id_with_subvec(section, vec_idx, subvec_idx) {
                Some(id) => id,
                None => {
                    proof {
                        assert(false);
                    }
                    0
                },
            },
            None => {
                proof {
                    assert(false);
                }
                0
            },
        }
    }

    /// Where the item that `r` refers to lives (its index taken as an
    /// assumed ID of its index space); the answer is cached.
    pub fn index_from_assumed_id(&mut self, r: &IndexedRef) -> (res: ItemLocation)
        requires
            old(self).wf(),
            r.space != Space::NA,
            old(self).space(r.space).lookup(r.index as usize) is Some,
        ensures
            res == old(self).space(r.space).lookup(r.index as usize).unwrap(),
            final(self).wf(),
            final(self).id == old(self).id,
            forall|o: Space| o != r.space && o != Space::NA ==> #[trigger] final(self).space(o) == old(self).space(o),
            final(self).space(r.space).counter() == old(self).space(r.space).counter(),
            forall|sub: SpaceSubtype| #[trigger] final(self).space(r.space).id_map(sub) == old(self).space(r.space).id_map(sub),
            final(self).space(r.space).lookup(r.index as usize) == Some(res),
            final(self).space(r.space).cache() == (if old(self).space(r.space).cache().contains_key(r.index as usize) {
                old(self).space(r.space).cache()
            } else {
                old(self).space(r.space).cache().insert(r.index as usize, res)
            }),
            old(self).space(r.space).holds(r.index as usize, res.0, res.1),
    {
        proof {
            old(self).space(r.space).lemma_lookup_holds(r.index as usize);
        }
        let ghost sp = r.space;
        match self.get_space_mut(&r.space) {
            Some(space) => {
                let found = space.index_from_assumed_id(r.index as usize);
                proof {
                    old(self).lemma_with_space(sp, *space);
                }
                match found {
                    Some(loc) => loc,
                    None => {
                        proof {
                            assert(false);
                        }
                        (SpaceSubtype::Main, 0, None)
                    },
                }
            },
            None => {
                proof {
                    assert(false);
                }
                (SpaceSubtype::Main, 0, None)
            },
        }
    }

    /// Where the item that `r` refers to lives, without caching the answer.
    pub fn index_from_assumed_id_no_cache(&self, r: &IndexedRef) -> (res: ItemLocation)
        requires
            self.wf(),
            r.space != Space::NA,
            self.space(r.space).lookup(r.index as usize) is Some,
        ensures
            res == self.space(r.space).lookup(r.index as usize).unwrap(),
    {
        match self.get_space(&r.space) {
            Some(space) => match space.index_from_assumed_id_no_cache(r.index as usize) {
                Some(loc) => loc,
                None => {
                    proof {
                        assert(false);
                    }
                    (SpaceSubtype::Main, 0, None)
                },
            },
            None => {
                proof {
                    assert(false);
                }
                (SpaceSubtype::Main, 0, None)
            },
        }
    }
}

/// At most `i` of the first `i` entries are `sp`.
pub proof fn lemma_count_space_take_bound(s: Seq<Space>, i: int, sp: Space)
    requires
        0 <= i <= s.len(),
    ensures
        count_space(s.take(i), sp) <= i,
    decreases i,
{
    if i > 0 {
        assert(s.take(i).drop_last() =~= s.take(i - 1));
        lemma_count_space_take_bound(s, i - 1, sp);
    }
}


/// All index scopes of a component tree, by identity.
#[derive(Debug)]
pub struct IndexStore {
    pub scopes: HashMap<ScopeId, IndexScope>,
    next_id: usize,
}

impl IndexStore {
    /// The scopes, by identity.
    pub closed spec fn scope_map(self) -> Map<ScopeId, IndexScope> {
        self.scopes@
    }

    /// The identity the next new scope will be given.
    pub closed spec fn next_scope_id(self) -> usize {
        self.next_id
    }

    /// Well-formedness: each scope is stored under its own identity, is well
    /// formed, and its identity is below the next one to give.
    pub open spec fn wf(self) -> bool {
        forall|id: ScopeId| #[trigger] self.scope_map().contains_key(id) ==> {
            &&& self.scope_map()[id].wf()
            &&& self.scope_map()[id].id == id
            &&& id < self.next_scope_id()
        }
    }

    /// A store without scopes.
    pub fn new() -> (r: Self)
        ensures
            r.scope_map() == Map::<ScopeId, IndexScope>::empty(),
            r.next_scope_id() == 0,
            r.wf(),
    {
        IndexStore { scopes: HashMap::new(), next_id: 0 }
    }

    /// Creates a new, empty scope and returns its identity.
    pub fn new_scope(&mut self) -> (r: ScopeId)
        requires
            old(self).wf(),
            old(self).next_scope_id() < usize::MAX,
        ensures
            r == old(self).next_scope_id(),
            !old(self).scope_map().contains_key(r),
            final(self).next_scope_id() == old(self).next_scope_id() + 1,
            final(self).scope_map().dom() == old(self).scope_map().dom().insert(r),
            forall|k: ScopeId| k != r && #[trigger] old(self).scope_map().contains_key(k)
                ==> final(self).scope_map()[k] == old(self).scope_map()[k],
            final(self).scope_map()[r].is_fresh_scope(r),
            final(self).wf(),
    {
        let id = self.use_next_id();
        self.scopes.insert(id, IndexScope::new(id));
        id
    }

    /// Uses up the next scope identity.
    fn use_next_id(&mut self) -> (r: ScopeId)
        requires
            old(self).next_scope_id() < usize::MAX,
        ensures
            r == old(self).next_scope_id(),
            final(self).next_scope_id() == old(self).next_scope_id() + 1,
            final(self).scope_map() == old(self).scope_map(),
    {
        let next = self.next_id;
        self.next_id += 1;
        next
    }

    /// The scope with identity `id`.
    pub fn get(&self, id: &ScopeId) -> (r: &IndexScope)
        requires
            self.scope_map().contains_key(*id),
        ensures
            *r == self.scope_map()[*id],
    {
        self.scopes.get(id).unwrap()
    }

    /// Where the item that `r` refers to lives, looked up in scope `id`,
    /// without caching the answer.
    pub fn index_from_assumed_id_no_cache(&self, id: &ScopeId, r: &IndexedRef) -> (res: ItemLocation)
        requires
            self.wf(),
            self.scope_map().contains_key(*id),
            r.space != Space::NA,
            self.scope_map()[*id].space(r.space).lookup(r.index as usize) is Some,
        ensures
            res == self.scope_map()[*id].space(r.space).lookup(r.index as usize).unwrap(),
    {
        self.get(id).index_from_assumed_id_no_cache(r)
    }

    /// Takes scope `id` out of the store to change it.
    fn take(&mut self, id: &ScopeId) -> (r: IndexScope)
        requires
            old(self).scope_map().contains_key(*id),
        ensures
            r == old(self).scope_map()[*id],
            final(self).scope_map() == old(self).scope_map().remove(*id),
            final(self).next_scope_id() == old(self).next_scope_id(),
    {
        self.scopes.remove(id).unwrap()
    }

    /// Where the item that `r` refers to lives, looked up in scope `id`;
    /// the answer is cached in that scope.
    pub fn index_from_assumed_id(&mut self, id: &ScopeId, r: &IndexedRef) -> (res: ItemLocation)
        requires
            old(self).wf(),
            old(self).scope_map().contains_key(*id),
            r.space != Space::NA,
            old(self).scope_map()[*id].space(r.space).lookup(r.index as usize) is Some,
        ensures
            res == old(self).scope_map()[*id].space(r.space).lookup(r.index as usize).unwrap(),
            final(self).wf(),
            final(self).next_scope_id() == old(self).next_scope_id(),
            final(self).scope_map().dom() == old(self).scope_map().dom(),
            forall|k: ScopeId| k != *id && #[trigger] old(self).scope_map().contains_key(k)
                ==> final(self).scope_map()[k] == old(self).scope_map()[k],
            forall|o: Space| o != Space::NA ==> #[trigger] final(self).scope_map()[*id].space(o).id_map(
                SpaceSubtype::Main,
            ) == old(self).scope_map()[*id].space(o).id_map(SpaceSubtype::Main),
            final(self).scope_map()[*id].id == old(self).scope_map()[*id].id,
            forall|o: Space| o != r.space && o != Space::NA ==> #[trigger] final(self).scope_map()[*id].space(o)
                == old(self).scope_map()[*id].space(o),
            final(self).scope_map()[*id].space(r.space).counter() == old(self).scope_map()[*id].space(r.space).counter(),
            forall|sub: SpaceSubtype| #[trigger] final(self).scope_map()[*id].space(r.space).id_map(sub)
                == old(self).scope_map()[*id].space(r.space).id_map(sub),
            final(self).scope_map()[*id].space(r.space).cache() == (if old(self).scope_map()[*id].space(
                r.space,
            ).cache().contains_key(r.index as usize) {
                old(self).scope_map()[*id].space(r.space).cache()
            } else {
                old(self).scope_map()[*id].space(r.space).cache().insert(r.index as usize, res)
            }),
            old(self).scope_map()[*id].space(r.space).holds(r.index as usize, res.0, res.1),
    {
        let mut scope = self.take(id);
        let res = scope.index_from_assumed_id(r);
        self.scopes.insert(*id, scope);
        proof {
            assert(self.scope_map().dom() =~= old(self).scope_map().dom());
        }
        res
    }

    /// Gives the next assumed ID of index space `space` of scope `id` to
    /// position `curr_idx` of the item vector of `section`.
    pub fn assign_assumed_id(
        &mut self,
        id: &ScopeId,
        space: &Space,
        section: &ComponentSection,
        curr_idx: usize,
    ) -> (r: Option<usize>)
        requires
            old(self).wf(),
            old(self).scope_map().contains_key(*id),
            *space != Space::NA ==> old(self).scope_map()[*id].space(*space).counter() < usize::MAX,
        ensures
            final(self).wf(),
            final(self).next_scope_id() == old(self).next_scope_id(),
            final(self).scope_map().dom() == old(self).scope_map().dom(),
            forall|k: ScopeId| k != *id && #[trigger] old(self).scope_map().contains_key(k)
                ==> final(self).scope_map()[k] == old(self).scope_map()[k],
            *space == Space::NA ==> r is None && final(self).scope_map()[*id] == old(self).scope_map()[*id],
            *space != Space::NA ==> {
                &&& r is Some
                &&& IdxSpace::assign_step(
                    old(self).scope_map()[*id].space(*space),
                    final(self).scope_map()[*id].space(*space),
                    *section,
                    curr_idx,
                    r.unwrap(),
                )
                &&& forall|o: Space| o != *space && o != Space::NA ==> #[trigger] final(self).scope_map()[*id].space(o)
                    == old(self).scope_map()[*id].space(o)
            },
    {
        let mut scope = self.take(id);
        let res = scope.assign_assumed_id(space, section, curr_idx);
        self.scopes.insert(*id, scope);
        proof {
            assert(self.scope_map().dom() =~= old(self).scope_map().dom());
        }
        res
    }

    /// Gives assumed IDs to a run of items of scope `id`; see
    /// [`IndexScope::assign_assumed_id_for`].
    pub fn assign_assumed_id_for<I: IndexSpaceOf>(
        &mut self,
        id: &ScopeId,
        items: &[I],
        curr_idx: usize,
        sections: &Vec<ComponentSection>,
    )
        requires
            old(self).wf(),
            old(self).scope_map().contains_key(*id),
            items@.len() == sections@.len(),
            curr_idx + items@.len() <= usize::MAX,
            forall|sp: Space| #[trigger] old(self).scope_map()[*id].space(sp).counter() + items@.len() < usize::MAX,
        ensures
            final(self).wf(),
            final(self).next_scope_id() == old(self).next_scope_id(),
            final(self).scope_map().dom() == old(self).scope_map().dom(),
            forall|k: ScopeId| k != *id && #[trigger] old(self).scope_map().contains_key(k)
                ==> final(self).scope_map()[k] == old(self).scope_map()[k],
            IndexScope::assigned_run(
                old(self).scope_map()[*id],
                final(self).scope_map()[*id],
                items@.map_values(|it: I| it.space_of()),
                sections@,
                curr_idx as int,
                items@.len() as int,
            ),
    {
        let mut scope = self.take(id);
        scope.assign_assumed_id_for(items, curr_idx, sections);
        self.scopes.insert(*id, scope);
        proof {
            assert(self.scope_map().dom() =~= old(self).scope_map().dom());
        }
    }

    /// As [`IndexStore::assign_assumed_id_for`], for boxed items.
    pub fn assign_assumed_id_for_boxed<I: IndexSpaceOf>(
        &mut self,
        id: &ScopeId,
        items: &[Box<I>],
        curr_idx: usize,
        sections: &Vec<ComponentSection>,
    )
        requires
            old(self).wf(),
            old(self).scope_map().contains_key(*id),
            items@.len() == sections@.len(),
            curr_idx + items@.len() <= usize::MAX,
            forall|sp: Space| #[trigger] old(self).scope_map()[*id].space(sp).counter() + items@.len() < usize::MAX,
        ensures
            final(self).wf(),
            final(self).next_scope_id() == old(self).next_scope_id(),
            final(self).scope_map().dom() == old(self).scope_map().dom(),
            forall|k: ScopeId| k != *id && #[trigger] old(self).scope_map().contains_key(k)
                ==> final(self).scope_map()[k] == old(self).scope_map()[k],
            IndexScope::assigned_run(
                old(self).scope_map()[*id],
                final(self).scope_map()[*id],
                items@.map_values(|it: Box<I>| (*it).space_of()),
                sections@,
                curr_idx as int,
                items@.len() as int,
            ),
    {
        let mut scope = self.take(id);
        scope.assign_assumed_id_for_boxed(items, curr_idx, sections);
        self.scopes.insert(*id, scope);
        proof {
            assert(self.scope_map().dom() =~= old(self).scope_map().dom());
        }
    }
}


/// One ID given to an item: the index space, the item vector and the
/// position in that vector.
#[derive(Clone, Copy, Debug, PartialEq, Eq, Structural)]
pub struct Entry {
    pub space: Space,
    pub sub: SpaceSubtype,
    pub idx: usize,
}

/// The index spaces of a log of given IDs.
pub open spec fn entry_spaces(evs: Seq<Entry>) -> Seq<Space> {
    evs.map_values(|e: Entry| e.space)
}

/// The log of a run of IDs given in order to positions `curr_idx..` of
/// item vectors (see [`IndexScope::assigned_run`]).
pub open spec fn run_entries(spaces: Seq<Space>, sections: Seq<ComponentSection>, curr_idx: int) -> Seq<Entry> {
    Seq::new(
        spaces.len(),
        |j: int| Entry { space: spaces[j], sub: subtype_of_section(sections[j]), idx: (curr_idx + j) as usize },
    )
}

/// Scope `cur` is `start` after the IDs of the log `evs` were given, in
/// order: the `k`-th entry of a space took that space's counter plus the
/// number of its entries before it.
pub open spec fn records(start: IndexScope, cur: IndexScope, evs: Seq<Entry>) -> bool {
    &&& cur.wf()
    &&& cur.id == start.id
    &&& forall|sp: Space| sp != Space::NA ==> #[trigger] cur.space(sp).counter()
        == start.space(sp).counter() + count_space(entry_spaces(evs), sp)
    &&& forall|j: int| 0 <= j < evs.len() && #[trigger] evs[j].space != Space::NA
        ==> cur.space(evs[j].space).holds(
        (start.space(evs[j].space).counter() + count_space(entry_spaces(evs).take(j), evs[j].space)) as usize,
        evs[j].sub,
        evs[j].idx,
    )
    &&& forall|sp: Space, id: usize| sp != Space::NA && #[trigger] cur.space(sp).is_assumed(id)
        ==> start.space(sp).is_assumed(id) || start.space(sp).counter() <= id
    &&& forall|sp: Space, id: usize, sub: SpaceSubtype, idx: usize| sp != Space::NA
        && #[trigger] start.space(sp).holds(id, sub, idx) ==> cur.space(sp).holds(id, sub, idx)
}

/// Counting over a concatenation.
pub proof fn lemma_count_space_concat(a: Seq<Space>, b: Seq<Space>, sp: Space)
    ensures
        count_space(a + b, sp) == count_space(a, sp) + count_space(b, sp),
    decreases b.len(),
{
    if b.len() == 0 {
        assert(a + b =~= a);
    } else {
        assert((a + b).drop_last() =~= a + b.drop_last());
        lemma_count_space_concat(a, b.drop_last(), sp);
    }
}

/// An empty log records a scope unchanged.
pub proof fn lemma_records_empty(start: IndexScope)
    requires
        start.wf(),
    ensures
        records(start, start, Seq::empty()),
{
    assert(entry_spaces(Seq::<Entry>::empty()) =~= Seq::<Space>::empty());
}

/// The counters after a run of IDs given after a log.
proof fn lemma_records_run_counters(
    start: IndexScope,
    mid: IndexScope,
    cur: IndexScope,
    evs: Seq<Entry>,
    spaces: Seq<Space>,
    sections: Seq<ComponentSection>,
    curr_idx: int,
)
    requires
        records(start, mid, evs),
        spaces.len() == sections.len(),
        IndexScope::assigned_run(mid, cur, spaces, sections, curr_idx, spaces.len() as int),
    ensures
        forall|sp: Space| sp != Space::NA ==> #[trigger] cur.space(sp).counter()
            == start.space(sp).counter() + count_space(entry_spaces(evs + run_entries(spaces, sections, curr_idx)), sp),
{
    let run = run_entries(spaces, sections, curr_idx);
    assert(entry_spaces(evs + run) =~= entry_spaces(evs) + spaces);
    assert(spaces.take(spaces.len() as int) =~= spaces);
    assert forall|sp: Space| sp != Space::NA implies #[trigger] cur.space(sp).counter()
        == start.space(sp).counter() + count_space(entry_spaces(evs + run), sp) by {
        lemma_count_space_concat(entry_spaces(evs), spaces, sp);
    }
}

/// The IDs held after a run of IDs given after a log.
#[verifier::spinoff_prover]
proof fn lemma_records_run_holds(
    start: IndexScope,
    mid: IndexScope,
    cur: IndexScope,
    evs: Seq<Entry>,
    spaces: Seq<Space>,
    sections: Seq<ComponentSection>,
    curr_idx: int,
)
    requires
        records(start, mid, evs),
        spaces.len() == sections.len(),
        IndexScope::assigned_run(mid, cur, spaces, sections, curr_idx, spaces.len() as int),
    ensures
        ({
            let all = evs + run_entries(spaces, sections, curr_idx);
            forall|j: int| 0 <= j < all.len() && #[trigger] all[j].space != Space::NA
                ==> cur.space(all[j].space).holds(
                (start.space(all[j].space).counter() + count_space(entry_spaces(all).take(j), all[j].space)) as usize,
                all[j].sub,
                all[j].idx,
            )
        }),
{
    let run = run_entries(spaces, sections, curr_idx);
    let all = evs + run;
    let n = evs.len() as int;
    assert forall|j: int| 0 <= j < all.len() && #[trigger] all[j].space != Space::NA
        implies cur.space(all[j].space).holds(
        (start.space(all[j].space).counter() + count_space(entry_spaces(all).take(j), all[j].space)) as usize,
        all[j].sub,
        all[j].idx,
    ) by {
        let sp = all[j].space;
        if j < n {
            assert(all[j] == evs[j]);
            assert(entry_spaces(all).take(j) =~= entry_spaces(evs).take(j));
            assert(mid.space(sp).holds(
                (start.space(sp).counter() + count_space(entry_spaces(evs).take(j), sp)) as usize,
                evs[j].sub,
                evs[j].idx,
            ));
        } else {
            let k = j - n;
            assert(all[j] == run[k]);
            assert(spaces[k] == sp);
            assert(entry_spaces(all).take(j) =~= entry_spaces(evs) + spaces.take(k));
            lemma_count_space_concat(entry_spaces(evs), spaces.take(k), sp);
            assert(cur.space(spaces[k]).holds(
                (mid.space(spaces[k]).counter() + count_space(spaces.take(k), spaces[k])) as usize,
                subtype_of_section(sections[k]),
                (curr_idx + k) as usize,
            ));
        }
    }
}

/// A run of IDs given after a log extends the log by the run.
pub proof fn lemma_records_run(
    start: IndexScope,
    mid: IndexScope,
    cur: IndexScope,
    evs: Seq<Entry>,
    spaces: Seq<Space>,
    sections: Seq<ComponentSection>,
    curr_idx: int,
)
    requires
        records(start, mid, evs),
        spaces.len() == sections.len(),
        IndexScope::assigned_run(mid, cur, spaces, sections, curr_idx, spaces.len() as int),
    ensures
        records(start, cur, evs + run_entries(spaces, sections, curr_idx)),
{
    lemma_records_run_counters(start, mid, cur, evs, spaces, sections, curr_idx);
    lemma_records_run_holds(start, mid, cur, evs, spaces, sections, curr_idx);
    assert forall|sp: Space, id: usize| sp != Space::NA && #[trigger] cur.space(sp).is_assumed(id)
        implies start.space(sp).is_assumed(id) || start.space(sp).counter() <= id by {
        if mid.space(sp).is_assumed(id) {
        } else {
            assert(mid.space(sp).counter() <= id);
        }
    }
    assert forall|sp: Space, id: usize, sub: SpaceSubtype, idx: usize| sp != Space::NA
        && #[trigger] start.space(sp).holds(id, sub, idx) implies cur.space(sp).holds(id, sub, idx) by {
        assert(mid.space(sp).holds(id, sub, idx));
    }
}

/// One ID given after a log, as by [`IndexScope::assign_assumed_id`],
/// extends the log by one entry.
pub proof fn lemma_records_one(
    start: IndexScope,
    before: IndexScope,
    after: IndexScope,
    evs: Seq<Entry>,
    sp: Space,
    section: ComponentSection,
    vec_idx: usize,
)
    requires
        records(start, before, evs),
        sp != Space::NA,
        vec_idx < usize::MAX,
        after.wf(),
        after.id == before.id,
        IdxSpace::assign_step(before.space(sp), after.space(sp), section, vec_idx, before.space(sp).counter()),
        forall|o: Space| o != sp && o != Space::NA ==> #[trigger] after.space(o) == before.space(o),
    ensures
        records(start, after, evs.push(Entry { space: sp, sub: subtype_of_section(section), idx: vec_idx })),
{
    let spaces = seq![sp];
    let sections = seq![section];
    assert(spaces.take(0) =~= Seq::<Space>::empty());
    assert(spaces.take(1) =~= spaces);
    assert(count_space(spaces.take(0), sp) == 0);
    assert(IndexScope::assigned_run(before, before, spaces, sections, vec_idx as int, 0));
    IndexScope::lemma_assigned_run_step(before, before, after, spaces, sections, vec_idx as int, 0);
    lemma_records_run(start, before, after, evs, spaces, sections, vec_idx as int);
    assert(run_entries(spaces, sections, vec_idx as int) =~= seq![
        Entry { space: sp, sub: subtype_of_section(section), idx: vec_idx },
    ]);
    assert(evs + run_entries(spaces, sections, vec_idx as int) =~= evs.push(
        Entry { space: sp, sub: subtype_of_section(section), idx: vec_idx },
    ));
}

} // verus!
