//! Names given to the items of an index space by a name section.

use vstd::prelude::*;
use std::collections::BTreeMap;

verus! {

broadcast use vstd::std_specs::btree::group_btree_axioms;

/// `m` with each `(index, name)` of `names` inserted in turn.
pub open spec fn insert_names(m: Map<u32, Seq<char>>, names: Seq<(u32, String)>) -> Map<u32, Seq<char>>
    decreases names.len(),
{
    if names.len() == 0 {
        m
    } else {
        insert_names(m, names.drop_last()).insert(names.last().0, names.last().1@)
    }
}

/// Names by item index, kept in index order.
#[derive(Debug)]
pub struct Names {
    pub(crate) names: BTreeMap<u32, String>,
}

impl Names {
    /// The names by index.
    pub closed spec fn name_map(self) -> Map<u32, Seq<char>> {
        self.names@.map_values(|s: String| s@)
    }

    /// No names.
    pub fn new() -> (r: Self)
        ensures
            r.name_map() == Map::<u32, Seq<char>>::empty(),
    {
        let r = Names { names: BTreeMap::new() };
        assert(r.name_map() =~= Map::<u32, Seq<char>>::empty());
        r
    }

    /// The name of item `id`, if it has one.
    pub fn get(&self, id: u32) -> (r: Option<&str>)
        ensures
            match r {
                Some(s) => self.name_map().contains_key(id) && s@ == self.name_map()[id],
                None => !self.name_map().contains_key(id),
            },
    {
        match self.names.get(&id) {
            Some(s) => Some(s.as_str()),
            None => None,
        }
    }

    /// Names all the given items, in order (a later name of an index
    /// replaces an earlier one).
    pub fn add_all(&mut self, names: &[(u32, String)])
        ensures
            final(self).name_map() == insert_names(old(self).name_map(), names@),
    {
        let n = names.len();
        for i in 0..n
            invariant
                n == names@.len(),
                self.name_map() == insert_names(old(self).name_map(), names@.take(i as int)),
        {
            self.add(names[i].0, names[i].1.as_str());
            proof {
                assert(names@.take(i + 1).drop_last() =~= names@.take(i as int));
            }
        }
        proof {
            assert(names@.take(n as int) =~= names@);
        }
    }

    /// Names item `id` `name`, replacing a name it had.
    pub fn add(&mut self, id: u32, name: &str)
        ensures
            final(self).name_map() == old(self).name_map().insert(id, name@),
    {
        self.names.insert(id, name.to_owned());
        proof {
            assert(self.name_map() =~= old(self).name_map().insert(id, name@));
        }
    }
}

} // verus!
