//! Whether a concretized type holds the `Unresolved` marker anywhere:
//! the walk stopped somewhere inside it.

use vstd::prelude::*;
use crate::concrete::{
    ConcreteType, ConcreteFuncType, ConcreteValType, ValDesc, FuncDesc, TypeDesc, boxed_fields_desc, cases_desc,
    vals_desc, named_vals_desc, named_funcs_desc, opt_box_desc,
};

verus! {

/// Value type `d` holds the marker somewhere.
pub open spec fn val_unresolved(d: ValDesc) -> bool
    decreases d,
{
    match d {
        ValDesc::Record(fs) => exists|k: int| 0 <= k < fs.len() && (#[trigger] fs[k] matches (_, x) && val_unresolved(x)),
        ValDesc::Variant(cs) => exists|k: int| 0 <= k < cs.len() && (#[trigger] cs[k].1 matches Some(t) && val_unresolved(t)),
        ValDesc::List(t) => val_unresolved(*t),
        ValDesc::Tuple(ts) => exists|k: int| 0 <= k < ts.len() && (#[trigger] ts[k] matches x && val_unresolved(x)),
        ValDesc::Option(t) => val_unresolved(*t),
        ValDesc::Result { ok, err } => (ok matches Some(t) && val_unresolved(*t)) || (err matches Some(t) && val_unresolved(*t)),
        ValDesc::MapOf(k, v) => val_unresolved(*k) || val_unresolved(*v),
        ValDesc::FixedSizeList(t, _) => val_unresolved(*t),
        ValDesc::Unresolved => true,
        _ => false,
    }
}

/// One of the named value types `fs` holds the marker somewhere.
pub open spec fn named_unresolved(fs: Seq<(Seq<char>, ValDesc)>) -> bool {
    exists|k: int| 0 <= k < fs.len() && val_unresolved(#[trigger] fs[k].1)
}

/// One of the named signatures `fs` holds the marker somewhere.
pub open spec fn funcs_unresolved(fs: Seq<(Seq<char>, FuncDesc)>) -> bool {
    exists|k: int| 0 <= k < fs.len() && func_unresolved(#[trigger] fs[k].1)
}

/// Signature `f` holds the marker in a parameter or its result.
pub open spec fn func_unresolved(f: FuncDesc) -> bool {
    ||| named_unresolved(f.params)
    ||| f.result matches Some(t) && val_unresolved(t)
}

/// Type `t` holds the marker somewhere.
pub open spec fn type_unresolved(t: TypeDesc) -> bool {
    match t {
        TypeDesc::Instance { funcs, type_exports } => {
            ||| funcs_unresolved(funcs)
            ||| named_unresolved(type_exports)
        },
        TypeDesc::Func(f) => func_unresolved(f),
        TypeDesc::Resource => false,
        TypeDesc::Unresolved => true,
    }
}

/// A concretized type as it is handed out: where the walk stopped
/// anywhere inside it, the marker alone stands for the whole type.
pub open spec fn settled(o: Option<TypeDesc>) -> Option<TypeDesc> {
    match o {
        Some(t) => if type_unresolved(t) {
            Some(TypeDesc::Unresolved)
        } else {
            Some(t)
        },
        None => None,
    }
}

proof fn lemma_boxed_fields_desc(s: Seq<(String, Box<ConcreteValType>)>)
    ensures
        boxed_fields_desc(s).len() == s.len(),
        forall|k: int| 0 <= k < s.len() ==> #[trigger] boxed_fields_desc(s)[k] == (s[k].0@, s[k].1.desc()),
    decreases s.len(),
{
    if s.len() > 0 {
        lemma_boxed_fields_desc(s.drop_last());
    }
}

proof fn lemma_cases_desc(s: Seq<(String, Option<Box<ConcreteValType>>)>)
    ensures
        cases_desc(s).len() == s.len(),
        forall|k: int| 0 <= k < s.len() ==> #[trigger] cases_desc(s)[k] == (s[k].0@, match s[k].1 {
            Some(t) => Some(t.desc()),
            None => None,
        }),
    decreases s.len(),
{
    if s.len() > 0 {
        lemma_cases_desc(s.drop_last());
    }
}

proof fn lemma_vals_desc(s: Seq<ConcreteValType>)
    ensures
        vals_desc(s).len() == s.len(),
        forall|k: int| 0 <= k < s.len() ==> #[trigger] vals_desc(s)[k] == s[k].desc(),
    decreases s.len(),
{
    if s.len() > 0 {
        lemma_vals_desc(s.drop_last());
    }
}

proof fn lemma_named_vals_desc(s: Seq<(String, ConcreteValType)>)
    ensures
        named_vals_desc(s).len() == s.len(),
        forall|k: int| 0 <= k < s.len() ==> #[trigger] named_vals_desc(s)[k] == (s[k].0@, s[k].1.desc()),
    decreases s.len(),
{
    if s.len() > 0 {
        lemma_named_vals_desc(s.drop_last());
    }
}

proof fn lemma_named_funcs_desc(s: Seq<(String, ConcreteFuncType)>)
    ensures
        named_funcs_desc(s).len() == s.len(),
        forall|k: int| 0 <= k < s.len() ==> #[trigger] named_funcs_desc(s)[k] == (s[k].0@, s[k].1.desc()),
    decreases s.len(),
{
    if s.len() > 0 {
        lemma_named_funcs_desc(s.drop_last());
    }
}

/// Whether one of the fields `fs` holds the marker somewhere.
fn fields_have_unresolved(fs: &Vec<(String, Box<ConcreteValType>)>) -> (r: bool)
    ensures
        r == exists|j: int| 0 <= j < fs@.len() && val_unresolved(#[trigger] boxed_fields_desc(fs@)[j].1),
    decreases fs,
{
    proof {
        lemma_boxed_fields_desc(fs@);
    }
    let ghost d = boxed_fields_desc(fs@);
    let mut found = false;
    for k in 0..fs.len()
        invariant
            d == boxed_fields_desc(fs@),
            d.len() == fs@.len(),
            forall|j: int| 0 <= j < fs@.len() ==> #[trigger] d[j] == (fs@[j].0@, fs@[j].1.desc()),
            found == (exists|j: int| 0 <= j < k && val_unresolved(#[trigger] d[j].1)),
    {
        proof {
            assert(decreases_to!(*fs => fs@));
            assert(decreases_to!(fs@ => fs@[k as int]));
        }
        let here = val_has_unresolved(&fs[k].1);
        proof {
            if here {
                assert(val_unresolved(d[k as int].1));
            }
            if found || here {
                let j = if found { choose|j: int| 0 <= j < k && val_unresolved(#[trigger] d[j].1) } else { k as int };
                assert(0 <= j < k + 1 && val_unresolved(d[j].1));
            } else {
                assert forall|j: int| 0 <= j < k + 1 implies !val_unresolved(#[trigger] d[j].1) by {}
            }
        }
        found = found || here;
    }
    found
}

/// Whether value type `t` holds the marker somewhere.
pub fn val_has_unresolved(t: &ConcreteValType) -> (r: bool)
    ensures
        r == val_unresolved(t.desc()),
    decreases t,
{
    match t {
        ConcreteValType::Record(fs) => {
            proof {
                assert(t->Record_0 == *fs);
                assert(decreases_to!(*t => t->Record_0));
            }
            let found = fields_have_unresolved(fs);
            proof {
                let d = boxed_fields_desc(fs@);
                lemma_boxed_fields_desc(fs@);
                if found {
                    let j = choose|j: int| 0 <= j < d.len() && val_unresolved(#[trigger] d[j].1);
                    assert(d[j] matches (_, x) && val_unresolved(x));
                } else {
                    assert forall|j: int| 0 <= j < d.len() implies !(#[trigger] d[j] matches (_, x) && val_unresolved(x)) by {
                        assert(!val_unresolved(d[j].1));
                    }
                }
            }
            found
        },
        ConcreteValType::Variant(cs) => {
            proof {
                lemma_cases_desc(cs@);
            }
            let ghost d = cases_desc(cs@);
            for k in 0..cs.len()
                invariant
                    d == cases_desc(cs@),
                    *t == ConcreteValType::Variant(*cs),
                    t.desc() == ValDesc::Variant(d),
                    d.len() == cs@.len(),
                    forall|j: int| 0 <= j < cs@.len() ==> #[trigger] d[j] == (cs@[j].0@, match cs@[j].1 {
                        Some(x) => Some(x.desc()),
                        None => None,
                    }),
                    forall|j: int| 0 <= j < k ==> !(#[trigger] d[j].1 matches Some(x) && val_unresolved(x)),
            {
                proof {
                    assert(*t == ConcreteValType::Variant(*cs));
                    assert(decreases_to!(*t => *cs));
                    assert(decreases_to!(*cs => cs@));
                    assert(decreases_to!(cs@ => cs@[k as int]));
                }
                match &cs[k].1 {
                    Some(x) => {
                        if val_has_unresolved(x) {
                            assert(d[k as int].1 matches Some(y) && val_unresolved(y));
                            return true;
                        }
                    },
                    None => {},
                }
            }
            false
        },
        ConcreteValType::List(x) => val_has_unresolved(x),
        ConcreteValType::Tuple(ts) => {
            proof {
                lemma_vals_desc(ts@);
            }
            let ghost d = vals_desc(ts@);
            for k in 0..ts.len()
                invariant
                    d == vals_desc(ts@),
                    *t == ConcreteValType::Tuple(*ts),
                    t.desc() == ValDesc::Tuple(d),
                    d.len() == ts@.len(),
                    forall|j: int| 0 <= j < ts@.len() ==> #[trigger] d[j] == ts@[j].desc(),
                    forall|j: int| #![trigger d[j]] 0 <= j < k ==> !val_unresolved(d[j]),
            {
                proof {
                    assert(*t == ConcreteValType::Tuple(*ts));
                    assert(decreases_to!(*t => *ts));
                    assert(decreases_to!(*ts => ts@));
                    assert(decreases_to!(ts@ => ts@[k as int]));
                }
                if val_has_unresolved(&ts[k]) {
                    assert(val_unresolved(d[k as int]));
                    return true;
                }
            }
            false
        },
        ConcreteValType::Option(x) => val_has_unresolved(x),
        ConcreteValType::Result { ok, err } => {
            let a = match ok {
                Some(x) => val_has_unresolved(x),
                None => false,
            };
            let b = match err {
                Some(x) => val_has_unresolved(x),
                None => false,
            };
            proof {
                match ok {
                    Some(x) => assert(opt_box_desc(*ok) == Some(Box::new(x.desc()))),
                    None => assert(opt_box_desc(*ok) is None),
                }
                match err {
                    Some(x) => assert(opt_box_desc(*err) == Some(Box::new(x.desc()))),
                    None => assert(opt_box_desc(*err) is None),
                }
            }
            a || b
        },
        ConcreteValType::MapOf(k, v) => {
            let a = val_has_unresolved(k);
            let b = val_has_unresolved(v);
            a || b
        },
        ConcreteValType::FixedSizeList(x, _) => val_has_unresolved(x),
        ConcreteValType::Unresolved => true,
        _ => false,
    }
}

/// Whether the named value types `s` hold the marker somewhere.
fn named_vals_have_unresolved(s: &Vec<(String, ConcreteValType)>) -> (r: bool)
    ensures
        r == exists|k: int| 0 <= k < s@.len() && val_unresolved(#[trigger] named_vals_desc(s@)[k].1),
{
    proof {
        lemma_named_vals_desc(s@);
    }
    let ghost d = named_vals_desc(s@);
    for k in 0..s.len()
        invariant
            d == named_vals_desc(s@),
            d.len() == s@.len(),
            forall|j: int| 0 <= j < s@.len() ==> #[trigger] d[j] == (s@[j].0@, s@[j].1.desc()),
            forall|j: int| 0 <= j < k ==> !val_unresolved(#[trigger] d[j].1),
    {
        if val_has_unresolved(&s[k].1) {
            assert(val_unresolved(d[k as int].1));
            return true;
        }
    }
    false
}

/// Whether signature `f` holds the marker somewhere.
pub fn func_has_unresolved(f: &ConcreteFuncType) -> (r: bool)
    ensures
        r == func_unresolved(f.desc()),
{
    proof {
        lemma_named_vals_desc(f.params@);
    }
    if named_vals_have_unresolved(&f.params) {
        proof {
            let k = choose|k: int| 0 <= k < f.params@.len() && val_unresolved(#[trigger] named_vals_desc(f.params@)[k].1);
            assert(f.desc().params == named_vals_desc(f.params@));
            assert(val_unresolved(f.desc().params[k].1));
        }
        return true;
    }
    match &f.result {
        Some(x) => val_has_unresolved(x),
        None => false,
    }
}

/// Whether type `t` holds the marker somewhere.
pub fn type_has_unresolved(t: &ConcreteType) -> (r: bool)
    ensures
        r == type_unresolved(t.desc()),
{
    match t {
        ConcreteType::Instance { funcs, type_exports } => {
            proof {
                lemma_named_funcs_desc(funcs@);
            }
            let ghost d = named_funcs_desc(funcs@);
            let ghost td = t.desc();
            for k in 0..funcs.len()
                invariant
                    d == named_funcs_desc(funcs@),
                    td == t.desc(),
                    td == (TypeDesc::Instance { funcs: d, type_exports: named_vals_desc(type_exports@) }),
                    d.len() == funcs@.len(),
                    forall|j: int| 0 <= j < funcs@.len() ==> #[trigger] d[j] == (funcs@[j].0@, funcs@[j].1.desc()),
                    forall|j: int| 0 <= j < k ==> !func_unresolved(#[trigger] d[j].1),
            {
                if func_has_unresolved(&funcs[k].1) {
                    assert(func_unresolved(d[k as int].1));
                    assert(exists|j: int| 0 <= j < d.len() && func_unresolved(#[trigger] d[j].1));
                    assert(td matches TypeDesc::Instance { funcs: f2, .. } && f2 == d);
                    assert(type_unresolved(TypeDesc::Instance { funcs: d, type_exports: named_vals_desc(type_exports@) }));
                    assert(type_unresolved(td));
                    return true;
                }
            }
            proof {
                lemma_named_vals_desc(type_exports@);
            }
            let r = named_vals_have_unresolved(type_exports);
            proof {
                let nv = named_vals_desc(type_exports@);
                assert(!exists|j: int| 0 <= j < d.len() && func_unresolved(#[trigger] d[j].1));
                assert(r == exists|j: int| 0 <= j < nv.len() && val_unresolved(#[trigger] nv[j].1));
                assert(type_unresolved(TypeDesc::Instance { funcs: d, type_exports: nv }) == (
                    (exists|j: int| 0 <= j < d.len() && func_unresolved(#[trigger] d[j].1))
                    || (exists|j: int| 0 <= j < nv.len() && val_unresolved(#[trigger] nv[j].1))));
            }
            r
        },
        ConcreteType::Func(f) => func_has_unresolved(f),
        ConcreteType::Resource => false,
        ConcreteType::Unresolved => true,
    }
}

/// `o` as it is handed out: [`ConcreteType::Unresolved`] where the walk
/// stopped anywhere inside it.
pub fn settle(o: Option<ConcreteType>) -> (r: Option<ConcreteType>)
    ensures
        crate::concrete::opt_type_desc(r) == settled(crate::concrete::opt_type_desc(o)),
{
    match o {
        Some(t) => if type_has_unresolved(&t) {
            Some(ConcreteType::Unresolved)
        } else {
            Some(t)
        },
        None => None,
    }
}

} // verus!
