//! The canonicalizer interface and the registry of property definitions the
//! pipeline consults.

use crate::canonicalization::value_objects::{CanonicalInput, CanonicalizationResult};
use crate::properties::definition::PropertyDefinition;
use crate::str_map::StrMap;
use vstd::prelude::*;

verus! {

/// Turns raw input into canonical content plus derived property patches.
pub trait Canonicalizer {
    /// Canonicalizes one input.
    fn canonicalize(&self, input: CanonicalInput) -> CanonicalizationResult;
}

/// Property definitions by key.
#[derive(Debug, Clone)]
pub struct PropertyDefinitionRegistry(StrMap<PropertyDefinition>);

/// The definitions keyed by their keys; a later definition replaces an
/// earlier one with the same key.
pub open spec fn defs_by_key(defs: Seq<PropertyDefinition>) -> Map<Seq<char>, PropertyDefinition>
    decreases defs.len(),
{
    if defs.len() == 0 {
        Map::empty()
    } else {
        defs_by_key(defs.drop_last()).insert(defs.last().db_ident@, defs.last())
    }
}

impl PropertyDefinitionRegistry {
    /// The definitions held, by key.
    pub closed spec fn view(&self) -> Map<Seq<char>, PropertyDefinition> {
        self.0@
    }

    /// The registry is well formed.
    pub closed spec fn wf(&self) -> bool {
        self.0.wf()
    }

    /// A registry of `defs`, keyed by their keys.
    pub fn from_definitions(defs: Vec<PropertyDefinition>) -> (res: PropertyDefinitionRegistry)
        ensures
            res.wf(),
            res@ == defs_by_key(defs@),
    {
        let ghost all = defs@;
        let mut map: StrMap<PropertyDefinition> = StrMap::new();
        let mut rest = defs;
        let n = rest.len();
        let mut i: usize = 0;
        while i < n
            invariant
                map.wf(),
                n == all.len(),
                i <= n,
                rest@ == all.subrange(i as int, n as int),
                map@ == defs_by_key(all.take(i as int)),
            decreases n - i,
        {
            let d = rest.remove(0);
            proof {
                assert(d == all[i as int]);
                assert(all.take(i + 1).drop_last() =~= all.take(i as int));
                assert(rest@ =~= all.subrange(i + 1, n as int));
            }
            let k = d.db_ident.clone();
            map.insert(k, d);
            i = i + 1;
        }
        assert(all.take(n as int) =~= all);
        PropertyDefinitionRegistry(map)
    }

    /// The definition with key `db_ident`, if any.
    pub fn get(&self, db_ident: &str) -> (res: Option<&PropertyDefinition>)
        requires
            self.wf(),
        ensures
            match res {
                Some(d) => self@.contains_key(db_ident@) && *d == self@[db_ident@],
                None => !self@.contains_key(db_ident@),
            },
    {
        self.0.get(db_ident)
    }

    /// The number of definitions.
    pub fn len(&self) -> (res: usize)
        requires
            self.wf(),
        ensures
            res == self@.len(),
    {
        self.0.len()
    }

    /// Whether there are no definitions.
    pub fn is_empty(&self) -> (res: bool)
        requires
            self.wf(),
        ensures
            res == (self@.len() == 0),
    {
        self.0.is_empty()
    }
}

} // verus!
