//! The preset registry interface: maps preset ids to presets.

use crate::canonicalization::presets::{PresetId, PropertyPreset};
use crate::text::str_eq;
use vstd::prelude::*;

verus! {

/// A registry of presets by id.
pub trait PresetRegistry {
    /// The preset with id `id`, if any.
    fn get(&self, id: &PresetId) -> Option<PropertyPreset>;

    /// The ids of all registered presets.
    fn list(&self) -> Vec<PresetId>;

    /// How many presets are registered.
    spec fn preset_count(&self) -> nat;

    /// The number of registered presets.
    fn len(&self) -> (res: usize)
        ensures
            res == self.preset_count(),
    ;

    /// Whether no preset is registered.
    fn is_empty(&self) -> (res: bool)
        ensures
            res == (self.preset_count() == 0),
    {
        self.len() == 0
    }
}

/// The ids of a list of presets, in order.
pub open spec fn preset_ids(ps: Seq<PropertyPreset>) -> Seq<Seq<char>> {
    ps.map_values(|p: PropertyPreset| p.id@)
}

/// A registry that keeps its presets in memory, in insertion order, at
/// most one per id.
pub struct InMemoryPresetRegistry {
    presets: Vec<PropertyPreset>,
}

impl InMemoryPresetRegistry {
    /// The ids of the registered presets, in insertion order.
    pub closed spec fn ids(&self) -> Seq<Seq<char>> {
        preset_ids(self.presets@)
    }

    /// No id occurs twice.
    pub closed spec fn wf(&self) -> bool {
        self.ids().no_duplicates()
    }

    /// An empty registry.
    pub fn new() -> (res: InMemoryPresetRegistry)
        ensures
            res.wf(),
            res.ids() == Seq::<Seq<char>>::empty(),
    {
        let res = InMemoryPresetRegistry { presets: Vec::new() };
        assert(res.ids() =~= Seq::<Seq<char>>::empty());
        res
    }

    /// The position of the preset with id `id`, if any.
    fn position(&self, id: &str) -> (res: Option<usize>)
        ensures
            match res {
                Some(i) => i < self.ids().len() && self.ids()[i as int] == id@,
                None => !self.ids().contains(id@),
            },
    {
        let mut i: usize = 0;
        while i < self.presets.len()
            invariant
                i <= self.presets@.len(),
                forall|j: int| 0 <= j < i ==> self.ids()[j] != id@,
            decreases self.presets.len() - i,
        {
            if str_eq(self.presets[i].id.as_str(), id) {
                return Some(i);
            }
            i = i + 1;
        }
        proof {
            assert forall|j: int| 0 <= j < self.ids().len() implies self.ids()[j] != id@ by {}
        }
        None
    }

    /// Registers `preset`, replacing the one with the same id if there is
    /// one; the new preset comes last.
    pub fn insert(self, preset: PropertyPreset) -> (res: InMemoryPresetRegistry)
        requires
            self.wf(),
        ensures
            res.wf(),
            !self.ids().contains(preset.id@) ==> res.ids() == self.ids().push(preset.id@),
            self.ids().contains(preset.id@) ==> exists|i: int|
                0 <= i < self.ids().len() && self.ids()[i] == preset.id@ && res.ids()
                    == self.ids().remove(i).push(preset.id@),
    {
        let ghost key = preset.id@;
        let ghost before = self.ids();
        let pos = self.position(preset.id.as_str());
        let mut presets = self.presets;
        let ghost mut mid = before;
        match pos {
            Some(i) => {
                presets.remove(i);
                proof {
                    mid = before.remove(i as int);
                    assert(preset_ids(presets@) =~= mid);
                    assert forall|a: int, b: int| 0 <= a < b < mid.len() implies mid[a] != mid[b] by {
                        if a >= i {
                            assert(mid[a] == before[a + 1] && mid[b] == before[b + 1]);
                        } else if b >= i {
                            assert(mid[a] == before[a] && mid[b] == before[b + 1]);
                        } else {
                            assert(mid[a] == before[a] && mid[b] == before[b]);
                        }
                    }
                    assert forall|j: int| 0 <= j < mid.len() implies mid[j] != key by {
                        if j >= i {
                            assert(mid[j] == before[j + 1]);
                        } else {
                            assert(mid[j] == before[j]);
                        }
                    }
                }
            },
            None => {
                assert(preset_ids(presets@) =~= mid);
            },
        }
        presets.push(preset);
        let res = InMemoryPresetRegistry { presets };
        proof {
            assert(res.ids() =~= mid.push(key));
            assert forall|a: int, b: int| 0 <= a < b < res.ids().len() implies res.ids()[a]
                != res.ids()[b] by {
                if b == mid.len() {
                    assert(res.ids()[a] == mid[a]);
                    assert(mid[a] != key) by {
                        if pos is None {
                            assert(before[a] == mid[a]);
                        }
                    }
                } else {
                    assert(res.ids()[a] == mid[a] && res.ids()[b] == mid[b]);
                }
            }
        }
        res
    }
}

impl PresetRegistry for InMemoryPresetRegistry {
    open spec fn preset_count(&self) -> nat {
        self.ids().len()
    }

    /// A copy of the preset with id `id`, if one is registered.
    fn get(&self, id: &PresetId) -> (res: Option<PropertyPreset>)
        ensures
            res is Some <==> self.ids().contains(id@),
    {
        match self.position(id.as_str()) {
            Some(i) => Some(self.presets[i].clone()),
            None => None,
        }
    }

    /// The registered ids, in insertion order.
    fn list(&self) -> (res: Vec<PresetId>)
        ensures
            res@.map_values(|k: PresetId| k@) == self.ids(),
    {
        let mut out: Vec<PresetId> = Vec::new();
        let mut i: usize = 0;
        while i < self.presets.len()
            invariant
                i <= self.presets@.len(),
                out@.map_values(|k: PresetId| k@) == self.ids().take(i as int),
            decreases self.presets.len() - i,
        {
            let ghost prev = out@;
            assert(prev.map_values(|k: PresetId| k@).len() == i);
            out.push(self.presets[i].id.duplicate());
            proof {
                assert(self.ids()[i as int] == self.presets@[i as int].id@);
                assert forall|j: int| 0 <= j <= i implies #[trigger] out@[j]@ == self.ids()[j] by {
                    if j < i {
                        assert(out@[j] == prev[j]);
                        assert(prev.map_values(|k: PresetId| k@)[j] == self.ids().take(i as int)[j]);
                    }
                }
                assert(out@.map_values(|k: PresetId| k@) =~= self.ids().take(i + 1));
            }
            i = i + 1;
        }
        assert(self.ids().take(self.presets@.len() as int) =~= self.ids());
        out
    }

    /// The number of registered presets.
    fn len(&self) -> (res: usize) {
        self.presets.len()
    }
}

} // verus!
