//! Resolution of well-known traits by their canonical path.

use vstd::prelude::*;
use crate::hir::{DefId, TraitDef, Unit};
use crate::sym::{Symbol, ALLOC, CMP, CORE, DEFAULT_MOD, DEFAULT_TRAIT, PARTIAL_EQ, STRING, TO_STRING_TRAIT};

verus! {

/// The first trait of `traits` whose path is `path`.
pub open spec fn resolve(traits: Seq<TraitDef>, path: Seq<Symbol>) -> Option<DefId>
    decreases traits.len(),
{
    if traits.len() == 0 {
        None
    } else if traits[0].path@ == path {
        Some(traits[0].def_id)
    } else {
        resolve(traits.drop_first(), path)
    }
}

pub open spec fn partial_eq_path() -> Seq<Symbol> {
    seq![CORE, CMP, PARTIAL_EQ]
}

pub open spec fn to_string_path() -> Seq<Symbol> {
    seq![ALLOC, STRING, TO_STRING_TRAIT]
}

pub open spec fn default_path() -> Seq<Symbol> {
    seq![CORE, DEFAULT_MOD, DEFAULT_TRAIT]
}

/// The equality trait `core::cmp::PartialEq`, if the unit has it.
pub open spec fn partial_eq_trait(u: Unit) -> Option<DefId> {
    resolve(u.traits@, partial_eq_path())
}

/// The stringification trait `alloc::string::ToString`, if the unit has it.
pub open spec fn to_string_trait(u: Unit) -> Option<DefId> {
    resolve(u.traits@, to_string_path())
}

/// The default-construction trait `core::default::Default`, if the unit has it.
pub open spec fn default_trait(u: Unit) -> Option<DefId> {
    resolve(u.traits@, default_path())
}

fn same_path(a: &Vec<Symbol>, b: &[Symbol]) -> (r: bool)
    ensures
        r == (a@ == b@),
{
    if a.len() != b.len() {
        return false;
    }
    let mut i: usize = 0;
    while i < a.len()
        invariant
            a@.len() == b@.len(),
            i <= a.len(),
            forall|j: int| 0 <= j < i ==> a@[j] == b@[j],
        decreases a.len() - i,
    {
        if a[i] != b[i] {
            return false;
        }
        i += 1;
    }
    assert(a@ =~= b@);
    true
}

/// Looks up the trait whose canonical path is `path`.
pub fn get_trait_def_id(unit: &Unit, path: &[Symbol]) -> (r: Option<DefId>)
    ensures
        r == resolve(unit.traits@, path@),
{
    let mut i: usize = 0;
    assert(unit.traits@.skip(0) =~= unit.traits@);
    while i < unit.traits.len()
        invariant
            i <= unit.traits.len(),
            resolve(unit.traits@, path@) == resolve(unit.traits@.skip(i as int), path@),
        decreases unit.traits.len() - i,
    {
        assert(unit.traits@.skip(i as int)[0] == unit.traits@[i as int]);
        assert(unit.traits@.skip(i as int).drop_first() =~= unit.traits@.skip(i + 1));
        if same_path(&unit.traits[i].path, path) {
            return Some(unit.traits[i].def_id);
        }
        i += 1;
    }
    None
}

/// Resolves `core::cmp::PartialEq`.
pub fn get_partial_eq(unit: &Unit) -> (r: Option<DefId>)
    ensures
        r == partial_eq_trait(*unit),
{
    let p: [Symbol; 3] = [CORE, CMP, PARTIAL_EQ];
    assert(p@ =~= partial_eq_path());
    get_trait_def_id(unit, &p)
}

/// Resolves `alloc::string::ToString`.
pub fn get_to_string(unit: &Unit) -> (r: Option<DefId>)
    ensures
        r == to_string_trait(*unit),
{
    let p: [Symbol; 3] = [ALLOC, STRING, TO_STRING_TRAIT];
    assert(p@ =~= to_string_path());
    get_trait_def_id(unit, &p)
}

/// Resolves `core::default::Default`.
pub fn get_default(unit: &Unit) -> (r: Option<DefId>)
    ensures
        r == default_trait(*unit),
{
    let p: [Symbol; 3] = [CORE, DEFAULT_MOD, DEFAULT_TRAIT];
    assert(p@ =~= default_path());
    get_trait_def_id(unit, &p)
}

} // verus!
