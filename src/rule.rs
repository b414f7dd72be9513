//! Checking a function definition: its exit points first, then the classifiers.

use vstd::prelude::*;
use std::collections::HashMap;
use crate::diagnostic::Diagnostic;
use crate::exits::{candidate, conditional_return, expr_or_init, has_conditional_return, peel_blocks};
use crate::factory::{delegate_entry, delegates_from, find_call, find_default_call};
use crate::hir::{get_hir_ty_def_id, hir_ty_def, opt_wf, DefId, FnDef, Unit};
use crate::operator::{check_partial_eq, check_to_string, finding, partial_eq_recurses, to_string_recurses};
use crate::registry::{default_trait, get_default};
use crate::sym::{Symbol, EQ, NE, TO_STRING};

verus! {

broadcast use vstd::std_specs::hash::group_hash_axioms;

/// For each type whose written `Default::default` does nothing but call one
/// function, that function.
pub open spec fn delegate_map(u: Unit) -> Map<DefId, DefId> {
    match default_trait(u) {
        Some(d) => delegates_from(u.impls@, d),
        None => Map::empty(),
    }
}

/// The finding of the equality or stringification check on the method `name`
/// whose exit is `e`.
pub open spec fn operator_finding(u: Unit, f: FnDef, name: Symbol, e: usize) -> Option<Diagnostic> {
    if name == EQ || name == NE {
        if partial_eq_recurses(u, f, name, e) {
            Some(finding(f, e))
        } else {
            None
        }
    } else if name == TO_STRING {
        if to_string_recurses(u, f, name, e) {
            Some(finding(f, e))
        } else {
            None
        }
    } else {
        None
    }
}

/// `f` takes no `self` and stands in an inherent impl of a type that its path names:
/// the factory check needs the delegate map.
pub open spec fn is_factory_candidate(f: FnDef) -> bool {
    &&& !f.has_self
    &&& f.parent_impl matches Some(imp)
    &&& imp.of_trait is None
    &&& hir_ty_def(imp.self_ty) is Some
}

/// The finding of the factory check on `f`, given the delegate map `m`: `f` is the
/// function that its type's `Default::default` calls, and `f` calls that
/// `Default::default` back.
pub open spec fn factory_finding(m: Map<DefId, DefId>, u: Unit, f: FnDef) -> Option<Diagnostic> {
    if is_factory_candidate(f) {
        let ty = hir_ty_def(f.parent_impl.unwrap().self_ty).unwrap();
        if m.contains_key(ty) && m[ty] == f.def_id {
            match find_call(f.body, f.body.value, ty, default_trait(u)) {
                Some(x) => Some(finding(f, x)),
                None => None,
            }
        } else {
            None
        }
    } else {
        None
    }
}

pub open spec fn opt_diag(o: Option<Diagnostic>) -> Seq<Diagnostic> {
    match o {
        Some(d) => seq![d],
        None => seq![],
    }
}

/// `f` is an associated function whose body cannot return through anything but
/// the expression taken for its result.
pub open spec fn single_exit(f: FnDef) -> bool {
    f.name is Some && !conditional_return(f.body, candidate(f.body))
}

/// The findings on `f`, given the delegate map `m`.
pub open spec fn findings_with(m: Map<DefId, DefId>, u: Unit, f: FnDef) -> Seq<Diagnostic> {
    if single_exit(f) {
        opt_diag(operator_finding(u, f, f.name.unwrap(), candidate(f.body))) + opt_diag(
            factory_finding(m, u, f),
        )
    } else {
        seq![]
    }
}

/// The rule, with its lazily built delegate map.
#[derive(Debug)]
pub struct UnconditionalRecursion {
    /// For each type, the function that its written `Default::default` does nothing
    /// but call; valid once `built` holds.
    pub default_impl_for_type: HashMap<DefId, DefId>,
    /// The map has been built for the unit being checked.
    pub built: bool,
}

impl UnconditionalRecursion {
    /// The state is valid for unit `u`: the map is empty until it is built, and
    /// `u`'s delegate map afterwards.
    pub open spec fn wf(&self, u: Unit) -> bool {
        &&& self.built ==> self.default_impl_for_type@ == delegate_map(u)
        &&& !self.built ==> self.default_impl_for_type@ == Map::<DefId, DefId>::empty()
    }

    /// The delegate map as the rule sees it once it has been built for `u`.
    pub open spec fn cache_for(&self, u: Unit) -> Map<DefId, DefId> {
        if self.built {
            self.default_impl_for_type@
        } else {
            delegate_map(u)
        }
    }

    /// The findings on `f` from this state.
    pub open spec fn findings(&self, u: Unit, f: FnDef) -> Seq<Diagnostic> {
        findings_with(self.cache_for(u), u, f)
    }

    /// The findings on each of `fns` in turn, from this state.
    pub open spec fn run(&self, u: Unit, fns: Seq<FnDef>) -> Seq<Diagnostic>
        decreases fns.len(),
    {
        if fns.len() == 0 {
            seq![]
        } else {
            self.run(u, fns.drop_last()) + self.findings(u, fns.last())
        }
    }

    /// A rule with nothing built yet.
    pub fn new() -> (r: Self)
        ensures
            !r.built,
            r.default_impl_for_type@ == Map::<DefId, DefId>::empty(),
    {
        UnconditionalRecursion { default_impl_for_type: HashMap::new(), built: false }
    }

    /// Builds the delegate map of `unit`, unless it is built already.
    pub fn init_default_impl_for_type_if_needed(&mut self, unit: &Unit)
        requires
            old(self).wf(*unit),
            unit.wf(),
        ensures
            final(self).built,
            final(self).default_impl_for_type@ == old(self).cache_for(*unit),
            final(self).wf(*unit),
    {
        if self.built {
            return ;
        }
        let mut m: HashMap<DefId, DefId> = HashMap::new();
        if let Some(d) = get_default(unit) {
            let mut i: usize = 0;
            while i < unit.impls.len()
                invariant
                    unit.wf(),
                    i <= unit.impls.len(),
                    m@ == delegates_from(unit.impls@.subrange(0, i as int), d),
                decreases unit.impls.len() - i,
            {
                let imp = &unit.impls[i];
                assert forall|j: int| 0 <= j < imp.items.len() implies opt_wf(
                    #[trigger] imp.items[j].body,
                ) by {
                    assert(opt_wf(unit.impls[i as int].items[j].body));
                }
                assert(unit.impls@.subrange(0, i + 1).drop_last() =~= unit.impls@.subrange(
                    0,
                    i as int,
                ));
                if let Some((ty, target)) = delegate_entry(imp, d) {
                    m.insert(ty, target);
                }
                i += 1;
            }
            assert(unit.impls@.subrange(0, i as int) =~= unit.impls@);
        }
        self.default_impl_for_type = m;
        self.built = true;
    }

    /// The factory check on `f`.
    pub fn check_default_new(&mut self, unit: &Unit, f: &FnDef) -> (r: Option<Diagnostic>)
        requires
            old(self).wf(*unit),
            unit.wf(),
            f.body.wf(),
        ensures
            r == factory_finding(old(self).cache_for(*unit), *unit, *f),
            final(self).wf(*unit),
            final(self).cache_for(*unit) == old(self).cache_for(*unit),
            final(self).built == (old(self).built || is_factory_candidate(*f)),
            !is_factory_candidate(*f) ==> *final(self) == *old(self),
    {
        if f.has_self {
            return None;
        }
        let imp = match &f.parent_impl {
            Some(imp) => imp,
            None => return None,
        };
        if imp.of_trait.is_some() {
            return None;
        }
        let implemented_ty_id = match get_hir_ty_def_id(&imp.self_ty) {
            Some(t) => t,
            None => return None,
        };
        self.init_default_impl_for_type_if_needed(unit);
        match self.default_impl_for_type.get(&implemented_ty_id) {
            Some(return_def_id) => {
                if f.def_id != *return_def_id {
                    return None;
                }
            },
            None => return None,
        }
        let dflt = get_default(unit);
        match find_default_call(&f.body, f.body.value, implemented_ty_id, dflt) {
            Some(x) => Some(Diagnostic { span: f.span, note_span: f.body.exprs[x].span }),
            None => None,
        }
    }

    /// Checks one function definition and returns what it finds: at most one
    /// finding of the equality or stringification check, then at most one of the
    /// factory check.
    pub fn check_fn(&mut self, unit: &Unit, f: &FnDef) -> (r: Vec<Diagnostic>)
        requires
            old(self).wf(*unit),
            unit.wf(),
            f.body.wf(),
        ensures
            r@ == old(self).findings(*unit, *f),
            final(self).wf(*unit),
            final(self).cache_for(*unit) == old(self).cache_for(*unit),
            final(self).built == (old(self).built || (single_exit(*f) && is_factory_candidate(
                *f,
            ))),
            !(single_exit(*f) && is_factory_candidate(*f)) ==> *final(self) == *old(self),
    {
        let mut out: Vec<Diagnostic> = Vec::new();
        let name = match f.name {
            Some(n) => n,
            None => return out,
        };
        let expr = peel_blocks(&f.body, expr_or_init(&f.body, f.body.value));
        if has_conditional_return(&f.body, expr) {
            return out;
        }
        let op = if name == EQ || name == NE {
            check_partial_eq(unit, f, name, expr)
        } else if name == TO_STRING {
            check_to_string(unit, f, name, expr)
        } else {
            None
        };
        if let Some(d) = op {
            out.push(d);
        }
        if let Some(d) = self.check_default_new(unit, f) {
            out.push(d);
        }
        assert(out@ =~= findings_with(old(self).cache_for(*unit), *unit, *f));
        out
    }
}

impl UnconditionalRecursion {
    /// Checks each of `fns` in turn and returns all findings, in that order.
    pub fn check_fns(&mut self, unit: &Unit, fns: &Vec<FnDef>) -> (r: Vec<Diagnostic>)
        requires
            old(self).wf(*unit),
            unit.wf(),
            forall|i: int| 0 <= i < fns.len() ==> (#[trigger] fns[i]).body.wf(),
        ensures
            r@ == old(self).run(*unit, fns@),
            final(self).wf(*unit),
            final(self).cache_for(*unit) == old(self).cache_for(*unit),
    {
        let mut out: Vec<Diagnostic> = Vec::new();
        let mut i: usize = 0;
        while i < fns.len()
            invariant
                i <= fns.len(),
                unit.wf(),
                forall|j: int| 0 <= j < fns.len() ==> (#[trigger] fns[j]).body.wf(),
                self.wf(*unit),
                self.cache_for(*unit) == old(self).cache_for(*unit),
                out@ == old(self).run(*unit, fns@.subrange(0, i as int)),
            decreases fns.len() - i,
        {
            let found = self.check_fn(unit, &fns[i]);
            let mut j: usize = 0;
            let ghost before = out@;
            while j < found.len()
                invariant
                    j <= found.len(),
                    out@ == before + found@.subrange(0, j as int),
                decreases found.len() - j,
            {
                out.push(found[j]);
                j += 1;
                assert(out@ =~= before + found@.subrange(0, j as int));
            }
            assert(found@.subrange(0, j as int) =~= found@);
            assert(fns@.subrange(0, i + 1).drop_last() =~= fns@.subrange(0, i as int));
            i += 1;
        }
        assert(fns@.subrange(0, i as int) =~= fns@);
        out
    }
}

impl Default for UnconditionalRecursion {
    fn default() -> (r: Self)
        ensures
            !r.built,
            r.default_impl_for_type@ == Map::<DefId, DefId>::empty(),
    {
        Self::new()
    }
}

} // verus!
