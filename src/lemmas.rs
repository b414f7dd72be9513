//! What holds of the rule on every input.

use vstd::prelude::*;
use crate::exits::{candidate, returns_of};
use crate::factory::{contains_call, delegate_of, find_call, is_default_call, lemma_find_call_complete};
use crate::hir::hir_ty_def;
use crate::operator::finding;
use crate::registry::default_trait;
use crate::rule::{delegate_map, is_factory_candidate, single_exit};
use crate::hir::{DefId, ExprKind, FnDef, TraitImpl, Unit};
use crate::operator::{op_of, resolves_into};
use crate::registry::to_string_trait;
use crate::sym::{EQ, NE, TO_STRING};
use crate::rule::UnconditionalRecursion;

verus! {

/// A function whose body has no exit point, or two or more, is never reported,
/// whatever those exits are, even a call of the function itself.
pub proof fn lemma_multiple_exits_never_flagged(s: UnconditionalRecursion, u: Unit, f: FnDef)
    requires
        returns_of(f.body).len() != 1,
    ensures
        s.findings(u, f) == Seq::<crate::diagnostic::Diagnostic>::empty(),
{
}

/// Two states of the rule that are valid for the same unit (one fresh, one whose
/// delegate map was built, or built again) report the same findings, in the same
/// order, on any sequence of functions of that unit.
pub proof fn lemma_rerun_identical(
    s1: UnconditionalRecursion,
    s2: UnconditionalRecursion,
    u: Unit,
    fns: Seq<FnDef>,
)
    requires
        s1.wf(u),
        s2.wf(u),
    ensures
        s1.run(u, fns) == s2.run(u, fns),
    decreases fns.len(),
{
    assert(s1.cache_for(u) == s2.cache_for(u));
    if fns.len() > 0 {
        lemma_rerun_identical(s1, s2, u, fns.drop_last());
    }
}

/// A method of a derived trait impl is never reported, whatever its body.
pub proof fn lemma_derived_never_flagged(s: UnconditionalRecursion, u: Unit, f: FnDef)
    requires
        f.parent_impl matches Some(imp) && imp.derived && imp.of_trait is Some,
    ensures
        s.findings(u, f) == Seq::<crate::diagnostic::Diagnostic>::empty(),
{
    assert(s.findings(u, f) =~= Seq::<crate::diagnostic::Diagnostic>::empty());
}

/// A derived impl of `Default` records no delegate, whatever its body.
pub proof fn lemma_derived_default_records_nothing(imp: TraitImpl, dflt: DefId)
    requires
        imp.derived,
    ensures
        delegate_of(imp, dflt) is None,
{
}

/// A method `eq` or `ne` whose single exit is a comparison by the other operator
/// (`!=` inside `eq`, `==` inside `ne`) is never reported.
pub proof fn lemma_operator_must_match_name(s: UnconditionalRecursion, u: Unit, f: FnDef)
    requires
        f.has_self,
        f.name == Some(EQ) || f.name == Some(NE),
        f.body.exprs[candidate(f.body) as int].kind matches ExprKind::Binary { op, .. } && op
            != op_of(f.name.unwrap()),
    ensures
        s.findings(u, f) == Seq::<crate::diagnostic::Diagnostic>::empty(),
{
    assert(s.findings(u, f) =~= Seq::<crate::diagnostic::Diagnostic>::empty());
}

/// A method `to_string` whose single exit calls a method that does not resolve into
/// `ToString` is never reported.
pub proof fn lemma_unrelated_to_string_not_flagged(s: UnconditionalRecursion, u: Unit, f: FnDef)
    requires
        f.has_self,
        f.name == Some(TO_STRING),
        f.body.exprs[candidate(f.body) as int].kind matches ExprKind::MethodCall { callee, .. } && (
        to_string_trait(u) is None || !resolves_into(callee, to_string_trait(u).unwrap())),
    ensures
        s.findings(u, f) == Seq::<crate::diagnostic::Diagnostic>::empty(),
{
    assert(s.findings(u, f) =~= Seq::<crate::diagnostic::Diagnostic>::empty());
}

/// A static function `f` of an inherent impl of type `T`, with a single exit, that
/// `T`'s written `Default::default` does nothing but call, and whose body calls
/// `T`'s `default` back, is reported exactly once, at the first such call
/// (operands before the expression that uses them).
pub proof fn lemma_factory_back_call_reported(s: UnconditionalRecursion, u: Unit, f: FnDef)
    requires
        s.wf(u),
        single_exit(f),
        is_factory_candidate(f),
        delegate_map(u).contains_key(hir_ty_def(f.parent_impl.unwrap().self_ty).unwrap()),
        delegate_map(u)[hir_ty_def(f.parent_impl.unwrap().self_ty).unwrap()] == f.def_id,
        contains_call(
            f.body,
            f.body.value,
            hir_ty_def(f.parent_impl.unwrap().self_ty).unwrap(),
            default_trait(u),
        ),
    ensures
        ({
            let ty = hir_ty_def(f.parent_impl.unwrap().self_ty).unwrap();
            let x = find_call(f.body, f.body.value, ty, default_trait(u)).unwrap();
            &&& is_default_call(f.body, x, ty, default_trait(u))
            &&& s.findings(u, f) == seq![finding(f, x)]
        }),
{
    let ty = hir_ty_def(f.parent_impl.unwrap().self_ty).unwrap();
    lemma_find_call_complete(f.body, f.body.value, ty, default_trait(u));
    let x = find_call(f.body, f.body.value, ty, default_trait(u)).unwrap();
    assert(s.findings(u, f) =~= seq![finding(f, x)]);
}

} // verus!
