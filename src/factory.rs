//! Two-function recursion between a static factory and `Default`: the type's
//! `Default::default` does nothing but call the factory, and the factory calls
//! `Default::default` of that same type back.

use vstd::prelude::*;
use crate::exits::{get_return_calls_in_body, returns_of};
use crate::hir::{
    children, children_vec, get_hir_ty_def_id, hir_ty_def, opt_wf, Body, DefId, ExprId, ExprKind,
    HirTy, QPath, Res, TraitImpl, AssocItem,
};
use crate::sym::DEFAULT_KW;

verus! {

/// The path `q` names `default` of the type `ty`: `Ty::default` with `Ty` resolved
/// to `ty`, `Self::default`, or `<T>::default` with `T` naming `ty`.
pub open spec fn names_default_of(q: QPath, ty: DefId) -> bool {
    match q {
        QPath::Resolved { segments } => segments.len() >= 2 && segments@.last().name == DEFAULT_KW
            && segments@[0].res == Some(ty),
        QPath::TypeRelative { self_ty, name } => name == DEFAULT_KW && (self_ty == HirTy::Resolved(
            Res::SelfTyAlias,
        ) || hir_ty_def(self_ty) == Some(ty)),
        QPath::LangItem => false,
    }
}

/// Decides whether the path `qpath` names `default` of the type `implemented_ty_id`.
pub fn is_default_method_on_current_ty(qpath: &QPath, implemented_ty_id: DefId) -> (r: bool)
    ensures
        r == names_default_of(*qpath, implemented_ty_id),
{
    match qpath {
        QPath::Resolved { segments } => {
            let n = segments.len();
            n >= 2 && segments[n - 1].name == DEFAULT_KW && segments[0].res == Some(
                implemented_ty_id,
            )
        },
        QPath::TypeRelative { self_ty, name } => {
            if *name != DEFAULT_KW {
                return false;
            }
            if let HirTy::Resolved(Res::SelfTyAlias) = self_ty {
                return true;
            }
            get_hir_ty_def_id(self_ty) == Some(implemented_ty_id)
        },
        QPath::LangItem => false,
    }
}

/// Expression `e` calls `Default::default` (the item of trait `dflt`) of type `ty`.
pub open spec fn is_default_call(b: Body, e: ExprId, ty: DefId, dflt: Option<DefId>) -> bool {
    &&& e < b.exprs.len()
    &&& b.exprs[e as int].kind matches ExprKind::Call { func, .. }
    &&& func < b.exprs.len()
    &&& b.exprs[func as int].kind matches ExprKind::Path { qpath, callee: Some(c), .. }
    &&& names_default_of(qpath, ty)
    &&& c.trait_of matches Some(t)
    &&& dflt == Some(t)
}

/// The first call of `default` of `ty` met when walking `e` with operands before the
/// expression that uses them, closures' bodies included.
pub open spec fn find_call(b: Body, e: ExprId, ty: DefId, dflt: Option<DefId>) -> Option<ExprId>
    decreases e + 1, 0int,
{
    if e >= b.exprs.len() {
        None
    } else {
        match find_list(b, children(b.exprs[e as int].kind, true), ty, dflt, e) {
            Some(x) => Some(x),
            None => if is_default_call(b, e, ty, dflt) {
                Some(e)
            } else {
                None
            },
        }
    }
}

/// The first call of `default` of `ty` met when walking each of `ids` in turn.
pub open spec fn find_list(
    b: Body,
    ids: Seq<ExprId>,
    ty: DefId,
    dflt: Option<DefId>,
    bound: ExprId,
) -> Option<ExprId>
    decreases bound, ids.len(),
{
    if ids.len() == 0 {
        None
    } else if ids[0] < bound {
        match find_call(b, ids[0], ty, dflt) {
            Some(x) => Some(x),
            None => find_list(b, ids.drop_first(), ty, dflt, bound),
        }
    } else {
        None
    }
}

/// Expression `e` or an expression inside it (closures' bodies included) calls
/// `default` of `ty`.
pub open spec fn contains_call(b: Body, e: ExprId, ty: DefId, dflt: Option<DefId>) -> bool
    decreases e + 1, 0int,
{
    e < b.exprs.len() && (is_default_call(b, e, ty, dflt) || contains_list(
        b,
        children(b.exprs[e as int].kind, true),
        ty,
        dflt,
        e,
    ))
}

/// One of `ids` contains a call of `default` of `ty`.
pub open spec fn contains_list(
    b: Body,
    ids: Seq<ExprId>,
    ty: DefId,
    dflt: Option<DefId>,
    bound: ExprId,
) -> bool
    decreases bound, ids.len(),
{
    ids.len() > 0 && ids[0] < bound && (contains_call(b, ids[0], ty, dflt) || contains_list(
        b,
        ids.drop_first(),
        ty,
        dflt,
        bound,
    ))
}

/// The scan finds a call exactly when `e` contains one, and what it finds is one.
pub proof fn lemma_find_call_complete(b: Body, e: ExprId, ty: DefId, dflt: Option<DefId>)
    ensures
        find_call(b, e, ty, dflt) is Some <==> contains_call(b, e, ty, dflt),
        find_call(b, e, ty, dflt) is Some ==> is_default_call(
            b,
            find_call(b, e, ty, dflt).unwrap(),
            ty,
            dflt,
        ),
    decreases e + 1, 0int,
{
    if e < b.exprs.len() {
        lemma_find_list_complete(b, children(b.exprs[e as int].kind, true), ty, dflt, e);
    }
}

/// The scan of `ids` finds a call exactly when one of them contains one.
pub proof fn lemma_find_list_complete(
    b: Body,
    ids: Seq<ExprId>,
    ty: DefId,
    dflt: Option<DefId>,
    bound: ExprId,
)
    ensures
        find_list(b, ids, ty, dflt, bound) is Some <==> contains_list(b, ids, ty, dflt, bound),
        find_list(b, ids, ty, dflt, bound) is Some ==> is_default_call(
            b,
            find_list(b, ids, ty, dflt, bound).unwrap(),
            ty,
            dflt,
        ),
    decreases bound, ids.len(),
{
    if ids.len() > 0 && ids[0] < bound {
        lemma_find_call_complete(b, ids[0], ty, dflt);
        lemma_find_list_complete(b, ids.drop_first(), ty, dflt, bound);
    }
}

fn check_default_call(b: &Body, e: ExprId, ty: DefId, dflt: Option<DefId>) -> (r: bool)
    requires
        e < b.exprs.len(),
    ensures
        r == is_default_call(*b, e, ty, dflt),
{
    if let ExprKind::Call { func, .. } = &b.exprs[e].kind {
        if *func < b.exprs.len() {
            if let ExprKind::Path { qpath, callee: Some(c), .. } = &b.exprs[*func].kind {
                if let Some(t) = c.trait_of {
                    return is_default_method_on_current_ty(qpath, ty) && dflt == Some(t);
                }
            }
        }
    }
    false
}

/// Finds the first call of `default` of `ty` within `e`, operands first.
pub fn find_default_call(b: &Body, e: ExprId, ty: DefId, dflt: Option<DefId>) -> (r: Option<ExprId>)
    requires
        b.wf(),
        e < b.exprs.len(),
    ensures
        r == find_call(*b, e, ty, dflt),
        r is Some ==> r.unwrap() < b.exprs.len(),
    decreases e + 1, 0int,
{
    let ids = children_vec(&b.exprs[e].kind, true);
    proof {
        assert(crate::hir::node_wf(b.exprs[e as int].kind, e as int));
    }
    match find_default_call_in(b, &ids, ty, dflt, e) {
        Some(x) => Some(x),
        None => if check_default_call(b, e, ty, dflt) {
            Some(e)
        } else {
            None
        },
    }
}

fn find_default_call_in(b: &Body, ids: &Vec<ExprId>, ty: DefId, dflt: Option<DefId>, bound: ExprId) -> (r: Option<ExprId>)
    requires
        b.wf(),
        bound <= b.exprs.len(),
        forall|j: int| 0 <= j < ids@.len() ==> ids@[j] < bound,
    ensures
        r == find_list(*b, ids@, ty, dflt, bound),
        r is Some ==> r.unwrap() < b.exprs.len(),
    decreases bound, ids@.len(),
{
    let mut i: usize = 0;
    assert(ids@.skip(0) =~= ids@);
    while i < ids.len()
        invariant
            b.wf(),
            bound <= b.exprs.len(),
            forall|j: int| 0 <= j < ids@.len() ==> ids@[j] < bound,
            i <= ids.len(),
            find_list(*b, ids@, ty, dflt, bound) == find_list(*b, ids@.skip(i as int), ty, dflt, bound),
        decreases ids.len() - i,
    {
        assert(ids@.skip(i as int)[0] == ids@[i as int]);
        assert(ids@.skip(i as int).drop_first() =~= ids@.skip(i + 1));
        if let Some(x) = find_default_call(b, ids[i], ty, dflt) {
            return Some(x);
        }
        i += 1;
    }
    assert(ids@.skip(i as int).len() == 0);
    None
}

/// The first item of `items` that is a local function named `default`.
pub open spec fn default_item(items: Seq<AssocItem>) -> Option<AssocItem>
    decreases items.len(),
{
    if items.len() == 0 {
        None
    } else if items[0].is_fn && items[0].is_local && items[0].name == DEFAULT_KW {
        Some(items[0])
    } else {
        default_item(items.drop_first())
    }
}

/// The function that the single exit of `b` calls directly, when `b` has a single
/// exit and that exit is a call of a path resolved to a function.
pub open spec fn sole_call_target(b: Body) -> Option<DefId> {
    let rs = returns_of(b);
    if rs.len() == 1 && rs[0] < b.exprs.len() {
        match b.exprs[rs[0] as int].kind {
            ExprKind::Call { func, .. } => if func < b.exprs.len() {
                match b.exprs[func as int].kind {
                    ExprKind::Path { callee: Some(c), .. } => Some(c.def_id),
                    _ => None,
                }
            } else {
                None
            },
            _ => None,
        }
    } else {
        None
    }
}

/// What a written impl of trait `dflt` for a nominal type records: the type, and the
/// function that its `default` does nothing but call.
pub open spec fn delegate_of(imp: TraitImpl, dflt: DefId) -> Option<(DefId, DefId)> {
    if imp.trait_id == dflt && !imp.derived {
        match (imp.self_def, default_item(imp.items@)) {
            (Some(ty), Some(item)) => match item.body {
                Some(b) => match sole_call_target(b) {
                    Some(target) => Some((ty, target)),
                    None => None,
                },
                None => None,
            },
            _ => None,
        }
    } else {
        None
    }
}

/// The delegates recorded from `impls`, a later impl of a type overriding an earlier one.
pub open spec fn delegates_from(impls: Seq<TraitImpl>, dflt: DefId) -> Map<DefId, DefId>
    decreases impls.len(),
{
    if impls.len() == 0 {
        Map::empty()
    } else {
        let m = delegates_from(impls.drop_last(), dflt);
        match delegate_of(impls.last(), dflt) {
            Some((ty, target)) => m.insert(ty, target),
            None => m,
        }
    }
}

fn find_default_item(items: &Vec<AssocItem>) -> (r: Option<usize>)
    ensures
        match r {
            Some(i) => i < items.len() && default_item(items@) == Some(items@[i as int]),
            None => default_item(items@) is None,
        },
{
    let mut i: usize = 0;
    assert(items@.skip(0) =~= items@);
    while i < items.len()
        invariant
            i <= items.len(),
            default_item(items@) == default_item(items@.skip(i as int)),
        decreases items.len() - i,
    {
        assert(items@.skip(i as int)[0] == items@[i as int]);
        assert(items@.skip(i as int).drop_first() =~= items@.skip(i + 1));
        let it = &items[i];
        if it.is_fn && it.is_local && it.name == DEFAULT_KW {
            return Some(i);
        }
        i += 1;
    }
    None
}

fn get_sole_call_target(b: &Body) -> (r: Option<DefId>)
    requires
        b.wf(),
    ensures
        r == sole_call_target(*b),
{
    let rs = get_return_calls_in_body(b);
    if rs.len() != 1 || rs[0] >= b.exprs.len() {
        return None;
    }
    if let ExprKind::Call { func, .. } = &b.exprs[rs[0]].kind {
        if *func < b.exprs.len() {
            if let ExprKind::Path { callee: Some(c), .. } = &b.exprs[*func].kind {
                return Some(c.def_id);
            }
        }
    }
    None
}

/// Returns the type and delegate that the impl `imp` records, if it records one.
pub fn delegate_entry(imp: &TraitImpl, dflt: DefId) -> (r: Option<(DefId, DefId)>)
    requires
        forall|j: int| 0 <= j < imp.items.len() ==> opt_wf(#[trigger] imp.items[j].body),
    ensures
        r == delegate_of(*imp, dflt),
{
    if imp.trait_id != dflt || imp.derived {
        return None;
    }
    let ty = match imp.self_def {
        Some(ty) => ty,
        None => return None,
    };
    let i = match find_default_item(&imp.items) {
        Some(i) => i,
        None => return None,
    };
    match &imp.items[i].body {
        Some(b) => {
            assert(opt_wf(imp.items[i as int].body));
            match get_sole_call_target(b) {
                Some(target) => Some((ty, target)),
                None => None,
            }
        },
        None => None,
    }
}

} // verus!
