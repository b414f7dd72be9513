//! Self-recursion in the methods of the equality and stringification traits:
//! `self == other` inside `eq`, `self.to_string()` inside `to_string`.

use vstd::prelude::*;
use crate::diagnostic::Diagnostic;
use crate::hir::{get_ty_def_id, ty_def, BinOpKind, Body, Callee, DefId, ExprId, ExprKind, FnDef, Unit};
use crate::registry::{get_partial_eq, get_to_string, partial_eq_trait, to_string_trait};
use crate::sym::{Symbol, EQ};

verus! {

/// The trait that `f`'s impl block implements, unless the impl was derived.
pub open spec fn impl_trait(f: FnDef) -> Option<DefId> {
    match f.parent_impl {
        Some(i) => if i.derived {
            None
        } else {
            i.of_trait
        },
        None => None,
    }
}

/// The nominal type of expression `e`, references stripped.
pub open spec fn expr_def(b: Body, e: ExprId) -> Option<DefId> {
    if e < b.exprs.len() {
        match b.exprs[e as int].ty {
            Some(t) => ty_def(t),
            None => None,
        }
    } else {
        None
    }
}

/// The call resolved to an item of trait `t`.
pub open spec fn resolves_into(callee: Option<Callee>, t: DefId) -> bool {
    match callee {
        Some(c) => c.trait_of == Some(t),
        None => false,
    }
}

/// The finding on `f` with `e` as its recursive call site.
pub open spec fn finding(f: FnDef, e: ExprId) -> Diagnostic {
    Diagnostic { span: f.span, note_span: f.body.exprs[e as int].span }
}

/// The operator that the method `name` implements: `==` for `eq`, `!=` otherwise.
pub open spec fn op_of(name: Symbol) -> BinOpKind {
    if name == EQ {
        BinOpKind::Eq
    } else {
        BinOpKind::Ne
    }
}

/// `f` is the method `name` of a written `PartialEq` impl, taking `self` and one
/// other value of the same nominal type, and its exit `e` is that same operation
/// again: the operator of `name` on two values of that type, or a call of a method
/// `name` with one argument that resolves into `PartialEq`.
pub open spec fn partial_eq_recurses(u: Unit, f: FnDef, name: Symbol, e: ExprId) -> bool {
    &&& f.inputs.len() == 2
    &&& ty_def(f.inputs[0]) matches Some(s)
    &&& ty_def(f.inputs[1]) == Some(s)
    &&& impl_trait(f) matches Some(t)
    &&& partial_eq_trait(u) == Some(t)
    &&& e < f.body.exprs.len()
    &&& match f.body.exprs[e as int].kind {
        ExprKind::Binary { op, left, right } => op == op_of(name) && expr_def(f.body, left) == Some(
            s,
        ) && expr_def(f.body, right) == Some(s),
        ExprKind::MethodCall { name: n, args, callee, .. } => n == name && args.len() == 1
            && resolves_into(callee, t),
        _ => false,
    }
}

/// `f` is the method `name` of a written `ToString` impl, taking `self` alone, and
/// its exit `e` calls a method `name` with no argument that resolves into `ToString`.
pub open spec fn to_string_recurses(u: Unit, f: FnDef, name: Symbol, e: ExprId) -> bool {
    &&& f.inputs.len() == 1
    &&& impl_trait(f) matches Some(t)
    &&& to_string_trait(u) == Some(t)
    &&& e < f.body.exprs.len()
    &&& match f.body.exprs[e as int].kind {
        ExprKind::MethodCall { name: n, args, callee, .. } => n == name && args.len() == 0
            && resolves_into(callee, t),
        _ => false,
    }
}

/// Returns the trait that `f`'s impl block implements, unless the impl was derived.
pub fn get_impl_trait_def_id(f: &FnDef) -> (r: Option<DefId>)
    ensures
        r == impl_trait(*f),
{
    match &f.parent_impl {
        Some(i) => if i.derived {
            None
        } else {
            i.of_trait
        },
        None => None,
    }
}

fn get_expr_def_id(b: &Body, e: ExprId) -> (r: Option<DefId>)
    ensures
        r == expr_def(*b, e),
{
    if e >= b.exprs.len() {
        return None;
    }
    match &b.exprs[e].ty {
        Some(t) => get_ty_def_id(t),
        None => None,
    }
}

/// Reports `f` when its exit `expr` calls the equality method `name` back.
pub fn check_partial_eq(unit: &Unit, f: &FnDef, name: Symbol, expr: ExprId) -> (r: Option<Diagnostic>)
    requires
        f.body.wf(),
        expr < f.body.exprs.len(),
    ensures
        r == if partial_eq_recurses(*unit, *f, name, expr) {
            Some(finding(*f, expr))
        } else {
            None
        },
{
    if f.inputs.len() != 2 {
        return None;
    }
    let self_arg = match get_ty_def_id(&f.inputs[0]) {
        Some(d) => d,
        None => return None,
    };
    match get_ty_def_id(&f.inputs[1]) {
        Some(d) => if d != self_arg {
            return None;
        },
        None => return None,
    }
    let trait_def_id = match get_impl_trait_def_id(f) {
        Some(t) => t,
        None => return None,
    };
    match get_partial_eq(unit) {
        Some(t) => if t != trait_def_id {
            return None;
        },
        None => return None,
    }
    let to_check_op = if name == EQ {
        BinOpKind::Eq
    } else {
        BinOpKind::Ne
    };
    let e = &f.body.exprs[expr];
    let is_bad = match &e.kind {
        ExprKind::Binary { op, left, right } => {
            *op == to_check_op && get_expr_def_id(&f.body, *left) == Some(self_arg)
                && get_expr_def_id(&f.body, *right) == Some(self_arg)
        },
        ExprKind::MethodCall { name: n, args, callee, .. } => {
            *n == name && args.len() == 1 && match callee {
                Some(c) => c.trait_of == Some(trait_def_id),
                None => false,
            }
        },
        _ => false,
    };
    if is_bad {
        Some(Diagnostic { span: f.span, note_span: e.span })
    } else {
        None
    }
}

/// Reports `f` when its exit `expr` calls the stringification method `name` back.
pub fn check_to_string(unit: &Unit, f: &FnDef, name: Symbol, expr: ExprId) -> (r: Option<Diagnostic>)
    requires
        f.body.wf(),
        expr < f.body.exprs.len(),
    ensures
        r == if to_string_recurses(*unit, *f, name, expr) {
            Some(finding(*f, expr))
        } else {
            None
        },
{
    if f.inputs.len() != 1 {
        return None;
    }
    let trait_def_id = match get_impl_trait_def_id(f) {
        Some(t) => t,
        None => return None,
    };
    match get_to_string(unit) {
        Some(t) => if t != trait_def_id {
            return None;
        },
        None => return None,
    }
    let e = &f.body.exprs[expr];
    let is_bad = match &e.kind {
        ExprKind::MethodCall { name: n, args, callee, .. } => {
            *n == name && args.len() == 0 && match callee {
                Some(c) => c.trait_of == Some(trait_def_id),
                None => false,
            }
        },
        _ => false,
    };
    if is_bad {
        Some(Diagnostic { span: f.span, note_span: e.span })
    } else {
        None
    }
}

} // verus!
