use unconditional_recursion::exits::{expr_or_init, get_return_calls_in_body, has_conditional_return, peel_blocks};
use unconditional_recursion::factory::is_default_method_on_current_ty;
use unconditional_recursion::hir::{
    get_hir_ty_def_id, get_ty_def_id, AssocItem, BinOpKind, Body, Callee, DefId, Expr, ExprKind,
    FnDef, HirTy, ImplInfo, PathSegment, QPath, Res, Span, TraitDef, TraitImpl, Ty, Unit,
};
use unconditional_recursion::registry::get_trait_def_id;
use unconditional_recursion::sym::{
    ALLOC, CMP, CORE, DEFAULT_KW, DEFAULT_MOD, DEFAULT_TRAIT, EQ, FIRST_FREE, NE, PARTIAL_EQ,
    STRING, TO_STRING, TO_STRING_TRAIT,
};
use unconditional_recursion::{Diagnostic, UnconditionalRecursion};

const PARTIAL_EQ_ID: DefId = 1;
const TO_STRING_ID: DefId = 2;
const DEFAULT_ID: DefId = 3;
const FOO: DefId = 1000;
const NEW: u32 = FIRST_FREE;
const COND: u32 = FIRST_FREE + 1;

fn sp(lo: u32) -> Span {
    Span { lo, hi: lo + 5 }
}

fn ref_foo() -> Ty {
    Ty::Ref(Box::new(Ty::Adt(FOO)))
}

fn add(b: &mut Body, kind: ExprKind, lo: u32, ty: Option<Ty>) -> usize {
    b.add(Expr { kind, span: sp(lo), ty }).expect("operands stand before their user")
}

fn local(b: &mut Body, lo: u32, ty: Option<Ty>) -> usize {
    add(b, ExprKind::Path { qpath: QPath::LangItem, callee: None, local_init: None }, lo, ty)
}

fn block(b: &mut Body, stmts: Vec<usize>, tail: Option<usize>, lo: u32) -> usize {
    add(b, ExprKind::Block { stmts, tail }, lo, None)
}

fn traits() -> Vec<TraitDef> {
    vec![
        TraitDef { path: vec![CORE, CMP, PARTIAL_EQ], def_id: PARTIAL_EQ_ID },
        TraitDef { path: vec![ALLOC, STRING, TO_STRING_TRAIT], def_id: TO_STRING_ID },
        TraitDef { path: vec![CORE, DEFAULT_MOD, DEFAULT_TRAIT], def_id: DEFAULT_ID },
    ]
}

fn unit_with(impls: Vec<TraitImpl>) -> Unit {
    Unit { traits: traits(), impls }
}

fn trait_impl(t: DefId, derived: bool) -> Option<ImplInfo> {
    Some(ImplInfo { of_trait: Some(t), derived, self_ty: HirTy::Resolved(Res::Def(FOO)) })
}

fn inherent_impl() -> Option<ImplInfo> {
    Some(ImplInfo { of_trait: None, derived: false, self_ty: HirTy::Resolved(Res::Def(FOO)) })
}

/// `{ self <op> other }`; returns the body and the comparison's index.
fn compare_body(op: BinOpKind) -> (Body, usize) {
    let mut b = Body::new();
    let l = local(&mut b, 20, Some(ref_foo()));
    let r = local(&mut b, 30, Some(ref_foo()));
    let c = add(&mut b, ExprKind::Binary { op, left: l, right: r }, 25, Some(Ty::Other));
    b.value = block(&mut b, vec![], Some(c), 15);
    (b, c)
}

fn eq_method(name: u32, body: Body, derived: bool) -> FnDef {
    FnDef {
        def_id: 50,
        name: Some(name),
        has_self: true,
        inputs: vec![ref_foo(), ref_foo()],
        parent_impl: trait_impl(PARTIAL_EQ_ID, derived),
        span: Span { lo: 10, hi: 90 },
        body,
    }
}

fn check(unit: &Unit, f: &FnDef) -> Vec<Diagnostic> {
    let mut rule = UnconditionalRecursion::new();
    assert!(unit.is_wf() && f.body.is_wf());
    rule.check_fn(unit, f)
}

#[test]
fn eq_comparing_self_with_other_is_flagged() {
    let (b, c) = compare_body(BinOpKind::Eq);
    let f = eq_method(EQ, b, false);
    let found = check(&unit_with(vec![]), &f);
    assert_eq!(found, vec![Diagnostic { span: Span { lo: 10, hi: 90 }, note_span: sp(25) }]);
    assert_eq!(found[0].note_span, f.body.exprs[c].span);
    assert_eq!(found[0].message(), "function cannot return without recursing");
    assert_eq!(found[0].note(), "recursive call site");
}

#[test]
fn eq_with_not_equal_operator_is_not_flagged() {
    let (b, _) = compare_body(BinOpKind::Ne);
    let f = eq_method(EQ, b, false);
    assert!(check(&unit_with(vec![]), &f).is_empty());
}

#[test]
fn ne_with_not_equal_operator_is_flagged() {
    let (b, _) = compare_body(BinOpKind::Ne);
    let f = eq_method(NE, b, false);
    assert_eq!(check(&unit_with(vec![]), &f), vec![Diagnostic { span: Span { lo: 10, hi: 90 }, note_span: sp(25) }]);
}

#[test]
fn ne_with_equal_operator_is_not_flagged() {
    let (b, _) = compare_body(BinOpKind::Eq);
    let f = eq_method(NE, b, false);
    assert!(check(&unit_with(vec![]), &f).is_empty());
}

#[test]
fn eq_comparing_other_types_is_not_flagged() {
    let mut b = Body::new();
    let l = local(&mut b, 20, Some(Ty::Adt(2000)));
    let r = local(&mut b, 30, Some(Ty::Adt(2000)));
    let c = add(&mut b, ExprKind::Binary { op: BinOpKind::Eq, left: l, right: r }, 25, None);
    b.value = block(&mut b, vec![], Some(c), 15);
    assert!(check(&unit_with(vec![]), &eq_method(EQ, b, false)).is_empty());
}

#[test]
fn eq_calling_eq_method_is_flagged() {
    let mut b = Body::new();
    let s = local(&mut b, 20, Some(ref_foo()));
    let o = local(&mut b, 30, Some(ref_foo()));
    let callee = Some(Callee { def_id: 51, trait_of: Some(PARTIAL_EQ_ID) });
    let m = add(&mut b, ExprKind::MethodCall { name: EQ, receiver: s, args: vec![o], callee }, 40, None);
    b.value = block(&mut b, vec![], Some(m), 15);
    let found = check(&unit_with(vec![]), &eq_method(EQ, b, false));
    assert_eq!(found, vec![Diagnostic { span: Span { lo: 10, hi: 90 }, note_span: sp(40) }]);
}

#[test]
fn two_exits_are_never_flagged() {
    // { if cond { return self == other; } self == other }
    let mut b = Body::new();
    let l1 = local(&mut b, 20, Some(ref_foo()));
    let r1 = local(&mut b, 22, Some(ref_foo()));
    let c1 = add(&mut b, ExprKind::Binary { op: BinOpKind::Eq, left: l1, right: r1 }, 21, None);
    let ret = add(&mut b, ExprKind::Ret(Some(c1)), 19, None);
    let cond = local(&mut b, 17, None);
    let then_b = block(&mut b, vec![ret], None, 18);
    let iff = add(&mut b, ExprKind::If { cond, then_branch: then_b, else_branch: None }, 16, None);
    let l2 = local(&mut b, 40, Some(ref_foo()));
    let r2 = local(&mut b, 42, Some(ref_foo()));
    let c2 = add(&mut b, ExprKind::Binary { op: BinOpKind::Eq, left: l2, right: r2 }, 41, None);
    b.value = block(&mut b, vec![iff], Some(c2), 15);
    assert!(b.is_wf());
    assert_eq!(get_return_calls_in_body(&b), vec![c1, c2]);
    assert!(has_conditional_return(&b, c2));
    assert!(check(&unit_with(vec![]), &eq_method(EQ, b, false)).is_empty());
}

#[test]
fn if_else_in_tail_gives_both_branches() {
    let mut b = Body::new();
    let cond = local(&mut b, 1, None);
    let x = local(&mut b, 2, None);
    let y = local(&mut b, 3, None);
    let iff = add(&mut b, ExprKind::If { cond, then_branch: x, else_branch: Some(y) }, 4, None);
    b.value = block(&mut b, vec![], Some(iff), 5);
    assert_eq!(get_return_calls_in_body(&b), vec![x, y]);
}

#[test]
fn body_without_exit_is_conditional() {
    let mut b = Body::new();
    let s = local(&mut b, 1, None);
    b.value = block(&mut b, vec![s], None, 2);
    assert_eq!(get_return_calls_in_body(&b), Vec::<usize>::new());
    assert!(has_conditional_return(&b, 0));
    assert!(check(&unit_with(vec![]), &eq_method(EQ, b, false)).is_empty());
}

#[test]
fn derived_eq_is_never_flagged() {
    let (b, _) = compare_body(BinOpKind::Eq);
    assert!(check(&unit_with(vec![]), &eq_method(EQ, b, true)).is_empty());
}

#[test]
fn eq_without_equality_trait_in_unit_is_not_flagged() {
    let (b, _) = compare_body(BinOpKind::Eq);
    let unit = Unit { traits: vec![], impls: vec![] };
    assert!(check(&unit, &eq_method(EQ, b, false)).is_empty());
}

#[test]
fn free_function_is_not_checked() {
    let (b, _) = compare_body(BinOpKind::Eq);
    let mut f = eq_method(EQ, b, false);
    f.name = None;
    assert!(check(&unit_with(vec![]), &f).is_empty());
}

fn to_string_method(trait_of: Option<DefId>, args: usize) -> FnDef {
    let mut b = Body::new();
    let s = local(&mut b, 20, Some(ref_foo()));
    let mut arg_ids = Vec::new();
    for i in 0..args {
        arg_ids.push(local(&mut b, 21 + i as u32, None));
    }
    let callee = Some(Callee { def_id: 77, trait_of });
    let m = add(&mut b, ExprKind::MethodCall { name: TO_STRING, receiver: s, args: arg_ids, callee }, 30, None);
    b.value = block(&mut b, vec![], Some(m), 15);
    FnDef {
        def_id: 52,
        name: Some(TO_STRING),
        has_self: true,
        inputs: vec![ref_foo()],
        parent_impl: trait_impl(TO_STRING_ID, false),
        span: Span { lo: 100, hi: 150 },
        body: b,
    }
}

#[test]
fn to_string_calling_itself_is_flagged() {
    let f = to_string_method(Some(TO_STRING_ID), 0);
    assert_eq!(check(&unit_with(vec![]), &f), vec![Diagnostic { span: Span { lo: 100, hi: 150 }, note_span: sp(30) }]);
}

#[test]
fn to_string_calling_unrelated_to_string_is_not_flagged() {
    let f = to_string_method(Some(4242), 0);
    assert!(check(&unit_with(vec![]), &f).is_empty());
    let g = to_string_method(None, 0);
    assert!(check(&unit_with(vec![]), &g).is_empty());
}

#[test]
fn to_string_call_with_an_argument_is_not_flagged() {
    let f = to_string_method(Some(TO_STRING_ID), 1);
    assert!(check(&unit_with(vec![]), &f).is_empty());
}

/// `impl Default for Foo { fn default() -> Self { Self::new() } }`
fn default_impl(derived: bool) -> TraitImpl {
    let mut b = Body::new();
    let p = add(
        &mut b,
        ExprKind::Path {
            qpath: QPath::TypeRelative { self_ty: HirTy::Resolved(Res::SelfTyAlias), name: NEW },
            callee: Some(Callee { def_id: 70, trait_of: None }),
            local_init: None,
        },
        200,
        None,
    );
    let c = add(&mut b, ExprKind::Call { func: p, args: vec![] }, 201, None);
    b.value = block(&mut b, vec![], Some(c), 199);
    TraitImpl {
        trait_id: DEFAULT_ID,
        self_def: Some(FOO),
        derived,
        items: vec![AssocItem { def_id: 60, name: DEFAULT_KW, is_fn: true, is_local: true, body: Some(b) }],
    }
}

/// `impl Foo { fn new() -> Self { <qpath>() } }`
fn new_fn(qpath: QPath) -> FnDef {
    let mut b = Body::new();
    let p = add(
        &mut b,
        ExprKind::Path { qpath, callee: Some(Callee { def_id: 60, trait_of: Some(DEFAULT_ID) }), local_init: None },
        300,
        None,
    );
    let c = add(&mut b, ExprKind::Call { func: p, args: vec![] }, 301, None);
    b.value = block(&mut b, vec![], Some(c), 299);
    FnDef {
        def_id: 70,
        name: Some(NEW),
        has_self: false,
        inputs: vec![],
        parent_impl: inherent_impl(),
        span: Span { lo: 290, hi: 320 },
        body: b,
    }
}

fn self_default() -> QPath {
    QPath::TypeRelative { self_ty: HirTy::Resolved(Res::SelfTyAlias), name: DEFAULT_KW }
}

#[test]
fn new_calling_default_that_calls_new_is_flagged() {
    let unit = unit_with(vec![default_impl(false)]);
    let f = new_fn(self_default());
    assert_eq!(check(&unit, &f), vec![Diagnostic { span: Span { lo: 290, hi: 320 }, note_span: sp(301) }]);
}

#[test]
fn new_calling_named_type_default_is_flagged() {
    let unit = unit_with(vec![default_impl(false)]);
    let q = QPath::Resolved {
        segments: vec![PathSegment { name: FIRST_FREE + 7, res: Some(FOO) }, PathSegment { name: DEFAULT_KW, res: Some(60) }],
    };
    assert_eq!(check(&unit, &new_fn(q)).len(), 1);
}

#[test]
fn new_calling_trait_default_path_is_not_flagged() {
    let unit = unit_with(vec![default_impl(false)]);
    let q = QPath::Resolved {
        segments: vec![
            PathSegment { name: DEFAULT_TRAIT, res: Some(DEFAULT_ID) },
            PathSegment { name: DEFAULT_KW, res: Some(60) },
        ],
    };
    assert!(check(&unit, &new_fn(q)).is_empty());
}

#[test]
fn new_without_exit_is_not_flagged() {
    // fn new() -> Self { let _x = Self::default(); panic!(); }
    let unit = unit_with(vec![default_impl(false)]);
    let mut f = new_fn(self_default());
    let call = 1;
    let p = add(&mut f.body, ExprKind::Other { children: vec![] }, 310, None);
    let stop = add(&mut f.body, ExprKind::Call { func: p, args: vec![] }, 311, None);
    f.body.value = block(&mut f.body, vec![call, stop], None, 305);
    assert_eq!(get_return_calls_in_body(&f.body), Vec::<usize>::new());
    assert!(check(&unit, &f).is_empty());
}

#[test]
fn new_not_delegated_to_is_not_flagged() {
    let unit = unit_with(vec![default_impl(false)]);
    let mut f = new_fn(self_default());
    f.def_id = 71;
    assert!(check(&unit, &f).is_empty());
}

#[test]
fn derived_default_records_no_delegate() {
    let unit = unit_with(vec![default_impl(true)]);
    assert!(check(&unit, &new_fn(self_default())).is_empty());
}

#[test]
fn default_method_of_derived_impl_is_never_flagged() {
    let unit = unit_with(vec![default_impl(false)]);
    let mut f = new_fn(self_default());
    f.parent_impl = trait_impl(DEFAULT_ID, true);
    assert!(check(&unit, &f).is_empty());
}

#[test]
fn rerun_gives_identical_findings() {
    let unit = unit_with(vec![default_impl(false)]);
    let (b, _) = compare_body(BinOpKind::Eq);
    let fns = vec![eq_method(EQ, b, false), new_fn(self_default()), to_string_method(Some(TO_STRING_ID), 0)];
    let mut rule = UnconditionalRecursion::new();
    let first = rule.check_fns(&unit, &fns);
    let second = rule.check_fns(&unit, &fns);
    let mut fresh = UnconditionalRecursion::default();
    let third = fresh.check_fns(&unit, &fns);
    assert_eq!(first.len(), 3);
    assert_eq!(first, second);
    assert_eq!(first, third);
    assert!(rule.built);
    assert_eq!(rule.default_impl_for_type.get(&FOO), Some(&70));
}

#[test]
fn trait_lookup_by_path() {
    let unit = unit_with(vec![]);
    assert_eq!(get_trait_def_id(&unit, &[CORE, CMP, PARTIAL_EQ]), Some(PARTIAL_EQ_ID));
    assert_eq!(get_trait_def_id(&unit, &[CORE, DEFAULT_MOD, DEFAULT_TRAIT]), Some(DEFAULT_ID));
    assert_eq!(get_trait_def_id(&unit, &[CORE, CMP]), None);
}

#[test]
fn type_ids_strip_references() {
    assert_eq!(get_ty_def_id(&Ty::Ref(Box::new(Ty::Ref(Box::new(Ty::Foreign(9)))))), Some(9));
    assert_eq!(get_ty_def_id(&Ty::Ref(Box::new(Ty::Other))), None);
    assert_eq!(get_hir_ty_def_id(&HirTy::Resolved(Res::Def(4))), Some(4));
    assert_eq!(get_hir_ty_def_id(&HirTy::Resolved(Res::SelfTyAlias)), None);
    assert_eq!(get_hir_ty_def_id(&HirTy::TypeRelative { projection_trait: Some(6) }), Some(6));
    assert_eq!(get_hir_ty_def_id(&HirTy::NotPath), None);
}

#[test]
fn default_path_recognition() {
    assert!(is_default_method_on_current_ty(&self_default(), FOO));
    let other = QPath::TypeRelative { self_ty: HirTy::Resolved(Res::Def(5)), name: DEFAULT_KW };
    assert!(!is_default_method_on_current_ty(&other, FOO));
    let wrong_name = QPath::TypeRelative { self_ty: HirTy::Resolved(Res::SelfTyAlias), name: NEW };
    assert!(!is_default_method_on_current_ty(&wrong_name, FOO));
    let short = QPath::Resolved { segments: vec![PathSegment { name: DEFAULT_KW, res: Some(FOO) }] };
    assert!(!is_default_method_on_current_ty(&short, FOO));
    assert!(!is_default_method_on_current_ty(&QPath::LangItem, FOO));
}

#[test]
fn locals_and_blocks_are_followed() {
    let mut b = Body::new();
    let init = local(&mut b, 1, None);
    let inner = block(&mut b, vec![], Some(init), 2);
    let outer = block(&mut b, vec![], Some(inner), 3);
    let via = add(&mut b, ExprKind::Path { qpath: QPath::LangItem, callee: None, local_init: Some(outer) }, 4, None);
    b.value = via;
    assert_eq!(expr_or_init(&b, via), outer);
    assert_eq!(peel_blocks(&b, outer), init);
    let with_stmt = block(&mut b, vec![init], Some(init), 5);
    assert_eq!(peel_blocks(&b, with_stmt), with_stmt);
}

#[test]
fn arena_rejects_forward_operands() {
    let mut b = Body::new();
    assert_eq!(b.add(Expr { kind: ExprKind::Ret(Some(0)), span: sp(1), ty: None }), None);
    assert!(b.exprs.is_empty());
    assert!(!b.is_wf());
    let x = add(&mut b, ExprKind::Other { children: vec![] }, 1, None);
    b.value = x;
    assert!(b.is_wf());
    b.value = 7;
    assert!(!b.is_wf());
    let closure = b.add(Expr { kind: ExprKind::Closure { body: 1 }, span: sp(2), ty: None });
    assert_eq!(closure, None);
}

#[test]
fn return_inside_closure_is_not_an_exit() {
    let mut b = Body::new();
    let x = local(&mut b, 1, None);
    let r = add(&mut b, ExprKind::Ret(Some(x)), 2, None);
    let cl = add(&mut b, ExprKind::Closure { body: r }, 3, None);
    let s = add(&mut b, ExprKind::Other { children: vec![cl] }, 4, None);
    b.value = block(&mut b, vec![s], None, 5);
    assert_eq!(get_return_calls_in_body(&b), Vec::<usize>::new());
    let r2 = add(&mut b, ExprKind::Ret(Some(x)), 6, None);
    b.value = block(&mut b, vec![r2], None, 7);
    assert_eq!(get_return_calls_in_body(&b), vec![x]);
}
