//! The typed, resolved program view that the host front end hands to the rule.
//!
//! A function body is an arena of expressions. An expression refers to its
//! operands by their index in the arena, and every operand stands before the
//! expression that uses it, so that the index of an expression also serves as
//! its identity within the body.

use vstd::prelude::*;
use crate::sym::Symbol;

verus! {

/// Identity of a definition (type, trait, function) within one analysis run.
pub type DefId = u64;

/// Index of an expression in its body's arena.
pub type ExprId = usize;

/// A source range.
#[derive(Clone, Copy, Debug, PartialEq, Eq, Structural)]
pub struct Span {
    pub lo: u32,
    pub hi: u32,
}

/// A resolved (type-checked) type, as far as the rule looks at it.
#[derive(Debug)]
pub enum Ty {
    /// A reference `&T` or `&mut T`.
    Ref(Box<Ty>),
    /// A struct, enum or union, by its definition.
    Adt(DefId),
    /// A foreign (extern) type, by its definition.
    Foreign(DefId),
    /// Any other type.
    Other,
}

/// The nominal type under any layers of references, if there is one.
pub open spec fn ty_def(t: Ty) -> Option<DefId>
    decreases t,
{
    match t {
        Ty::Ref(inner) => ty_def(*inner),
        Ty::Adt(d) => Some(d),
        Ty::Foreign(d) => Some(d),
        Ty::Other => None,
    }
}

/// Strips references from `t` and returns the nominal type beneath, if any.
pub fn get_ty_def_id(t: &Ty) -> (r: Option<DefId>)
    ensures
        r == ty_def(*t),
    decreases t,
{
    match t {
        Ty::Ref(inner) => get_ty_def_id(inner),
        Ty::Adt(d) => Some(*d),
        Ty::Foreign(d) => Some(*d),
        Ty::Other => None,
    }
}

/// What a resolved path refers to.
#[derive(Clone, Copy, Debug, PartialEq, Eq, Structural)]
pub enum Res {
    /// A definition.
    Def(DefId),
    /// The `Self` type alias of an impl block.
    SelfTyAlias,
    /// Anything else (a local, a primitive type, an error).
    Other,
}

impl Res {
    pub open spec fn def_spec(self) -> Option<DefId> {
        match self {
            Res::Def(d) => Some(d),
            _ => None,
        }
    }

    /// The definition referred to, if the resolution is one.
    pub fn opt_def_id(&self) -> (r: Option<DefId>)
        ensures
            r == self.def_spec(),
    {
        match self {
            Res::Def(d) => Some(*d),
            _ => None,
        }
    }
}

/// A type as written in the source, after name resolution.
#[derive(Clone, Debug)]
pub enum HirTy {
    /// A path resolved to `res` (`Foo`, `crate::Foo`, `Self`).
    Resolved(Res),
    /// A type-relative path (`<T as Tr>::Assoc`, `T::Assoc`); `projection_trait` is the
    /// trait of the projection that the path lowers to, when it lowers to one.
    TypeRelative { projection_trait: Option<DefId> },
    /// A path to a language item.
    LangItem,
    /// A type that is not a path (a reference, a tuple, a slice).
    NotPath,
}

/// The definition that a written type names, as far as it can be told from the path.
pub open spec fn hir_ty_def(t: HirTy) -> Option<DefId> {
    match t {
        HirTy::Resolved(res) => res.def_spec(),
        HirTy::TypeRelative { projection_trait } => projection_trait,
        HirTy::LangItem => None,
        HirTy::NotPath => None,
    }
}

/// Returns the definition that the written type `t` names, if it names one.
pub fn get_hir_ty_def_id(t: &HirTy) -> (r: Option<DefId>)
    ensures
        r == hir_ty_def(*t),
{
    match t {
        HirTy::Resolved(res) => res.opt_def_id(),
        HirTy::TypeRelative { projection_trait } => *projection_trait,
        HirTy::LangItem => None,
        HirTy::NotPath => None,
    }
}

/// One segment of a resolved path.
#[derive(Clone, Copy, Debug)]
pub struct PathSegment {
    pub name: Symbol,
    /// The definition that the path up to and including this segment resolves to.
    pub res: Option<DefId>,
}

/// A path in expression position.
#[derive(Clone, Debug)]
pub enum QPath {
    /// A fully resolved path such as `Foo::default` or `crate::make`.
    Resolved { segments: Vec<PathSegment> },
    /// An associated item of a type, `<Ty>::name` (`Self::default`, `T::default`).
    TypeRelative { self_ty: HirTy, name: Symbol },
    /// A path to a language item.
    LangItem,
}

/// The function that a call or path resolves to.
#[derive(Clone, Copy, Debug, PartialEq, Eq, Structural)]
pub struct Callee {
    pub def_id: DefId,
    /// The trait that the function is an item of, if it is a trait item.
    pub trait_of: Option<DefId>,
}

/// A binary operator.
#[derive(Clone, Copy, Debug, PartialEq, Eq, Structural)]
pub enum BinOpKind {
    Eq,
    Ne,
    Lt,
    Le,
    Gt,
    Ge,
    Other,
}

/// The shape of an expression. Operands are indices into the body's arena.
#[derive(Clone, Debug)]
pub enum ExprKind {
    /// `return` or `return e`.
    Ret(Option<ExprId>),
    /// A block: its statements (each given by the expression it evaluates) and its tail.
    Block { stmts: Vec<ExprId>, tail: Option<ExprId> },
    /// `if cond { then } else { else }`.
    If { cond: ExprId, then_branch: ExprId, else_branch: Option<ExprId> },
    /// `match scrutinee { .. }`, by the bodies of its arms.
    Match { scrutinee: ExprId, arms: Vec<ExprId> },
    /// `left op right`.
    Binary { op: BinOpKind, left: ExprId, right: ExprId },
    /// `receiver.name(args)`, with the method that type checking resolved it to.
    MethodCall { name: Symbol, receiver: ExprId, args: Vec<ExprId>, callee: Option<Callee> },
    /// `func(args)`.
    Call { func: ExprId, args: Vec<ExprId> },
    /// A path. `callee` is the function it resolves to, if any; `local_init` is the
    /// initializer of the immutable local it names, when it names one whose value is
    /// used without adjustment.
    Path { qpath: QPath, callee: Option<Callee>, local_init: Option<ExprId> },
    /// A closure, by the value of its body.
    Closure { body: ExprId },
    /// Any other expression, by its operands in evaluation order.
    Other { children: Vec<ExprId> },
}

/// One expression: its shape, where it stands, and its type if type checking gave one.
#[derive(Debug)]
pub struct Expr {
    pub kind: ExprKind,
    pub span: Span,
    pub ty: Option<Ty>,
}

pub open spec fn opt_seq(o: Option<ExprId>) -> Seq<ExprId> {
    match o {
        Some(e) => seq![e],
        None => seq![],
    }
}

/// The operands of an expression in the order a tree walk visits them. A closure's
/// body is an operand only where `closures` holds.
pub open spec fn children(k: ExprKind, closures: bool) -> Seq<ExprId> {
    match k {
        ExprKind::Ret(r) => opt_seq(r),
        ExprKind::Block { stmts, tail } => stmts@ + opt_seq(tail),
        ExprKind::If { cond, then_branch, else_branch } => seq![cond, then_branch] + opt_seq(
            else_branch,
        ),
        ExprKind::Match { scrutinee, arms } => seq![scrutinee] + arms@,
        ExprKind::Binary { left, right, .. } => seq![left, right],
        ExprKind::MethodCall { receiver, args, .. } => seq![receiver] + args@,
        ExprKind::Call { func, args } => seq![func] + args@,
        ExprKind::Path { .. } => seq![],
        ExprKind::Closure { body } => if closures {
            seq![body]
        } else {
            seq![]
        },
        ExprKind::Other { children } => children@,
    }
}

/// Every index that `k` refers to is below `i`.
pub open spec fn node_wf(k: ExprKind, i: int) -> bool {
    &&& forall|j: int| 0 <= j < children(k, true).len() ==> children(k, true)[j] < i
    &&& k matches ExprKind::Path { local_init: Some(x), .. } ==> x < i
}

/// A function body: the expression arena and the index of the body's value.
#[derive(Debug)]
pub struct Body {
    pub exprs: Vec<Expr>,
    pub value: ExprId,
}

fn append_ids(out: &mut Vec<ExprId>, ids: &Vec<ExprId>)
    ensures
        final(out)@ == old(out)@ + ids@,
{
    let mut i: usize = 0;
    while i < ids.len()
        invariant
            i <= ids.len(),
            out@ == old(out)@ + ids@.subrange(0, i as int),
        decreases ids.len() - i,
    {
        out.push(ids[i]);
        i += 1;
        assert(out@ =~= old(out)@ + ids@.subrange(0, i as int));
    }
    assert(ids@.subrange(0, i as int) =~= ids@);
}

fn push_opt(out: &mut Vec<ExprId>, o: Option<ExprId>)
    ensures
        final(out)@ == old(out)@ + opt_seq(o),
{
    if let Some(e) = o {
        out.push(e);
    }
    assert(out@ =~= old(out)@ + opt_seq(o));
}

/// Collects the operands of an expression of shape `k`, as [`children`] lists them.
pub fn children_vec(k: &ExprKind, closures: bool) -> (r: Vec<ExprId>)
    ensures
        r@ == children(*k, closures),
{
    let mut out: Vec<ExprId> = Vec::new();
    match k {
        ExprKind::Ret(r) => push_opt(&mut out, *r),
        ExprKind::Block { stmts, tail } => {
            append_ids(&mut out, stmts);
            push_opt(&mut out, *tail);
        },
        ExprKind::If { cond, then_branch, else_branch } => {
            out.push(*cond);
            out.push(*then_branch);
            push_opt(&mut out, *else_branch);
        },
        ExprKind::Match { scrutinee, arms } => {
            out.push(*scrutinee);
            append_ids(&mut out, arms);
        },
        ExprKind::Binary { left, right, .. } => {
            out.push(*left);
            out.push(*right);
        },
        ExprKind::MethodCall { receiver, args, .. } => {
            out.push(*receiver);
            append_ids(&mut out, args);
        },
        ExprKind::Call { func, args } => {
            out.push(*func);
            append_ids(&mut out, args);
        },
        ExprKind::Path { .. } => {},
        ExprKind::Closure { body } => {
            if closures {
                out.push(*body);
            }
        },
        ExprKind::Other { children } => append_ids(&mut out, children),
    }
    assert(out@ =~= children(*k, closures));
    out
}

/// Decides whether every index that `k` refers to is below `i`.
pub fn check_node(k: &ExprKind, i: usize) -> (r: bool)
    ensures
        r == node_wf(*k, i as int),
{
    let ids = children_vec(k, true);
    let mut j: usize = 0;
    while j < ids.len()
        invariant
            j <= ids.len(),
            ids@ == children(*k, true),
            forall|m: int| 0 <= m < j ==> ids@[m] < i,
        decreases ids.len() - j,
    {
        if ids[j] >= i {
            return false;
        }
        j += 1;
    }
    match k {
        ExprKind::Path { local_init: Some(x), .. } => *x < i,
        _ => true,
    }
}

impl Body {
    /// Every operand stands before its user, and the value is in the arena.
    pub open spec fn wf(&self) -> bool {
        &&& self.value < self.exprs.len()
        &&& forall|i: int| 0 <= i < self.exprs.len() ==> node_wf(#[trigger] self.exprs[i].kind, i)
    }

    /// An empty arena. It becomes well formed once an expression is added and
    /// `value` names one.
    pub fn new() -> (r: Body)
        ensures
            r.exprs@.len() == 0,
            r.value == 0,
    {
        Body { exprs: Vec::new(), value: 0 }
    }

    /// Appends `e` and returns its index, provided that its operands already stand
    /// in the arena; otherwise leaves the body as it was and returns `None`.
    pub fn add(&mut self, e: Expr) -> (r: Option<ExprId>)
        ensures
            r is Some <==> node_wf(e.kind, old(self).exprs.len() as int),
            r is Some ==> r == Some(old(self).exprs.len()) && final(self).exprs@ == old(
                self,
            ).exprs@.push(e) && final(self).value == old(self).value,
            r is None ==> *final(self) == *old(self),
    {
        let n = self.exprs.len();
        if check_node(&e.kind, n) {
            self.exprs.push(e);
            Some(n)
        } else {
            None
        }
    }

    /// Decides whether the body is well formed.
    pub fn is_wf(&self) -> (r: bool)
        ensures
            r == self.wf(),
    {
        if self.value >= self.exprs.len() {
            return false;
        }
        let mut i: usize = 0;
        while i < self.exprs.len()
            invariant
                i <= self.exprs.len(),
                forall|m: int| 0 <= m < i ==> node_wf(#[trigger] self.exprs[m].kind, m),
            decreases self.exprs.len() - i,
        {
            if !check_node(&self.exprs[i].kind, i) {
                return false;
            }
            i += 1;
        }
        true
    }
}

/// The impl block that a function is defined in.
#[derive(Clone, Debug)]
pub struct ImplInfo {
    /// The trait implemented, for a trait impl.
    pub of_trait: Option<DefId>,
    /// The impl was generated by a derive rather than written.
    pub derived: bool,
    /// The implementing type as written.
    pub self_ty: HirTy,
}

/// A function definition as the driver hands it to the rule.
#[derive(Debug)]
pub struct FnDef {
    pub def_id: DefId,
    /// The name, for a function that is an item of an impl block or a trait.
    pub name: Option<Symbol>,
    /// It takes `self`.
    pub has_self: bool,
    /// The types of its parameters, `self` first.
    pub inputs: Vec<Ty>,
    /// The impl block it stands in, if it stands in one.
    pub parent_impl: Option<ImplInfo>,
    pub span: Span,
    pub body: Body,
}

/// An associated item of a trait impl.
#[derive(Debug)]
pub struct AssocItem {
    pub def_id: DefId,
    pub name: Symbol,
    /// The item is a function.
    pub is_fn: bool,
    /// The item is defined in this compilation unit.
    pub is_local: bool,
    /// Its body, for a local function that has one.
    pub body: Option<Body>,
}

/// A trait impl of the compilation unit.
#[derive(Debug)]
pub struct TraitImpl {
    pub trait_id: DefId,
    /// The nominal type implemented for; `None` for a blanket impl or a non-nominal type.
    pub self_def: Option<DefId>,
    /// The impl was generated by a derive rather than written.
    pub derived: bool,
    /// Its items, in definition order.
    pub items: Vec<AssocItem>,
}

/// A trait that the unit can name, by its canonical path.
#[derive(Clone, Debug)]
pub struct TraitDef {
    pub path: Vec<Symbol>,
    pub def_id: DefId,
}

/// What the rule reads of the whole compilation unit.
#[derive(Debug)]
pub struct Unit {
    pub traits: Vec<TraitDef>,
    pub impls: Vec<TraitImpl>,
}

/// An absent body, or a well-formed one.
pub open spec fn opt_wf(b: Option<Body>) -> bool {
    match b {
        Some(b) => b.wf(),
        None => true,
    }
}

impl Unit {
    /// Every body held by the unit is well formed.
    pub open spec fn wf(&self) -> bool {
        forall|i: int, j: int|
            0 <= i < self.impls.len() && 0 <= j < self.impls[i].items.len()
                ==> opt_wf(#[trigger] self.impls[i].items[j].body)
    }

    /// Decides whether every body held by the unit is well formed.
    pub fn is_wf(&self) -> (r: bool)
        ensures
            r == self.wf(),
    {
        let mut i: usize = 0;
        while i < self.impls.len()
            invariant
                i <= self.impls.len(),
                forall|m: int, j: int|
                    0 <= m < i && 0 <= j < self.impls[m].items.len()
                        ==> opt_wf(#[trigger] self.impls[m].items[j].body),
            decreases self.impls.len() - i,
        {
            let items = &self.impls[i].items;
            let mut j: usize = 0;
            while j < items.len()
                invariant
                    i < self.impls.len(),
                    items == self.impls[i as int].items,
                    j <= items.len(),
                    forall|m: int, n: int|
                        0 <= m < i && 0 <= n < self.impls[m].items.len()
                            ==> opt_wf(#[trigger] self.impls[m].items[n].body),
                    forall|n: int|
                        0 <= n < j ==> opt_wf(#[trigger] items[n].body),
                decreases items.len() - j,
            {
                if let Some(b) = &items[j].body {
                    if !b.is_wf() {
                        return false;
                    }
                }
                j += 1;
            }
            i += 1;
        }
        true
    }
}

} // verus!
