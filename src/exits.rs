//! The exit points of a function body: the expressions whose value can become
//! the body's result.
//!
//! The walk starts in "tail" mode when the body's value is a block with a
//! trailing expression. In tail mode a block's statements are walked normally and
//! its tail stays in tail mode; an `if` and a `match` pass tail mode to their
//! branches (their condition and scrutinee are not walked); any other expression
//! is itself an exit. Outside tail mode every operand is walked, closures'
//! bodies excepted, and only the operand of a `return` is recorded.

use vstd::prelude::*;
use crate::hir::{children, children_vec, opt_seq, Body, ExprId, ExprKind};

verus! {

/// The exits recorded by walking `e` (in tail mode if `tail`), appended to `acc`.
pub open spec fn visit(b: Body, e: ExprId, tail: bool, acc: Seq<ExprId>) -> Seq<ExprId>
    decreases e + 1, 0int,
{
    if e >= b.exprs.len() {
        acc
    } else {
        let k = b.exprs[e as int].kind;
        let walk = visit_list(b, children(k, false), false, acc, e);
        match k {
            ExprKind::Ret(Some(r)) => acc.push(r),
            ExprKind::Block { stmts, tail: t } => if tail {
                visit_list(b, opt_seq(t), true, visit_list(b, stmts@, false, acc, e), e)
            } else {
                walk
            },
            ExprKind::If { then_branch, else_branch, .. } => if tail {
                visit_list(b, seq![then_branch] + opt_seq(else_branch), true, acc, e)
            } else {
                walk
            },
            ExprKind::Match { arms, .. } => if tail {
                visit_list(b, arms@, true, acc, e)
            } else {
                walk
            },
            _ => if tail {
                acc.push(e)
            } else {
                walk
            },
        }
    }
}

/// The exits recorded by walking each of `ids` in turn, appended to `acc`.
pub open spec fn visit_list(
    b: Body,
    ids: Seq<ExprId>,
    tail: bool,
    acc: Seq<ExprId>,
    bound: ExprId,
) -> Seq<ExprId>
    decreases bound, ids.len(),
{
    if ids.len() == 0 {
        acc
    } else if ids[0] < bound {
        visit_list(b, ids.drop_first(), tail, visit(b, ids[0], tail, acc), bound)
    } else {
        acc
    }
}

/// The body's value is a block with a trailing expression: the walk starts in tail mode.
pub open spec fn starts_in_tail(b: Body) -> bool {
    b.value < b.exprs.len() && b.exprs[b.value as int].kind matches ExprKind::Block {
        tail: Some(_),
        ..
    }
}

/// The exit points of the body, in the order the walk meets them.
pub open spec fn returns_of(b: Body) -> Seq<ExprId> {
    visit(b, b.value, starts_in_tail(b), seq![])
}

/// The body does not return through `e` alone: it has no exit, two or more exits,
/// or a single one that is not `e`.
pub open spec fn conditional_return(b: Body, e: ExprId) -> bool {
    let rs = returns_of(b);
    rs.len() != 1 || rs[0] != e
}

/// Follows immutable locals to their initializers.
pub open spec fn init_of(b: Body, e: ExprId) -> ExprId
    decreases e,
{
    if e < b.exprs.len() {
        match b.exprs[e as int].kind {
            ExprKind::Path { local_init: Some(x), .. } => if x < e {
                init_of(b, x)
            } else {
                e
            },
            _ => e,
        }
    } else {
        e
    }
}

/// Strips blocks that hold nothing but a trailing expression.
pub open spec fn peeled(b: Body, e: ExprId) -> ExprId
    decreases e,
{
    if e < b.exprs.len() {
        match b.exprs[e as int].kind {
            ExprKind::Block { stmts, tail: Some(t) } => if stmts.len() == 0 && t < e {
                peeled(b, t)
            } else {
                e
            },
            _ => e,
        }
    } else {
        e
    }
}

/// The expression that the rule takes for the body's result.
pub open spec fn candidate(b: Body) -> ExprId {
    peeled(b, init_of(b, b.value))
}

proof fn lemma_operands_below(b: Body, e: ExprId)
    requires
        b.wf(),
        e < b.exprs.len(),
    ensures
        forall|j: int|
            0 <= j < children(b.exprs[e as int].kind, false).len() ==> children(
                b.exprs[e as int].kind,
                false,
            )[j] < e,
{
    let k = b.exprs[e as int].kind;
    assert(node_wf_at(b, e as int));
    match k {
        ExprKind::Closure { .. } => {},
        _ => {
            assert(children(k, false) == children(k, true));
        },
    }
}

spec fn node_wf_at(b: Body, i: int) -> bool {
    crate::hir::node_wf(b.exprs[i].kind, i)
}

fn visit_expr(b: &Body, e: ExprId, tail: bool, out: &mut Vec<ExprId>)
    requires
        b.wf(),
        e < b.exprs.len(),
    ensures
        final(out)@ == visit(*b, e, tail, old(out)@),
    decreases e + 1, 0int,
{
    let k = &b.exprs[e].kind;
    proof {
        lemma_operands_below(*b, e);
        assert(node_wf_at(*b, e as int));
    }
    let ghost ch = children(*k, true);
    match k {
        ExprKind::Ret(Some(r)) => {
            out.push(*r);
            return ;
        },
        ExprKind::Block { stmts, tail: t } => {
            if tail {
                assert forall|j: int| 0 <= j < stmts@.len() implies stmts@[j] < e by {
                    assert(stmts@[j] == ch[j]);
                }
                visit_ids(b, stmts, false, out, e);
                let mut ts: Vec<ExprId> = Vec::new();
                if let Some(x) = t {
                    assert(ch[stmts@.len() as int] == *x);
                    ts.push(*x);
                }
                assert(ts@ =~= opt_seq(*t));
                visit_ids(b, &ts, true, out, e);
                return ;
            }
        },
        ExprKind::If { cond, then_branch, else_branch } => {
            if tail {
                let mut ts: Vec<ExprId> = Vec::new();
                assert(ch[1] == *then_branch);
                ts.push(*then_branch);
                if let Some(x) = else_branch {
                    assert(ch[2] == *x);
                    ts.push(*x);
                }
                assert(ts@ =~= seq![*then_branch] + opt_seq(*else_branch));
                visit_ids(b, &ts, true, out, e);
                return ;
            }
        },
        ExprKind::Match { scrutinee, arms } => {
            if tail {
                assert forall|j: int| 0 <= j < arms@.len() implies arms@[j] < e by {
                    assert(arms@[j] == ch[j + 1]);
                }
                visit_ids(b, arms, true, out, e);
                return ;
            }
        },
        _ => {
            if tail {
                out.push(e);
                return ;
            }
        },
    }
    let ids = children_vec(k, false);
    visit_ids(b, &ids, false, out, e);
}

fn visit_ids(b: &Body, ids: &Vec<ExprId>, tail: bool, out: &mut Vec<ExprId>, bound: ExprId)
    requires
        b.wf(),
        bound <= b.exprs.len(),
        forall|j: int| 0 <= j < ids@.len() ==> ids@[j] < bound,
    ensures
        final(out)@ == visit_list(*b, ids@, tail, old(out)@, bound),
    decreases bound, ids@.len(),
{
    let mut i: usize = 0;
    assert(ids@.skip(0) =~= ids@);
    while i < ids.len()
        invariant
            b.wf(),
            bound <= b.exprs.len(),
            forall|j: int| 0 <= j < ids@.len() ==> ids@[j] < bound,
            i <= ids.len(),
            visit_list(*b, ids@, tail, old(out)@, bound) == visit_list(
                *b,
                ids@.skip(i as int),
                tail,
                out@,
                bound,
            ),
        decreases ids.len() - i,
    {
        assert(ids@.skip(i as int)[0] == ids@[i as int]);
        assert(ids@.skip(i as int).drop_first() =~= ids@.skip(i + 1));
        visit_expr(b, ids[i], tail, out);
        i += 1;
    }
    assert(ids@.skip(i as int).len() == 0);
}

/// Collects the exit points of `body`.
pub fn get_return_calls_in_body(body: &Body) -> (r: Vec<ExprId>)
    requires
        body.wf(),
    ensures
        r@ == returns_of(*body),
{
    let tail = match &body.exprs[body.value].kind {
        ExprKind::Block { tail: Some(_), .. } => true,
        _ => false,
    };
    let mut out: Vec<ExprId> = Vec::new();
    visit_expr(body, body.value, tail, &mut out);
    out
}

/// Decides whether `body` fails to return through `expr` alone.
pub fn has_conditional_return(body: &Body, expr: ExprId) -> (r: bool)
    requires
        body.wf(),
    ensures
        r == conditional_return(*body, expr),
{
    let rs = get_return_calls_in_body(body);
    if rs.len() != 1 {
        true
    } else {
        rs[0] != expr
    }
}

/// Follows `e` through immutable locals to the expression that initialized it.
pub fn expr_or_init(body: &Body, e: ExprId) -> (r: ExprId)
    requires
        body.wf(),
        e < body.exprs.len(),
    ensures
        r == init_of(*body, e),
        r < body.exprs.len(),
    decreases e,
{
    match &body.exprs[e].kind {
        ExprKind::Path { local_init: Some(x), .. } => {
            proof {
                assert(node_wf_at(*body, e as int));
            }
            expr_or_init(body, *x)
        },
        _ => e,
    }
}

/// Strips from `e` the blocks that hold nothing but a trailing expression.
pub fn peel_blocks(body: &Body, e: ExprId) -> (r: ExprId)
    requires
        body.wf(),
        e < body.exprs.len(),
    ensures
        r == peeled(*body, e),
        r < body.exprs.len(),
    decreases e,
{
    match &body.exprs[e].kind {
        ExprKind::Block { stmts, tail: Some(t) } => {
            if stmts.len() == 0 {
                proof {
                    assert(node_wf_at(*body, e as int));
                    assert(children(body.exprs[e as int].kind, true)[0] == *t);
                }
                peel_blocks(body, *t)
            } else {
                e
            }
        },
        _ => e,
    }
}

} // verus!
