//! The rewriting pass: one walk over an expression tree that replaces the
//! calls of role behaviour by calls of lifted functions and, inside a role,
//! the implicit receiver by the explicit one.

use vstd::prelude::*;
use vstd::string::*;
use crate::analysis::context_info::{ContextInfo, ContextView};
use crate::analysis::errors::{ErrorKind, ErrorKindView};
use crate::analysis::role::{Role, RoleView};
use crate::compile::dispatch::{
    resolve_in_context, resolve_in_role, role_dispatch, self_name, slot_dispatch, this_name,
    Dispatch, Resolution,
};
use crate::expr::{lemma_views_of_exprs, Block, BlockView, Expr, ExprView};
use crate::syntax::{clone_strings, views};
use crate::text::str_eq;

verus! {

/// Where a body stands: in a method of the aggregate, or in a method of a
/// role.
pub enum Scope<'a> {
    Aggregate(&'a ContextInfo),
    Role(&'a Role),
}

/// The view of `Scope`.
pub ghost enum ScopeView {
    Aggregate(ContextView),
    Role(RoleView),
}

impl<'a> View for Scope<'a> {
    type V = ScopeView;

    open spec fn view(&self) -> ScopeView {
        match self {
            Scope::Aggregate(context) => ScopeView::Aggregate(context@),
            Scope::Role(role) => ScopeView::Role(role@),
        }
    }
}

/// Whether a path is the implicit receiver, `self`.
pub open spec fn is_self_segments(segments: Seq<Seq<char>>) -> bool {
    segments.len() == 1 && segments[0] == self_name()
}

/// Whether an expression is the implicit receiver, `self`.
pub open spec fn is_self_path(e: ExprView) -> bool {
    match e {
        ExprView::Path { segments } => is_self_segments(segments),
        _ => false,
    }
}

/// The field that an expression reads from the implicit receiver: `f` for
/// `self.f`.
pub open spec fn slot_access(e: ExprView) -> Option<Seq<char>> {
    match e {
        ExprView::Field { base, member } => if is_self_path(*base) {
            Some(member)
        } else {
            None
        },
        _ => None,
    }
}

/// What becomes of a call of `method` on `receiver`. In the aggregate only a
/// call on a field of `self` is looked at; in a role only a call on `self`.
pub open spec fn call_dispatch(scope: ScopeView, receiver: ExprView, method: Seq<char>)
    -> Dispatch {
    match scope {
        ScopeView::Aggregate(context) => match slot_access(receiver) {
            Some(field) => slot_dispatch(context, field, method),
            None => Dispatch::Untouched,
        },
        ScopeView::Role(role) => if is_self_path(receiver) {
            role_dispatch(role, method)
        } else {
            Dispatch::Untouched
        },
    }
}

/// The explicit receiver that a lifted function is called with: in the
/// aggregate a reference to the slot, in a role the receiver `this`.
pub open spec fn explicit_receiver(scope: ScopeView, receiver: ExprView, mutable: bool)
    -> ExprView {
    match scope {
        ScopeView::Aggregate(_) => ExprView::Reference { mutable, expr: Box::new(receiver) },
        ScopeView::Role(_) => ExprView::Path { segments: seq![this_name()] },
    }
}

/// A path after the pass: in a role `self` becomes `this`.
pub open spec fn renamed(scope: ScopeView, segments: Seq<Seq<char>>) -> Seq<Seq<char>> {
    if scope is Role && is_self_segments(segments) {
        seq![this_name()]
    } else {
        segments
    }
}

/// The call of a lifted function that replaces a method call.
pub open spec fn lifted_call(
    scope: ScopeView,
    function: Seq<char>,
    mutable: bool,
    receiver: ExprView,
    args: Seq<ExprView>,
) -> ExprView {
    ExprView::Call {
        func: Box::new(ExprView::Path { segments: seq![function] }),
        args: seq![explicit_receiver(scope, receiver, mutable)] + args,
    }
}

/// An expression after the pass, or the first error met, the receiver of a
/// call before its arguments and the arguments in order.
pub open spec fn rewritten(scope: ScopeView, e: ExprView) -> Result<ExprView, ErrorKindView>
    decreases e, 0nat,
{
    match e {
        ExprView::Path { segments } => Ok(ExprView::Path { segments: renamed(scope, segments) }),
        ExprView::Field { base, member } => match rewritten(scope, *base) {
            Ok(base) => Ok(ExprView::Field { base: Box::new(base), member }),
            Err(error) => Err(error),
        },
        ExprView::MethodCall { receiver, method, args } => match call_dispatch(
            scope,
            *receiver,
            method,
        ) {
            Dispatch::Fails(error) => Err(error),
            Dispatch::Lifted { function, mutable } => match rewritten_first(
                scope,
                args,
                args.len(),
            ) {
                Ok(args) => Ok(lifted_call(scope, function, mutable, *receiver, args)),
                Err(error) => Err(error),
            },
            Dispatch::Untouched => match rewritten(scope, *receiver) {
                Ok(receiver) => match rewritten_first(scope, args, args.len()) {
                    Ok(args) => Ok(
                        ExprView::MethodCall { receiver: Box::new(receiver), method, args },
                    ),
                    Err(error) => Err(error),
                },
                Err(error) => Err(error),
            },
        },
        ExprView::Call { func, args } => match rewritten(scope, *func) {
            Ok(func) => match rewritten_first(scope, args, args.len()) {
                Ok(args) => Ok(ExprView::Call { func: Box::new(func), args }),
                Err(error) => Err(error),
            },
            Err(error) => Err(error),
        },
        ExprView::Reference { mutable, expr } => match rewritten(scope, *expr) {
            Ok(expr) => Ok(ExprView::Reference { mutable, expr: Box::new(expr) }),
            Err(error) => Err(error),
        },
        ExprView::Struct { path, members, values } => match rewritten_first(
            scope,
            values,
            values.len(),
        ) {
            Ok(values) => Ok(ExprView::Struct { path, members, values }),
            Err(error) => Err(error),
        },
        ExprView::Other { syntax, parts } => match rewritten_first(scope, parts, parts.len()) {
            Ok(parts) => Ok(ExprView::Other { syntax, parts }),
            Err(error) => Err(error),
        },
    }
}

/// The first `n` expressions of `es` after the pass, or the first error met.
pub open spec fn rewritten_first(scope: ScopeView, es: Seq<ExprView>, n: nat) -> Result<
    Seq<ExprView>,
    ErrorKindView,
>
    decreases es, n,
{
    if n == 0 || n > es.len() {
        Ok(Seq::empty())
    } else {
        match rewritten_first(scope, es, (n - 1) as nat) {
            Ok(done) => match rewritten(scope, es[n - 1]) {
                Ok(e) => Ok(done.push(e)),
                Err(error) => Err(error),
            },
            Err(error) => Err(error),
        }
    }
}

/// A block after the pass.
pub open spec fn rewritten_block(scope: ScopeView, block: BlockView) -> Result<
    BlockView,
    ErrorKindView,
> {
    match rewritten_first(scope, block.stmts, block.stmts.len()) {
        Ok(stmts) => Ok(BlockView { stmts }),
        Err(error) => Err(error),
    }
}

/// The view of the outcome of a pass over one expression.
pub open spec fn expr_outcome(res: Result<Expr, ErrorKind>) -> Result<ExprView, ErrorKindView> {
    match res {
        Ok(e) => Ok(e@),
        Err(error) => Err(error@),
    }
}

/// The view of the outcome of a pass over a list of expressions.
pub open spec fn exprs_outcome(res: Result<Vec<Expr>, ErrorKind>) -> Result<
    Seq<ExprView>,
    ErrorKindView,
> {
    match res {
        Ok(es) => Ok(views(es)),
        Err(error) => Err(error@),
    }
}

/// The view of the outcome of a pass over a block.
pub open spec fn block_outcome(res: Result<Block, ErrorKind>) -> Result<BlockView, ErrorKindView> {
    match res {
        Ok(b) => Ok(b@),
        Err(error) => Err(error@),
    }
}

fn path_is_self(segments: &Vec<String>) -> (res: bool)
    ensures
        res == is_self_segments(views(*segments)),
{
    if segments.len() == 1 {
        assert(views(*segments)[0] == segments[0]@);
        str_eq(segments[0].as_str(), "self")
    } else {
        false
    }
}

fn expr_is_self(e: &Expr) -> (res: bool)
    ensures
        res == is_self_path(e@),
{
    match e {
        Expr::Path { segments } => path_is_self(segments),
        _ => false,
    }
}

fn resolve_call(scope: &Scope, receiver: &Expr, method: &str) -> (res: Resolution)
    ensures
        res@ == call_dispatch(scope@, receiver@, method@),
{
    match scope {
        Scope::Aggregate(context) => match receiver {
            Expr::Field { base, member } => {
                if expr_is_self(base) {
                    resolve_in_context(context, member.as_str(), method)
                } else {
                    Resolution::Untouched
                }
            },
            _ => Resolution::Untouched,
        },
        Scope::Role(role) => {
            if expr_is_self(receiver) {
                resolve_in_role(role, method)
            } else {
                Resolution::Untouched
            }
        },
    }
}

fn this_path() -> (res: Expr)
    ensures
        res@ == (ExprView::Path { segments: seq![this_name()] }),
{
    let mut segments: Vec<String> = Vec::new();
    segments.push("this".to_owned());
    assert(views(segments) =~= seq![this_name()]);
    Expr::Path { segments }
}

fn rewrite_exprs(scope: &Scope, v: &Vec<Expr>, Ghost(parent): Ghost<&Expr>) -> (res: Result<
    Vec<Expr>,
    ErrorKind,
>)
    requires
        decreases_to!(parent => v),
    ensures
        exprs_outcome(res) == rewritten_first(scope@, views(*v), v.len() as nat),
    decreases parent, 0nat,
{
    let mut out: Vec<Expr> = Vec::new();
    let mut i: usize = 0;
    assert(views(out) =~= Seq::<ExprView>::empty());
    while i < v.len()
        invariant
            i <= v.len(),
            decreases_to!(parent => v),
            rewritten_first(scope@, views(*v), i as nat) == Ok::<Seq<ExprView>, ErrorKindView>(
                views(out),
            ),
        decreases v.len() - i,
    {
        assert(views(*v)[i as int] == v[i as int]@);
        let ghost before = views(out);
        match rewrite_expr(scope, &v[i]) {
            Ok(e) => {
                out.push(e);
                assert(views(out) =~= before.push(e@));
            },
            Err(error) => {
                proof {
                    lemma_error_stays(scope@, views(*v), (i + 1) as nat, v.len() as nat);
                }
                return Err(error);
            },
        }
        i += 1;
    }
    Ok(out)
}

/// An error among the first `n` expressions is the outcome for any longer
/// prefix.
pub proof fn lemma_error_stays(scope: ScopeView, es: Seq<ExprView>, n: nat, m: nat)
    requires
        n <= m <= es.len(),
        rewritten_first(scope, es, n) is Err,
    ensures
        rewritten_first(scope, es, m) == rewritten_first(scope, es, n),
    decreases m,
{
    if n < m {
        lemma_error_stays(scope, es, n, (m - 1) as nat);
    }
}

/// Walks one expression.
pub fn rewrite_expr(scope: &Scope, e: &Expr) -> (res: Result<Expr, ErrorKind>)
    ensures
        expr_outcome(res) == rewritten(scope@, e@),
    decreases e, 1nat,
{
    match e {
        Expr::Path { segments } => {
            let is_self = path_is_self(segments);
            match scope {
                Scope::Role(_) => {
                    if is_self {
                        return Ok(this_path());
                    }
                },
                _ => {},
            }
            let out = Expr::Path { segments: clone_strings(segments) };
            assert(out@ == (ExprView::Path { segments: views(*segments) }));
            Ok(out)
        },
        Expr::Field { base, member } => {
            let base = rewrite_expr(scope, base)?;
            Ok(Expr::Field { base: Box::new(base), member: member.clone() })
        },
        Expr::MethodCall { receiver, method, args } => {
            proof {
                lemma_views_of_exprs(*args);
            }
            match resolve_call(scope, receiver, method.as_str()) {
                Resolution::Fails(error) => Err(error),
                Resolution::Lifted { function, mutable } => {
                    let rest = rewrite_exprs(scope, args, Ghost(e))?;
                    let first = match scope {
                        Scope::Aggregate(_) => Expr::Reference {
                            mutable,
                            expr: Box::new((**receiver).clone()),
                        },
                        Scope::Role(_) => this_path(),
                    };
                    let mut segments: Vec<String> = Vec::new();
                    segments.push(function);
                    assert(views(segments) =~= seq![function@]);
                    let mut all: Vec<Expr> = Vec::new();
                    all.push(first);
                    let mut rest = rest;
                    let ghost rest_view = views(rest);
                    all.append(&mut rest);
                    assert(views(all) =~= seq![first@] + rest_view);
                    proof {
                        lemma_views_of_exprs(all);
                    }
                    let func = Expr::Path { segments };
                    assert(func@ == (ExprView::Path { segments: seq![function@] }));
                    let out = Expr::Call { func: Box::new(func), args: all };
                    assert(out@ == lifted_call(scope@, function@, mutable, receiver@, rest_view));
                    Ok(out)
                },
                Resolution::Untouched => {
                    let receiver = rewrite_expr(scope, receiver)?;
                    let args = rewrite_exprs(scope, args, Ghost(e))?;
                    proof {
                        lemma_views_of_exprs(args);
                    }
                    Ok(
                        Expr::MethodCall {
                            receiver: Box::new(receiver),
                            method: method.clone(),
                            args,
                        },
                    )
                },
            }
        },
        Expr::Call { func, args } => {
            proof {
                lemma_views_of_exprs(*args);
            }
            let func = rewrite_expr(scope, func)?;
            let args = rewrite_exprs(scope, args, Ghost(e))?;
            proof {
                lemma_views_of_exprs(args);
            }
            Ok(Expr::Call { func: Box::new(func), args })
        },
        Expr::Reference { mutable, expr } => {
            let expr = rewrite_expr(scope, expr)?;
            Ok(Expr::Reference { mutable: *mutable, expr: Box::new(expr) })
        },
        Expr::Struct { path, members, values } => {
            proof {
                lemma_views_of_exprs(*values);
            }
            let values = rewrite_exprs(scope, values, Ghost(e))?;
            proof {
                lemma_views_of_exprs(values);
            }
            Ok(Expr::Struct { path: path.clone(), members: clone_strings(members), values })
        },
        Expr::Other { syntax, parts } => {
            proof {
                lemma_views_of_exprs(*parts);
            }
            let parts = rewrite_exprs(scope, parts, Ghost(e))?;
            proof {
                lemma_views_of_exprs(parts);
            }
            Ok(Expr::Other { syntax: syntax.clone(), parts })
        },
    }
}

/// Walks the statements of a block.
pub fn rewrite_block(scope: &Scope, block: &Block) -> (res: Result<Block, ErrorKind>)
    ensures
        block_outcome(res) == rewritten_block(scope@, block@),
{
    let mut out: Vec<Expr> = Vec::new();
    let mut i: usize = 0;
    assert(views(out) =~= Seq::<ExprView>::empty());
    while i < block.stmts.len()
        invariant
            i <= block.stmts.len(),
            rewritten_first(scope@, views(block.stmts), i as nat) == Ok::<
                Seq<ExprView>,
                ErrorKindView,
            >(views(out)),
        decreases block.stmts.len() - i,
    {
        assert(views(block.stmts)[i as int] == block.stmts[i as int]@);
        let ghost before = views(out);
        match rewrite_expr(scope, &block.stmts[i]) {
            Ok(e) => {
                out.push(e);
                assert(views(out) =~= before.push(e@));
            },
            Err(error) => {
                proof {
                    lemma_error_stays(
                        scope@,
                        views(block.stmts),
                        (i + 1) as nat,
                        block.stmts.len() as nat,
                    );
                }
                return Err(error);
            },
        }
        i += 1;
    }
    Ok(Block { stmts: out })
}

} // verus!
