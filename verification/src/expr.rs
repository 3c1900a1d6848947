//! Expression trees: the bodies of methods, as far as the compiler reads
//! them.

use vstd::prelude::*;
use crate::syntax::{clone_strings, views, Type, TypeView};

verus! {

/// An expression or statement. The forms that the compiler reads or writes
/// have a variant each; every other form is `Other`, which keeps its
/// sub-expressions in source order, and its own text as it was given: the
/// compiler carries that text through and never reads it.
#[derive(Debug, PartialEq, Eq)]
pub enum Expr {
    /// A path without arguments, such as `self` or `std::mem::swap`.
    Path { segments: Vec<String> },
    /// `base.member`
    Field { base: Box<Expr>, member: String },
    /// `receiver.method(args)`
    MethodCall { receiver: Box<Expr>, method: String, args: Vec<Expr> },
    /// `func(args)`
    Call { func: Box<Expr>, args: Vec<Expr> },
    /// `&expr` or `&mut expr`
    Reference { mutable: bool, expr: Box<Expr> },
    /// A struct literal: `path { members[i]: values[i], .. }`
    Struct { path: Type, members: Vec<String>, values: Vec<Expr> },
    /// Any other syntax, with the expressions directly inside it.
    Other { syntax: String, parts: Vec<Expr> },
}

/// The view of `Expr`.
pub ghost enum ExprView {
    Path { segments: Seq<Seq<char>> },
    Field { base: Box<ExprView>, member: Seq<char> },
    MethodCall { receiver: Box<ExprView>, method: Seq<char>, args: Seq<ExprView> },
    Call { func: Box<ExprView>, args: Seq<ExprView> },
    Reference { mutable: bool, expr: Box<ExprView> },
    Struct { path: TypeView, members: Seq<Seq<char>>, values: Seq<ExprView> },
    Other { syntax: Seq<char>, parts: Seq<ExprView> },
}

/// The view of an expression tree.
pub open spec fn expr_view(e: Expr) -> ExprView
    decreases e, 1nat,
{
    match e {
        Expr::Path { segments } => ExprView::Path { segments: views(segments) },
        Expr::Field { base, member } => ExprView::Field {
            base: Box::new(expr_view(*base)),
            member: member@,
        },
        Expr::MethodCall { receiver, method, args } => ExprView::MethodCall {
            receiver: Box::new(expr_view(*receiver)),
            method: method@,
            args: exprs_view(args),
        },
        Expr::Call { func, args } => ExprView::Call {
            func: Box::new(expr_view(*func)),
            args: exprs_view(args),
        },
        Expr::Reference { mutable, expr } => ExprView::Reference {
            mutable,
            expr: Box::new(expr_view(*expr)),
        },
        Expr::Struct { path, members, values } => ExprView::Struct {
            path: path@,
            members: views(members),
            values: exprs_view(values),
        },
        Expr::Other { syntax, parts } => ExprView::Other {
            syntax: syntax@,
            parts: exprs_view(parts),
        },
    }
}

/// The views of the expressions directly inside a node.
pub open spec fn exprs_view(v: Vec<Expr>) -> Seq<ExprView>
    decreases v, 0nat,
{
    Seq::new(
        v.len() as nat,
        |i: int|
            if 0 <= i < v.len() {
                expr_view(v[i])
            } else {
                arbitrary()
            },
    )
}

impl View for Expr {
    type V = ExprView;

    open spec fn view(&self) -> ExprView {
        expr_view(*self)
    }
}

/// The children of a node are viewed one by one.
pub proof fn lemma_views_of_exprs(v: Vec<Expr>)
    ensures
        exprs_view(v) == views(v),
{
    assert(exprs_view(v) =~= views(v));
}

/// A sequence of statements between braces.
#[derive(Debug, PartialEq, Eq)]
pub struct Block {
    pub stmts: Vec<Expr>,
}

/// The view of `Block`.
pub ghost struct BlockView {
    pub stmts: Seq<ExprView>,
}

impl View for Block {
    type V = BlockView;

    open spec fn view(&self) -> BlockView {
        BlockView { stmts: views(self.stmts) }
    }
}

/// Copies a list of expressions, `parent` being the node that holds it.
fn clone_exprs(v: &Vec<Expr>, Ghost(parent): Ghost<&Expr>) -> (res: Vec<Expr>)
    requires
        decreases_to!(parent => v),
    ensures
        views(res) == views(*v),
    decreases parent, 0nat,
{
    let mut res: Vec<Expr> = Vec::new();
    let mut i: usize = 0;
    while i < v.len()
        invariant
            i <= v.len(),
            res.len() == i,
            decreases_to!(parent => v),
            forall|j: int| 0 <= j < i ==> res[j]@ == v[j]@,
        decreases v.len() - i,
    {
        let e = clone_expr(&v[i]);
        res.push(e);
        i += 1;
    }
    assert(views(res) =~= views(*v));
    res
}

fn clone_expr(e: &Expr) -> (res: Expr)
    ensures
        res@ == e@,
    decreases e, 1nat,
{
    match e {
        Expr::Path { segments } => {
            let res = Expr::Path { segments: clone_strings(segments) };
            assert(res@ == ExprView::Path { segments: views(*segments) });
            res
        },
        Expr::Field { base, member } => Expr::Field {
            base: Box::new(clone_expr(base)),
            member: member.clone(),
        },
        Expr::MethodCall { receiver, method, args } => {
            proof {
                lemma_views_of_exprs(*args);
            }
            let copied = clone_exprs(args, Ghost(e));
            proof {
                lemma_views_of_exprs(copied);
            }
            Expr::MethodCall {
                receiver: Box::new(clone_expr(receiver)),
                method: method.clone(),
                args: copied,
            }
        },
        Expr::Call { func, args } => {
            proof {
                lemma_views_of_exprs(*args);
            }
            let copied = clone_exprs(args, Ghost(e));
            proof {
                lemma_views_of_exprs(copied);
            }
            Expr::Call { func: Box::new(clone_expr(func)), args: copied }
        },
        Expr::Reference { mutable, expr } => Expr::Reference {
            mutable: *mutable,
            expr: Box::new(clone_expr(expr)),
        },
        Expr::Struct { path, members, values } => {
            proof {
                lemma_views_of_exprs(*values);
            }
            let copied = clone_exprs(values, Ghost(e));
            proof {
                lemma_views_of_exprs(copied);
            }
            Expr::Struct { path: path.clone(), members: clone_strings(members), values: copied }
        },
        Expr::Other { syntax, parts } => {
            proof {
                lemma_views_of_exprs(*parts);
            }
            let copied = clone_exprs(parts, Ghost(e));
            proof {
                lemma_views_of_exprs(copied);
            }
            Expr::Other { syntax: syntax.clone(), parts: copied }
        },
    }
}

impl Clone for Expr {
    fn clone(&self) -> (res: Self)
        ensures
            res@ == self@,
    {
        clone_expr(self)
    }
}

impl Clone for Block {
    fn clone(&self) -> (res: Self)
        ensures
            res@ == self@,
    {
        let stmts = self.stmts.clone();
        assert(views(stmts) =~= views(self.stmts));
        Block { stmts }
    }
}

} // verus!
