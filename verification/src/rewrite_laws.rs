//! What holds of the rewriting pass.

use vstd::prelude::*;
use vstd::string::*;
use crate::analysis::errors::ErrorKindView;
use crate::analysis::role::RoleView;
use crate::compile::dispatch::{
    find_function, lifted_name, role_dispatch, self_name, slot_dispatch, this_name, Dispatch,
};
use crate::compile::rewrite::{
    call_dispatch, explicit_receiver, is_self_path, is_self_segments, lifted_call, renamed,
    rewritten, rewritten_first, slot_access, ScopeView,
};
use crate::compile::dispatch::{find_property, find_role, role_type_name};
use crate::analysis::context_info::ContextView;
use crate::analysis::function_description::FunctionView;
use crate::compile::rewrite::rewritten_block;
use crate::compile::role::lifted_function;
use crate::expr::{BlockView, ExprView};
use crate::seqs::lemma_first_index;
use crate::text::role_name;

verus! {

/// Whether the pass has nothing to do in an expression: no path to rename,
/// and every method call in it stays as it is.
pub open spec fn settled(scope: ScopeView, e: ExprView) -> bool
    decreases e,
{
    match e {
        ExprView::Path { segments } => renamed(scope, segments) == segments,
        ExprView::Field { base, .. } => settled(scope, *base),
        ExprView::MethodCall { receiver, method, args } => {
            &&& call_dispatch(scope, *receiver, method) is Untouched
            &&& settled(scope, *receiver)
            &&& forall|i: int| 0 <= i < args.len() ==> settled(scope, #[trigger] args[i])
        },
        ExprView::Call { func, args } => {
            &&& settled(scope, *func)
            &&& forall|i: int| 0 <= i < args.len() ==> settled(scope, #[trigger] args[i])
        },
        ExprView::Reference { expr, .. } => settled(scope, *expr),
        ExprView::Struct { values, .. } => forall|i: int|
            0 <= i < values.len() ==> settled(scope, #[trigger] values[i]),
        ExprView::Other { parts, .. } => forall|i: int|
            0 <= i < parts.len() ==> settled(scope, #[trigger] parts[i]),
    }
}

/// The first `n` expressions pass one by one.
pub proof fn lemma_first_elementwise(scope: ScopeView, es: Seq<ExprView>, n: nat)
    requires
        n <= es.len(),
        rewritten_first(scope, es, n) is Ok,
    ensures
        rewritten_first(scope, es, n)->Ok_0.len() == n,
        forall|i: int|
            0 <= i < n ==> rewritten(scope, #[trigger] es[i]) == Ok::<ExprView, ErrorKindView>(
                rewritten_first(scope, es, n)->Ok_0[i],
            ),
    decreases n,
{
    if n > 0 {
        lemma_first_elementwise(scope, es, (n - 1) as nat);
    }
}

/// Expressions that pass one by one pass as a list.
pub proof fn lemma_first_from_elements(
    scope: ScopeView,
    es: Seq<ExprView>,
    out: Seq<ExprView>,
    n: nat,
)
    requires
        n <= es.len(),
        n <= out.len(),
        forall|i: int|
            0 <= i < n ==> rewritten(scope, #[trigger] es[i]) == Ok::<ExprView, ErrorKindView>(
                out[i],
            ),
    ensures
        rewritten_first(scope, es, n) == Ok::<Seq<ExprView>, ErrorKindView>(out.take(n as int)),
    decreases n,
{
    if n > 0 {
        lemma_first_from_elements(scope, es, out, (n - 1) as nat);
        assert(out.take(n as int) =~= out.take(n - 1).push(out[n - 1]));
    } else {
        assert(out.take(0) =~= Seq::<ExprView>::empty());
    }
}

/// The explicit receiver is not the implicit one.
pub proof fn lemma_this_is_not_self()
    ensures
        this_name() != self_name(),
        !is_self_segments(seq![this_name()]),
{
    reveal_strlit("this");
    reveal_strlit("self");
    assert("this"@[0] == 't');
    assert("self"@[0] == 's');
}

/// No lifted function is called `self`.
pub proof fn lemma_lifted_name_is_not_self(role: Seq<char>, method: Seq<char>)
    ensures
        lifted_name(role, method) != self_name(),
        !is_self_segments(seq![lifted_name(role, method)]),
{
    reveal_strlit("self");
    let prefix = role_name(role);
    let name = lifted_name(role, method);
    assert(name[prefix.len() as int] == '_');
    assert(name.len() == prefix.len() + 1 + method.len());
    assert("self"@.len() == 4);
    if name == self_name() {
        assert(prefix.len() < 4);
        assert("self"@[0] == 's');
        assert("self"@[1] == 'e');
        assert("self"@[2] == 'l');
        assert("self"@[3] == 'f');
        assert(false);
    }
}

/// A call is lifted only where the contract of the role lacks the method
/// and the role itself has it.
pub proof fn law_only_role_behaviour_is_lifted(role: RoleView, method: Seq<char>)
    ensures
        role_dispatch(role, method) is Lifted <==> find_function(role.contract.functions, method)
            is None && find_function(role.methods, method) is Some,
        find_function(role.contract.functions, method) is Some ==> role_dispatch(role, method)
            is Untouched,
{
}

/// A call through a slot of the aggregate is lifted only where one of the
/// roles of the aggregate lifts it.
pub proof fn law_only_role_slots_are_lifted(
    context: ContextView,
    field: Seq<char>,
    method: Seq<char>,
)
    requires
        slot_dispatch(context, field, method) is Lifted,
    ensures
        exists|r: int|
            0 <= r < context.roles.len() && #[trigger] role_dispatch(context.roles[r], method)
                == slot_dispatch(context, field, method),
{
    let k = find_property(context.properties, field)->Some_0;
    let ty = context.properties[k].ty;
    lemma_first_index(context.roles, |r: RoleView| r.name == role_type_name(ty));
    let r = find_role(context.roles, role_type_name(ty))->Some_0;
    assert(role_dispatch(context.roles[r], method) == slot_dispatch(context, field, method));
}

/// The pass keeps what kind of expression a receiver is: what was no path
/// is none afterwards, and a field stays a field of the same name.
pub proof fn lemma_pass_keeps_shape(scope: ScopeView, e: ExprView)
    requires
        rewritten(scope, e) is Ok,
    ensures
        rewritten(scope, e)->Ok_0 is Path <==> e is Path,
        rewritten(scope, e)->Ok_0 is Field <==> e is Field,
        e is Path ==> rewritten(scope, e)->Ok_0->Path_segments == renamed(
            scope,
            e->Path_segments,
        ),
        e is Field ==> rewritten(scope, e)->Ok_0->Field_member == e->Field_member && rewritten(
            scope,
            *e->Field_base,
        ) == Ok::<ExprView, ErrorKindView>(*rewritten(scope, e)->Ok_0->Field_base),
{
}

/// How a call is dispatched does not change when the pass has walked its
/// receiver.
pub proof fn lemma_dispatch_after_pass(scope: ScopeView, receiver: ExprView, method: Seq<char>)
    requires
        rewritten(scope, receiver) is Ok,
        call_dispatch(scope, receiver, method) is Untouched,
    ensures
        call_dispatch(scope, rewritten(scope, receiver)->Ok_0, method) is Untouched,
{
    lemma_this_is_not_self();
    lemma_pass_keeps_shape(scope, receiver);
    let out = rewritten(scope, receiver)->Ok_0;
    match scope {
        ScopeView::Aggregate(context) => {
            if receiver is Field {
                let base = *receiver->Field_base;
                lemma_pass_keeps_shape(scope, base);
                assert(slot_access(out) == slot_access(receiver));
            }
        },
        ScopeView::Role(role) => {
            assert(!is_self_path(out));
        },
    }
}

/// The pass is a no-op on an expression in which it has nothing to do: in
/// particular a call of a method of the contract stays as it is.
pub proof fn law_settled_is_unchanged(scope: ScopeView, e: ExprView)
    requires
        settled(scope, e),
    ensures
        rewritten(scope, e) == Ok::<ExprView, ErrorKindView>(e),
    decreases e,
{
    match e {
        ExprView::Path { segments } => {},
        ExprView::Field { base, member } => {
            law_settled_is_unchanged(scope, *base);
        },
        ExprView::MethodCall { receiver, method, args } => {
            law_settled_is_unchanged(scope, *receiver);
            assert forall|i: int| 0 <= i < args.len() implies rewritten(scope, #[trigger] args[i])
                == Ok::<ExprView, ErrorKindView>(args[i]) by {
                law_settled_is_unchanged(scope, args[i]);
            }
            lemma_first_from_elements(scope, args, args, args.len());
            assert(args.take(args.len() as int) =~= args);
        },
        ExprView::Call { func, args } => {
            law_settled_is_unchanged(scope, *func);
            assert forall|i: int| 0 <= i < args.len() implies rewritten(scope, #[trigger] args[i])
                == Ok::<ExprView, ErrorKindView>(args[i]) by {
                law_settled_is_unchanged(scope, args[i]);
            }
            lemma_first_from_elements(scope, args, args, args.len());
            assert(args.take(args.len() as int) =~= args);
        },
        ExprView::Reference { mutable, expr } => {
            law_settled_is_unchanged(scope, *expr);
        },
        ExprView::Struct { path, members, values } => {
            assert forall|i: int| 0 <= i < values.len() implies rewritten(
                scope,
                #[trigger] values[i],
            ) == Ok::<ExprView, ErrorKindView>(values[i]) by {
                law_settled_is_unchanged(scope, values[i]);
            }
            lemma_first_from_elements(scope, values, values, values.len());
            assert(values.take(values.len() as int) =~= values);
        },
        ExprView::Other { syntax, parts } => {
            assert forall|i: int| 0 <= i < parts.len() implies rewritten(scope, #[trigger] parts[i])
                == Ok::<ExprView, ErrorKindView>(parts[i]) by {
                law_settled_is_unchanged(scope, parts[i]);
            }
            lemma_first_from_elements(scope, parts, parts, parts.len());
            assert(parts.take(parts.len() as int) =~= parts);
        },
    }
}

/// What a list of expressions becomes is settled where each of them is.
proof fn lemma_children_settled(scope: ScopeView, es: Seq<ExprView>)
    requires
        rewritten_first(scope, es, es.len()) is Ok,
        forall|i: int|
            0 <= i < es.len() && rewritten(scope, #[trigger] es[i]) is Ok ==> settled(
                scope,
                rewritten(scope, es[i])->Ok_0,
            ),
    ensures
        forall|i: int|
            0 <= i < rewritten_first(scope, es, es.len())->Ok_0.len() ==> settled(
                scope,
                #[trigger] rewritten_first(scope, es, es.len())->Ok_0[i],
            ),
{
    lemma_first_elementwise(scope, es, es.len());
    let out = rewritten_first(scope, es, es.len())->Ok_0;
    assert forall|i: int| 0 <= i < out.len() implies settled(scope, #[trigger] out[i]) by {
        assert(rewritten(scope, es[i]) == Ok::<ExprView, ErrorKindView>(out[i]));
    }
}

/// After the pass there is nothing left for it to do.
pub proof fn lemma_pass_settles(scope: ScopeView, e: ExprView)
    requires
        rewritten(scope, e) is Ok,
    ensures
        settled(scope, rewritten(scope, e)->Ok_0),
    decreases e,
{
    lemma_this_is_not_self();
    match e {
        ExprView::Path { segments } => {},
        ExprView::Field { base, member } => {
            lemma_pass_settles(scope, *base);
        },
        ExprView::MethodCall { receiver, method, args } => {
            assert forall|i: int|
                0 <= i < args.len() && rewritten(scope, #[trigger] args[i]) is Ok implies settled(
                scope,
                rewritten(scope, args[i])->Ok_0,
            ) by {
                lemma_pass_settles(scope, args[i]);
            }
            match call_dispatch(scope, *receiver, method) {
                Dispatch::Fails(_) => {},
                Dispatch::Lifted { function, mutable } => {
                    lemma_children_settled(scope, args);
                    let rest = rewritten_first(scope, args, args.len())->Ok_0;
                    let first = explicit_receiver(scope, *receiver, mutable);
                    let all = seq![first] + rest;
                    match scope {
                        ScopeView::Aggregate(context) => {
                            reveal_with_fuel(settled, 4);
                            assert(slot_access(*receiver) is Some);
                            assert(settled(scope, first));
                        },
                        ScopeView::Role(role) => {
                            assert(settled(scope, first));
                            lemma_lifted_name_is_not_self(role.name, method);
                        },
                    }
                    assert forall|i: int| 0 <= i < all.len() implies settled(
                        scope,
                        #[trigger] all[i],
                    ) by {
                        if i > 0 {
                            assert(all[i] == rest[i - 1]);
                        }
                    }
                    let func = ExprView::Path { segments: seq![function] };
                    assert(settled(scope, func)) by {
                        match scope {
                            ScopeView::Aggregate(_) => {},
                            ScopeView::Role(role) => {
                                lemma_lifted_name_is_not_self(role.name, method);
                            },
                        }
                    }
                    assert(rewritten(scope, e)->Ok_0 == lifted_call(
                        scope,
                        function,
                        mutable,
                        *receiver,
                        rest,
                    ));
                },
                Dispatch::Untouched => {
                    lemma_pass_settles(scope, *receiver);
                    lemma_dispatch_after_pass(scope, *receiver, method);
                    lemma_children_settled(scope, args);
                },
            }
        },
        ExprView::Call { func, args } => {
            lemma_pass_settles(scope, *func);
            assert forall|i: int|
                0 <= i < args.len() && rewritten(scope, #[trigger] args[i]) is Ok implies settled(
                scope,
                rewritten(scope, args[i])->Ok_0,
            ) by {
                lemma_pass_settles(scope, args[i]);
            }
            lemma_children_settled(scope, args);
        },
        ExprView::Reference { mutable, expr } => {
            lemma_pass_settles(scope, *expr);
        },
        ExprView::Struct { path, members, values } => {
            assert forall|i: int|
                0 <= i < values.len() && rewritten(scope, #[trigger] values[i])
                    is Ok implies settled(scope, rewritten(scope, values[i])->Ok_0) by {
                lemma_pass_settles(scope, values[i]);
            }
            lemma_children_settled(scope, values);
        },
        ExprView::Other { syntax, parts } => {
            assert forall|i: int|
                0 <= i < parts.len() && rewritten(scope, #[trigger] parts[i])
                    is Ok implies settled(scope, rewritten(scope, parts[i])->Ok_0) by {
                lemma_pass_settles(scope, parts[i]);
            }
            lemma_children_settled(scope, parts);
        },
    }
}

/// The pass is idempotent: a second walk changes nothing.
pub proof fn law_pass_is_idempotent(scope: ScopeView, e: ExprView)
    requires
        rewritten(scope, e) is Ok,
    ensures
        rewritten(scope, rewritten(scope, e)->Ok_0) == rewritten(scope, e),
{
    lemma_pass_settles(scope, e);
    law_settled_is_unchanged(scope, rewritten(scope, e)->Ok_0);
}

/// Whether the implicit receiver occurs nowhere in an expression.
pub open spec fn free_of_self(e: ExprView) -> bool
    decreases e,
{
    match e {
        ExprView::Path { segments } => !is_self_segments(segments),
        ExprView::Field { base, .. } => free_of_self(*base),
        ExprView::MethodCall { receiver, args, .. } => {
            &&& free_of_self(*receiver)
            &&& forall|i: int| 0 <= i < args.len() ==> free_of_self(#[trigger] args[i])
        },
        ExprView::Call { func, args } => {
            &&& free_of_self(*func)
            &&& forall|i: int| 0 <= i < args.len() ==> free_of_self(#[trigger] args[i])
        },
        ExprView::Reference { expr, .. } => free_of_self(*expr),
        ExprView::Struct { values, .. } => forall|i: int|
            0 <= i < values.len() ==> free_of_self(#[trigger] values[i]),
        ExprView::Other { parts, .. } => forall|i: int|
            0 <= i < parts.len() ==> free_of_self(#[trigger] parts[i]),
    }
}

/// Whether an expression is the explicit receiver, `this`.
pub open spec fn is_this_path(e: ExprView) -> bool {
    match e {
        ExprView::Path { segments } => segments.len() == 1 && segments[0] == this_name(),
        _ => false,
    }
}

/// Whether every method that an expression calls on `this` is a method of
/// the contract of the role.
pub open spec fn calls_contract_on_this(role: RoleView, e: ExprView) -> bool
    decreases e,
{
    match e {
        ExprView::Path { .. } => true,
        ExprView::Field { base, .. } => calls_contract_on_this(role, *base),
        ExprView::MethodCall { receiver, method, args } => {
            &&& is_this_path(*receiver) ==> find_function(role.contract.functions, method) is Some
            &&& calls_contract_on_this(role, *receiver)
            &&& forall|i: int|
                0 <= i < args.len() ==> calls_contract_on_this(role, #[trigger] args[i])
        },
        ExprView::Call { func, args } => {
            &&& calls_contract_on_this(role, *func)
            &&& forall|i: int|
                0 <= i < args.len() ==> calls_contract_on_this(role, #[trigger] args[i])
        },
        ExprView::Reference { expr, .. } => calls_contract_on_this(role, *expr),
        ExprView::Struct { values, .. } => forall|i: int|
            0 <= i < values.len() ==> calls_contract_on_this(role, #[trigger] values[i]),
        ExprView::Other { parts, .. } => forall|i: int|
            0 <= i < parts.len() ==> calls_contract_on_this(role, #[trigger] parts[i]),
    }
}

/// Whether an expression is normal for a lifted function of `role`: it does
/// not mention `self`, and calls on `this` only methods of the contract.
pub open spec fn normalized(role: RoleView, e: ExprView) -> bool {
    free_of_self(e) && calls_contract_on_this(role, e)
}

/// What a list of expressions becomes is normal where each of them is.
proof fn lemma_children_normalized(role: RoleView, es: Seq<ExprView>)
    requires
        rewritten_first(ScopeView::Role(role), es, es.len()) is Ok,
        forall|i: int|
            0 <= i < es.len() && rewritten(ScopeView::Role(role), #[trigger] es[i])
                is Ok ==> normalized(role, rewritten(ScopeView::Role(role), es[i])->Ok_0),
    ensures
        forall|i: int|
            0 <= i < rewritten_first(ScopeView::Role(role), es, es.len())->Ok_0.len()
                ==> normalized(
                role,
                #[trigger] rewritten_first(ScopeView::Role(role), es, es.len())->Ok_0[i],
            ),
{
    let scope = ScopeView::Role(role);
    lemma_first_elementwise(scope, es, es.len());
    let out = rewritten_first(scope, es, es.len())->Ok_0;
    assert forall|i: int| 0 <= i < out.len() implies normalized(role, #[trigger] out[i]) by {
        assert(rewritten(scope, es[i]) == Ok::<ExprView, ErrorKindView>(out[i]));
    }
}

/// The body of a default method of a role, after the pass, does not
/// mention `self`, and calls on `this` only methods of the contract: a
/// call of another default method of the role has become a call of its
/// lifted function. This holds where the body as written calls on a
/// variable `this` of its own, if it has one, only methods of the contract.
pub proof fn law_self_normalization(role: RoleView, e: ExprView)
    requires
        rewritten(ScopeView::Role(role), e) is Ok,
        calls_contract_on_this(role, e),
    ensures
        normalized(role, rewritten(ScopeView::Role(role), e)->Ok_0),
    decreases e,
{
    let scope = ScopeView::Role(role);
    lemma_this_is_not_self();
    match e {
        ExprView::Path { segments } => {},
        ExprView::Field { base, member } => {
            law_self_normalization(role, *base);
        },
        ExprView::MethodCall { receiver, method, args } => {
            assert forall|i: int|
                0 <= i < args.len() && rewritten(scope, #[trigger] args[i])
                    is Ok implies normalized(role, rewritten(scope, args[i])->Ok_0) by {
                law_self_normalization(role, args[i]);
            }
            match call_dispatch(scope, *receiver, method) {
                Dispatch::Fails(_) => {},
                Dispatch::Lifted { function, mutable } => {
                    lemma_children_normalized(role, args);
                    lemma_lifted_name_is_not_self(role.name, method);
                    let rest = rewritten_first(scope, args, args.len())->Ok_0;
                    let first = explicit_receiver(scope, *receiver, mutable);
                    let all = seq![first] + rest;
                    assert(normalized(role, first));
                    assert forall|i: int| 0 <= i < all.len() implies normalized(
                        role,
                        #[trigger] all[i],
                    ) by {
                        if i > 0 {
                            assert(all[i] == rest[i - 1]);
                        }
                    }
                    let func = ExprView::Path { segments: seq![function] };
                    assert(normalized(role, func));
                    assert(rewritten(scope, e)->Ok_0 == lifted_call(
                        scope,
                        function,
                        mutable,
                        *receiver,
                        rest,
                    ));
                },
                Dispatch::Untouched => {
                    law_self_normalization(role, *receiver);
                    lemma_pass_keeps_shape(scope, *receiver);
                    lemma_children_normalized(role, args);
                    let out = rewritten(scope, *receiver)->Ok_0;
                    if is_this_path(out) {
                        if is_self_path(*receiver) {
                            assert(role_dispatch(role, method) is Untouched);
                        } else {
                            assert(is_this_path(*receiver));
                        }
                    }
                },
            }
        },
        ExprView::Call { func, args } => {
            law_self_normalization(role, *func);
            assert forall|i: int|
                0 <= i < args.len() && rewritten(scope, #[trigger] args[i])
                    is Ok implies normalized(role, rewritten(scope, args[i])->Ok_0) by {
                law_self_normalization(role, args[i]);
            }
            lemma_children_normalized(role, args);
        },
        ExprView::Reference { mutable, expr } => {
            law_self_normalization(role, *expr);
        },
        ExprView::Struct { path, members, values } => {
            assert forall|i: int|
                0 <= i < values.len() && rewritten(scope, #[trigger] values[i])
                    is Ok implies normalized(role, rewritten(scope, values[i])->Ok_0) by {
                law_self_normalization(role, values[i]);
            }
            lemma_children_normalized(role, values);
        },
        ExprView::Other { syntax, parts } => {
            assert forall|i: int|
                0 <= i < parts.len() && rewritten(scope, #[trigger] parts[i])
                    is Ok implies normalized(role, rewritten(scope, parts[i])->Ok_0) by {
                law_self_normalization(role, parts[i]);
            }
            lemma_children_normalized(role, parts);
        },
    }
}

/// Whether every statement of a block is normal for a lifted function of
/// `role`.
pub open spec fn normalized_block(role: RoleView, block: BlockView) -> bool {
    forall|i: int| 0 <= i < block.stmts.len() ==> normalized(role, #[trigger] block.stmts[i])
}

/// Whether every statement of a block calls on `this` only methods of the
/// contract.
pub open spec fn block_calls_contract_on_this(role: RoleView, block: BlockView) -> bool {
    forall|i: int|
        0 <= i < block.stmts.len() ==> calls_contract_on_this(role, #[trigger] block.stmts[i])
}

/// The lifted function of a default method has a normal body.
pub proof fn law_lifted_body_is_normalized(role: RoleView, function: FunctionView)
    requires
        function.body is Some,
        block_calls_contract_on_this(role, function.body->Some_0),
        lifted_function(role, function) is Ok,
    ensures
        lifted_function(role, function)->Ok_0.body is Some,
        normalized_block(role, lifted_function(role, function)->Ok_0.body->Some_0),
{
    let scope = ScopeView::Role(role);
    let stmts = function.body->Some_0.stmts;
    assert(rewritten_block(scope, function.body->Some_0) is Ok);
    assert forall|i: int|
        0 <= i < stmts.len() && rewritten(scope, #[trigger] stmts[i]) is Ok implies normalized(
        role,
        rewritten(scope, stmts[i])->Ok_0,
    ) by {
        law_self_normalization(role, stmts[i]);
    }
    lemma_children_normalized(role, stmts);
}

} // verus!
