//! What holds of every compilation unit.

use vstd::prelude::*;
use crate::analysis::code_analysis::{
    context_count, contract_name_for, is_context_struct, contract_of, contracts_of, find_contract,
    is_contract, is_role, is_unlinked_role, module_error, module_info_of, role_of, roles_of,
};
use crate::analysis::context_info::ContextView;
use crate::analysis::errors::{ErrorKindView, MacroErrorView};
use crate::analysis::trait_info::TraitInfoView;
use crate::compile::context::{
    composite_field, composite_fields, composite_parameters, composite_struct, first_repeated,
    introduced_parameter, introduced_parameters, is_slot, named_type, repeats, same_slot,
    slot_owner, slot_parameter,
};
use crate::compile::module::{
    expanded, invalid_property, is_valid_property, processed, validation_error, Config,
};
use crate::items::{ItemModView, ItemView};
use crate::seqs::{
    count, lemma_count_bound, lemma_count_one, lemma_filter_map_source, lemma_first_index,
    lemma_first_index_same,
};
use crate::syntax::GenericParamView;
use crate::analysis::property_info::PropertyView;

verus! {

/// A unit is accepted only if it declares the aggregate exactly once. With
/// no declaration the run fails for want of one; with several it fails
/// with their number; both at the unit. Without the fallback switch the
/// run hands that error on.
pub proof fn law_uniqueness(module: ItemModView, config: Config)
    requires
        module.items.len() <= usize::MAX,
    ensures
        context_count(module.items) == 0 ==> expanded(module) == Err::<
            Seq<ItemView>,
            MacroErrorView,
        >(MacroErrorView { kind: ErrorKindView::MissingAggregate, span: Some(module.span) }),
        context_count(module.items) > 1 ==> expanded(module) == Err::<
            Seq<ItemView>,
            MacroErrorView,
        >(
            MacroErrorView {
                kind: ErrorKindView::AmbiguousAggregate {
                    count: context_count(module.items) as usize,
                },
                span: Some(module.span),
            },
        ) && (context_count(module.items) as usize) as nat == context_count(module.items),
        expanded(module) is Ok ==> context_count(module.items) == 1,
        !config.fallback ==> processed(module, config) == expanded(module),
{
    lemma_count_bound(module.items, |item: ItemView| is_context_struct(item));
}

/// Whether some item of the unit declares the contract `contract`.
pub open spec fn declares_contract(items: Seq<ItemView>, contract: TraitInfoView) -> bool {
    exists|j: int| 0 <= j < items.len() && #[trigger] contract_of(items[j]) == Some(contract)
}

/// Whether some item of the unit declares a contract called `name`.
pub open spec fn declares_contract_named(items: Seq<ItemView>, name: Seq<char>) -> bool {
    exists|j: int|
        0 <= j < items.len() && is_contract(#[trigger] items[j]) && items[j]->Trait_0.name == name
}

/// Each contract of the unit is declared by one of its items.
proof fn lemma_contracts_are_declared(items: Seq<ItemView>, k: int)
    requires
        0 <= k < contracts_of(items).len(),
    ensures
        declares_contract(items, contracts_of(items)[k]),
        declares_contract_named(items, contracts_of(items)[k].name),
{
    let f = |item: ItemView| contract_of(item);
    lemma_filter_map_source(items, f, k);
    let j = choose|j: int| 0 <= j < items.len() && #[trigger] f(items[j]) == Some(
        contracts_of(items)[k],
    );
    assert(contract_of(items[j]) == Some(contracts_of(items)[k]));
    assert(is_contract(items[j]));
}

/// A role whose contract is not declared stops the run before anything is
/// emitted.
pub proof fn law_role_without_contract_fails(module: ItemModView, k: int)
    requires
        0 <= k < module.items.len(),
        is_role(module.items[k]),
        !declares_contract_named(
            module.items,
            contract_name_for(module.items[k]->Trait_0.name),
        ),
    ensures
        expanded(module) is Err,
{
    let items = module.items;
    let contracts = contracts_of(items);
    let wanted = contract_name_for(items[k]->Trait_0.name);
    let named = |c: TraitInfoView| c.name == wanted;
    lemma_first_index(contracts, named);
    if find_contract(contracts, wanted) is Some {
        let c = find_contract(contracts, wanted)->Some_0;
        lemma_contracts_are_declared(items, c);
        assert(false);
    }
    assert(is_unlinked_role(items[k], contracts));
    let unlinked = |item: ItemView| is_unlinked_role(item, contracts_of(items));
    lemma_first_index(items, unlinked);
    assert(unlinked(items[k]));
}

/// In a unit that passes analysis each role is linked to a contract that
/// the unit declares, and the name of that contract is the name of the
/// role with `Contract` in place of `Role`.
pub proof fn law_role_contract_matching(module: ItemModView, r: int)
    requires
        module_error(module) is None,
        0 <= r < module_info_of(module).context.roles.len(),
    ensures
        ({
            let role = module_info_of(module).context.roles[r];
            &&& role.contract.name == contract_name_for(role.name)
            &&& declares_contract(module.items, role.contract)
            &&& exists|j: int|
                0 <= j < module.items.len() && is_role(#[trigger] module.items[j])
                    && module.items[j]->Trait_0.name == role.name
        }),
{
    let items = module.items;
    let contracts = contracts_of(items);
    let f = |item: ItemView| role_of(item, contracts);
    let role = roles_of(items, contracts)[r];
    lemma_filter_map_source(items, f, r);
    let j = choose|j: int| 0 <= j < items.len() && #[trigger] f(items[j]) == Some(role);
    assert(role_of(items[j], contracts) == Some(role));
    let t = items[j]->Trait_0;
    let wanted = contract_name_for(t.name);
    lemma_first_index(contracts, |c: TraitInfoView| c.name == wanted);
    let k = find_contract(contracts, wanted)->Some_0;
    lemma_contracts_are_declared(items, k);
    assert(is_role(items[j]));
}

/// A slot is owned by a property of its role, which comes no later.
proof fn lemma_slot_owner(properties: Seq<PropertyView>, i: int)
    requires
        0 <= i < properties.len(),
        is_slot(properties[i].ty),
    ensures
        slot_owner(properties, properties[i].ty) is Some,
        0 <= slot_owner(properties, properties[i].ty)->Some_0 <= i,
        same_slot(
            properties[slot_owner(properties, properties[i].ty)->Some_0].ty,
            properties[i].ty,
        ),
{
    let p = |p: PropertyView| same_slot(p.ty, properties[i].ty);
    lemma_first_index(properties, p);
    assert(p(properties[i]));
}

/// The owner of a slot brings the parameter of the slot.
proof fn lemma_owner_introduces(context: ContextView, o: int, n: nat)
    requires
        0 <= o < n <= context.properties.len(),
        introduced_parameter(context, o) is Some,
    ensures
        exists|k: int|
            0 <= k < introduced_parameters(context, n).len() && #[trigger] introduced_parameters(
                context,
                n,
            )[k] == introduced_parameter(context, o)->Some_0,
    decreases n,
{
    let done = introduced_parameters(context, (n - 1) as nat);
    if o == n - 1 {
        assert(introduced_parameters(context, n)[done.len() as int] == introduced_parameter(
            context,
            o,
        )->Some_0);
    } else {
        lemma_owner_introduces(context, o, (n - 1) as nat);
        let k = choose|k: int|
            0 <= k < done.len() && #[trigger] done[k] == introduced_parameter(context, o)->Some_0;
        assert(introduced_parameters(context, n)[k] == done[k]);
    }
}

/// Where no name repeats among the first `n` parameters, no two of them
/// share a name.
proof fn lemma_no_repeat(params: Seq<GenericParamView>, n: nat, a: int, b: int)
    requires
        n <= params.len(),
        first_repeated(params, n) is None,
        0 <= a < b < n,
    ensures
        params[a].name != params[b].name,
    decreases n,
{
    if b < n - 1 {
        lemma_no_repeat(params, (n - 1) as nat, a, b);
    } else {
        assert(!repeats(params, b));
        let named = |p: GenericParamView| p.name == params[b].name;
        lemma_first_index(params.take(b), named);
        assert(params.take(b)[a] == params[a]);
    }
}

/// Two properties that are slots of the same role have one type parameter
/// between them: the fields of both have it as their type, and the
/// composite declares it exactly once.
pub proof fn law_generic_deduplication(context: ContextView, i: int, j: int)
    requires
        0 <= i < context.properties.len(),
        0 <= j < context.properties.len(),
        same_slot(context.properties[i].ty, context.properties[j].ty),
        composite_struct(context) is Ok,
    ensures
        ({
            let composite = composite_struct(context)->Ok_0;
            let parameter = slot_parameter(context.properties, context.properties[i].ty);
            &&& composite.fields[i].ty == named_type(parameter)
            &&& composite.fields[j].ty == named_type(parameter)
            &&& count(composite.generics.params, |p: GenericParamView| p.name == parameter) == 1
        }),
{
    let properties = context.properties;
    let ti = properties[i].ty;
    let tj = properties[j].ty;
    let params = composite_parameters(context);
    let parameter = slot_parameter(properties, ti);
    // both fields have the parameter of the owner as their type
    lemma_first_index_same(
        properties,
        |p: PropertyView| same_slot(p.ty, ti),
        |p: PropertyView| same_slot(p.ty, tj),
    );
    assert(composite_fields(properties)[i] == composite_field(properties, properties[i]));
    assert(composite_fields(properties)[j] == composite_field(properties, properties[j]));
    // the owner brings the parameter
    lemma_slot_owner(properties, i);
    let o = slot_owner(properties, ti)->Some_0;
    lemma_first_index_same(
        properties,
        |p: PropertyView| same_slot(p.ty, ti),
        |p: PropertyView| same_slot(p.ty, properties[o].ty),
    );
    assert(introduced_parameter(context, o) is Some);
    lemma_owner_introduces(context, o, properties.len());
    let introduced = introduced_parameters(context, properties.len());
    let k = choose|k: int|
        0 <= k < introduced.len() && #[trigger] introduced[k] == introduced_parameter(
            context,
            o,
        )->Some_0;
    let at = context.generics.params.len() + k;
    assert(params[at] == introduced[k]);
    assert(params[at].name == parameter);
    // no other parameter has its name
    assert forall|h: int| 0 <= h < params.len() && h != at implies params[h].name != parameter by {
        if h < at {
            lemma_no_repeat(params, params.len(), h, at);
        } else {
            lemma_no_repeat(params, params.len(), at, h);
        }
    }
    lemma_count_one(params, |p: GenericParamView| p.name == parameter, at);
}

/// Whether an aggregate is complete and valid: it is private, has a
/// property and an impl block, and each of its properties is a primitive
/// or a role slot.
pub open spec fn is_valid_aggregate(context: ContextView) -> bool {
    &&& !context.public
    &&& context.properties.len() >= 1
    &&& context.impl_blocks.len() >= 1
    &&& forall|i: int|
        0 <= i < context.properties.len() ==> is_valid_property(#[trigger] context.properties[i])
}

/// The aggregate passes validation exactly if it is complete and valid.
pub proof fn law_validation(context: ContextView)
    ensures
        validation_error(context) is None <==> is_valid_aggregate(context),
{
    lemma_first_index(context.properties, |p: PropertyView| !is_valid_property(p));
    if is_valid_aggregate(context) {
        if invalid_property(context.properties) is Some {
            let k = invalid_property(context.properties)->Some_0;
            assert(is_valid_property(context.properties[k]));
        }
    }
}

/// A unit that expands declares the aggregate once, and its aggregate is
/// complete and valid.
pub proof fn law_expanded_units_are_valid(module: ItemModView)
    requires
        expanded(module) is Ok,
    ensures
        context_count(module.items) == 1,
        is_valid_aggregate(module_info_of(module).context),
{
    law_validation(module_info_of(module).context);
}

} // verus!
