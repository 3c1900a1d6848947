//! The whole unit: validation, compilation, and the declarations that come
//! out, the factory function among them.

use vstd::prelude::*;
use vstd::string::*;
use crate::analysis::code_analysis::{
    analyze_module_with_error_reporting, module_error, module_info_of, ModuleInfo, ModuleInfoView,
};
use crate::analysis::context_info::{ContextInfo, ContextView};
use crate::analysis::errors::{ErrorKind, ErrorKindView, MacroError, MacroErrorView};
use crate::analysis::function_description::{FunctionDescription, FunctionView};
use crate::analysis::generics_info::GenericsInfo;
use crate::analysis::parameter_info::{ParameterInfo, ParameterView};
use crate::analysis::property_info::{PropertyInfo, PropertyView};
use crate::analysis::trait_info::TraitInfoView;
use crate::analysis::type_description::{TypeDescription, TypeDescriptionView};
use crate::compile::context::{
    applied_type, applied_type_for, compiled_context, generic_arguments, generic_arguments_for,
    is_primitive, phantom_prefix, CompiledContext, CompiledContextView,
};
use crate::compile::dispatch::{is_role_type, type_is_role};
use crate::compile::function_descriptor::function_item;
use crate::compile::impl_block::{emitted_block, CompiledImplBlockView};
use crate::compile::role::{emitted_functions, CompiledRoleView};
use crate::compile::trait_info::{compiled_trait, CompiledTraitInfo};
use crate::expr::{lemma_views_of_exprs, Block, BlockView, Expr, ExprView};
use crate::items::{
    clone_items, FieldView, Item, ItemMod, ItemModView, ItemStruct, ItemStructView, ItemTraitView,
    ItemView, Method, MethodView,
};
use crate::seqs::{
    filter_map, first_index, lemma_filter_map_ends, lemma_filter_map_take, lemma_first_index_is,
    lemma_first_index_none, lemma_try_map_ends, lemma_try_map_error, lemma_try_map_take, try_map,
};
use crate::syntax::{views, Type, TypeView};
use crate::text::{has_prefix, starts_with, to_upper_camel_case, upper_camel_case};

verus! {

/// Whether a field is a placeholder.
pub open spec fn is_phantom(name: Seq<char>) -> bool {
    has_prefix(name, phantom_prefix())
}

/// The parameter of the factory function for a field: one for each named
/// field that is no placeholder.
pub open spec fn bind_parameter(field: FieldView) -> Option<ParameterView> {
    match field.name {
        Some(name) => if is_phantom(name) {
            None
        } else {
            Some(ParameterView::Typed { name, ty: field.ty })
        },
        None => None,
    }
}

/// The name of a field that the factory function fills from its parameter.
pub open spec fn bound_member(field: FieldView) -> Option<Seq<char>> {
    match field.name {
        Some(name) => if is_phantom(name) {
            None
        } else {
            Some(name)
        },
        None => None,
    }
}

/// The name of a field that is a placeholder.
pub open spec fn phantom_member(field: FieldView) -> Option<Seq<char>> {
    match field.name {
        Some(name) => if is_phantom(name) {
            Some(name)
        } else {
            None
        },
        None => None,
    }
}

/// The value of a placeholder field.
pub open spec fn phantom_value() -> ExprView {
    ExprView::Path { segments: seq!["std"@, "marker"@, "PhantomData"@] }
}

/// A variable.
pub open spec fn variable(name: Seq<char>) -> ExprView {
    ExprView::Path { segments: seq![name] }
}

/// The struct literal that the factory function returns: each field from
/// the parameter of its name, then each placeholder.
pub open spec fn bind_literal(base: ItemStructView) -> ExprView {
    let bound = filter_map(base.fields, |f: FieldView| bound_member(f));
    let phantoms = filter_map(base.fields, |f: FieldView| phantom_member(f));
    ExprView::Struct {
        path: applied_type(base.name, base.generics.params),
        members: bound + phantoms,
        values: bound.map_values(|name: Seq<char>| variable(name)) + phantoms.map_values(
            |name: Seq<char>| phantom_value(),
        ),
    }
}

/// The factory function, described: `bind`, with the generics of the
/// composite and a parameter for each of its fields but the placeholders;
/// it builds the composite and returns it as some implementation of the
/// interface.
pub open spec fn bind_description(base: ItemStructView, interface: Seq<char>) -> FunctionView {
    FunctionView {
        name: "bind"@,
        params: filter_map(base.fields, |f: FieldView| bind_parameter(f)),
        generics: base.generics,
        output: Some(
            TypeView::ImplTrait {
                name: interface,
                arguments: generic_arguments(base.generics.params),
            },
        ),
        body: Some(BlockView { stmts: seq![bind_literal(base)] }),
        asyncness: false,
        attrs: Seq::empty(),
    }
}

/// The factory function.
pub open spec fn bind_function(base: ItemStructView, interface: Seq<char>) -> MethodView {
    function_item(bind_description(base, interface))->Some_0
}

fn field_is_phantom(name: &str) -> (res: bool)
    ensures
        res == is_phantom(name@),
{
    starts_with(name, "_phantom_")
}

fn variable_for(name: &str) -> (res: Expr)
    ensures
        res@ == variable(name@),
{
    let mut segments: Vec<String> = Vec::new();
    segments.push(name.to_owned());
    assert(views(segments) =~= seq![name@]);
    let res = Expr::Path { segments };
    assert(res@ == (ExprView::Path { segments: views(res->Path_segments) }));
    res
}

fn phantom_value_for() -> (res: Expr)
    ensures
        res@ == phantom_value(),
{
    let mut segments: Vec<String> = Vec::new();
    segments.push("std".to_owned());
    segments.push("marker".to_owned());
    segments.push("PhantomData".to_owned());
    assert(views(segments) =~= seq!["std"@, "marker"@, "PhantomData"@]);
    let res = Expr::Path { segments };
    assert(res@ == (ExprView::Path { segments: views(res->Path_segments) }));
    res
}

/// The struct literal that the factory function returns.
fn bind_literal_for(base: &ItemStruct) -> (res: Expr)
    ensures
        res@ == bind_literal(base@),
{
    let ghost fb = |f: FieldView| bound_member(f);
    let ghost fp = |f: FieldView| phantom_member(f);
    let ghost all = views(base.fields);
    let mut members: Vec<String> = Vec::new();
    let mut values: Vec<Expr> = Vec::new();
    let mut i: usize = 0;
    proof {
        lemma_filter_map_ends(all, fb);
        assert(views(members) =~= Seq::<Seq<char>>::empty());
    }
    while i < base.fields.len()
        invariant
            i <= base.fields.len(),
            all == views(base.fields),
            fb == |f: FieldView| bound_member(f),
            views(members) == filter_map(all.take(i as int), fb),
            values.len() == members.len(),
            forall|j: int| 0 <= j < values.len() ==> values[j]@ == variable(members[j]@),
        decreases base.fields.len() - i,
    {
        proof {
            lemma_filter_map_take(all, i as int, fb);
        }
        assert(all[i as int] == base.fields[i as int]@);
        let ghost before = views(members);
        match &base.fields[i].name {
            Some(name) => {
                if !field_is_phantom(name.as_str()) {
                    members.push(name.clone());
                    values.push(variable_for(name.as_str()));
                    assert(views(members) =~= before.push(name@));
                }
            },
            None => {},
        }
        i += 1;
    }
    proof {
        lemma_filter_map_ends(all, fb);
        lemma_filter_map_ends(all, fp);
    }
    let ghost bound = views(members);
    let ghost bound_len = members.len();
    let mut k: usize = 0;
    assert(views(members) =~= bound + filter_map(all.take(0), fp));
    while k < base.fields.len()
        invariant
            k <= base.fields.len(),
            all == views(base.fields),
            fp == |f: FieldView| phantom_member(f),
            bound.len() == bound_len,
            views(members) == bound + filter_map(all.take(k as int), fp),
            values.len() == members.len(),
            forall|j: int| 0 <= j < bound_len ==> values[j]@ == variable(bound[j]),
            forall|j: int| bound_len <= j < values.len() ==> values[j]@ == phantom_value(),
        decreases base.fields.len() - k,
    {
        proof {
            lemma_filter_map_take(all, k as int, fp);
        }
        assert(all[k as int] == base.fields[k as int]@);
        let ghost before = views(members);
        match &base.fields[k].name {
            Some(name) => {
                if field_is_phantom(name.as_str()) {
                    members.push(name.clone());
                    values.push(phantom_value_for());
                    assert(views(members) =~= before.push(name@));
                    assert(views(members) =~= bound + filter_map(all.take(k as int), fp).push(
                        name@,
                    ));
                }
            },
            None => {},
        }
        k += 1;
    }
    proof {
        lemma_filter_map_ends(all, fp);
        lemma_views_of_exprs(values);
    }
    let ghost phantoms = filter_map(all, fp);
    assert(views(values) =~= bound.map_values(|name: Seq<char>| variable(name))
        + phantoms.map_values(|name: Seq<char>| phantom_value()));
    Expr::Struct {
        path: applied_type_for(base.name.as_str(), &base.generics.params),
        members,
        values,
    }
}

/// The factory function of the composite.
pub fn generate_bind_function(base: &ItemStruct, interface: &str) -> (res: Method)
    ensures
        res@ == bind_function(base@, interface@),
{
    let ghost f = |f: FieldView| bind_parameter(f);
    let ghost all = views(base.fields);
    let mut params: Vec<ParameterInfo> = Vec::new();
    let mut i: usize = 0;
    proof {
        lemma_filter_map_ends(all, f);
        assert(views(params) =~= Seq::<ParameterView>::empty());
    }
    while i < base.fields.len()
        invariant
            i <= base.fields.len(),
            all == views(base.fields),
            f == |f: FieldView| bind_parameter(f),
            views(params) == filter_map(all.take(i as int), f),
        decreases base.fields.len() - i,
    {
        proof {
            lemma_filter_map_take(all, i as int, f);
        }
        assert(all[i as int] == base.fields[i as int]@);
        let ghost before = views(params);
        match &base.fields[i].name {
            Some(name) => {
                if !field_is_phantom(name.as_str()) {
                    let param = ParameterInfo::new_owned(name.as_str(), base.fields[i].ty.clone());
                    params.push(param);
                    assert(views(params) =~= before.push(param@));
                }
            },
            None => {},
        }
        i += 1;
    }
    proof {
        lemma_filter_map_ends(all, f);
    }
    let mut stmts: Vec<Expr> = Vec::new();
    let literal = bind_literal_for(base);
    stmts.push(literal);
    assert(views(stmts) =~= seq![literal@]);
    let attrs: Vec<String> = Vec::new();
    assert(views(attrs) =~= Seq::<Seq<char>>::empty());
    let bind_fn = FunctionDescription::new_implementation(
        "bind".to_owned(),
        params,
        GenericsInfo::from_syn_generics(&base.generics),
        Some(
            Type::ImplTrait {
                name: interface.to_owned(),
                arguments: generic_arguments_for(&base.generics.params),
            },
        ),
        Block { stmts },
        false,
        attrs,
    );
    assert(bind_fn@ == bind_description(base@, interface@));
    bind_fn.compile().emit().unwrap()
}

/// Whether a property may stand in the aggregate: its type is a primitive
/// or names a role.
pub open spec fn is_valid_property(p: PropertyView) -> bool {
    is_primitive(p.ty) || is_role_type(p.ty)
}

/// The position of the first property that may not stand in the aggregate.
pub open spec fn invalid_property(properties: Seq<PropertyView>) -> Option<int> {
    first_index(properties, |p: PropertyView| !is_valid_property(p))
}

/// What is wrong with the members of the aggregate: it is public, which is
/// an error at the aggregate, or one of its properties is neither a
/// primitive nor a role slot, which is an error at the first such property.
pub open spec fn member_error(context: ContextView) -> Option<MacroErrorView> {
    if context.public {
        Some(MacroErrorView { kind: ErrorKindView::AggregateNotPrivate, span: Some(context.span) })
    } else {
        match invalid_property(context.properties) {
            Some(k) => Some(
                MacroErrorView {
                    kind: ErrorKindView::InvalidPropertyType {
                        property: context.properties[k].name,
                    },
                    span: Some(context.properties[k].span),
                },
            ),
            None => None,
        }
    }
}

/// What is wrong with the aggregate: it has no property, or no impl block,
/// or something is wrong with its members.
pub open spec fn validation_error(context: ContextView) -> Option<MacroErrorView> {
    if context.properties.len() == 0 {
        Some(MacroErrorView { kind: ErrorKindView::MissingProperties, span: Some(context.span) })
    } else if context.impl_blocks.len() == 0 {
        Some(MacroErrorView { kind: ErrorKindView::MissingImplBlocks, span: Some(context.span) })
    } else {
        member_error(context)
    }
}

/// The view of an outcome without a value.
pub open spec fn unit_outcome(res: Result<(), MacroError>) -> Option<MacroErrorView> {
    match res {
        Ok(_) => None,
        Err(e) => Some(e@),
    }
}

fn find_invalid_property(properties: &Vec<PropertyInfo>) -> (res: Option<usize>)
    ensures
        match res {
            Some(k) => invalid_property(views(*properties)) == Some(k as int) && k
                < properties.len(),
            None => invalid_property(views(*properties)) is None,
        },
{
    let mut i: usize = 0;
    while i < properties.len()
        invariant
            i <= properties.len(),
            forall|j: int| 0 <= j < i ==> is_valid_property(#[trigger] views(*properties)[j]),
        decreases properties.len() - i,
    {
        assert(views(*properties)[i as int] == properties[i as int]@);
        let ty = properties[i].get_ty();
        if !ContextInfo::is_primitive_type(&ty) && !type_is_role(&ty) {
            proof {
                lemma_first_index_is(
                    views(*properties),
                    |p: PropertyView| !is_valid_property(p),
                    i as int,
                );
            }
            return Some(i);
        }
        i += 1;
    }
    proof {
        lemma_first_index_none(views(*properties), |p: PropertyView| !is_valid_property(p));
    }
    None
}

/// Checks that the aggregate is private and holds only primitives and role
/// slots.
pub fn validate_context_have_only_role_members(context: &ContextInfo) -> (res: Result<
    (),
    MacroError,
>)
    ensures
        unit_outcome(res) == member_error(context@),
{
    if context.public {
        return Err(MacroError::of_kind(ErrorKind::AggregateNotPrivate, context.span));
    }
    match find_invalid_property(&context.properties) {
        Some(k) => {
            assert(views(context.properties)[k as int] == context.properties[k as int]@);
            Err(
                MacroError::of_kind(
                    ErrorKind::InvalidPropertyType { property: context.properties[k].get_name() },
                    context.properties[k].get_span(),
                ),
            )
        },
        None => Ok(()),
    }
}

/// What a unit compiles to.
#[derive(Debug, PartialEq, Eq)]
pub struct CompiledModule {
    pub module_name: String,
    pub context: CompiledContext,
    pub contracts: Vec<CompiledTraitInfo>,
    pub others: Vec<Item>,
}

/// The view of `CompiledModule`.
pub ghost struct CompiledModuleView {
    pub module_name: Seq<char>,
    pub context: CompiledContextView,
    pub contracts: Seq<ItemTraitView>,
    pub others: Seq<ItemView>,
}

impl View for CompiledModule {
    type V = CompiledModuleView;

    open spec fn view(&self) -> CompiledModuleView {
        CompiledModuleView {
            module_name: self.module_name@,
            context: self.context@,
            contracts: views(self.contracts),
            others: views(self.others),
        }
    }
}

/// The name of the interface of a unit: its name in upper camel case.
pub open spec fn interface_name(module_name: Seq<char>) -> Seq<char> {
    upper_camel_case(module_name)
}

/// A contract as a public trait.
pub open spec fn public_contract(contract: TraitInfoView) -> Result<ItemTraitView, MacroErrorView> {
    match compiled_trait(contract) {
        Ok(t) => Ok(ItemTraitView { public: true, ..t }),
        Err(e) => Err(e),
    }
}

/// The item of a declaration that passes through.
pub open spec fn passed_item(description: TypeDescriptionView) -> Option<ItemView> {
    match description {
        TypeDescriptionView::Other(item) => Some(item),
        _ => None,
    }
}

/// What a unit compiles to: the aggregate under the interface named after
/// the unit, the contracts as public traits, and the items that pass
/// through; or the first error on that way.
pub open spec fn compiled_module(module: ModuleInfoView) -> Result<
    CompiledModuleView,
    MacroErrorView,
> {
    match compiled_context(module.context, interface_name(module.module_name)) {
        Err(e) => Err(e),
        Ok(context) => match try_map(module.contracts, |c: TraitInfoView| public_contract(c)) {
            Err(e) => Err(e),
            Ok(contracts) => Ok(
                CompiledModuleView {
                    module_name: module.module_name,
                    context,
                    contracts,
                    others: filter_map(
                        module.others,
                        |d: TypeDescriptionView| passed_item(d),
                    ),
                },
            ),
        },
    }
}

/// The outcome of validating and compiling a unit.
pub open spec fn checked_module(module: ModuleInfoView) -> Result<
    CompiledModuleView,
    MacroErrorView,
> {
    match validation_error(module.context) {
        Some(e) => Err(e),
        None => compiled_module(module),
    }
}

/// The view of the outcome of compiling a unit.
pub open spec fn module_outcome(res: Result<CompiledModule, MacroError>) -> Result<
    CompiledModuleView,
    MacroErrorView,
> {
    match res {
        Ok(m) => Ok(m@),
        Err(e) => Err(e@),
    }
}

impl ModuleInfo {
    /// Compiles the unit.
    pub fn compile(&self) -> (res: Result<CompiledModule, MacroError>)
        ensures
            module_outcome(res) == compiled_module(self@),
    {
        let interface = to_upper_camel_case(self.module_name.as_str());
        let context = self.context.compile(interface.as_str())?;
        let ghost fc = |c: TraitInfoView| public_contract(c);
        let ghost all = views(self.contracts);
        let mut contracts: Vec<CompiledTraitInfo> = Vec::new();
        let mut i: usize = 0;
        proof {
            lemma_try_map_ends(all, fc);
            assert(views(contracts) =~= Seq::<ItemTraitView>::empty());
        }
        while i < self.contracts.len()
            invariant
                i <= self.contracts.len(),
                all == views(self.contracts),
                fc == |c: TraitInfoView| public_contract(c),
                compiled_context(self@.context, interface_name(self@.module_name)) == Ok::<
                    CompiledContextView,
                    MacroErrorView,
                >(context@),
                try_map(all.take(i as int), fc) == Ok::<Seq<ItemTraitView>, MacroErrorView>(
                    views(contracts),
                ),
            decreases self.contracts.len() - i,
        {
            proof {
                lemma_try_map_take(all, i as int, fc);
            }
            assert(all[i as int] == self.contracts[i as int]@);
            let ghost before = views(contracts);
            match self.contracts[i].compile() {
                Ok(mut contract) => {
                    contract.trait_item.public = true;
                    contracts.push(contract);
                    assert(views(contracts) =~= before.push(contract@));
                },
                Err(error) => {
                    proof {
                        lemma_try_map_error(all, i as int + 1, fc);
                    }
                    return Err(error);
                },
            }
            i += 1;
        }
        proof {
            lemma_try_map_ends(all, fc);
        }
        let ghost fo = |d: TypeDescriptionView| passed_item(d);
        let ghost descriptions = views(self.others);
        let mut others: Vec<Item> = Vec::new();
        let mut k: usize = 0;
        proof {
            lemma_filter_map_ends(descriptions, fo);
            assert(views(others) =~= Seq::<ItemView>::empty());
        }
        while k < self.others.len()
            invariant
                k <= self.others.len(),
                descriptions == views(self.others),
                fo == |d: TypeDescriptionView| passed_item(d),
                views(others) == filter_map(descriptions.take(k as int), fo),
            decreases self.others.len() - k,
        {
            proof {
                lemma_filter_map_take(descriptions, k as int, fo);
            }
            assert(descriptions[k as int] == self.others[k as int]@);
            let ghost before = views(others);
            match &self.others[k] {
                TypeDescription::Other(item) => {
                    let item = item.clone();
                    others.push(item);
                    assert(views(others) =~= before.push(item@));
                },
                _ => {},
            }
            k += 1;
        }
        proof {
            lemma_filter_map_ends(descriptions, fo);
        }
        Ok(CompiledModule { module_name: self.module_name.clone(), context, contracts, others })
    }
}

/// Validates the aggregate of a unit, then compiles the unit.
pub fn compile_module_with_error_reporting(module: ModuleInfo) -> (res: Result<
    CompiledModule,
    MacroError,
>)
    ensures
        module_outcome(res) == checked_module(module@),
{
    if module.context.properties.len() == 0 {
        return Err(MacroError::of_kind(ErrorKind::MissingProperties, module.context.span));
    }
    if module.context.impl_blocks.len() == 0 {
        return Err(MacroError::of_kind(ErrorKind::MissingImplBlocks, module.context.span));
    }
    match validate_context_have_only_role_members(&module.context) {
        Err(e) => {
            return Err(e);
        },
        Ok(_) => {},
    }
    module.compile()
}

/// The lifted functions of the first `n` roles, as items.
pub open spec fn role_items(roles: Seq<CompiledRoleView>, n: nat) -> Seq<ItemView>
    decreases n,
{
    if n == 0 || n > roles.len() {
        Seq::empty()
    } else {
        role_items(roles, (n - 1) as nat) + emitted_functions(roles[n - 1].functions)
    }
}

/// The declarations of the composite: the struct, the interface, the impl
/// blocks, and the lifted functions.
pub open spec fn context_items(context: CompiledContextView) -> Seq<ItemView> {
    let blocks = context.context_methods.map_values(
        |b: CompiledImplBlockView| ItemView::Impl(emitted_block(b)),
    );
    seq![ItemView::Struct(context.base), ItemView::Trait(context.context_trait)] + blocks
        + role_items(context.roles, context.roles.len())
}

/// The declarations that a compiled unit is printed as: the struct, the
/// interface, the impl blocks, the lifted functions, the factory function,
/// the contracts, and the items that pass through.
pub open spec fn emitted(module: CompiledModuleView) -> Seq<ItemView> {
    context_items(module.context) + seq![
        ItemView::Fn(bind_function(module.context.base, module.context.context_trait.name)),
    ] + module.contracts.map_values(|t: ItemTraitView| ItemView::Trait(t)) + module.others
}

impl CompiledContext {
    /// The declarations of the composite.
    pub fn emit(&self) -> (res: Vec<Item>)
        ensures
            views(res) == context_items(self@),
    {
        let mut items: Vec<Item> = Vec::new();
        items.push(Item::Struct(self.base.clone()));
        items.push(Item::Trait(self.context_trait.clone()));
        let ghost head = views(items);
        assert(head =~= seq![ItemView::Struct(self@.base), ItemView::Trait(self@.context_trait)]);
        let mut i: usize = 0;
        while i < self.context_methods.len()
            invariant
                i <= self.context_methods.len(),
                items.len() == 2 + i,
                head.len() == 2,
                forall|j: int| 0 <= j < 2 ==> items[j]@ == head[j],
                forall|j: int|
                    0 <= j < i ==> items[2 + j]@ == ItemView::Impl(
                        emitted_block(self.context_methods[j]@),
                    ),
            decreases self.context_methods.len() - i,
        {
            items.push(Item::Impl(self.context_methods[i].emit()));
            i += 1;
        }
        let ghost blocks = views(self.context_methods).map_values(
            |b: CompiledImplBlockView| ItemView::Impl(emitted_block(b)),
        );
        assert(views(items) =~= head + blocks);
        let mut r: usize = 0;
        assert(views(items) =~= head + blocks + role_items(self@.roles, 0));
        while r < self.roles.len()
            invariant
                r <= self.roles.len(),
                views(items) == head + blocks + role_items(self@.roles, r as nat),
            decreases self.roles.len() - r,
        {
            assert(views(self.roles)[r as int] == self.roles[r as int]@);
            let ghost before = views(items);
            let mut lifted = self.roles[r].emit();
            let ghost added = views(lifted);
            items.append(&mut lifted);
            assert(views(items) =~= before + added);
            assert(views(items) =~= head + blocks + role_items(self@.roles, (r + 1) as nat));
            r += 1;
        }
        items
    }
}

impl CompiledModule {
    /// The declarations that the unit is printed as.
    pub fn emit(&self) -> (res: Vec<Item>)
        ensures
            views(res) == emitted(self@),
    {
        let mut items = self.context.emit();
        let ghost head = views(items);
        let bind = Item::Fn(
            generate_bind_function(&self.context.base, self.context.context_trait.name.as_str()),
        );
        items.push(bind);
        assert(views(items) =~= head + seq![bind@]);
        let ghost with_bind = views(items);
        let ghost n = items.len();
        let mut i: usize = 0;
        while i < self.contracts.len()
            invariant
                i <= self.contracts.len(),
                n == with_bind.len(),
                items.len() == n + i,
                forall|j: int| 0 <= j < n ==> items[j]@ == with_bind[j],
                forall|j: int| 0 <= j < i ==> items[n + j]@ == ItemView::Trait(self.contracts[j]@),
            decreases self.contracts.len() - i,
        {
            items.push(Item::Trait(self.contracts[i].emit()));
            i += 1;
        }
        let ghost contracts = views(self.contracts).map_values(
            |t: ItemTraitView| ItemView::Trait(t),
        );
        assert(views(items) =~= with_bind + contracts);
        let ghost before = views(items);
        let mut others = clone_items(&self.others);
        items.append(&mut others);
        assert(views(items) =~= before + views(self.others));
        items
    }
}

/// The switches of one run.
#[derive(Debug, Clone, Copy, PartialEq, Eq, Structural)]
pub struct Config {
    /// Whether each decision is traced.
    pub debug: bool,
    /// Whether, on an error, the unit is handed back unchanged.
    pub fallback: bool,
}

/// The declarations that a unit expands to, or the error that stops it.
pub open spec fn expanded(module: ItemModView) -> Result<Seq<ItemView>, MacroErrorView> {
    match module_error(module) {
        Some(e) => Err(e),
        None => match checked_module(module_info_of(module)) {
            Err(e) => Err(e),
            Ok(compiled) => Ok(emitted(compiled)),
        },
    }
}

/// The outcome of a run: on an error in fallback mode the items of the unit
/// as they were.
pub open spec fn processed(module: ItemModView, config: Config) -> Result<
    Seq<ItemView>,
    MacroErrorView,
> {
    match expanded(module) {
        Ok(items) => Ok(items),
        Err(e) => if config.fallback {
            Ok(module.items)
        } else {
            Err(e)
        },
    }
}

/// The view of the outcome of a run.
pub open spec fn items_outcome(res: Result<Vec<Item>, MacroError>) -> Result<
    Seq<ItemView>,
    MacroErrorView,
> {
    match res {
        Ok(items) => Ok(views(items)),
        Err(e) => Err(e@),
    }
}

/// Analyses, validates, compiles and emits one unit.
pub fn expand_module(module: &ItemMod) -> (res: Result<Vec<Item>, MacroError>)
    ensures
        items_outcome(res) == expanded(module@),
{
    let analyzed = analyze_module_with_error_reporting(module)?;
    let compiled = compile_module_with_error_reporting(analyzed)?;
    Ok(compiled.emit())
}

/// Runs the pipeline on one unit under the given switches.
pub fn process_module(module: &ItemMod, config: &Config) -> (res: Result<Vec<Item>, MacroError>)
    ensures
        items_outcome(res) == processed(module@, *config),
{
    match expand_module(module) {
        Ok(items) => Ok(items),
        Err(e) => {
            if config.fallback {
                Ok(clone_items(&module.items))
            } else {
                Err(e)
            }
        },
    }
}

} // verus!
