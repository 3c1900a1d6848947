//! The analysis of a whole compilation unit: its declarations are sorted
//! into contracts, roles, the aggregate with its impl blocks, and the rest.

use vstd::prelude::*;
use vstd::string::*;
use crate::analysis::context_info::{analyze_context, context_of, ContextInfo, ContextView};
use crate::analysis::errors::{ErrorKind, ErrorKindView, MacroError, MacroErrorView};
use crate::analysis::function_description::{analyze_trait_methods, described_methods};
use crate::analysis::generics_info::item_generics;
use crate::analysis::role::{Role, RoleView};
use crate::analysis::trait_info::{
    analyze_trait, analyze_trait_generics, trait_info_of, TraitInfo, TraitInfoView,
};
use crate::analysis::type_description::{TypeDescription, TypeDescriptionView};
use crate::items::{
    Item, ItemImpl, ItemImplView, ItemMod, ItemModView, ItemStruct, ItemTrait, ItemTraitView,
    ItemView,
};
use crate::seqs::{
    count, filter_map, first_index, lemma_count_ends, lemma_count_take, lemma_filter_map_ends,
    lemma_filter_map_take, lemma_first_index_is, lemma_first_index_none,
};
use crate::syntax::{views, Span, Type, TypeView};
use crate::text::{drop_last, ends_with, has_suffix, str_eq};

verus! {

/// A compilation unit, analysed: the aggregate with its roles, the contracts,
/// and the declarations that pass through.
#[derive(Debug, PartialEq, Eq)]
pub struct ModuleInfo {
    pub module_name: String,
    pub context: ContextInfo,
    /// The declarations that pass through unchanged.
    pub others: Vec<TypeDescription>,
    /// The contracts of the unit, in the order of their declarations.
    pub contracts: Vec<TraitInfo>,
    /// Where the unit is declared.
    pub span: Span,
}

/// The view of `ModuleInfo`.
pub ghost struct ModuleInfoView {
    pub module_name: Seq<char>,
    pub context: ContextView,
    pub others: Seq<TypeDescriptionView>,
    pub contracts: Seq<TraitInfoView>,
    pub span: Span,
}

impl View for ModuleInfo {
    type V = ModuleInfoView;

    open spec fn view(&self) -> ModuleInfoView {
        ModuleInfoView {
            module_name: self.module_name@,
            context: self.context@,
            others: views(self.others),
            contracts: views(self.contracts),
            span: self.span,
        }
    }
}

impl Clone for ModuleInfo {
    fn clone(&self) -> (res: Self)
        ensures
            res@ == self@,
    {
        ModuleInfo {
            module_name: self.module_name.clone(),
            context: self.context.clone(),
            others: crate::analysis::type_description::clone_descriptions(&self.others),
            contracts: crate::analysis::trait_info::clone_traits(&self.contracts),
            span: self.span,
        }
    }
}

/// The suffix of the name of a contract.
pub open spec fn contract_suffix() -> Seq<char> {
    "Contract"@
}

/// The suffix of the name of a role.
pub open spec fn role_suffix() -> Seq<char> {
    "Role"@
}

/// The name of the aggregate.
pub open spec fn context_name() -> Seq<char> {
    "Context"@
}

/// Whether a type is a path whose last segment is `name`.
pub open spec fn type_is_named(ty: TypeView, name: Seq<char>) -> bool {
    match ty {
        TypeView::Path { segments, .. } => segments.len() > 0 && segments.last() == name,
        _ => false,
    }
}

/// Whether an item declares the aggregate.
pub open spec fn is_context_struct(item: ItemView) -> bool {
    match item {
        ItemView::Struct(s) => s.name == context_name(),
        _ => false,
    }
}

/// Whether an item is an impl block of the aggregate.
pub open spec fn is_context_impl(item: ItemView) -> bool {
    match item {
        ItemView::Impl(i) => type_is_named(i.self_ty, context_name()),
        _ => false,
    }
}

/// Whether an item declares a contract.
pub open spec fn is_contract(item: ItemView) -> bool {
    match item {
        ItemView::Trait(t) => has_suffix(t.name, contract_suffix()),
        _ => false,
    }
}

/// Whether an item declares a role.
pub open spec fn is_role(item: ItemView) -> bool {
    match item {
        ItemView::Trait(t) => has_suffix(t.name, role_suffix()),
        _ => false,
    }
}

/// Whether an item passes through unchanged: it is no contract, no role, not
/// the aggregate and none of its impl blocks.
pub open spec fn passes_through(item: ItemView) -> bool {
    !is_contract(item) && !is_role(item) && !is_context_struct(item) && !is_context_impl(item)
}

/// The number of declarations of the aggregate.
pub open spec fn context_count(items: Seq<ItemView>) -> nat {
    count(items, |item: ItemView| is_context_struct(item))
}

/// The name of the contract of a role: the name of the role with `Contract`
/// in place of its suffix.
pub open spec fn contract_name_for(role: Seq<char>) -> Seq<char> {
    if has_suffix(role, role_suffix()) {
        drop_last(role, 4) + contract_suffix()
    } else {
        contract_suffix()
    }
}

/// The contract that an item declares.
pub open spec fn contract_of(item: ItemView) -> Option<TraitInfoView> {
    match item {
        ItemView::Trait(t) => if has_suffix(t.name, contract_suffix()) {
            Some(trait_info_of(t))
        } else {
            None
        },
        _ => None,
    }
}

/// The contracts of a unit, in order.
pub open spec fn contracts_of(items: Seq<ItemView>) -> Seq<TraitInfoView> {
    filter_map(items, |item: ItemView| contract_of(item))
}

/// The position of the first contract called `name`.
pub open spec fn find_contract(contracts: Seq<TraitInfoView>, name: Seq<char>) -> Option<int> {
    first_index(contracts, |c: TraitInfoView| c.name == name)
}

/// The role that a trait declares, linked to its contract. There is none
/// where no contract has the name that the role asks for.
pub open spec fn linked_role(item: ItemTraitView, contracts: Seq<TraitInfoView>) -> Option<
    RoleView,
> {
    match find_contract(contracts, contract_name_for(item.name)) {
        Some(k) => Some(
            RoleView {
                name: item.name,
                contract: contracts[k],
                generics: item_generics(ItemView::Trait(item)),
                methods: described_methods(item.items),
                span: item.span,
            },
        ),
        None => None,
    }
}

/// The role that an item declares, linked to its contract.
pub open spec fn role_of(item: ItemView, contracts: Seq<TraitInfoView>) -> Option<RoleView> {
    match item {
        ItemView::Trait(t) => if has_suffix(t.name, role_suffix()) {
            linked_role(t, contracts)
        } else {
            None
        },
        _ => None,
    }
}

/// The roles of a unit, in order, each linked to its contract.
pub open spec fn roles_of(items: Seq<ItemView>, contracts: Seq<TraitInfoView>) -> Seq<RoleView> {
    filter_map(items, |item: ItemView| role_of(item, contracts))
}

/// Whether an item declares a role that has no contract.
pub open spec fn is_unlinked_role(item: ItemView, contracts: Seq<TraitInfoView>) -> bool {
    is_role(item) && role_of(item, contracts) is None
}

/// The position of the first role that has no contract.
pub open spec fn unlinked_role(items: Seq<ItemView>) -> Option<int> {
    first_index(items, |item: ItemView| is_unlinked_role(item, contracts_of(items)))
}

/// The impl block of the aggregate that an item is.
pub open spec fn context_impl_of(item: ItemView) -> Option<ItemImplView> {
    match item {
        ItemView::Impl(i) => if type_is_named(i.self_ty, context_name()) {
            Some(i)
        } else {
            None
        },
        _ => None,
    }
}

/// The impl blocks of the aggregate, in order.
pub open spec fn context_impls(items: Seq<ItemView>) -> Seq<ItemImplView> {
    filter_map(items, |item: ItemView| context_impl_of(item))
}

/// An item as a declaration that passes through.
pub open spec fn other_of(item: ItemView) -> Option<TypeDescriptionView> {
    if passes_through(item) {
        Some(TypeDescriptionView::Other(item))
    } else {
        None
    }
}

/// The declarations that pass through, in order.
pub open spec fn others_of(items: Seq<ItemView>) -> Seq<TypeDescriptionView> {
    filter_map(items, |item: ItemView| other_of(item))
}

/// The position of the declaration of the aggregate.
pub open spec fn context_position(items: Seq<ItemView>) -> Option<int> {
    first_index(items, |item: ItemView| is_context_struct(item))
}

/// The model of a unit that declares one aggregate and a contract for each
/// role.
pub open spec fn module_info_of(module: ItemModView) -> ModuleInfoView
    recommends
        context_position(module.items) is Some,
{
    let items = module.items;
    let k = context_position(items)->Some_0;
    let context = context_of(items[k]->Struct_0, context_impls(items));
    ModuleInfoView {
        module_name: module.name,
        context: ContextView { roles: roles_of(items, contracts_of(items)), ..context },
        others: others_of(items),
        contracts: contracts_of(items),
        span: module.span,
    }
}

/// What stops the analysis of a unit: no aggregate or several, at the unit;
/// else the first role without a contract, at that role.
pub open spec fn module_error(module: ItemModView) -> Option<MacroErrorView> {
    let n = context_count(module.items);
    if n == 0 {
        Some(MacroErrorView { kind: ErrorKindView::MissingAggregate, span: Some(module.span) })
    } else if n > 1 {
        Some(
            MacroErrorView {
                kind: ErrorKindView::AmbiguousAggregate { count: n as usize },
                span: Some(module.span),
            },
        )
    } else {
        match unlinked_role(module.items) {
            Some(k) => Some(
                MacroErrorView {
                    kind: ErrorKindView::MissingContract {
                        role: module.items[k]->Trait_0.name,
                    },
                    span: Some(module.items[k]->Trait_0.span),
                },
            ),
            None => None,
        }
    }
}

/// Whether a type is a path whose last segment is `name`.
pub fn type_has_name(ty: &Type, name: &str) -> (res: bool)
    ensures
        res == type_is_named(ty@, name@),
{
    match ty {
        Type::Path { segments, .. } => {
            let n: usize = segments.len();
            if n == 0 {
                false
            } else {
                assert(views(*segments).last() == segments[n - 1]@);
                str_eq(segments[n - 1].as_str(), name)
            }
        },
        _ => false,
    }
}

fn item_is_context_struct(item: &Item) -> (res: bool)
    ensures
        res == is_context_struct(item@),
{
    match item {
        Item::Struct(s) => str_eq(s.name.as_str(), "Context"),
        _ => false,
    }
}

fn item_is_context_impl(item: &Item) -> (res: bool)
    ensures
        res == is_context_impl(item@),
{
    match item {
        Item::Impl(i) => type_has_name(&i.self_ty, "Context"),
        _ => false,
    }
}

fn item_is_contract(item: &Item) -> (res: bool)
    ensures
        res == is_contract(item@),
{
    match item {
        Item::Trait(t) => ends_with(t.name.as_str(), "Contract"),
        _ => false,
    }
}

fn item_is_role(item: &Item) -> (res: bool)
    ensures
        res == is_role(item@),
{
    match item {
        Item::Trait(t) => ends_with(t.name.as_str(), "Role"),
        _ => false,
    }
}

/// Counts the declarations of the aggregate.
pub fn count_contexts(items: &Vec<Item>) -> (res: usize)
    ensures
        res == context_count(views(*items)),
{
    let ghost p = |item: ItemView| is_context_struct(item);
    let ghost all = views(*items);
    let mut n: usize = 0;
    let mut i: usize = 0;
    proof {
        lemma_count_ends(all, p);
    }
    while i < items.len()
        invariant
            i <= items.len(),
            all == views(*items),
            p == |item: ItemView| is_context_struct(item),
            n == count(all.take(i as int), p),
            n <= i,
        decreases items.len() - i,
    {
        proof {
            lemma_count_take(all, i as int, p);
        }
        if item_is_context_struct(&items[i]) {
            n += 1;
        }
        i += 1;
    }
    proof {
        lemma_count_ends(all, p);
    }
    n
}

/// The name of the contract of a role.
pub fn contract_name(role: &str) -> (res: String)
    ensures
        res@ == contract_name_for(role@),
{
    proof {
        reveal_strlit("Role");
    }
    if ends_with(role, "Role") {
        let n: usize = role.unicode_len();
        let mut s = role.substring_char(0, n - 4).to_owned();
        s.append("Contract");
        s
    } else {
        "Contract".to_owned()
    }
}

fn analyze_contracts(items: &Vec<Item>) -> (res: Vec<TraitInfo>)
    ensures
        views(res) == contracts_of(views(*items)),
{
    let ghost f = |item: ItemView| contract_of(item);
    let ghost all = views(*items);
    let mut res: Vec<TraitInfo> = Vec::new();
    let mut i: usize = 0;
    proof {
        lemma_filter_map_ends(all, f);
        assert(views(res) =~= Seq::<TraitInfoView>::empty());
    }
    while i < items.len()
        invariant
            i <= items.len(),
            all == views(*items),
            f == |item: ItemView| contract_of(item),
            views(res) == filter_map(all.take(i as int), f),
        decreases items.len() - i,
    {
        proof {
            lemma_filter_map_take(all, i as int, f);
        }
        let ghost before = views(res);
        match &items[i] {
            Item::Trait(item_trait) => {
                if ends_with(item_trait.name.as_str(), "Contract") {
                    let t = analyze_trait(item_trait);
                    res.push(t);
                    assert(views(res) =~= before.push(t@));
                }
            },
            _ => {},
        }
        i += 1;
    }
    proof {
        lemma_filter_map_ends(all, f);
    }
    res
}

fn lookup_contract(contracts: &Vec<TraitInfo>, name: &str) -> (res: Option<usize>)
    ensures
        match res {
            Some(k) => find_contract(views(*contracts), name@) == Some(k as int) && k
                < contracts.len(),
            None => find_contract(views(*contracts), name@) is None,
        },
{
    let mut i: usize = 0;
    while i < contracts.len()
        invariant
            i <= contracts.len(),
            forall|j: int| 0 <= j < i ==> views(*contracts)[j].name != name@,
        decreases contracts.len() - i,
    {
        if str_eq(contracts[i].name.as_str(), name) {
            proof {
                assert(views(*contracts)[i as int] == contracts[i as int]@);
                lemma_first_index_is(
                    views(*contracts),
                    |c: TraitInfoView| c.name == name@,
                    i as int,
                );
            }
            return Some(i);
        }
        i += 1;
    }
    proof {
        lemma_first_index_none(views(*contracts), |c: TraitInfoView| c.name == name@);
    }
    None
}

/// Links the role that an item declares to its contract.
fn analyze_role(item: &Item, contracts: &Vec<TraitInfo>) -> (res: Option<Role>)
    ensures
        crate::syntax::opt_view(res) == role_of(item@, views(*contracts)),
{
    match item {
        Item::Trait(item_trait) => {
            if ends_with(item_trait.name.as_str(), "Role") {
                let wanted = contract_name(item_trait.name.as_str());
                match lookup_contract(contracts, wanted.as_str()) {
                    Some(k) => {
                        assert(views(*contracts)[k as int] == contracts[k as int]@);
                        Some(
                            Role {
                                name: item_trait.name.clone(),
                                contract: contracts[k].clone(),
                                generics: analyze_trait_generics(item_trait),
                                methods: analyze_trait_methods(item_trait),
                                span: item_trait.span,
                            },
                        )
                    },
                    None => None,
                }
            } else {
                None
            }
        },
        _ => None,
    }
}

/// The first role that has no contract among `contracts`.
fn find_unlinked_role<'a>(items: &'a Vec<Item>, contracts: &Vec<TraitInfo>) -> (res: Option<
    &'a ItemTrait,
>)
    ensures
        match res {
            Some(t) => {
                let k = first_index(
                    views(*items),
                    |item: ItemView| is_unlinked_role(item, views(*contracts)),
                );
                k is Some && views(*items)[k->Some_0] == ItemView::Trait(t@)
            },
            None => first_index(
                views(*items),
                |item: ItemView| is_unlinked_role(item, views(*contracts)),
            ) is None,
        },
{
    let mut i: usize = 0;
    while i < items.len()
        invariant
            i <= items.len(),
            forall|j: int|
                0 <= j < i ==> !is_unlinked_role(#[trigger] views(*items)[j], views(*contracts)),
        decreases items.len() - i,
    {
        assert(views(*items)[i as int] == items[i as int]@);
        match &items[i] {
            Item::Trait(item_trait) => {
                if ends_with(item_trait.name.as_str(), "Role") {
                    let role = analyze_role(&items[i], contracts);
                    if role.is_none() {
                        proof {
                            lemma_first_index_is(
                                views(*items),
                                |item: ItemView| is_unlinked_role(item, views(*contracts)),
                                i as int,
                            );
                        }
                        return Some(item_trait);
                    }
                }
            },
            _ => {},
        }
        i += 1;
    }
    proof {
        lemma_first_index_none(
            views(*items),
            |item: ItemView| is_unlinked_role(item, views(*contracts)),
        );
    }
    None
}

fn analyze_roles(items: &Vec<Item>, contracts: &Vec<TraitInfo>) -> (res: Vec<Role>)
    ensures
        views(res) == roles_of(views(*items), views(*contracts)),
{
    let ghost f = |item: ItemView| role_of(item, views(*contracts));
    let ghost all = views(*items);
    let mut res: Vec<Role> = Vec::new();
    let mut i: usize = 0;
    proof {
        lemma_filter_map_ends(all, f);
        assert(views(res) =~= Seq::<RoleView>::empty());
    }
    while i < items.len()
        invariant
            i <= items.len(),
            all == views(*items),
            f == |item: ItemView| role_of(item, views(*contracts)),
            views(res) == filter_map(all.take(i as int), f),
        decreases items.len() - i,
    {
        proof {
            lemma_filter_map_take(all, i as int, f);
        }
        let ghost before = views(res);
        match analyze_role(&items[i], contracts) {
            Some(role) => {
                res.push(role);
                assert(views(res) =~= before.push(role@));
            },
            None => {},
        }
        i += 1;
    }
    proof {
        lemma_filter_map_ends(all, f);
    }
    res
}

fn collect_context_impls(items: &Vec<Item>) -> (res: Vec<ItemImpl>)
    ensures
        views(res) == context_impls(views(*items)),
{
    let ghost f = |item: ItemView| context_impl_of(item);
    let ghost all = views(*items);
    let mut res: Vec<ItemImpl> = Vec::new();
    let mut i: usize = 0;
    proof {
        lemma_filter_map_ends(all, f);
        assert(views(res) =~= Seq::<ItemImplView>::empty());
    }
    while i < items.len()
        invariant
            i <= items.len(),
            all == views(*items),
            f == |item: ItemView| context_impl_of(item),
            views(res) == filter_map(all.take(i as int), f),
        decreases items.len() - i,
    {
        proof {
            lemma_filter_map_take(all, i as int, f);
        }
        let ghost before = views(res);
        match &items[i] {
            Item::Impl(item_impl) => {
                if type_has_name(&item_impl.self_ty, "Context") {
                    let c = item_impl.clone();
                    res.push(c);
                    assert(views(res) =~= before.push(c@));
                }
            },
            _ => {},
        }
        i += 1;
    }
    proof {
        lemma_filter_map_ends(all, f);
    }
    res
}

fn collect_others(items: &Vec<Item>) -> (res: Vec<TypeDescription>)
    ensures
        views(res) == others_of(views(*items)),
{
    let ghost f = |item: ItemView| other_of(item);
    let ghost all = views(*items);
    let mut res: Vec<TypeDescription> = Vec::new();
    let mut i: usize = 0;
    proof {
        lemma_filter_map_ends(all, f);
        assert(views(res) =~= Seq::<TypeDescriptionView>::empty());
    }
    while i < items.len()
        invariant
            i <= items.len(),
            all == views(*items),
            f == |item: ItemView| other_of(item),
            views(res) == filter_map(all.take(i as int), f),
        decreases items.len() - i,
    {
        proof {
            lemma_filter_map_take(all, i as int, f);
        }
        let ghost before = views(res);
        let item = &items[i];
        if !item_is_contract(item) && !item_is_role(item) && !item_is_context_struct(item)
            && !item_is_context_impl(item) {
            let d = TypeDescription::Other(item.clone());
            res.push(d);
            assert(views(res) =~= before.push(d@));
        }
        i += 1;
    }
    proof {
        lemma_filter_map_ends(all, f);
    }
    res
}

fn find_context(items: &Vec<Item>) -> (res: Option<&ItemStruct>)
    ensures
        match res {
            Some(s) => context_position(views(*items)) is Some && views(*items)[context_position(
                views(*items),
            )->Some_0] == ItemView::Struct(s@),
            None => context_position(views(*items)) is None,
        },
{
    let mut i: usize = 0;
    while i < items.len()
        invariant
            i <= items.len(),
            forall|j: int| 0 <= j < i ==> !is_context_struct(#[trigger] views(*items)[j]),
        decreases items.len() - i,
    {
        assert(views(*items)[i as int] == items[i as int]@);
        match &items[i] {
            Item::Struct(item_struct) => {
                if str_eq(item_struct.name.as_str(), "Context") {
                    proof {
                        lemma_first_index_is(
                            views(*items),
                            |item: ItemView| is_context_struct(item),
                            i as int,
                        );
                    }
                    return Some(item_struct);
                }
            },
            _ => {},
        }
        i += 1;
    }
    proof {
        lemma_first_index_none(views(*items), |item: ItemView| is_context_struct(item));
    }
    None
}

/// Some declaration of the aggregate exists exactly where the count is not
/// zero.
pub proof fn lemma_context_position(items: Seq<ItemView>)
    ensures
        context_position(items) is Some <==> context_count(items) > 0,
    decreases items.len(),
{
    let p = |item: ItemView| is_context_struct(item);
    if items.len() > 0 {
        lemma_context_position(items.drop_last());
    }
}

/// Analyses a unit that declares the aggregate once and a contract for each
/// role.
pub fn analyze_module(module: &ItemMod) -> (res: ModuleInfo)
    requires
        context_count(module@.items) == 1,
        unlinked_role(module@.items) is None,
    ensures
        res@ == module_info_of(module@),
{
    let items = &module.items;
    let contracts = analyze_contracts(items);
    let roles = analyze_roles(items, &contracts);
    let impl_blocks = collect_context_impls(items);
    let others = collect_others(items);
    proof {
        lemma_context_position(views(*items));
    }
    let item_struct = find_context(items).unwrap();
    let mut context = analyze_context(item_struct, &impl_blocks);
    context.roles = roles;
    ModuleInfo { module_name: module.name.clone(), context, others, contracts, span: module.span }
}

/// Analyses a unit, or says why it cannot be analysed: it must declare the
/// aggregate exactly once, and a contract for each role.
pub fn analyze_module_with_error_reporting(module: &ItemMod) -> (res: Result<
    ModuleInfo,
    MacroError,
>)
    ensures
        match res {
            Ok(info) => module_error(module@) is None && info@ == module_info_of(module@),
            Err(e) => module_error(module@) == Some(e@),
        },
{
    let context_count = count_contexts(&module.items);
    if context_count == 0 {
        return Err(MacroError::of_kind(ErrorKind::MissingAggregate, module.span));
    } else if context_count > 1 {
        return Err(
            MacroError::of_kind(
                ErrorKind::AmbiguousAggregate { count: context_count },
                module.span,
            ),
        );
    }
    let contracts = analyze_contracts(&module.items);
    match find_unlinked_role(&module.items, &contracts) {
        Some(item_trait) => Err(
            MacroError::of_kind(
                ErrorKind::MissingContract { role: item_trait.name.clone() },
                item_trait.span,
            ),
        ),
        None => Ok(analyze_module(module)),
    }
}

} // verus!
