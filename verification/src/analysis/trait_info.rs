//! Contracts: traits as named sets of method signatures.

use vstd::prelude::*;
use crate::analysis::function_description::{
    clone_functions, describe_method, described, FunctionDescription, FunctionView,
};
use crate::analysis::generics_info::{analyze_generics_, item_generics, GenericsInfo};
use crate::items::{AssocItem, AssocItemView, ItemTrait, ItemTraitView, ItemView};
use crate::seqs::{filter_map, lemma_filter_map_ends, lemma_filter_map_take};
use crate::syntax::{clone_output, clone_strings, views, GenericsView};

verus! {

/// A contract: a trait read as a named set of method signatures.
#[derive(Debug, PartialEq, Eq)]
pub struct TraitInfo {
    pub name: String,
    pub generics: GenericsInfo,
    pub functions: Vec<FunctionDescription>,
    pub attrs: Vec<String>,
    pub supertraits: Vec<String>,
}

/// The view of `TraitInfo`.
pub ghost struct TraitInfoView {
    pub name: Seq<char>,
    pub generics: GenericsView,
    pub functions: Seq<FunctionView>,
    pub attrs: Seq<Seq<char>>,
    pub supertraits: Seq<Seq<char>>,
}

impl View for TraitInfo {
    type V = TraitInfoView;

    open spec fn view(&self) -> TraitInfoView {
        TraitInfoView {
            name: self.name@,
            generics: self.generics@,
            functions: views(self.functions),
            attrs: views(self.attrs),
            supertraits: views(self.supertraits),
        }
    }
}

impl Clone for TraitInfo {
    fn clone(&self) -> (res: Self)
        ensures
            res@ == self@,
    {
        TraitInfo {
            name: self.name.clone(),
            generics: self.generics.clone(),
            functions: clone_functions(&self.functions),
            attrs: clone_strings(&self.attrs),
            supertraits: clone_strings(&self.supertraits),
        }
    }
}

pub(crate) fn clone_traits(v: &Vec<TraitInfo>) -> (res: Vec<TraitInfo>)
    ensures
        views(res) == views(*v),
{
    let res = v.clone();
    assert(views(res) =~= views(*v));
    res
}

impl TraitInfo {
    /// A contract of the given name, generics and functions.
    pub fn new(name: String, generics: GenericsInfo, functions: Vec<FunctionDescription>) -> (res:
        Self)
        ensures
            res@ == (TraitInfoView {
                name: name@,
                generics: generics@,
                functions: views(functions),
                attrs: Seq::empty(),
                supertraits: Seq::empty(),
            }),
    {
        let attrs: Vec<String> = Vec::new();
        let supertraits: Vec<String> = Vec::new();
        assert(views(attrs) =~= Seq::<Seq<char>>::empty());
        assert(views(supertraits) =~= Seq::<Seq<char>>::empty());
        TraitInfo { name, generics, functions, attrs, supertraits }
    }
}

/// A function without its body.
pub open spec fn declaration_of(function: FunctionView) -> FunctionView {
    FunctionView { body: None, ..function }
}

/// The declaration of an associated item that is a function.
pub open spec fn declared_item(item: AssocItemView) -> Option<FunctionView> {
    match item {
        AssocItemView::Fn(method) => Some(declaration_of(described(method))),
        AssocItemView::Other(_) => None,
    }
}

/// The signatures that a trait declares: its functions, each without a body.
pub open spec fn declared_methods(items: Seq<AssocItemView>) -> Seq<FunctionView> {
    filter_map(items, |item: AssocItemView| declared_item(item))
}

/// A trait read as a contract.
pub open spec fn trait_info_of(item: ItemTraitView) -> TraitInfoView {
    TraitInfoView {
        name: item.name,
        generics: item_generics(ItemView::Trait(item)),
        functions: declared_methods(item.items),
        attrs: item.attrs,
        supertraits: item.supertraits,
    }
}

/// The generics of a trait, with the bounds merged in.
pub fn analyze_trait_generics(item_trait: &ItemTrait) -> (res: GenericsInfo)
    ensures
        res@ == item_generics(ItemView::Trait(item_trait@)),
{
    analyze_generics_(
        &item_trait.generics,
        crate::analysis::generics_info::extract_inline_where_clauses_from_trait(item_trait),
    )
}

/// Reads a trait as a contract: each of its functions as a declaration.
pub fn analyze_trait(item_trait: &ItemTrait) -> (res: TraitInfo)
    ensures
        res@ == trait_info_of(item_trait@),
{
    let generics = analyze_trait_generics(item_trait);
    let ghost f = |item: AssocItemView| declared_item(item);
    let ghost all = views(item_trait.items);
    let mut functions: Vec<FunctionDescription> = Vec::new();
    let mut i: usize = 0;
    proof {
        lemma_filter_map_ends(all, f);
        assert(views(functions) =~= Seq::<FunctionView>::empty());
    }
    while i < item_trait.items.len()
        invariant
            i <= item_trait.items.len(),
            all == views(item_trait.items),
            f == |item: AssocItemView| declared_item(item),
            views(functions) == filter_map(all.take(i as int), f),
        decreases item_trait.items.len() - i,
    {
        proof {
            lemma_filter_map_take(all, i as int, f);
        }
        let ghost before = views(functions);
        match &item_trait.items[i] {
            AssocItem::Fn(method) => {
                let d = describe_method(method);
                let declaration = FunctionDescription::Declaration {
                    name: d.get_name().clone(),
                    params: crate::analysis::parameter_info::clone_parameters(d.get_params()),
                    generics: d.get_generics().clone(),
                    output: clone_output(d.get_output()),
                    asyncness: d.get_asyncness(),
                    attrs: clone_strings(&method.attrs),
                };
                functions.push(declaration);
                assert(views(functions) =~= before.push(declaration@));
            },
            AssocItem::Other(_) => {},
        }
        i += 1;
    }
    proof {
        lemma_filter_map_ends(all, f);
    }
    TraitInfo {
        name: item_trait.name.clone(),
        generics,
        functions,
        attrs: clone_strings(&item_trait.attrs),
        supertraits: clone_strings(&item_trait.supertraits),
    }
}

} // verus!
