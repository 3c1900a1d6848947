//! Impl blocks.

use vstd::prelude::*;
use crate::analysis::function_description::{
    clone_functions, describe_methods, described_methods, FunctionDescription, FunctionView,
};
use crate::analysis::generics_info::{
    analyze_generics_, extract_inline_where_clauses_from_impl, item_generics, GenericsInfo,
};
use crate::items::{ItemImpl, ItemImplView, ItemView};
use crate::seqs::{first_index, lemma_first_index_is, lemma_first_index_none};
use crate::syntax::{
    clone_strings, opt_view, views, GenericParam, GenericParamView, GenericsView, ParamKind, Type,
    TypeView,
};

verus! {

/// An impl block: what it implements, for which type, and its functions.
#[derive(Debug, PartialEq, Eq)]
pub struct ImplBlockInfo {
    pub generics: GenericsInfo,
    pub for_lifetimes: Option<String>,
    pub implemented_traits: Vec<Type>,
    pub functions: Vec<FunctionDescription>,
    pub self_ty: Type,
    pub attrs: Vec<String>,
}

/// The view of `ImplBlock`.
pub ghost struct ImplBlockView {
    pub generics: GenericsView,
    pub for_lifetimes: Option<Seq<char>>,
    pub implemented_traits: Seq<TypeView>,
    pub functions: Seq<FunctionView>,
    pub self_ty: TypeView,
    pub attrs: Seq<Seq<char>>,
}

impl View for ImplBlockInfo {
    type V = ImplBlockView;

    open spec fn view(&self) -> ImplBlockView {
        ImplBlockView {
            generics: self.generics@,
            for_lifetimes: opt_view(self.for_lifetimes),
            implemented_traits: views(self.implemented_traits),
            functions: views(self.functions),
            self_ty: self.self_ty@,
            attrs: views(self.attrs),
        }
    }
}

pub(crate) fn clone_types(v: &Vec<Type>) -> (res: Vec<Type>)
    ensures
        views(res) == views(*v),
{
    let res = v.clone();
    assert(views(res) =~= views(*v));
    res
}

impl Clone for ImplBlockInfo {
    fn clone(&self) -> (res: Self)
        ensures
            res@ == self@,
    {
        ImplBlockInfo {
            generics: self.generics.clone(),
            for_lifetimes: self.for_lifetimes.clone(),
            implemented_traits: clone_types(&self.implemented_traits),
            functions: clone_functions(&self.functions),
            self_ty: self.self_ty.clone(),
            attrs: clone_strings(&self.attrs),
        }
    }
}

pub(crate) fn clone_impl_blocks(v: &Vec<ImplBlockInfo>) -> (res: Vec<ImplBlockInfo>)
    ensures
        views(res) == views(*v),
{
    let res = v.clone();
    assert(views(res) =~= views(*v));
    res
}

impl ImplBlockInfo {
    /// An impl block of the given parts.
    pub fn new(
        generics: GenericsInfo,
        for_lifetimes: Option<String>,
        implemented_traits: Vec<Type>,
        functions: Vec<FunctionDescription>,
        self_ty: Type,
        attrs: Vec<String>,
    ) -> (res: Self)
        ensures
            res@ == (ImplBlockView {
                generics: generics@,
                for_lifetimes: opt_view(for_lifetimes),
                implemented_traits: views(implemented_traits),
                functions: views(functions),
                self_ty: self_ty@,
                attrs: views(attrs),
            }),
    {
        ImplBlockInfo { generics, for_lifetimes, implemented_traits, functions, self_ty, attrs }
    }
}

/// The name of the first lifetime among the parameters.
pub open spec fn first_lifetime(params: Seq<GenericParamView>) -> Option<Seq<char>> {
    match first_index(params, |p: GenericParamView| p.kind == ParamKind::Lifetime) {
        Some(i) => Some(params[i].name),
        None => None,
    }
}

/// The trait that an impl block names, as a list of at most one.
pub open spec fn traits_of(trait_: Option<TypeView>) -> Seq<TypeView> {
    match trait_ {
        Some(t) => seq![t],
        None => Seq::empty(),
    }
}

/// An impl block, analysed.
pub open spec fn impl_block_of(item: ItemImplView) -> ImplBlockView {
    ImplBlockView {
        generics: item_generics(ItemView::Impl(item)),
        for_lifetimes: first_lifetime(item.generics.params),
        implemented_traits: traits_of(item.trait_),
        functions: described_methods(item.items),
        self_ty: item.self_ty,
        attrs: item.attrs,
    }
}

fn find_first_lifetime(params: &Vec<GenericParam>) -> (res: Option<String>)
    ensures
        opt_view(res) == first_lifetime(views(*params)),
{
    let mut i: usize = 0;
    while i < params.len()
        invariant
            i <= params.len(),
            forall|j: int| 0 <= j < i ==> views(*params)[j].kind != ParamKind::Lifetime,
        decreases params.len() - i,
    {
        match params[i].kind {
            ParamKind::Lifetime => {
                proof {
                    assert(views(*params)[i as int] == params[i as int]@);
                    lemma_first_index_is(
                        views(*params),
                        |p: GenericParamView| p.kind == ParamKind::Lifetime,
                        i as int,
                    );
                }
                return Some(params[i].name.clone());
            },
            _ => {},
        }
        i += 1;
    }
    proof {
        lemma_first_index_none(
            views(*params),
            |p: GenericParamView| p.kind == ParamKind::Lifetime,
        );
    }
    None
}

/// Analyses an impl block.
pub fn analyze_impl_block(item_impl: &ItemImpl) -> (res: ImplBlockInfo)
    ensures
        res@ == impl_block_of(item_impl@),
{
    let generics = analyze_generics_(
        &item_impl.generics,
        extract_inline_where_clauses_from_impl(item_impl),
    );
    let self_ty = item_impl.self_ty.clone();
    let for_lifetimes = find_first_lifetime(&item_impl.generics.params);
    let mut implemented_traits: Vec<Type> = Vec::new();
    match &item_impl.trait_ {
        Some(path) => {
            implemented_traits.push(path.clone());
            assert(views(implemented_traits) =~= seq![path@]);
        },
        None => {
            assert(views(implemented_traits) =~= Seq::<TypeView>::empty());
        },
    }
    let functions = describe_methods(&item_impl.items);
    ImplBlockInfo::new(
        generics,
        for_lifetimes,
        implemented_traits,
        functions,
        self_ty,
        clone_strings(&item_impl.attrs),
    )
}

} // verus!
