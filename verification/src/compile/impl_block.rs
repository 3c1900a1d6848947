//! Impl blocks, compiled and emitted.

use vstd::prelude::*;
use crate::analysis::function_description::FunctionView;
use crate::analysis::generics_info::GenericsInfo;
use crate::analysis::impl_block_info::{clone_types, ImplBlockInfo, ImplBlockView};
use crate::compile::function_descriptor::{
    compiled_function, emitted_function, CompiledFunctionDescription, CompiledFunctionView,
};
use crate::items::{AssocItem, AssocItemView, ItemImpl, ItemImplView, MethodView};
use crate::seqs::{filter_map, lemma_filter_map_ends, lemma_filter_map_take};
use crate::syntax::{clone_strings, opt_view, views, GenericsView, Type, TypeView};

verus! {

/// An impl block, compiled: ready to be emitted as an item.
#[derive(Debug, PartialEq, Eq)]
pub struct CompiledImplBlock {
    pub generics: GenericsInfo,
    pub for_lifetimes: Option<String>,
    pub implemented_traits: Vec<Type>,
    pub functions: Vec<CompiledFunctionDescription>,
    pub self_ty: Type,
    pub attrs: Vec<String>,
}

/// The view of `CompiledImplBlock`.
pub ghost struct CompiledImplBlockView {
    pub generics: GenericsView,
    pub for_lifetimes: Option<Seq<char>>,
    pub implemented_traits: Seq<TypeView>,
    pub functions: Seq<CompiledFunctionView>,
    pub self_ty: TypeView,
    pub attrs: Seq<Seq<char>>,
}

impl View for CompiledImplBlock {
    type V = CompiledImplBlockView;

    open spec fn view(&self) -> CompiledImplBlockView {
        CompiledImplBlockView {
            generics: self.generics@,
            for_lifetimes: opt_view(self.for_lifetimes),
            implemented_traits: views(self.implemented_traits),
            functions: views(self.functions),
            self_ty: self.self_ty@,
            attrs: views(self.attrs),
        }
    }
}

impl Clone for CompiledImplBlock {
    fn clone(&self) -> (res: Self)
        ensures
            res@ == self@,
    {
        let functions = self.functions.clone();
        assert(views(functions) =~= views(self.functions));
        CompiledImplBlock {
            generics: self.generics.clone(),
            for_lifetimes: self.for_lifetimes.clone(),
            implemented_traits: clone_types(&self.implemented_traits),
            functions,
            self_ty: self.self_ty.clone(),
            attrs: clone_strings(&self.attrs),
        }
    }
}

/// An impl block, compiled: each of its functions is.
pub open spec fn compiled_block(block: ImplBlockView) -> CompiledImplBlockView {
    CompiledImplBlockView {
        generics: block.generics,
        for_lifetimes: block.for_lifetimes,
        implemented_traits: block.implemented_traits,
        functions: block.functions.map_values(|f: FunctionView| compiled_function(f)),
        self_ty: block.self_ty,
        attrs: block.attrs,
    }
}

/// The method of an impl block that a compiled function is emitted as. In a
/// block that implements a trait no method is marked public.
pub open spec fn emitted_method(function: CompiledFunctionView, public: bool) -> Option<
    AssocItemView,
> {
    match emitted_function(function) {
        Some(method) => Some(AssocItemView::Fn(MethodView { public, ..method })),
        None => None,
    }
}

/// The trait that a block implements: the first that it names.
pub open spec fn implemented_trait(traits: Seq<TypeView>) -> Option<TypeView> {
    if traits.len() > 0 {
        Some(traits[0])
    } else {
        None
    }
}

/// The item that a compiled impl block is emitted as.
pub open spec fn emitted_block(block: CompiledImplBlockView) -> ItemImplView {
    let public = block.implemented_traits.len() == 0;
    ItemImplView {
        attrs: block.attrs,
        generics: block.generics,
        trait_: implemented_trait(block.implemented_traits),
        self_ty: block.self_ty,
        items: filter_map(block.functions, |f: CompiledFunctionView| emitted_method(f, public)),
    }
}

/// The item that an impl block is printed as.
pub open spec fn impl_item_of(block: ImplBlockView) -> ItemImplView {
    emitted_block(compiled_block(block))
}

impl ImplBlockInfo {
    /// The block, compiled.
    pub fn compile(&self) -> (res: CompiledImplBlock)
        ensures
            res@ == compiled_block(self@),
    {
        let mut functions: Vec<CompiledFunctionDescription> = Vec::new();
        let mut i: usize = 0;
        while i < self.functions.len()
            invariant
                i <= self.functions.len(),
                functions.len() == i,
                forall|j: int|
                    0 <= j < i ==> functions[j]@ == compiled_function(self.functions[j]@),
            decreases self.functions.len() - i,
        {
            functions.push(self.functions[i].compile());
            i += 1;
        }
        assert(views(functions) =~= views(self.functions).map_values(
            |f: FunctionView| compiled_function(f),
        ));
        CompiledImplBlock {
            generics: self.generics.clone(),
            for_lifetimes: self.for_lifetimes.clone(),
            implemented_traits: clone_types(&self.implemented_traits),
            functions,
            self_ty: self.self_ty.clone(),
            attrs: clone_strings(&self.attrs),
        }
    }
}

impl CompiledImplBlock {
    /// The block as an item.
    pub fn emit(&self) -> (res: ItemImpl)
        ensures
            res@ == emitted_block(self@),
    {
        let public = self.implemented_traits.len() == 0;
        let ghost f = |f: CompiledFunctionView| emitted_method(f, public);
        let ghost all = views(self.functions);
        let mut items: Vec<AssocItem> = Vec::new();
        let mut i: usize = 0;
        proof {
            lemma_filter_map_ends(all, f);
            assert(views(items) =~= Seq::<AssocItemView>::empty());
        }
        while i < self.functions.len()
            invariant
                i <= self.functions.len(),
                all == views(self.functions),
                f == |f: CompiledFunctionView| emitted_method(f, public),
                views(items) == filter_map(all.take(i as int), f),
            decreases self.functions.len() - i,
        {
            proof {
                lemma_filter_map_take(all, i as int, f);
            }
            assert(all[i as int] == self.functions[i as int]@);
            let ghost before = views(items);
            match self.functions[i].emit() {
                Some(mut method) => {
                    method.public = public;
                    let item = AssocItem::Fn(method);
                    items.push(item);
                    assert(views(items) =~= before.push(item@));
                },
                None => {},
            }
            i += 1;
        }
        proof {
            lemma_filter_map_ends(all, f);
        }
        let trait_ = if self.implemented_traits.len() > 0 {
            assert(views(self.implemented_traits)[0] == self.implemented_traits[0]@);
            Some(self.implemented_traits[0].clone())
        } else {
            None
        };
        ItemImpl {
            attrs: clone_strings(&self.attrs),
            generics: self.generics.to_syn_generics(),
            trait_,
            self_ty: self.self_ty.clone(),
            items,
        }
    }
}

} // verus!
