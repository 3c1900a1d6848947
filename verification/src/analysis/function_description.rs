//! Functions: a signature, with a body or without.

use vstd::prelude::*;
use crate::analysis::generics_info::{
    analyze_generics_from_method, signature_generics, GenericsInfo,
};
use crate::analysis::parameter_info::{
    analyze_parameters, clone_parameters, parameters_of, ParameterInfo, ParameterView,
};
use crate::expr::{Block, BlockView};
use crate::items::{AssocItem, AssocItemView, ItemTrait, Method, MethodView};
use crate::seqs::{filter_map, lemma_filter_map_ends, lemma_filter_map_take};
use crate::syntax::{clone_output, clone_strings, opt_view, views, GenericsView, Type, TypeView};

verus! {

/// A function of a trait or of an impl block: only declared, or implemented.
#[derive(Debug, PartialEq, Eq)]
pub enum FunctionDescription {
    Declaration {
        name: String,
        params: Vec<ParameterInfo>,
        generics: GenericsInfo,
        output: Option<Type>,
        asyncness: bool,
        attrs: Vec<String>,
    },
    Implementation {
        name: String,
        params: Vec<ParameterInfo>,
        generics: GenericsInfo,
        output: Option<Type>,
        body: Block,
        asyncness: bool,
        attrs: Vec<String>,
    },
}

/// A function as the model sees it. A declaration has no body.
pub ghost struct FunctionView {
    pub name: Seq<char>,
    pub params: Seq<ParameterView>,
    pub generics: GenericsView,
    pub output: Option<TypeView>,
    pub body: Option<BlockView>,
    pub asyncness: bool,
    pub attrs: Seq<Seq<char>>,
}

impl View for FunctionDescription {
    type V = FunctionView;

    open spec fn view(&self) -> FunctionView {
        match self {
            FunctionDescription::Declaration {
                name,
                params,
                generics,
                output,
                asyncness,
                attrs,
            } => FunctionView {
                name: name@,
                params: views(*params),
                generics: generics@,
                output: opt_view(*output),
                body: None,
                asyncness: *asyncness,
                attrs: views(*attrs),
            },
            FunctionDescription::Implementation {
                name,
                params,
                generics,
                output,
                body,
                asyncness,
                attrs,
            } => FunctionView {
                name: name@,
                params: views(*params),
                generics: generics@,
                output: opt_view(*output),
                body: Some(body@),
                asyncness: *asyncness,
                attrs: views(*attrs),
            },
        }
    }
}

impl Clone for FunctionDescription {
    fn clone(&self) -> (res: Self)
        ensures
            res@ == self@,
    {
        match self {
            FunctionDescription::Declaration {
                name,
                params,
                generics,
                output,
                asyncness,
                attrs,
            } => FunctionDescription::Declaration {
                name: name.clone(),
                params: clone_parameters(params),
                generics: generics.clone(),
                output: clone_output(output),
                asyncness: *asyncness,
                attrs: clone_strings(attrs),
            },
            FunctionDescription::Implementation {
                name,
                params,
                generics,
                output,
                body,
                asyncness,
                attrs,
            } => FunctionDescription::Implementation {
                name: name.clone(),
                params: clone_parameters(params),
                generics: generics.clone(),
                output: clone_output(output),
                body: body.clone(),
                asyncness: *asyncness,
                attrs: clone_strings(attrs),
            },
        }
    }
}

pub(crate) fn clone_functions(v: &Vec<FunctionDescription>) -> (res: Vec<FunctionDescription>)
    ensures
        views(res) == views(*v),
{
    let res = v.clone();
    assert(views(res) =~= views(*v));
    res
}

impl FunctionDescription {
    /// The name of the function.
    pub fn get_name(&self) -> (res: &String)
        ensures
            res@ == self@.name,
    {
        match self {
            Self::Declaration { name, .. } => name,
            Self::Implementation { name, .. } => name,
        }
    }

    /// The parameters of the function.
    pub fn get_params(&self) -> (res: &Vec<ParameterInfo>)
        ensures
            views(*res) == self@.params,
    {
        match self {
            Self::Declaration { params, .. } => params,
            Self::Implementation { params, .. } => params,
        }
    }

    /// The generics of the function.
    pub fn get_generics(&self) -> (res: &GenericsInfo)
        ensures
            res@ == self@.generics,
    {
        match self {
            Self::Declaration { generics, .. } => generics,
            Self::Implementation { generics, .. } => generics,
        }
    }

    /// The return type of the function, if it names one.
    pub fn get_output(&self) -> (res: &Option<Type>)
        ensures
            opt_view(*res) == self@.output,
    {
        match self {
            Self::Declaration { output, .. } => output,
            Self::Implementation { output, .. } => output,
        }
    }

    /// Whether the function is `async`.
    pub fn get_asyncness(&self) -> (res: bool)
        ensures
            res == self@.asyncness,
    {
        match self {
            Self::Declaration { asyncness, .. } => *asyncness,
            Self::Implementation { asyncness, .. } => *asyncness,
        }
    }

    /// A function without a body.
    pub fn new_declaration(
        name: String,
        params: Vec<ParameterInfo>,
        generics: GenericsInfo,
        output: Option<Type>,
        asyncness: bool,
        attrs: Vec<String>,
    ) -> (res: Self)
        ensures
            res@ == (FunctionView {
                name: name@,
                params: views(params),
                generics: generics@,
                output: opt_view(output),
                body: None,
                asyncness,
                attrs: views(attrs),
            }),
    {
        FunctionDescription::Declaration { name, params, generics, output, asyncness, attrs }
    }

    /// A function with a body.
    pub fn new_implementation(
        name: String,
        params: Vec<ParameterInfo>,
        generics: GenericsInfo,
        output: Option<Type>,
        body: Block,
        asyncness: bool,
        attrs: Vec<String>,
    ) -> (res: Self)
        ensures
            res@ == (FunctionView {
                name: name@,
                params: views(params),
                generics: generics@,
                output: opt_view(output),
                body: Some(body@),
                asyncness,
                attrs: views(attrs),
            }),
    {
        FunctionDescription::Implementation {
            name,
            params,
            generics,
            output,
            body,
            asyncness,
            attrs,
        }
    }
}

/// The description of a method: its name, its parameters with the receiver
/// classified, its generics with the bounds merged in, and its body if it
/// has one.
pub open spec fn described(method: MethodView) -> FunctionView {
    FunctionView {
        name: method.sig.name,
        params: parameters_of(method.sig.inputs),
        generics: signature_generics(method.sig.generics),
        output: method.sig.output,
        body: method.body,
        asyncness: method.sig.asyncness,
        attrs: method.attrs,
    }
}

/// The description of an associated item that is a function.
pub open spec fn described_item(item: AssocItemView) -> Option<FunctionView> {
    match item {
        AssocItemView::Fn(method) => Some(described(method)),
        AssocItemView::Other(_) => None,
    }
}

/// The functions among the items of a trait or an impl block, described.
pub open spec fn described_methods(items: Seq<AssocItemView>) -> Seq<FunctionView> {
    filter_map(items, |item: AssocItemView| described_item(item))
}

/// Describes one method.
pub fn describe_method(method: &Method) -> (res: FunctionDescription)
    ensures
        res@ == described(method@),
{
    let params = analyze_parameters(&method.sig);
    let generics = analyze_generics_from_method(method);
    let output = clone_output(&method.sig.output);
    match &method.body {
        Some(body) => FunctionDescription::Implementation {
            name: method.sig.name.clone(),
            params,
            generics,
            output,
            body: body.clone(),
            asyncness: method.sig.asyncness,
            attrs: clone_strings(&method.attrs),
        },
        None => FunctionDescription::Declaration {
            name: method.sig.name.clone(),
            params,
            generics,
            output,
            asyncness: method.sig.asyncness,
            attrs: clone_strings(&method.attrs),
        },
    }
}

/// Describes the functions among `items`.
pub fn describe_methods(items: &Vec<AssocItem>) -> (res: Vec<FunctionDescription>)
    ensures
        views(res) == described_methods(views(*items)),
{
    let ghost f = |item: AssocItemView| described_item(item);
    let ghost all = views(*items);
    let mut res: Vec<FunctionDescription> = Vec::new();
    let mut i: usize = 0;
    proof {
        lemma_filter_map_ends(all, f);
        assert(views(res) =~= Seq::<FunctionView>::empty());
    }
    while i < items.len()
        invariant
            i <= items.len(),
            all == views(*items),
            f == |item: AssocItemView| described_item(item),
            views(res) == filter_map(all.take(i as int), f),
        decreases items.len() - i,
    {
        proof {
            lemma_filter_map_take(all, i as int, f);
        }
        let ghost before = views(res);
        match &items[i] {
            AssocItem::Fn(method) => {
                let d = describe_method(method);
                res.push(d);
                assert(views(res) =~= before.push(d@));
            },
            AssocItem::Other(_) => {},
        }
        i += 1;
    }
    proof {
        lemma_filter_map_ends(all, f);
    }
    res
}

/// Describes the methods of a trait, each with its body if it has one.
pub fn analyze_trait_methods(item_trait: &ItemTrait) -> (res: Vec<FunctionDescription>)
    ensures
        views(res) == described_methods(item_trait@.items),
{
    describe_methods(&item_trait.items)
}

} // verus!
