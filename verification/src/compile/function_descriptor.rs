//! Functions as items: a described function becomes a function that can be
//! printed, with its receiver in front.

use vstd::prelude::*;
use crate::analysis::function_description::{FunctionDescription, FunctionView};
use crate::analysis::generics_info::GenericsInfo;
use crate::analysis::parameter_info::{
    clone_parameters, parameter_view, ParameterInfo, ParameterView,
};
use crate::expr::{Block, BlockView, Expr, ExprView};
use crate::items::{clone_body, Method, MethodView};
use crate::seqs::{
    filter_map, first_index, lemma_filter_map_ends, lemma_filter_map_take, lemma_first_index_is,
    lemma_first_index_none,
};
use crate::syntax::{
    clone_output, clone_strings, opt_view, views, FnArg, FnArgView, Signature, SignatureView, Type,
};

verus! {

/// The input that stands for a parameter: a receiver for `self` and the
/// references to it, a named input for a typed parameter, with `ref` where
/// the parameter is under a reference. A lifetime around a parameter is
/// not written.
pub open spec fn fn_arg_of(p: ParameterView) -> FnArgView
    decreases p,
{
    match p {
        ParameterView::SelfRef => FnArgView::Receiver { reference: false, mutable: false },
        ParameterView::ImmutableReference(inner) => match *inner {
            ParameterView::SelfRef => FnArgView::Receiver { reference: true, mutable: false },
            ParameterView::Typed { name, ty } => FnArgView::Typed {
                name: Some(name),
                by_ref: true,
                mutable: false,
                ty,
            },
            _ => fn_arg_of(*inner),
        },
        ParameterView::MutableReference(inner) => match *inner {
            ParameterView::SelfRef => FnArgView::Receiver { reference: true, mutable: true },
            ParameterView::Typed { name, ty } => FnArgView::Typed {
                name: Some(name),
                by_ref: true,
                mutable: true,
                ty,
            },
            _ => fn_arg_of(*inner),
        },
        ParameterView::LifeTime(_, inner) => fn_arg_of(*inner),
        ParameterView::Typed { name, ty } => FnArgView::Typed {
            name: Some(name),
            by_ref: false,
            mutable: false,
            ty,
        },
    }
}

/// A parameter that is no receiver.
pub open spec fn other_parameter(p: ParameterView) -> Option<ParameterView> {
    if p.is_self() {
        None
    } else {
        Some(p)
    }
}

/// The first receiver among the parameters, as a list of at most one.
pub open spec fn first_receiver(params: Seq<ParameterView>) -> Seq<ParameterView> {
    match first_index(params, |p: ParameterView| p.is_self()) {
        Some(k) => seq![params[k]],
        None => Seq::empty(),
    }
}

/// The parameters in the order in which a function takes them: the first
/// receiver, then the parameters that are no receivers.
pub open spec fn receiver_first(params: Seq<ParameterView>) -> Seq<ParameterView> {
    first_receiver(params) + filter_map(params, |p: ParameterView| other_parameter(p))
}

/// The inputs of a function with the given parameters.
pub open spec fn inputs_of(params: Seq<ParameterView>) -> Seq<FnArgView> {
    receiver_first(params).map_values(|p: ParameterView| fn_arg_of(p))
}

/// The header of a described function.
pub open spec fn signature_of(function: FunctionView) -> SignatureView {
    SignatureView {
        asyncness: function.asyncness,
        name: function.name,
        generics: function.generics,
        inputs: inputs_of(function.params),
        output: function.output,
    }
}

/// A function, compiled: ready to be emitted as an item.
#[derive(Debug, PartialEq, Eq)]
pub enum CompiledFunctionDescription {
    Declaration {
        name: String,
        params: Vec<ParameterInfo>,
        generics: GenericsInfo,
        output: Option<Type>,
        asyncness: bool,
        attrs: Vec<String>,
    },
    Implementation {
        name: String,
        params: Vec<ParameterInfo>,
        generics: GenericsInfo,
        output: Option<Type>,
        body: Option<Block>,
        asyncness: bool,
        attrs: Vec<String>,
    },
}

/// The view of `CompiledFunctionDescription`: the function, and whether it
/// is implemented.
pub ghost struct CompiledFunctionView {
    pub implemented: bool,
    pub function: FunctionView,
}

impl View for CompiledFunctionDescription {
    type V = CompiledFunctionView;

    open spec fn view(&self) -> CompiledFunctionView {
        match self {
            CompiledFunctionDescription::Declaration {
                name,
                params,
                generics,
                output,
                asyncness,
                attrs,
            } => CompiledFunctionView {
                implemented: false,
                function: FunctionView {
                    name: name@,
                    params: views(*params),
                    generics: generics@,
                    output: opt_view(*output),
                    body: None,
                    asyncness: *asyncness,
                    attrs: views(*attrs),
                },
            },
            CompiledFunctionDescription::Implementation {
                name,
                params,
                generics,
                output,
                body,
                asyncness,
                attrs,
            } => CompiledFunctionView {
                implemented: true,
                function: FunctionView {
                    name: name@,
                    params: views(*params),
                    generics: generics@,
                    output: opt_view(*output),
                    body: opt_view(*body),
                    asyncness: *asyncness,
                    attrs: views(*attrs),
                },
            },
        }
    }
}

impl Clone for CompiledFunctionDescription {
    fn clone(&self) -> (res: Self)
        ensures
            res@ == self@,
    {
        match self {
            CompiledFunctionDescription::Declaration {
                name,
                params,
                generics,
                output,
                asyncness,
                attrs,
            } => CompiledFunctionDescription::Declaration {
                name: name.clone(),
                params: clone_parameters(params),
                generics: generics.clone(),
                output: clone_output(output),
                asyncness: *asyncness,
                attrs: clone_strings(attrs),
            },
            CompiledFunctionDescription::Implementation {
                name,
                params,
                generics,
                output,
                body,
                asyncness,
                attrs,
            } => CompiledFunctionDescription::Implementation {
                name: name.clone(),
                params: clone_parameters(params),
                generics: generics.clone(),
                output: clone_output(output),
                body: clone_body(body),
                asyncness: *asyncness,
                attrs: clone_strings(attrs),
            },
        }
    }
}

/// A function, compiled: it is implemented if it has a body.
pub open spec fn compiled_function(function: FunctionView) -> CompiledFunctionView {
    CompiledFunctionView { implemented: function.body is Some, function }
}

/// A body without statements.
pub open spec fn empty_block() -> BlockView {
    BlockView { stmts: Seq::empty() }
}

/// The public function item that a compiled function is emitted as: an
/// implemented function with its body, or with an empty one where it has
/// none. A declaration gives no item.
pub open spec fn emitted_function(compiled: CompiledFunctionView) -> Option<MethodView> {
    if compiled.implemented {
        Some(
            MethodView {
                attrs: compiled.function.attrs,
                public: true,
                sig: signature_of(compiled.function),
                body: Some(
                    match compiled.function.body {
                        Some(body) => body,
                        None => empty_block(),
                    },
                ),
            },
        )
    } else {
        None
    }
}

/// The public function item of a function that has a body. A declaration
/// gives no item.
pub open spec fn function_item(function: FunctionView) -> Option<MethodView> {
    emitted_function(compiled_function(function))
}

/// The declaration of a function in a trait: its header, without a body.
pub open spec fn declaration_item(function: FunctionView) -> MethodView {
    MethodView { attrs: function.attrs, public: false, sig: signature_of(function), body: None }
}

/// Whether a parameter is the receiver, under any references.
pub fn parameter_is_self(p: &ParameterInfo) -> (res: bool)
    ensures
        res == p@.is_self(),
    decreases p,
{
    proof {
        reveal_with_fuel(ParameterView::inner, 2);
    }
    match p {
        ParameterInfo::SelfRef => true,
        ParameterInfo::ImmutableReference(inner) => parameter_is_self(inner),
        ParameterInfo::MutableReference(inner) => parameter_is_self(inner),
        _ => false,
    }
}

/// The input that stands for a parameter.
pub fn to_fn_arg(p: &ParameterInfo) -> (res: FnArg)
    ensures
        res@ == fn_arg_of(p@),
    decreases p,
{
    proof {
        reveal_with_fuel(parameter_view, 2);
    }
    match p {
        ParameterInfo::SelfRef => FnArg::Receiver { reference: false, mutable: false },
        ParameterInfo::ImmutableReference(inner) => match &**inner {
            ParameterInfo::SelfRef => FnArg::Receiver { reference: true, mutable: false },
            ParameterInfo::Typed { name, ty } => FnArg::Typed {
                name: Some(name.clone()),
                by_ref: true,
                mutable: false,
                ty: ty.clone(),
            },
            _ => to_fn_arg(inner),
        },
        ParameterInfo::MutableReference(inner) => match &**inner {
            ParameterInfo::SelfRef => FnArg::Receiver { reference: true, mutable: true },
            ParameterInfo::Typed { name, ty } => FnArg::Typed {
                name: Some(name.clone()),
                by_ref: true,
                mutable: true,
                ty: ty.clone(),
            },
            _ => to_fn_arg(inner),
        },
        ParameterInfo::LifeTime(_, inner) => to_fn_arg(inner),
        ParameterInfo::Typed { name, ty } => FnArg::Typed {
            name: Some(name.clone()),
            by_ref: false,
            mutable: false,
            ty: ty.clone(),
        },
    }
}

/// The position of the first receiver among the parameters.
fn find_receiver(params: &Vec<ParameterInfo>) -> (res: Option<usize>)
    ensures
        match res {
            Some(k) => first_index(views(*params), |p: ParameterView| p.is_self()) == Some(
                k as int,
            ) && k < params.len(),
            None => first_index(views(*params), |p: ParameterView| p.is_self()) is None,
        },
{
    let mut i: usize = 0;
    while i < params.len()
        invariant
            i <= params.len(),
            forall|j: int| 0 <= j < i ==> !(#[trigger] views(*params)[j]).is_self(),
        decreases params.len() - i,
    {
        assert(views(*params)[i as int] == params[i as int]@);
        if parameter_is_self(&params[i]) {
            proof {
                lemma_first_index_is(views(*params), |p: ParameterView| p.is_self(), i as int);
            }
            return Some(i);
        }
        i += 1;
    }
    proof {
        lemma_first_index_none(views(*params), |p: ParameterView| p.is_self());
    }
    None
}

/// The inputs of a function with the given parameters.
pub fn inputs_for(params: &Vec<ParameterInfo>) -> (res: Vec<FnArg>)
    ensures
        views(res) == inputs_of(views(*params)),
{
    let ghost all = views(*params);
    let ghost f = |p: ParameterView| other_parameter(p);
    let mut inputs: Vec<FnArg> = Vec::new();
    let ghost mut ordered: Seq<ParameterView> = Seq::empty();
    match find_receiver(params) {
        Some(r) => {
            assert(all[r as int] == params[r as int]@);
            inputs.push(to_fn_arg(&params[r]));
            proof {
                ordered = seq![all[r as int]];
            }
        },
        None => {},
    }
    proof {
        lemma_filter_map_ends(all, f);
        assert(ordered + filter_map(all.take(0), f) =~= ordered);
    }
    let ghost head = ordered;
    assert(head == first_receiver(all));
    // the parameters that are no receivers
    let mut k: usize = 0;
    while k < params.len()
        invariant
            k <= params.len(),
            all == views(*params),
            f == |p: ParameterView| other_parameter(p),
            head == first_receiver(all),
            ordered == head + filter_map(all.take(k as int), f),
            inputs.len() == ordered.len(),
            forall|j: int| 0 <= j < inputs.len() ==> inputs[j]@ == fn_arg_of(ordered[j]),
        decreases params.len() - k,
    {
        proof {
            lemma_filter_map_take(all, k as int, f);
        }
        assert(all[k as int] == params[k as int]@);
        if !parameter_is_self(&params[k]) {
            inputs.push(to_fn_arg(&params[k]));
            proof {
                let next = ordered.push(all[k as int]);
                assert(next =~= head + filter_map(all.take(k as int), f).push(all[k as int]));
                ordered = next;
            }
        }
        k += 1;
    }
    proof {
        lemma_filter_map_ends(all, f);
        assert(ordered == receiver_first(all));
        assert(views(inputs) =~= ordered.map_values(|p: ParameterView| fn_arg_of(p)));
    }
    inputs
}

/// The header of a function of the given parts.
fn signature_from(
    name: &String,
    params: &Vec<ParameterInfo>,
    generics: &GenericsInfo,
    output: &Option<Type>,
    asyncness: bool,
) -> (res: Signature)
    ensures
        res@ == (SignatureView {
            asyncness,
            name: name@,
            generics: generics@,
            inputs: inputs_of(views(*params)),
            output: opt_view(*output),
        }),
{
    Signature {
        asyncness,
        name: name.clone(),
        generics: generics.to_syn_generics(),
        inputs: inputs_for(params),
        output: clone_output(output),
    }
}

/// The header of a described function.
pub fn signature_for(function: &FunctionDescription) -> (res: Signature)
    ensures
        res@ == signature_of(function@),
{
    signature_from(
        function.get_name(),
        function.get_params(),
        function.get_generics(),
        function.get_output(),
        function.get_asyncness(),
    )
}

/// The declaration of a function in a trait.
pub fn declaration_for(function: &FunctionDescription) -> (res: Method)
    ensures
        res@ == declaration_item(function@),
{
    let attrs = match function {
        FunctionDescription::Declaration { attrs, .. } => clone_strings(attrs),
        FunctionDescription::Implementation { attrs, .. } => clone_strings(attrs),
    };
    Method { attrs, public: false, sig: signature_for(function), body: None }
}

impl FunctionDescription {
    /// The function, compiled.
    pub fn compile(&self) -> (res: CompiledFunctionDescription)
        ensures
            res@ == compiled_function(self@),
    {
        match self {
            FunctionDescription::Declaration {
                name,
                params,
                generics,
                output,
                asyncness,
                attrs,
            } => CompiledFunctionDescription::Declaration {
                name: name.clone(),
                params: clone_parameters(params),
                generics: generics.clone(),
                output: clone_output(output),
                asyncness: *asyncness,
                attrs: clone_strings(attrs),
            },
            FunctionDescription::Implementation {
                name,
                params,
                generics,
                output,
                body,
                asyncness,
                attrs,
            } => CompiledFunctionDescription::Implementation {
                name: name.clone(),
                params: clone_parameters(params),
                generics: generics.clone(),
                output: clone_output(output),
                body: Some(body.clone()),
                asyncness: *asyncness,
                attrs: clone_strings(attrs),
            },
        }
    }
}

impl CompiledFunctionDescription {
    /// The function as a public item. A declaration gives none.
    pub fn emit(&self) -> (res: Option<Method>)
        ensures
            opt_view(res) == emitted_function(self@),
    {
        match self {
            CompiledFunctionDescription::Implementation {
                name,
                params,
                generics,
                output,
                body,
                asyncness,
                attrs,
            } => {
                let block = match body {
                    Some(body) => body.clone(),
                    None => {
                        let stmts: Vec<Expr> = Vec::new();
                        assert(views(stmts) =~= Seq::<ExprView>::empty());
                        Block { stmts }
                    },
                };
                Some(
                    Method {
                        attrs: clone_strings(attrs),
                        public: true,
                        sig: signature_from(name, params, generics, output, *asyncness),
                        body: Some(block),
                    },
                )
            },
            CompiledFunctionDescription::Declaration { .. } => None,
        }
    }
}

} // verus!
