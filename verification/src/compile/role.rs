//! Lifting: each default method of a role becomes a free function that
//! takes the value playing the role as `this`.

use vstd::prelude::*;
use vstd::string::*;
use crate::analysis::errors::{ErrorKind, ErrorKindView, MacroError, MacroErrorView};
use crate::analysis::function_description::{FunctionDescription, FunctionView};
use crate::analysis::generics_info::GenericsInfo;
use crate::analysis::parameter_info::{parameter_view, ParameterInfo, ParameterView};
use crate::analysis::role::{Role, RoleView};
use crate::compile::dispatch::{lifted_function_name, lifted_name, this_name};
use crate::compile::function_descriptor::{
    compiled_function, emitted_function, CompiledFunctionDescription, CompiledFunctionView,
};
use crate::compile::rewrite::{block_outcome, rewrite_block, rewritten_block, Scope, ScopeView};
use crate::expr::Block;
use crate::items::{Item, ItemView};
use crate::seqs::{
    filter_map, first_index, lemma_filter_map_ends, lemma_filter_map_take, lemma_first_index_is,
    lemma_first_index_none,
};
use crate::syntax::{
    clone_output, clone_strings, views, GenericParam, GenericParamView, GenericsView, ParamKind,
    Type, TypeView,
};
use crate::text::str_eq;

pub use crate::text::{to_role_name, to_snake_case};

verus! {

/// The name of the type parameter that stands for the value playing a role.
pub open spec fn player_name() -> Seq<char> {
    "T"@
}

/// The type parameter that stands for the value playing a role.
pub open spec fn player_type() -> TypeView {
    TypeView::Path { segments: seq![player_name()], arguments: Seq::empty() }
}

/// The explicit receiver, taken as the method took `self`.
pub open spec fn this_parameter(reference: Option<bool>) -> ParameterView {
    ParameterView::Typed {
        name: this_name(),
        ty: match reference {
            Some(mutable) => TypeView::Reference { mutable, name: player_name() },
            None => player_type(),
        },
    }
}

/// A parameter of a lifted function: the receiver becomes `this`, any other
/// parameter stays.
pub open spec fn lifted_parameter(p: ParameterView) -> ParameterView {
    match p {
        ParameterView::SelfRef => this_parameter(None),
        ParameterView::ImmutableReference(inner) => if *inner is SelfRef {
            this_parameter(Some(false))
        } else {
            p
        },
        ParameterView::MutableReference(inner) => if *inner is SelfRef {
            this_parameter(Some(true))
        } else {
            p
        },
        _ => p,
    }
}

/// The parameters of a lifted function.
pub open spec fn lifted_parameters(params: Seq<ParameterView>) -> Seq<ParameterView> {
    params.map_values(|p: ParameterView| lifted_parameter(p))
}

/// Whether a generic parameter is called `name`.
pub open spec fn has_parameter(params: Seq<GenericParamView>, name: Seq<char>) -> bool {
    first_index(params, |p: GenericParamView| p.name == name) is Some
}

/// The type parameter of a lifted function, bound by the contract.
pub open spec fn player_parameter(contract: Seq<char>) -> GenericParamView {
    GenericParamView { kind: ParamKind::Type, name: player_name(), bounds: seq![contract] }
}

/// The generics of a lifted function: those of the method, then the
/// parameter for the value playing the role.
pub open spec fn lifted_generics(generics: GenericsView, contract: Seq<char>) -> GenericsView {
    GenericsView {
        params: generics.params.push(player_parameter(contract)),
        where_clause: generics.where_clause,
    }
}

/// The header of the lifted function of a method, as a declaration. There
/// is none where the method has a generic parameter of the name that the
/// lifted function needs.
pub open spec fn lifted_signature(role: RoleView, function: FunctionView) -> Result<
    FunctionView,
    ErrorKindView,
> {
    if has_parameter(function.generics.params, player_name()) {
        Err(ErrorKindView::ConflictingGenericParameter { name: player_name() })
    } else {
        Ok(
            FunctionView {
                name: lifted_name(role.name, function.name),
                params: lifted_parameters(function.params),
                generics: lifted_generics(function.generics, role.contract.name),
                output: function.output,
                body: None,
                asyncness: function.asyncness,
                attrs: function.attrs,
            },
        )
    }
}

/// The lifted function of a default method of a role.
pub open spec fn lifted_function(role: RoleView, function: FunctionView) -> Result<
    FunctionView,
    ErrorKindView,
>
    recommends
        function.body is Some,
{
    match lifted_signature(role, function) {
        Err(error) => Err(error),
        Ok(header) => match rewritten_block(ScopeView::Role(role), function.body->Some_0) {
            Err(error) => Err(error),
            Ok(body) => Ok(FunctionView { body: Some(body), ..header }),
        },
    }
}

/// The lifted functions of the first `n` methods of a role, or the first
/// error. A method without a body gives no function.
pub open spec fn lifted_functions(role: RoleView, n: nat) -> Result<
    Seq<FunctionView>,
    ErrorKindView,
>
    decreases n,
{
    if n == 0 || n > role.methods.len() {
        Ok(Seq::empty())
    } else {
        match lifted_functions(role, (n - 1) as nat) {
            Err(error) => Err(error),
            Ok(done) => {
                let method = role.methods[n - 1];
                if method.body is None {
                    Ok(done)
                } else {
                    match lifted_function(role, method) {
                        Err(error) => Err(error),
                        Ok(function) => Ok(done.push(function)),
                    }
                }
            },
        }
    }
}

/// An error among the first `n` methods is the outcome for any longer
/// prefix.
pub proof fn lemma_lifting_error_stays(role: RoleView, n: nat, m: nat)
    requires
        n <= m <= role.methods.len(),
        lifted_functions(role, n) is Err,
    ensures
        lifted_functions(role, m) == lifted_functions(role, n),
    decreases m,
{
    if n < m {
        lemma_lifting_error_stays(role, n, (m - 1) as nat);
    }
}

/// What a role compiles to: its lifted functions.
#[derive(Debug, PartialEq, Eq)]
pub struct CompiledRole {
    pub functions: Vec<CompiledFunctionDescription>,
}

/// The view of `CompiledRole`.
pub ghost struct CompiledRoleView {
    pub functions: Seq<CompiledFunctionView>,
}

impl View for CompiledRole {
    type V = CompiledRoleView;

    open spec fn view(&self) -> CompiledRoleView {
        CompiledRoleView { functions: views(self.functions) }
    }
}

/// The outcome of compiling a role: an error stands at the role.
pub open spec fn compiled_role(role: RoleView) -> Result<CompiledRoleView, MacroErrorView> {
    match lifted_functions(role, role.methods.len()) {
        Ok(functions) => Ok(
            CompiledRoleView {
                functions: functions.map_values(|f: FunctionView| compiled_function(f)),
            },
        ),
        Err(kind) => Err(MacroErrorView { kind, span: Some(role.span) }),
    }
}

/// The view of the outcome of compiling a role.
pub open spec fn role_outcome(res: Result<CompiledRole, MacroError>) -> Result<
    CompiledRoleView,
    MacroErrorView,
> {
    match res {
        Ok(r) => Ok(r@),
        Err(e) => Err(e@),
    }
}

/// The view of the outcome of lifting one function.
pub open spec fn function_outcome(res: Result<FunctionDescription, ErrorKind>) -> Result<
    FunctionView,
    ErrorKindView,
> {
    match res {
        Ok(f) => Ok(f@),
        Err(e) => Err(e@),
    }
}

fn player() -> (res: Type)
    ensures
        res@ == player_type(),
{
    let mut segments: Vec<String> = Vec::new();
    segments.push("T".to_owned());
    let arguments: Vec<String> = Vec::new();
    assert(views(segments) =~= seq![player_name()]);
    assert(views(arguments) =~= Seq::<Seq<char>>::empty());
    Type::Path { segments, arguments }
}

fn this_typed(reference: Option<bool>) -> (res: ParameterInfo)
    ensures
        res@ == this_parameter(reference),
{
    let ty = match reference {
        Some(mutable) => Type::Reference { mutable, name: "T".to_owned() },
        None => player(),
    };
    ParameterInfo::new_owned("this", ty)
}

fn lift_parameter(p: &ParameterInfo) -> (res: ParameterInfo)
    ensures
        res@ == lifted_parameter(p@),
{
    proof {
        reveal_with_fuel(parameter_view, 2);
    }
    match p {
        ParameterInfo::SelfRef => this_typed(None),
        ParameterInfo::ImmutableReference(inner) => match &**inner {
            ParameterInfo::SelfRef => this_typed(Some(false)),
            _ => p.clone(),
        },
        ParameterInfo::MutableReference(inner) => match &**inner {
            ParameterInfo::SelfRef => this_typed(Some(true)),
            _ => p.clone(),
        },
        _ => p.clone(),
    }
}

/// Whether a generic parameter is called `name`.
pub fn has_generic_parameter(params: &Vec<GenericParam>, name: &str) -> (res: bool)
    ensures
        res == has_parameter(views(*params), name@),
{
    let mut i: usize = 0;
    while i < params.len()
        invariant
            i <= params.len(),
            forall|j: int| 0 <= j < i ==> (#[trigger] views(*params)[j]).name != name@,
        decreases params.len() - i,
    {
        assert(views(*params)[i as int] == params[i as int]@);
        if str_eq(params[i].name.as_str(), name) {
            proof {
                lemma_first_index_is(
                    views(*params),
                    |p: GenericParamView| p.name == name@,
                    i as int,
                );
            }
            return true;
        }
        i += 1;
    }
    proof {
        lemma_first_index_none(views(*params), |p: GenericParamView| p.name == name@);
    }
    false
}

/// The parameters of a lifted function.
fn lift_parameters(params: &Vec<ParameterInfo>) -> (res: Vec<ParameterInfo>)
    ensures
        views(res) == lifted_parameters(views(*params)),
{
    let mut res: Vec<ParameterInfo> = Vec::new();
    let mut i: usize = 0;
    while i < params.len()
        invariant
            i <= params.len(),
            res.len() == i,
            forall|j: int| 0 <= j < i ==> res[j]@ == lifted_parameter(params[j]@),
        decreases params.len() - i,
    {
        res.push(lift_parameter(&params[i]));
        i += 1;
    }
    assert(views(res) =~= lifted_parameters(views(*params)));
    res
}

/// The generics of a lifted function, or the conflict that stops it.
fn lift_generics(generics: &GenericsInfo, contract: &str) -> (res: Result<GenericsInfo, ErrorKind>)
    ensures
        match res {
            Ok(g) => !has_parameter(generics@.params, player_name()) && g@ == lifted_generics(
                generics@,
                contract@,
            ),
            Err(e) => has_parameter(generics@.params, player_name()) && e@
                == (ErrorKindView::ConflictingGenericParameter { name: player_name() }),
        },
{
    let mut params = generics.get_params();
    if has_generic_parameter(&params, "T") {
        return Err(ErrorKind::ConflictingGenericParameter { name: "T".to_owned() });
    }
    let mut bounds: Vec<String> = Vec::new();
    bounds.push(contract.to_owned());
    assert(views(bounds) =~= seq![contract@]);
    let ghost before = views(params);
    let player = GenericParam { kind: ParamKind::Type, name: "T".to_owned(), bounds };
    params.push(player);
    assert(views(params) =~= before.push(player@));
    Ok(GenericsInfo::new(params, generics.get_where_clause()))
}

fn attrs_of(function: &FunctionDescription) -> (res: Vec<String>)
    ensures
        views(res) == function@.attrs,
{
    match function {
        FunctionDescription::Declaration { attrs, .. } => clone_strings(attrs),
        FunctionDescription::Implementation { attrs, .. } => clone_strings(attrs),
    }
}

/// The header of the lifted function of a method of `role`: the name with
/// the role's prefix, `this` in place of the receiver, and one more type
/// parameter, bound by the contract.
pub fn rewrite_sig_of_free_function(function: &FunctionDescription, role: &Role) -> (res: Result<
    FunctionDescription,
    ErrorKind,
>)
    ensures
        function_outcome(res) == lifted_signature(role@, function@),
{
    let generics = lift_generics(function.get_generics(), role.contract.name.as_str())?;
    Ok(
        FunctionDescription::new_declaration(
            lifted_function_name(role.name.as_str(), function.get_name().as_str()),
            lift_parameters(function.get_params()),
            generics,
            clone_output(function.get_output()),
            function.get_asyncness(),
            attrs_of(function),
        ),
    )
}

/// The body of a lifted function: `this` in place of `self`, and each call
/// of a default method of the role replaced by a call of its lifted
/// function.
pub fn rewrite_body_of_free_function(role: &Role, block: &Block) -> (res: Result<Block, ErrorKind>)
    ensures
        block_outcome(res) == rewritten_block(ScopeView::Role(role@), block@),
{
    rewrite_block(&Scope::Role(role), block)
}

/// Lifts one default method.
fn lift_function(role: &Role, function: &FunctionDescription, body: &Block) -> (res: Result<
    FunctionDescription,
    ErrorKind,
>)
    requires
        function@.body == Some(body@),
    ensures
        function_outcome(res) == lifted_function(role@, function@),
{
    let generics = lift_generics(function.get_generics(), role.contract.name.as_str())?;
    let new_body = rewrite_body_of_free_function(role, body)?;
    Ok(
        FunctionDescription::new_implementation(
            lifted_function_name(role.name.as_str(), function.get_name().as_str()),
            lift_parameters(function.get_params()),
            generics,
            clone_output(function.get_output()),
            new_body,
            function.get_asyncness(),
            attrs_of(function),
        ),
    )
}

impl Role {
    /// The lifted functions of the role.
    pub fn compile(&self) -> (res: Result<CompiledRole, MacroError>)
        ensures
            role_outcome(res) == compiled_role(self@),
    {
        let mut functions: Vec<FunctionDescription> = Vec::new();
        let mut i: usize = 0;
        assert(views(functions) =~= Seq::<FunctionView>::empty());
        while i < self.methods.len()
            invariant
                i <= self.methods.len(),
                lifted_functions(self@, i as nat) == Ok::<Seq<FunctionView>, ErrorKindView>(
                    views(functions),
                ),
            decreases self.methods.len() - i,
        {
            assert(views(self.methods)[i as int] == self.methods[i as int]@);
            let ghost before = views(functions);
            match &self.methods[i] {
                FunctionDescription::Implementation { body, .. } => {
                    match lift_function(self, &self.methods[i], body) {
                        Ok(function) => {
                            functions.push(function);
                            assert(views(functions) =~= before.push(function@));
                        },
                        Err(kind) => {
                            proof {
                                lemma_lifting_error_stays(
                                    self@,
                                    (i + 1) as nat,
                                    self.methods.len() as nat,
                                );
                            }
                            return Err(MacroError::of_kind(kind, self.span));
                        },
                    }
                },
                FunctionDescription::Declaration { .. } => {},
            }
            i += 1;
        }
        let mut compiled: Vec<CompiledFunctionDescription> = Vec::new();
        let mut k: usize = 0;
        while k < functions.len()
            invariant
                k <= functions.len(),
                compiled.len() == k,
                forall|j: int| 0 <= j < k ==> compiled[j]@ == compiled_function(functions[j]@),
            decreases functions.len() - k,
        {
            compiled.push(functions[k].compile());
            k += 1;
        }
        assert(views(compiled) =~= views(functions).map_values(
            |f: FunctionView| compiled_function(f),
        ));
        Ok(CompiledRole { functions: compiled })
    }
}

/// The item that a compiled function is emitted as.
pub open spec fn emitted_item(function: CompiledFunctionView) -> Option<ItemView> {
    match emitted_function(function) {
        Some(method) => Some(ItemView::Fn(method)),
        None => None,
    }
}

/// The items that a list of compiled functions is emitted as.
pub open spec fn emitted_functions(functions: Seq<CompiledFunctionView>) -> Seq<ItemView> {
    filter_map(functions, |f: CompiledFunctionView| emitted_item(f))
}

impl CompiledRole {
    /// The lifted functions as items.
    pub fn emit(&self) -> (res: Vec<Item>)
        ensures
            views(res) == emitted_functions(self@.functions),
    {
        let ghost f = |f: CompiledFunctionView| emitted_item(f);
        let ghost all = views(self.functions);
        let mut items: Vec<Item> = Vec::new();
        let mut i: usize = 0;
        proof {
            lemma_filter_map_ends(all, f);
            assert(views(items) =~= Seq::<ItemView>::empty());
        }
        while i < self.functions.len()
            invariant
                i <= self.functions.len(),
                all == views(self.functions),
                f == |f: CompiledFunctionView| emitted_item(f),
                views(items) == filter_map(all.take(i as int), f),
            decreases self.functions.len() - i,
        {
            proof {
                lemma_filter_map_take(all, i as int, f);
            }
            assert(all[i as int] == self.functions[i as int]@);
            let ghost before = views(items);
            match self.functions[i].emit() {
                Some(method) => {
                    let item = Item::Fn(method);
                    items.push(item);
                    assert(views(items) =~= before.push(item@));
                },
                None => {},
            }
            i += 1;
        }
        proof {
            lemma_filter_map_ends(all, f);
        }
        items
    }
}

} // verus!
