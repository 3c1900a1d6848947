//! The composite: the struct with one type parameter for each role, the
//! interface that its impl blocks realise, and the impl blocks with the
//! calls through role slots resolved.

use vstd::prelude::*;
use vstd::string::*;
use crate::analysis::code_analysis::{
    contract_name, contract_name_for, type_has_name, type_is_named,
};
use crate::analysis::context_info::{ContextInfo, ContextView};
use crate::analysis::errors::{ErrorKind, ErrorKindView, MacroError, MacroErrorView};
use crate::analysis::function_description::{FunctionDescription, FunctionView};
use crate::analysis::generics_info::GenericsInfo;
use crate::analysis::impl_block_info::{ImplBlockInfo, ImplBlockView};
use crate::analysis::property_info::{PropertyInfo, PropertyView};
use crate::analysis::role::{Role, RoleView};
use crate::compile::dispatch::{find_role, is_role_type, lookup_role, role_type_name, type_is_role};
use crate::compile::function_descriptor::{declaration_for, declaration_item};
use crate::compile::impl_block::{compiled_block, CompiledImplBlock, CompiledImplBlockView};
use crate::compile::rewrite::{block_outcome, rewrite_block, rewritten_block, Scope, ScopeView};
use crate::compile::role::{compiled_role, has_parameter, CompiledRole, CompiledRoleView};
use crate::expr::Block;
use crate::items::{
    AssocItem, AssocItemView, Field, FieldView, ItemStruct, ItemStructView, ItemTrait,
    ItemTraitView,
};
use crate::seqs::{
    filter_map, first_index, lemma_filter_map_ends, lemma_filter_map_take, lemma_first_index_is,
    lemma_first_index_none, lemma_try_map_ends, lemma_try_map_error, lemma_try_map_take, try_map,
};
use crate::syntax::{
    clone_output, clone_strings, views, GenericParam, GenericParamView, Generics, GenericsView,
    ParamKind, Span, Type, TypeView,
};
use crate::text::{is_primitive_name, is_primitive_type, to_upper_camel_case, upper_camel_case};

verus! {

/// Whether a type is a primitive: a path whose last segment names one.
pub open spec fn is_primitive(ty: TypeView) -> bool {
    match ty {
        TypeView::Path { segments, .. } => segments.len() > 0 && is_primitive_name(
            segments.last(),
        ),
        _ => false,
    }
}

/// Whether a property of this type is a role slot.
pub open spec fn is_slot(ty: TypeView) -> bool {
    !is_primitive(ty) && is_role_type(ty)
}

/// Whether two types are slots of the same role.
pub open spec fn same_slot(a: TypeView, b: TypeView) -> bool {
    is_slot(a) && is_slot(b) && role_type_name(a) == role_type_name(b)
}

/// The position of the first property that is a slot of the role of `ty`.
pub open spec fn slot_owner(properties: Seq<PropertyView>, ty: TypeView) -> Option<int> {
    first_index(properties, |p: PropertyView| same_slot(p.ty, ty))
}

/// The name of the type parameter that a property gives to its role: `T`
/// and the name of the property in upper camel case.
pub open spec fn parameter_name(property: Seq<char>) -> Seq<char> {
    seq!['T'] + upper_camel_case(property)
}

/// The type parameter that stands for the role of a slot: the one that the
/// first property of that role names.
pub open spec fn slot_parameter(properties: Seq<PropertyView>, ty: TypeView) -> Seq<char> {
    match slot_owner(properties, ty) {
        Some(k) => parameter_name(properties[k].name),
        None => parameter_name(Seq::empty()),
    }
}

/// A type that is one name.
pub open spec fn named_type(name: Seq<char>) -> TypeView {
    TypeView::Path { segments: seq![name], arguments: Seq::empty() }
}

/// The type of the field that the composite has for a property: the type
/// parameter of the role for a slot, the declared type for any other.
pub open spec fn composite_type(properties: Seq<PropertyView>, ty: TypeView) -> TypeView {
    if is_slot(ty) {
        named_type(slot_parameter(properties, ty))
    } else {
        ty
    }
}

/// The field that the composite has for a property.
pub open spec fn composite_field(properties: Seq<PropertyView>, p: PropertyView) -> FieldView {
    FieldView { name: Some(p.name), ty: composite_type(properties, p.ty), span: p.span }
}

/// The name of the contract that bounds the parameter of a role: that of
/// the role's contract, or, for a role that is not declared, the name that
/// its contract would have.
pub open spec fn bound_contract(roles: Seq<RoleView>, role: Seq<char>) -> Seq<char> {
    match find_role(roles, role) {
        Some(r) => roles[r].contract.name,
        None => contract_name_for(role),
    }
}

/// The type parameter that the property at `i` brings: one for the first
/// slot of each role.
pub open spec fn introduced_parameter(context: ContextView, i: int) -> Option<GenericParamView> {
    let ty = context.properties[i].ty;
    if is_slot(ty) && slot_owner(context.properties, ty) == Some(i) {
        Some(
            GenericParamView {
                kind: ParamKind::Type,
                name: parameter_name(context.properties[i].name),
                bounds: seq![bound_contract(context.roles, role_type_name(ty))],
            },
        )
    } else {
        None
    }
}

/// The type parameters that the first `n` properties bring.
pub open spec fn introduced_parameters(context: ContextView, n: nat) -> Seq<GenericParamView>
    decreases n,
{
    if n == 0 || n > context.properties.len() {
        Seq::empty()
    } else {
        let done = introduced_parameters(context, (n - 1) as nat);
        match introduced_parameter(context, n - 1) {
            Some(p) => done.push(p),
            None => done,
        }
    }
}

/// The generic parameters of the composite: those of the aggregate, then
/// one for each role among its slots.
pub open spec fn composite_parameters(context: ContextView) -> Seq<GenericParamView> {
    context.generics.params + introduced_parameters(context, context.properties.len())
}

/// Whether the parameter at `k` has the name of one before it.
pub open spec fn repeats(params: Seq<GenericParamView>, k: int) -> bool {
    has_parameter(params.take(k), params[k].name)
}

/// The first position among the first `n` at which a name repeats.
pub open spec fn first_repeated(params: Seq<GenericParamView>, n: nat) -> Option<int>
    decreases n,
{
    if n == 0 || n > params.len() {
        None
    } else {
        match first_repeated(params, (n - 1) as nat) {
            Some(k) => Some(k),
            None => if repeats(params, n - 1) {
                Some(n - 1)
            } else {
                None
            },
        }
    }
}

/// The prefix of the name of a placeholder field.
pub open spec fn phantom_prefix() -> Seq<char> {
    "_phantom_"@
}

/// The type of the placeholder for a parameter.
pub open spec fn phantom_type(name: Seq<char>) -> TypeView {
    TypeView::Path { segments: seq!["std"@, "marker"@, "PhantomData"@], arguments: seq![name] }
}

/// Whether a field has the type parameter `name` as its type.
pub open spec fn is_used(fields: Seq<FieldView>, name: Seq<char>) -> bool {
    first_index(fields, |f: FieldView| type_is_named(f.ty, name)) is Some
}

/// The placeholder field for a type parameter that no field uses. It has
/// no place in the source.
pub open spec fn phantom_field(fields: Seq<FieldView>, param: GenericParamView) -> Option<
    FieldView,
> {
    if param.kind == ParamKind::Type && !is_used(fields, param.name) {
        Some(
            FieldView {
                name: Some(phantom_prefix() + param.name),
                ty: phantom_type(param.name),
                span: Span { line: 0, column: 0 },
            },
        )
    } else {
        None
    }
}

/// The placeholder fields, in the order of the parameters.
pub open spec fn phantom_fields(fields: Seq<FieldView>, params: Seq<GenericParamView>) -> Seq<
    FieldView,
> {
    filter_map(params, |p: GenericParamView| phantom_field(fields, p))
}

/// The fields that the composite has for the properties.
pub open spec fn composite_fields(properties: Seq<PropertyView>) -> Seq<FieldView> {
    properties.map_values(|p: PropertyView| composite_field(properties, p))
}

/// The composite struct: private, with the parameters of the aggregate and
/// of its roles, a field for each property, and a placeholder for each
/// type parameter that no field uses. There is none where two parameters
/// would share a name.
pub open spec fn composite_struct(context: ContextView) -> Result<ItemStructView, ErrorKindView> {
    let params = composite_parameters(context);
    match first_repeated(params, params.len()) {
        Some(k) => Err(ErrorKindView::ConflictingGenericParameter { name: params[k].name }),
        None => {
            let fields = composite_fields(context.properties);
            Ok(
                ItemStructView {
                    attrs: Seq::empty(),
                    public: false,
                    name: context.name,
                    generics: GenericsView {
                        params,
                        where_clause: context.generics.where_clause,
                    },
                    fields: fields + phantom_fields(fields, params),
                    span: context.span,
                },
            )
        },
    }
}

/// The view of the outcome of building the struct.
pub open spec fn struct_outcome(res: Result<ItemStruct, ErrorKind>) -> Result<
    ItemStructView,
    ErrorKindView,
> {
    match res {
        Ok(s) => Ok(s@),
        Err(e) => Err(e@),
    }
}

/// A type that is one name.
pub fn type_named(name: String) -> (res: Type)
    ensures
        res@ == named_type(name@),
{
    let mut segments: Vec<String> = Vec::new();
    segments.push(name);
    let arguments: Vec<String> = Vec::new();
    assert(views(segments) =~= seq![name@]);
    assert(views(arguments) =~= Seq::<Seq<char>>::empty());
    Type::Path { segments, arguments }
}

/// The name of the type parameter that a property gives to its role.
pub fn parameter_name_for(property: &str) -> (res: String)
    ensures
        res@ == parameter_name(property@),
{
    let mut s = "T".to_owned();
    proof {
        reveal_strlit("T");
        assert("T"@ =~= seq!['T']);
    }
    s.append(to_upper_camel_case(property).as_str());
    s
}

fn type_is_slot(ty: &Type) -> (res: bool)
    ensures
        res == is_slot(ty@),
{
    !ContextInfo::is_primitive_type(ty) && type_is_role(ty)
}

fn types_share_slot(a: &Type, b: &Type) -> (res: bool)
    ensures
        res == same_slot(a@, b@),
{
    if type_is_slot(a) && type_is_slot(b) {
        match (a, b) {
            (Type::Path { segments: sa, .. }, Type::Path { segments: sb, .. }) => {
                assert(views(*sa)[0] == sa[0]@);
                assert(views(*sb)[0] == sb[0]@);
                crate::text::str_eq(sa[0].as_str(), sb[0].as_str())
            },
            _ => false,
        }
    } else {
        false
    }
}

/// The first property that is a slot of the role of `ty`.
fn find_slot_owner(properties: &Vec<PropertyInfo>, ty: &Type) -> (res: Option<usize>)
    ensures
        match res {
            Some(k) => slot_owner(views(*properties), ty@) == Some(k as int) && k
                < properties.len(),
            None => slot_owner(views(*properties), ty@) is None,
        },
{
    let mut i: usize = 0;
    while i < properties.len()
        invariant
            i <= properties.len(),
            forall|j: int| 0 <= j < i ==> !same_slot((#[trigger] views(*properties)[j]).ty, ty@),
        decreases properties.len() - i,
    {
        assert(views(*properties)[i as int] == properties[i as int]@);
        let other = properties[i].get_ty();
        if types_share_slot(&other, ty) {
            proof {
                lemma_first_index_is(
                    views(*properties),
                    |p: PropertyView| same_slot(p.ty, ty@),
                    i as int,
                );
            }
            return Some(i);
        }
        i += 1;
    }
    proof {
        lemma_first_index_none(views(*properties), |p: PropertyView| same_slot(p.ty, ty@));
    }
    None
}

/// The type of the field that the composite has for a property of type `ty`.
fn composite_type_for(properties: &Vec<PropertyInfo>, ty: Type) -> (res: Type)
    ensures
        res@ == composite_type(views(*properties), ty@),
{
    if type_is_slot(&ty) {
        match find_slot_owner(properties, &ty) {
            Some(k) => {
                assert(views(*properties)[k as int] == properties[k as int]@);
                type_named(parameter_name_for(properties[k].get_name().as_str()))
            },
            None => {
                proof {
                    reveal_strlit("");
                    assert(""@ =~= Seq::<char>::empty());
                }
                type_named(parameter_name_for(""))
            },
        }
    } else {
        ty
    }
}

/// The name of the contract that bounds the parameter of a role.
fn bound_contract_for(roles: &Vec<Role>, role: &str) -> (res: String)
    ensures
        res@ == bound_contract(views(*roles), role@),
{
    match lookup_role(roles, role) {
        Some(r) => {
            assert(views(*roles)[r as int] == roles[r as int]@);
            roles[r].contract.name.clone()
        },
        None => contract_name(role),
    }
}

/// Whether the parameter at `k` has the name of one before it.
fn parameter_repeats(params: &Vec<GenericParam>, k: usize) -> (res: bool)
    requires
        k < params.len(),
    ensures
        res == repeats(views(*params), k as int),
{
    let ghost all = views(*params);
    let ghost name = all[k as int].name;
    let mut j: usize = 0;
    while j < k
        invariant
            j <= k < params.len(),
            all == views(*params),
            name == all[k as int].name,
            forall|h: int| 0 <= h < j ==> (#[trigger] all.take(k as int)[h]).name != name,
        decreases k - j,
    {
        assert(all[j as int] == params[j as int]@);
        assert(all[k as int] == params[k as int]@);
        assert(all.take(k as int)[j as int] == all[j as int]);
        if crate::text::str_eq(params[j].name.as_str(), params[k].name.as_str()) {
            proof {
                lemma_first_index_is(
                    all.take(k as int),
                    |p: GenericParamView| p.name == name,
                    j as int,
                );
            }
            return true;
        }
        j += 1;
    }
    proof {
        lemma_first_index_none(all.take(k as int), |p: GenericParamView| p.name == name);
    }
    false
}

/// The first position at which the name of a parameter repeats.
fn find_repeated(params: &Vec<GenericParam>) -> (res: Option<usize>)
    ensures
        match res {
            Some(k) => first_repeated(views(*params), params.len() as nat) == Some(k as int) && k
                < params.len(),
            None => first_repeated(views(*params), params.len() as nat) is None,
        },
{
    let mut k: usize = 0;
    while k < params.len()
        invariant
            k <= params.len(),
            first_repeated(views(*params), k as nat) is None,
        decreases params.len() - k,
    {
        if parameter_repeats(params, k) {
            proof {
                lemma_repeat_stays(views(*params), (k + 1) as nat, params.len() as nat);
            }
            return Some(k);
        }
        k += 1;
    }
    None
}

/// A repeat among the first `n` parameters is the first among any more.
pub proof fn lemma_repeat_stays(params: Seq<GenericParamView>, n: nat, m: nat)
    requires
        n <= m <= params.len(),
        first_repeated(params, n) is Some,
    ensures
        first_repeated(params, m) == first_repeated(params, n),
    decreases m,
{
    if n < m {
        lemma_repeat_stays(params, n, (m - 1) as nat);
    }
}

fn field_is_used(fields: &Vec<Field>, name: &str) -> (res: bool)
    ensures
        res == is_used(views(*fields), name@),
{
    let mut i: usize = 0;
    while i < fields.len()
        invariant
            i <= fields.len(),
            forall|j: int| 0 <= j < i ==> !type_is_named((#[trigger] views(*fields)[j]).ty, name@),
        decreases fields.len() - i,
    {
        assert(views(*fields)[i as int] == fields[i as int]@);
        if type_has_name(&fields[i].ty, name) {
            proof {
                lemma_first_index_is(
                    views(*fields),
                    |f: FieldView| type_is_named(f.ty, name@),
                    i as int,
                );
            }
            return true;
        }
        i += 1;
    }
    proof {
        lemma_first_index_none(views(*fields), |f: FieldView| type_is_named(f.ty, name@));
    }
    false
}

fn phantom_type_for(name: &str) -> (res: Type)
    ensures
        res@ == phantom_type(name@),
{
    let mut segments: Vec<String> = Vec::new();
    segments.push("std".to_owned());
    segments.push("marker".to_owned());
    segments.push("PhantomData".to_owned());
    let mut arguments: Vec<String> = Vec::new();
    arguments.push(name.to_owned());
    assert(views(segments) =~= seq!["std"@, "marker"@, "PhantomData"@]);
    assert(views(arguments) =~= seq![name@]);
    Type::Path { segments, arguments }
}

impl ContextInfo {
    /// Whether a type is a primitive.
    pub fn is_primitive_type(ty: &Type) -> (res: bool)
        ensures
            res == is_primitive(ty@),
    {
        match ty {
            Type::Path { segments, .. } => {
                let n: usize = segments.len();
                if n == 0 {
                    false
                } else {
                    assert(views(*segments).last() == segments[n - 1]@);
                    is_primitive_type(segments[n - 1].as_str())
                }
            },
            _ => false,
        }
    }

    /// The generic parameters of the composite.
    fn compile_parameters(&self) -> (res: Vec<GenericParam>)
        ensures
            views(res) == composite_parameters(self@),
    {
        let mut params = self.generics.get_params();
        let ghost own = views(params);
        let mut i: usize = 0;
        assert(own + introduced_parameters(self@, 0) =~= own);
        while i < self.properties.len()
            invariant
                i <= self.properties.len(),
                own == self@.generics.params,
                views(params) == own + introduced_parameters(self@, i as nat),
            decreases self.properties.len() - i,
        {
            assert(views(self.properties)[i as int] == self.properties[i as int]@);
            let ghost before = views(params);
            let ty = self.properties[i].get_ty();
            if type_is_slot(&ty) {
                let owner = find_slot_owner(&self.properties, &ty);
                if owner == Some(i) {
                    match &ty {
                        Type::Path { segments, .. } => {
                            assert(views(*segments)[0] == segments[0]@);
                            let mut bounds: Vec<String> = Vec::new();
                            bounds.push(bound_contract_for(&self.roles, segments[0].as_str()));
                            assert(views(bounds) =~= seq![
                                bound_contract(self@.roles, role_type_name(ty@)),
                            ]);
                            let param = GenericParam {
                                kind: ParamKind::Type,
                                name: parameter_name_for(self.properties[i].get_name().as_str()),
                                bounds,
                            };
                            params.push(param);
                            assert(views(params) =~= before.push(param@));
                            assert(introduced_parameter(self@, i as int) == Some(param@));
                        },
                        _ => {},
                    }
                }
            }
            assert(views(params) =~= own + introduced_parameters(self@, (i + 1) as nat));
            i += 1;
        }
        params
    }

    /// The composite struct.
    pub fn compile_struct(&self) -> (res: Result<ItemStruct, ErrorKind>)
        ensures
            struct_outcome(res) == composite_struct(self@),
    {
        let params = self.compile_parameters();
        match find_repeated(&params) {
            Some(k) => {
                assert(views(params)[k as int] == params[k as int]@);
                return Err(ErrorKind::ConflictingGenericParameter { name: params[k].name.clone() });
            },
            None => {},
        }
        let mut fields: Vec<Field> = Vec::new();
        let mut i: usize = 0;
        while i < self.properties.len()
            invariant
                i <= self.properties.len(),
                fields.len() == i,
                forall|j: int|
                    0 <= j < i ==> fields[j]@ == composite_field(
                        self@.properties,
                        self.properties[j]@,
                    ),
            decreases self.properties.len() - i,
        {
            let p = &self.properties[i];
            fields.push(
                Field {
                    name: Some(p.get_name()),
                    ty: composite_type_for(&self.properties, p.get_ty()),
                    span: p.get_span(),
                },
            );
            i += 1;
        }
        assert(views(fields) =~= composite_fields(self@.properties));
        let ghost slots = views(fields);
        let ghost f = |p: GenericParamView| phantom_field(slots, p);
        let ghost all = views(params);
        let mut phantoms: Vec<Field> = Vec::new();
        let mut k: usize = 0;
        proof {
            lemma_filter_map_ends(all, f);
            assert(views(phantoms) =~= Seq::<FieldView>::empty());
        }
        while k < params.len()
            invariant
                k <= params.len(),
                all == views(params),
                slots == views(fields),
                f == |p: GenericParamView| phantom_field(slots, p),
                views(phantoms) == filter_map(all.take(k as int), f),
            decreases params.len() - k,
        {
            proof {
                lemma_filter_map_take(all, k as int, f);
            }
            assert(all[k as int] == params[k as int]@);
            let ghost before = views(phantoms);
            match params[k].kind {
                ParamKind::Type => {
                    if !field_is_used(&fields, params[k].name.as_str()) {
                        let mut name = "_phantom_".to_owned();
                        name.append(params[k].name.as_str());
                        let field = Field {
                            name: Some(name),
                            ty: phantom_type_for(params[k].name.as_str()),
                            span: Span { line: 0, column: 0 },
                        };
                        phantoms.push(field);
                        assert(views(phantoms) =~= before.push(field@));
                    }
                },
                _ => {},
            }
            k += 1;
        }
        proof {
            lemma_filter_map_ends(all, f);
        }
        let ghost phantoms_view = views(phantoms);
        fields.append(&mut phantoms);
        assert(views(fields) =~= slots + phantoms_view);
        let attrs: Vec<String> = Vec::new();
        assert(views(attrs) =~= Seq::<Seq<char>>::empty());
        Ok(
            ItemStruct {
                attrs,
                public: false,
                name: self.name.clone(),
                generics: Generics { params, where_clause: self.generics.get_where_clause() },
                fields,
                span: self.span,
            },
        )
    }
}

/// The arguments that name the generic parameters, in order.
pub open spec fn generic_arguments(params: Seq<GenericParamView>) -> Seq<Seq<char>> {
    params.map_values(|p: GenericParamView| p.name)
}

/// The type `name<arguments>` with one argument for each parameter.
pub open spec fn applied_type(name: Seq<char>, params: Seq<GenericParamView>) -> TypeView {
    TypeView::Path { segments: seq![name], arguments: generic_arguments(params) }
}

/// The functions of a block as declarations of the interface.
pub open spec fn block_declarations(block: ImplBlockView) -> Seq<AssocItemView> {
    block.functions.map_values(|f: FunctionView| AssocItemView::Fn(declaration_item(f)))
}

/// The declarations of the interface that the first `n` blocks give.
pub open spec fn interface_methods(blocks: Seq<ImplBlockView>, n: nat) -> Seq<AssocItemView>
    decreases n,
{
    if n == 0 || n > blocks.len() {
        Seq::empty()
    } else {
        interface_methods(blocks, (n - 1) as nat) + block_declarations(blocks[n - 1])
    }
}

/// The interface of the composite: a public trait called `interface`, with
/// the generics of the composite and a declaration for each method of the
/// impl blocks of the aggregate.
pub open spec fn context_trait(context: ContextView, interface: Seq<char>, generics: GenericsView)
    -> ItemTraitView {
    ItemTraitView {
        attrs: Seq::empty(),
        public: true,
        name: interface,
        generics,
        supertraits: Seq::empty(),
        items: interface_methods(context.impl_blocks, context.impl_blocks.len()),
        span: context.span,
    }
}

/// A method of the aggregate with the calls through role slots resolved.
pub open spec fn rewritten_function(context: ContextView, function: FunctionView) -> Result<
    FunctionView,
    ErrorKindView,
> {
    match function.body {
        None => Ok(function),
        Some(body) => match rewritten_block(ScopeView::Aggregate(context), body) {
            Ok(body) => Ok(FunctionView { body: Some(body), ..function }),
            Err(error) => Err(error),
        },
    }
}

/// The methods of a block with the calls through role slots resolved.
pub open spec fn rewritten_functions(context: ContextView, functions: Seq<FunctionView>) -> Result<
    Seq<FunctionView>,
    ErrorKindView,
> {
    try_map(functions, |f: FunctionView| rewritten_function(context, f))
}

/// An impl block of the aggregate as an implementation of the interface:
/// `impl<generics> interface<..> for name<..>`, with the attributes of the
/// aggregate and the rewritten methods.
pub open spec fn context_methods(
    context: ContextView,
    block: ImplBlockView,
    interface: Seq<char>,
    generics: GenericsView,
) -> Result<CompiledImplBlockView, ErrorKindView> {
    match rewritten_functions(context, block.functions) {
        Err(error) => Err(error),
        Ok(functions) => Ok(
            compiled_block(
                ImplBlockView {
                    generics,
                    for_lifetimes: block.for_lifetimes,
                    implemented_traits: seq![applied_type(interface, generics.params)],
                    functions,
                    self_ty: applied_type(context.name, generics.params),
                    attrs: context.attrs,
                },
            ),
        ),
    }
}

/// What the aggregate compiles to.
#[derive(Debug, PartialEq, Eq)]
pub struct CompiledContext {
    pub roles: Vec<CompiledRole>,
    pub context_methods: Vec<CompiledImplBlock>,
    pub base: ItemStruct,
    pub context_trait: ItemTrait,
    pub attrs: Vec<String>,
}

/// The view of `CompiledContext`.
pub ghost struct CompiledContextView {
    pub roles: Seq<CompiledRoleView>,
    pub context_methods: Seq<CompiledImplBlockView>,
    pub base: ItemStructView,
    pub context_trait: ItemTraitView,
    pub attrs: Seq<Seq<char>>,
}

impl View for CompiledContext {
    type V = CompiledContextView;

    open spec fn view(&self) -> CompiledContextView {
        CompiledContextView {
            roles: views(self.roles),
            context_methods: views(self.context_methods),
            base: self.base@,
            context_trait: self.context_trait@,
            attrs: views(self.attrs),
        }
    }
}

/// An error of synthesis, at the aggregate.
pub open spec fn at_context(context: ContextView, kind: ErrorKindView) -> MacroErrorView {
    MacroErrorView { kind, span: Some(context.span) }
}

/// The impl blocks of the aggregate, compiled, or the first error.
pub open spec fn all_context_methods(
    context: ContextView,
    interface: Seq<char>,
    generics: GenericsView,
) -> Result<Seq<CompiledImplBlockView>, ErrorKindView> {
    try_map(
        context.impl_blocks,
        |b: ImplBlockView| context_methods(context, b, interface, generics),
    )
}

/// What the aggregate compiles to, under an interface of the given name:
/// the struct, then the lifted functions of each role, then the impl
/// blocks; or the first error on that way.
pub open spec fn compiled_context(context: ContextView, interface: Seq<char>) -> Result<
    CompiledContextView,
    MacroErrorView,
> {
    match composite_struct(context) {
        Err(kind) => Err(at_context(context, kind)),
        Ok(base) => match try_map(context.roles, |r: RoleView| compiled_role(r)) {
            Err(error) => Err(error),
            Ok(roles) => match all_context_methods(context, interface, base.generics) {
                Err(kind) => Err(at_context(context, kind)),
                Ok(methods) => Ok(
                    CompiledContextView {
                        roles,
                        context_methods: methods,
                        base,
                        context_trait: context_trait(context, interface, base.generics),
                        attrs: context.attrs,
                    },
                ),
            },
        },
    }
}

/// The view of the outcome of compiling the aggregate.
pub open spec fn context_outcome(res: Result<CompiledContext, MacroError>) -> Result<
    CompiledContextView,
    MacroErrorView,
> {
    match res {
        Ok(c) => Ok(c@),
        Err(e) => Err(e@),
    }
}

/// The view of the outcome of compiling an impl block.
pub open spec fn impl_outcome(res: Result<CompiledImplBlock, ErrorKind>) -> Result<
    CompiledImplBlockView,
    ErrorKindView,
> {
    match res {
        Ok(i) => Ok(i@),
        Err(e) => Err(e@),
    }
}

/// The arguments that name the generic parameters.
pub fn generic_arguments_for(params: &Vec<GenericParam>) -> (res: Vec<String>)
    ensures
        views(res) == generic_arguments(views(*params)),
{
    let mut res: Vec<String> = Vec::new();
    let mut i: usize = 0;
    while i < params.len()
        invariant
            i <= params.len(),
            res.len() == i,
            forall|j: int| 0 <= j < i ==> res[j]@ == params[j]@.name,
        decreases params.len() - i,
    {
        res.push(params[i].name.clone());
        i += 1;
    }
    assert(views(res) =~= generic_arguments(views(*params)));
    res
}

/// The type `name<arguments>` with one argument for each parameter.
pub fn applied_type_for(name: &str, params: &Vec<GenericParam>) -> (res: Type)
    ensures
        res@ == applied_type(name@, views(*params)),
{
    let mut segments: Vec<String> = Vec::new();
    segments.push(name.to_owned());
    assert(views(segments) =~= seq![name@]);
    Type::Path { segments, arguments: generic_arguments_for(params) }
}

/// The interface of the composite.
pub fn generate_context_trait(context: &ContextInfo, interface: &str, generics: &Generics) -> (res:
    ItemTrait)
    ensures
        res@ == context_trait(context@, interface@, generics@),
{
    let mut methods: Vec<AssocItem> = Vec::new();
    let mut b: usize = 0;
    assert(views(methods) =~= Seq::<AssocItemView>::empty());
    while b < context.impl_blocks.len()
        invariant
            b <= context.impl_blocks.len(),
            views(methods) == interface_methods(context@.impl_blocks, b as nat),
        decreases context.impl_blocks.len() - b,
    {
        assert(views(context.impl_blocks)[b as int] == context.impl_blocks[b as int]@);
        let block = &context.impl_blocks[b];
        let ghost before = views(methods);
        let mut i: usize = 0;
        while i < block.functions.len()
            invariant
                i <= block.functions.len(),
                methods.len() == before.len() + i,
                forall|j: int| 0 <= j < before.len() ==> methods[j]@ == before[j],
                forall|j: int|
                    0 <= j < i ==> methods[before.len() + j]@ == AssocItemView::Fn(
                        declaration_item(block.functions[j]@),
                    ),
            decreases block.functions.len() - i,
        {
            methods.push(AssocItem::Fn(declaration_for(&block.functions[i])));
            i += 1;
        }
        assert(views(methods) =~= before + block_declarations(block@));
        b += 1;
    }
    let attrs: Vec<String> = Vec::new();
    let supertraits: Vec<String> = Vec::new();
    assert(views(attrs) =~= Seq::<Seq<char>>::empty());
    assert(views(supertraits) =~= Seq::<Seq<char>>::empty());
    ItemTrait {
        attrs,
        public: true,
        name: interface.to_owned(),
        generics: generics.clone(),
        supertraits,
        items: methods,
        span: context.span,
    }
}

/// The view of the outcome of rewriting a function.
pub open spec fn rewritten_outcome(res: Result<FunctionDescription, ErrorKind>) -> Result<
    FunctionView,
    ErrorKindView,
> {
    match res {
        Ok(f) => Ok(f@),
        Err(e) => Err(e@),
    }
}

impl ContextInfo {
    /// The body of a method of the aggregate with the calls through role
    /// slots resolved: a call of a method of the contract stays, a call of
    /// a default method of the role becomes a call of its lifted function.
    pub fn rewrite_role_access(&self, block: &Block) -> (res: Result<Block, ErrorKind>)
        ensures
            block_outcome(res) == rewritten_block(ScopeView::Aggregate(self@), block@),
    {
        rewrite_block(&Scope::Aggregate(self), block)
    }

    fn rewrite_function(&self, function: &FunctionDescription) -> (res: Result<
        FunctionDescription,
        ErrorKind,
    >)
        ensures
            rewritten_outcome(res) == rewritten_function(self@, function@),
    {
        match function {
            FunctionDescription::Implementation {
                name,
                params,
                generics,
                output,
                body,
                asyncness,
                attrs,
            } => {
                let body = self.rewrite_role_access(body)?;
                Ok(
                    FunctionDescription::new_implementation(
                        name.clone(),
                        crate::analysis::parameter_info::clone_parameters(params),
                        generics.clone(),
                        clone_output(output),
                        body,
                        *asyncness,
                        clone_strings(attrs),
                    ),
                )
            },
            f => Ok(f.clone()),
        }
    }

    /// An impl block of the aggregate as an implementation of the
    /// interface.
    pub fn compile_context_methods(
        &self,
        impl_block: &ImplBlockInfo,
        interface: &str,
        generics: &Generics,
    ) -> (res: Result<CompiledImplBlock, ErrorKind>)
        ensures
            impl_outcome(res) == context_methods(self@, impl_block@, interface@, generics@),
    {
        let ghost f = |f: FunctionView| rewritten_function(self@, f);
        let ghost all = views(impl_block.functions);
        let mut functions: Vec<FunctionDescription> = Vec::new();
        let mut i: usize = 0;
        proof {
            lemma_try_map_ends(all, f);
            assert(views(functions) =~= Seq::<FunctionView>::empty());
        }
        while i < impl_block.functions.len()
            invariant
                i <= impl_block.functions.len(),
                all == views(impl_block.functions),
                f == |f: FunctionView| rewritten_function(self@, f),
                try_map(all.take(i as int), f) == Ok::<Seq<FunctionView>, ErrorKindView>(
                    views(functions),
                ),
            decreases impl_block.functions.len() - i,
        {
            proof {
                lemma_try_map_take(all, i as int, f);
            }
            assert(all[i as int] == impl_block.functions[i as int]@);
            let ghost before = views(functions);
            match self.rewrite_function(&impl_block.functions[i]) {
                Ok(function) => {
                    functions.push(function);
                    assert(views(functions) =~= before.push(function@));
                },
                Err(error) => {
                    proof {
                        lemma_try_map_error(all, i as int + 1, f);
                    }
                    return Err(error);
                },
            }
            i += 1;
        }
        proof {
            lemma_try_map_ends(all, f);
        }
        let mut implemented_traits: Vec<Type> = Vec::new();
        let interface_type = applied_type_for(interface, &generics.params);
        implemented_traits.push(interface_type);
        assert(views(implemented_traits) =~= seq![interface_type@]);
        let block = ImplBlockInfo::new(
            GenericsInfo::from_syn_generics(generics),
            impl_block.for_lifetimes.clone(),
            implemented_traits,
            functions,
            applied_type_for(self.name.as_str(), &generics.params),
            clone_strings(&self.attrs),
        );
        Ok(block.compile())
    }

    /// The composite: the struct, the interface called `interface`, the
    /// lifted functions of the roles, and the impl blocks.
    pub fn compile(&self, interface: &str) -> (res: Result<CompiledContext, MacroError>)
        ensures
            context_outcome(res) == compiled_context(self@, interface@),
    {
        let base = match self.compile_struct() {
            Ok(base) => base,
            Err(kind) => {
                return Err(MacroError::of_kind(kind, self.span));
            },
        };
        let ghost fr = |r: RoleView| compiled_role(r);
        let ghost all_roles = views(self.roles);
        let mut roles: Vec<CompiledRole> = Vec::new();
        let mut i: usize = 0;
        proof {
            lemma_try_map_ends(all_roles, fr);
            assert(views(roles) =~= Seq::<CompiledRoleView>::empty());
        }
        while i < self.roles.len()
            invariant
                i <= self.roles.len(),
                all_roles == views(self.roles),
                fr == |r: RoleView| compiled_role(r),
                composite_struct(self@) == Ok::<ItemStructView, ErrorKindView>(base@),
                try_map(all_roles.take(i as int), fr) == Ok::<
                    Seq<CompiledRoleView>,
                    MacroErrorView,
                >(views(roles)),
            decreases self.roles.len() - i,
        {
            proof {
                lemma_try_map_take(all_roles, i as int, fr);
            }
            assert(all_roles[i as int] == self.roles[i as int]@);
            let ghost before = views(roles);
            match self.roles[i].compile() {
                Ok(role) => {
                    roles.push(role);
                    assert(views(roles) =~= before.push(role@));
                },
                Err(error) => {
                    proof {
                        lemma_try_map_error(all_roles, i as int + 1, fr);
                    }
                    return Err(error);
                },
            }
            i += 1;
        }
        proof {
            lemma_try_map_ends(all_roles, fr);
        }
        let ghost fb = |b: ImplBlockView| context_methods(self@, b, interface@, base@.generics);
        let ghost all_blocks = views(self.impl_blocks);
        let mut methods: Vec<CompiledImplBlock> = Vec::new();
        let mut k: usize = 0;
        proof {
            lemma_try_map_ends(all_blocks, fb);
            assert(views(methods) =~= Seq::<CompiledImplBlockView>::empty());
        }
        while k < self.impl_blocks.len()
            invariant
                k <= self.impl_blocks.len(),
                all_blocks == views(self.impl_blocks),
                fb == |b: ImplBlockView| context_methods(self@, b, interface@, base@.generics),
                composite_struct(self@) == Ok::<ItemStructView, ErrorKindView>(base@),
                try_map(views(self.roles), |r: RoleView| compiled_role(r)) == Ok::<
                    Seq<CompiledRoleView>,
                    MacroErrorView,
                >(views(roles)),
                try_map(all_blocks.take(k as int), fb) == Ok::<
                    Seq<CompiledImplBlockView>,
                    ErrorKindView,
                >(views(methods)),
            decreases self.impl_blocks.len() - k,
        {
            proof {
                lemma_try_map_take(all_blocks, k as int, fb);
            }
            assert(all_blocks[k as int] == self.impl_blocks[k as int]@);
            let ghost before = views(methods);
            match self.compile_context_methods(&self.impl_blocks[k], interface, &base.generics) {
                Ok(block) => {
                    methods.push(block);
                    assert(views(methods) =~= before.push(block@));
                },
                Err(kind) => {
                    proof {
                        lemma_try_map_error(all_blocks, k as int + 1, fb);
                    }
                    return Err(MacroError::of_kind(kind, self.span));
                },
            }
            k += 1;
        }
        proof {
            lemma_try_map_ends(all_blocks, fb);
        }
        let context_trait = generate_context_trait(self, interface, &base.generics);
        Ok(
            CompiledContext {
                roles,
                context_methods: methods,
                base,
                context_trait,
                attrs: clone_strings(&self.attrs),
            },
        )
    }
}

} // verus!
