//! Dispatch resolution: whether a call through a role slot is a call of the
//! contract, which stays, or a call of the role's own behaviour, which
//! becomes a call of a lifted function.

use vstd::prelude::*;
use vstd::string::*;
use crate::analysis::context_info::{ContextInfo, ContextView};
use crate::analysis::errors::{ErrorKind, ErrorKindView};
use crate::analysis::function_description::{FunctionDescription, FunctionView};
use crate::analysis::parameter_info::ParameterInfo;
use crate::analysis::property_info::{PropertyInfo, PropertyView};
use crate::analysis::role::{Role, RoleView};
use crate::seqs::{
    count, first_index, lemma_count_ends, lemma_count_take, lemma_first_index_is,
    lemma_first_index_none,
};
use crate::syntax::{views, Type, TypeView};
use crate::text::{ends_with, has_suffix, role_name, str_eq, to_role_name};

verus! {

/// The name of the implicit receiver.
pub open spec fn self_name() -> Seq<char> {
    "self"@
}

/// The name of the explicit receiver of a lifted function.
pub open spec fn this_name() -> Seq<char> {
    "this"@
}

/// Whether a type names a role: a path of one segment that ends in `Role`.
pub open spec fn is_role_type(ty: TypeView) -> bool {
    match ty {
        TypeView::Path { segments, .. } => segments.len() == 1 && has_suffix(
            segments[0],
            "Role"@,
        ),
        _ => false,
    }
}

/// The name of the role that a role type names.
pub open spec fn role_type_name(ty: TypeView) -> Seq<char>
    recommends
        is_role_type(ty),
{
    ty->Path_segments[0]
}

/// The position of the first property called `field`.
pub open spec fn find_property(properties: Seq<PropertyView>, field: Seq<char>) -> Option<int> {
    first_index(properties, |p: PropertyView| p.name == field)
}

/// The position of the first role called `name`.
pub open spec fn find_role(roles: Seq<RoleView>, name: Seq<char>) -> Option<int> {
    first_index(roles, |r: RoleView| r.name == name)
}

/// The position of the first function called `name`.
pub open spec fn find_function(functions: Seq<FunctionView>, name: Seq<char>) -> Option<int> {
    first_index(functions, |f: FunctionView| f.name == name)
}

/// Whether the first parameter of a function is taken by mutable reference.
pub open spec fn takes_mutable_receiver(function: FunctionView) -> bool {
    function.params.len() > 0 && function.params[0] is MutableReference
}

/// The name of the lifted function for a method of a role: the role's
/// prefix, an underscore, the method's name.
pub open spec fn lifted_name(role: Seq<char>, method: Seq<char>) -> Seq<char> {
    role_name(role) + seq!['_'] + method
}

/// What becomes of a call.
pub ghost enum Dispatch {
    /// The call stays as it is.
    Untouched,
    /// The call becomes a call of the lifted function `function`, which
    /// takes its receiver by mutable reference if `mutable`.
    Lifted { function: Seq<char>, mutable: bool },
    /// The call cannot be resolved.
    Fails(ErrorKindView),
}

/// What becomes of a call of `method` on a value that plays `role`: a method
/// of the contract is called as before; any other is looked up among the
/// methods of the role.
pub open spec fn role_dispatch(role: RoleView, method: Seq<char>) -> Dispatch {
    if find_function(role.contract.functions, method) is Some {
        Dispatch::Untouched
    } else {
        match find_function(role.methods, method) {
            Some(m) => Dispatch::Lifted {
                function: lifted_name(role.name, method),
                mutable: takes_mutable_receiver(role.methods[m]),
            },
            None => Dispatch::Fails(ErrorKindView::MethodNotFound { role: role.name, method }),
        }
    }
}

/// The number of roles called `name`.
pub open spec fn role_count(roles: Seq<RoleView>, name: Seq<char>) -> nat {
    count(roles, |r: RoleView| r.name == name)
}

/// What becomes of a call of `method` on the field `field` of the aggregate.
/// A field that is no property, or no role slot, is left alone; a slot must
/// have exactly one role of the name of its type.
pub open spec fn slot_dispatch(context: ContextView, field: Seq<char>, method: Seq<char>)
    -> Dispatch {
    match find_property(context.properties, field) {
        None => Dispatch::Untouched,
        Some(k) => {
            let ty = context.properties[k].ty;
            if !is_role_type(ty) {
                Dispatch::Untouched
            } else {
                match find_role(context.roles, role_type_name(ty)) {
                    None => Dispatch::Fails(ErrorKindView::RoleNotFound { field }),
                    Some(r) => if role_count(context.roles, role_type_name(ty)) > 1 {
                        Dispatch::Fails(ErrorKindView::AmbiguousRole { field })
                    } else {
                        role_dispatch(context.roles[r], method)
                    },
                }
            }
        },
    }
}

/// What a dispatch is, as a value.
#[derive(Debug, PartialEq, Eq)]
pub enum Resolution {
    Untouched,
    Lifted { function: String, mutable: bool },
    Fails(ErrorKind),
}

impl View for Resolution {
    type V = Dispatch;

    open spec fn view(&self) -> Dispatch {
        match self {
            Resolution::Untouched => Dispatch::Untouched,
            Resolution::Lifted { function, mutable } => Dispatch::Lifted {
                function: function@,
                mutable: *mutable,
            },
            Resolution::Fails(kind) => Dispatch::Fails(kind@),
        }
    }
}

/// Whether a type names a role.
pub fn type_is_role(ty: &Type) -> (res: bool)
    ensures
        res == is_role_type(ty@),
{
    match ty {
        Type::Path { segments, .. } => {
            if segments.len() == 1 {
                assert(views(*segments)[0] == segments[0]@);
                ends_with(segments[0].as_str(), "Role")
            } else {
                false
            }
        },
        _ => false,
    }
}

/// Looks a function up by its name.
pub fn lookup_function(functions: &Vec<FunctionDescription>, name: &str) -> (res: Option<usize>)
    ensures
        match res {
            Some(k) => find_function(views(*functions), name@) == Some(k as int) && k
                < functions.len(),
            None => find_function(views(*functions), name@) is None,
        },
{
    let mut i: usize = 0;
    while i < functions.len()
        invariant
            i <= functions.len(),
            forall|j: int| 0 <= j < i ==> views(*functions)[j].name != name@,
        decreases functions.len() - i,
    {
        assert(views(*functions)[i as int] == functions[i as int]@);
        if str_eq(functions[i].get_name().as_str(), name) {
            proof {
                lemma_first_index_is(
                    views(*functions),
                    |f: FunctionView| f.name == name@,
                    i as int,
                );
            }
            return Some(i);
        }
        i += 1;
    }
    proof {
        lemma_first_index_none(views(*functions), |f: FunctionView| f.name == name@);
    }
    None
}

/// Looks a role up by its name.
pub fn lookup_role(roles: &Vec<Role>, name: &str) -> (res: Option<usize>)
    ensures
        match res {
            Some(k) => find_role(views(*roles), name@) == Some(k as int) && k < roles.len(),
            None => find_role(views(*roles), name@) is None,
        },
{
    let mut i: usize = 0;
    while i < roles.len()
        invariant
            i <= roles.len(),
            forall|j: int| 0 <= j < i ==> views(*roles)[j].name != name@,
        decreases roles.len() - i,
    {
        assert(views(*roles)[i as int] == roles[i as int]@);
        if str_eq(roles[i].name.as_str(), name) {
            proof {
                lemma_first_index_is(views(*roles), |r: RoleView| r.name == name@, i as int);
            }
            return Some(i);
        }
        i += 1;
    }
    proof {
        lemma_first_index_none(views(*roles), |r: RoleView| r.name == name@);
    }
    None
}

/// Counts the roles called `name`.
pub fn count_roles(roles: &Vec<Role>, name: &str) -> (res: usize)
    ensures
        res == role_count(views(*roles), name@),
{
    let ghost p = |r: RoleView| r.name == name@;
    let ghost all = views(*roles);
    let mut n: usize = 0;
    let mut i: usize = 0;
    proof {
        lemma_count_ends(all, p);
    }
    while i < roles.len()
        invariant
            i <= roles.len(),
            all == views(*roles),
            p == |r: RoleView| r.name == name@,
            n == count(all.take(i as int), p),
            n <= i,
        decreases roles.len() - i,
    {
        proof {
            lemma_count_take(all, i as int, p);
        }
        assert(all[i as int] == roles[i as int]@);
        if str_eq(roles[i].name.as_str(), name) {
            n += 1;
        }
        i += 1;
    }
    proof {
        lemma_count_ends(all, p);
    }
    n
}

/// Looks a property up by its name.
pub fn lookup_property(properties: &Vec<PropertyInfo>, field: &str) -> (res: Option<usize>)
    ensures
        match res {
            Some(k) => find_property(views(*properties), field@) == Some(k as int) && k
                < properties.len(),
            None => find_property(views(*properties), field@) is None,
        },
{
    let mut i: usize = 0;
    while i < properties.len()
        invariant
            i <= properties.len(),
            forall|j: int| 0 <= j < i ==> views(*properties)[j].name != field@,
        decreases properties.len() - i,
    {
        assert(views(*properties)[i as int] == properties[i as int]@);
        if str_eq(properties[i].get_name().as_str(), field) {
            proof {
                lemma_first_index_is(
                    views(*properties),
                    |p: PropertyView| p.name == field@,
                    i as int,
                );
            }
            return Some(i);
        }
        i += 1;
    }
    proof {
        lemma_first_index_none(views(*properties), |p: PropertyView| p.name == field@);
    }
    None
}

/// Whether the first parameter of a function is taken by mutable reference.
pub fn is_first_argument_mutable(function: &FunctionDescription) -> (res: bool)
    ensures
        res == takes_mutable_receiver(function@),
{
    let params = function.get_params();
    if params.len() == 0 {
        false
    } else {
        assert(views(*params)[0] == params[0]@);
        match &params[0] {
            ParameterInfo::MutableReference(_) => true,
            _ => false,
        }
    }
}

/// The name of the lifted function for a method of a role.
pub fn lifted_function_name(role: &str, method: &str) -> (res: String)
    ensures
        res@ == lifted_name(role@, method@),
{
    let mut s = to_role_name(role);
    proof {
        reveal_strlit("_");
        assert("_"@ =~= seq!['_']);
    }
    s.append("_");
    s.append(method);
    s
}

/// Resolves a call of `method` on a value that plays `role`.
pub fn resolve_in_role(role: &Role, method: &str) -> (res: Resolution)
    ensures
        res@ == role_dispatch(role@, method@),
{
    if lookup_function(&role.contract.functions, method).is_some() {
        Resolution::Untouched
    } else {
        match lookup_function(&role.methods, method) {
            Some(m) => {
                assert(views(role.methods)[m as int] == role.methods[m as int]@);
                Resolution::Lifted {
                    function: lifted_function_name(role.name.as_str(), method),
                    mutable: is_first_argument_mutable(&role.methods[m]),
                }
            },
            None => Resolution::Fails(
                ErrorKind::MethodNotFound { role: role.name.clone(), method: method.to_owned() },
            ),
        }
    }
}

/// Resolves a call of `method` on the field `field` of the aggregate.
pub fn resolve_in_context(context: &ContextInfo, field: &str, method: &str) -> (res: Resolution)
    ensures
        res@ == slot_dispatch(context@, field@, method@),
{
    match lookup_property(&context.properties, field) {
        None => Resolution::Untouched,
        Some(k) => {
            assert(views(context.properties)[k as int] == context.properties[k as int]@);
            let ty = context.properties[k].get_ty();
            if !type_is_role(&ty) {
                Resolution::Untouched
            } else {
                match &ty {
                    Type::Path { segments, .. } => {
                        assert(views(*segments)[0] == segments[0]@);
                        match lookup_role(&context.roles, segments[0].as_str()) {
                            None => Resolution::Fails(
                                ErrorKind::RoleNotFound { field: field.to_owned() },
                            ),
                            Some(r) => {
                                assert(views(context.roles)[r as int] == context.roles[r as int]@);
                                if count_roles(&context.roles, segments[0].as_str()) > 1 {
                                    Resolution::Fails(
                                        ErrorKind::AmbiguousRole { field: field.to_owned() },
                                    )
                                } else {
                                    resolve_in_role(&context.roles[r], method)
                                }
                            },
                        }
                    },
                    _ => Resolution::Untouched,
                }
            }
        },
    }
}

} // verus!
