//! Roles: reusable behaviour bound to a contract.

use vstd::prelude::*;
use crate::analysis::function_description::{clone_functions, FunctionDescription, FunctionView};
use crate::analysis::generics_info::GenericsInfo;
use crate::analysis::trait_info::{TraitInfo, TraitInfoView};
use crate::syntax::{views, GenericsView, Span};

verus! {

/// A role: a trait whose name ends in `Role`, linked to its contract.
#[derive(Debug, PartialEq, Eq)]
pub struct Role {
    /// The name of the role, such as `SourceRole`.
    pub name: String,
    /// The contract that the role is bound to, such as `SourceContract`.
    pub contract: TraitInfo,
    pub generics: GenericsInfo,
    /// The methods of the role itself.
    pub methods: Vec<FunctionDescription>,
    /// Where the role is declared.
    pub span: Span,
}

/// The view of `Role`.
pub ghost struct RoleView {
    pub name: Seq<char>,
    pub contract: TraitInfoView,
    pub generics: GenericsView,
    pub methods: Seq<FunctionView>,
    pub span: Span,
}

impl View for Role {
    type V = RoleView;

    open spec fn view(&self) -> RoleView {
        RoleView {
            name: self.name@,
            contract: self.contract@,
            generics: self.generics@,
            methods: views(self.methods),
            span: self.span,
        }
    }
}

impl Clone for Role {
    fn clone(&self) -> (res: Self)
        ensures
            res@ == self@,
    {
        Role {
            name: self.name.clone(),
            contract: self.contract.clone(),
            generics: self.generics.clone(),
            methods: clone_functions(&self.methods),
            span: self.span,
        }
    }
}

pub(crate) fn clone_roles(v: &Vec<Role>) -> (res: Vec<Role>)
    ensures
        views(res) == views(*v),
{
    let res = v.clone();
    assert(views(res) =~= views(*v));
    res
}

} // verus!
