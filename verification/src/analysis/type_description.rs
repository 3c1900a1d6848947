//! What a declaration of a compilation unit turns out to be.

use vstd::prelude::*;
use crate::analysis::context_info::{ContextInfo, ContextView};
use crate::analysis::trait_info::{TraitInfo, TraitInfoView};
use crate::items::{Item, ItemView};
use crate::syntax::views;

verus! {

/// A declaration of a unit, by what it is.
#[derive(Debug, PartialEq, Eq)]
pub enum TypeDescription {
    Role(TraitInfo),
    RoleContract(TraitInfo),
    Context(ContextInfo),
    Other(Item),
}

/// The view of `TypeDescription`.
pub ghost enum TypeDescriptionView {
    Role(TraitInfoView),
    RoleContract(TraitInfoView),
    Context(ContextView),
    Other(ItemView),
}

impl View for TypeDescription {
    type V = TypeDescriptionView;

    open spec fn view(&self) -> TypeDescriptionView {
        match self {
            TypeDescription::Role(t) => TypeDescriptionView::Role(t@),
            TypeDescription::RoleContract(t) => TypeDescriptionView::RoleContract(t@),
            TypeDescription::Context(c) => TypeDescriptionView::Context(c@),
            TypeDescription::Other(i) => TypeDescriptionView::Other(i@),
        }
    }
}

impl Clone for TypeDescription {
    fn clone(&self) -> (res: Self)
        ensures
            res@ == self@,
    {
        match self {
            TypeDescription::Role(t) => TypeDescription::Role(t.clone()),
            TypeDescription::RoleContract(t) => TypeDescription::RoleContract(t.clone()),
            TypeDescription::Context(c) => TypeDescription::Context(c.clone()),
            TypeDescription::Other(i) => TypeDescription::Other(i.clone()),
        }
    }
}

pub(crate) fn clone_descriptions(v: &Vec<TypeDescription>) -> (res: Vec<TypeDescription>)
    ensures
        views(res) == views(*v),
{
    let res = v.clone();
    assert(views(res) =~= views(*v));
    res
}

} // verus!
