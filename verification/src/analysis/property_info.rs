//! Properties of the aggregate.

use vstd::prelude::*;
use crate::syntax::{views, Span, Type, TypeView};

verus! {

/// One field of the aggregate: a primitive value or a role slot.
#[derive(Debug, PartialEq, Eq)]
pub struct PropertyInfo {
    name: String,
    ty: Type,
    span: Span,
}

/// The view of `Property`.
pub ghost struct PropertyView {
    pub name: Seq<char>,
    pub ty: TypeView,
    pub span: Span,
}

impl View for PropertyInfo {
    type V = PropertyView;

    closed spec fn view(&self) -> PropertyView {
        PropertyView { name: self.name@, ty: self.ty@, span: self.span }
    }
}

impl Clone for PropertyInfo {
    fn clone(&self) -> (res: Self)
        ensures
            res@ == self@,
    {
        PropertyInfo { name: self.name.clone(), ty: self.ty.clone(), span: self.span }
    }
}

pub(crate) fn clone_properties(v: &Vec<PropertyInfo>) -> (res: Vec<PropertyInfo>)
    ensures
        views(res) == views(*v),
{
    let res = v.clone();
    assert(views(res) =~= views(*v));
    res
}

impl PropertyInfo {
    /// A property of the given name and type, with no place.
    pub fn new(name: String, ty: Type) -> (res: Self)
        ensures
            res@ == (PropertyView { name: name@, ty: ty@, span: Span { line: 0, column: 0 } }),
    {
        PropertyInfo { name, ty, span: Span { line: 0, column: 0 } }
    }

    /// The same property, declared at `span`.
    pub fn with_span(self, span: Span) -> (res: Self)
        ensures
            res@ == (PropertyView { span, ..self@ }),
    {
        PropertyInfo { name: self.name, ty: self.ty, span }
    }

    /// Where the property is declared.
    pub fn get_span(&self) -> (res: Span)
        ensures
            res == self@.span,
    {
        self.span
    }

    /// The name of the property.
    pub fn get_name(&self) -> (res: String)
        ensures
            res@ == self@.name,
    {
        self.name.clone()
    }

    /// The declared type of the property.
    pub fn get_ty(&self) -> (res: Type)
        ensures
            res@ == self@.ty,
    {
        self.ty.clone()
    }
}

} // verus!
