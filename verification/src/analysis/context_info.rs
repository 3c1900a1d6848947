//! The aggregate: the one struct that the roles are composed into.

use vstd::prelude::*;
use crate::analysis::generics_info::GenericsInfo;
use crate::analysis::impl_block_info::{
    analyze_impl_block, clone_impl_blocks, impl_block_of, ImplBlockInfo, ImplBlockView,
};
use crate::analysis::property_info::{clone_properties, PropertyInfo, PropertyView};
use crate::analysis::role::{clone_roles, Role, RoleView};
use crate::items::{Field, FieldView, ItemImpl, ItemImplView, ItemStruct, ItemStructView};
use crate::seqs::{filter_map, lemma_filter_map_ends, lemma_filter_map_take};
use crate::syntax::{clone_strings, views, GenericsView, Span};

verus! {

/// The aggregate: its properties, its impl blocks, and the roles linked to it.
#[derive(Debug, PartialEq, Eq)]
pub struct ContextInfo {
    pub name: String,
    pub generics: GenericsInfo,
    pub properties: Vec<PropertyInfo>,
    pub impl_blocks: Vec<ImplBlockInfo>,
    pub roles: Vec<Role>,
    pub attrs: Vec<String>,
    /// Whether the struct is declared `pub`.
    pub public: bool,
    /// Where the struct is declared.
    pub span: Span,
}

/// The view of `Context`.
pub ghost struct ContextView {
    pub name: Seq<char>,
    pub generics: GenericsView,
    pub properties: Seq<PropertyView>,
    pub impl_blocks: Seq<ImplBlockView>,
    pub roles: Seq<RoleView>,
    pub attrs: Seq<Seq<char>>,
    pub public: bool,
    pub span: Span,
}

impl View for ContextInfo {
    type V = ContextView;

    open spec fn view(&self) -> ContextView {
        ContextView {
            name: self.name@,
            generics: self.generics@,
            properties: views(self.properties),
            impl_blocks: views(self.impl_blocks),
            roles: views(self.roles),
            attrs: views(self.attrs),
            public: self.public,
            span: self.span,
        }
    }
}

impl Clone for ContextInfo {
    fn clone(&self) -> (res: Self)
        ensures
            res@ == self@,
    {
        ContextInfo {
            name: self.name.clone(),
            generics: self.generics.clone(),
            properties: clone_properties(&self.properties),
            impl_blocks: clone_impl_blocks(&self.impl_blocks),
            roles: clone_roles(&self.roles),
            attrs: clone_strings(&self.attrs),
            public: self.public,
            span: self.span,
        }
    }
}

impl ContextInfo {
    /// An aggregate of the given parts, private and with no place.
    pub fn new(
        name: String,
        generics: GenericsInfo,
        properties: Vec<PropertyInfo>,
        impl_blocks: Vec<ImplBlockInfo>,
        roles: Vec<Role>,
        attrs: Vec<String>,
    ) -> (res: Self)
        ensures
            res@ == (ContextView {
                name: name@,
                generics: generics@,
                properties: views(properties),
                impl_blocks: views(impl_blocks),
                roles: views(roles),
                attrs: views(attrs),
                public: false,
                span: Span { line: 0, column: 0 },
            }),
    {
        ContextInfo {
            name,
            generics,
            properties,
            impl_blocks,
            roles,
            attrs,
            public: false,
            span: Span { line: 0, column: 0 },
        }
    }
}

/// The property that a field declares. A field without a name declares none.
pub open spec fn property_of(field: FieldView) -> Option<PropertyView> {
    match field.name {
        Some(name) => Some(PropertyView { name, ty: field.ty, span: field.span }),
        None => None,
    }
}

/// The properties of a struct: its named fields, in order.
pub open spec fn properties_of(fields: Seq<FieldView>) -> Seq<PropertyView> {
    filter_map(fields, |field: FieldView| property_of(field))
}

/// The aggregate that a struct and its impl blocks declare, before any role
/// is linked to it.
pub open spec fn context_of(item: ItemStructView, impl_blocks: Seq<ItemImplView>) -> ContextView {
    ContextView {
        name: item.name,
        generics: item.generics,
        properties: properties_of(item.fields),
        impl_blocks: impl_blocks.map_values(|i: ItemImplView| impl_block_of(i)),
        roles: Seq::empty(),
        attrs: item.attrs,
        public: item.public,
        span: item.span,
    }
}

fn analyze_properties(fields: &Vec<Field>) -> (res: Vec<PropertyInfo>)
    ensures
        views(res) == properties_of(views(*fields)),
{
    let ghost f = |field: FieldView| property_of(field);
    let ghost all = views(*fields);
    let mut res: Vec<PropertyInfo> = Vec::new();
    let mut i: usize = 0;
    proof {
        lemma_filter_map_ends(all, f);
        assert(views(res) =~= Seq::<PropertyView>::empty());
    }
    while i < fields.len()
        invariant
            i <= fields.len(),
            all == views(*fields),
            f == |field: FieldView| property_of(field),
            views(res) == filter_map(all.take(i as int), f),
        decreases fields.len() - i,
    {
        proof {
            lemma_filter_map_take(all, i as int, f);
        }
        let ghost before = views(res);
        match &fields[i].name {
            Some(name) => {
                let p = PropertyInfo::new(name.clone(), fields[i].ty.clone()).with_span(
                    fields[i].span,
                );
                res.push(p);
                assert(views(res) =~= before.push(p@));
            },
            None => {},
        }
        i += 1;
    }
    proof {
        lemma_filter_map_ends(all, f);
    }
    res
}

/// Analyses the struct that declares the aggregate, with its impl blocks.
pub fn analyze_context(item_struct: &ItemStruct, impl_blocks: &Vec<ItemImpl>) -> (res: ContextInfo)
    ensures
        res@ == context_of(item_struct@, views(*impl_blocks)),
{
    let generics = GenericsInfo::from_syn_generics(&item_struct.generics);
    let properties = analyze_properties(&item_struct.fields);
    let mut analyzed_impl_blocks: Vec<ImplBlockInfo> = Vec::new();
    let mut i: usize = 0;
    while i < impl_blocks.len()
        invariant
            i <= impl_blocks.len(),
            analyzed_impl_blocks.len() == i,
            forall|j: int|
                0 <= j < i ==> analyzed_impl_blocks[j]@ == impl_block_of(impl_blocks[j]@),
        decreases impl_blocks.len() - i,
    {
        analyzed_impl_blocks.push(analyze_impl_block(&impl_blocks[i]));
        i += 1;
    }
    assert(views(analyzed_impl_blocks) =~= views(*impl_blocks).map_values(
        |i: ItemImplView| impl_block_of(i),
    ));
    let roles: Vec<Role> = Vec::new();
    assert(views(roles) =~= Seq::<RoleView>::empty());
    ContextInfo {
        name: item_struct.name.clone(),
        generics,
        properties,
        impl_blocks: analyzed_impl_blocks,
        roles,
        attrs: clone_strings(&item_struct.attrs),
        public: item_struct.public,
        span: item_struct.span,
    }
}

} // verus!
