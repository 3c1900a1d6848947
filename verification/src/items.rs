//! The items of a compilation unit: traits, structs, impl blocks, functions,
//! and whatever else stands beside them.

use vstd::prelude::*;
use crate::expr::{Block, BlockView};
use crate::syntax::{
    clone_strings, opt_view, views, Generics, GenericsView, Signature, SignatureView, Span, Type,
    TypeView,
};

verus! {

/// A function with its attributes: a method of a trait or of an impl block,
/// or a free function. A method that is only declared has no body.
#[derive(Debug, PartialEq, Eq)]
pub struct Method {
    pub attrs: Vec<String>,
    pub public: bool,
    pub sig: Signature,
    pub body: Option<Block>,
}

/// The view of `Method`.
pub ghost struct MethodView {
    pub attrs: Seq<Seq<char>>,
    pub public: bool,
    pub sig: SignatureView,
    pub body: Option<BlockView>,
}

impl View for Method {
    type V = MethodView;

    open spec fn view(&self) -> MethodView {
        MethodView {
            attrs: views(self.attrs),
            public: self.public,
            sig: self.sig@,
            body: opt_view(self.body),
        }
    }
}

pub(crate) fn clone_body(o: &Option<Block>) -> (res: Option<Block>)
    ensures
        opt_view(res) == opt_view(*o),
{
    match o {
        Some(b) => Some(b.clone()),
        None => None,
    }
}

impl Clone for Method {
    fn clone(&self) -> (res: Self)
        ensures
            res@ == self@,
    {
        Method {
            attrs: clone_strings(&self.attrs),
            public: self.public,
            sig: self.sig.clone(),
            body: clone_body(&self.body),
        }
    }
}

/// What stands inside a trait or an impl block.
#[derive(Debug, PartialEq, Eq)]
pub enum AssocItem {
    Fn(Method),
    /// An associated type or constant, or a macro, as written.
    Other(String),
}

/// The view of `AssocItem`.
pub ghost enum AssocItemView {
    Fn(MethodView),
    Other(Seq<char>),
}

impl View for AssocItem {
    type V = AssocItemView;

    open spec fn view(&self) -> AssocItemView {
        match self {
            AssocItem::Fn(m) => AssocItemView::Fn(m@),
            AssocItem::Other(text) => AssocItemView::Other(text@),
        }
    }
}

impl Clone for AssocItem {
    fn clone(&self) -> (res: Self)
        ensures
            res@ == self@,
    {
        match self {
            AssocItem::Fn(m) => AssocItem::Fn(m.clone()),
            AssocItem::Other(text) => AssocItem::Other(text.clone()),
        }
    }
}

pub(crate) fn clone_assoc_items(v: &Vec<AssocItem>) -> (res: Vec<AssocItem>)
    ensures
        views(res) == views(*v),
{
    let res = v.clone();
    assert(views(res) =~= views(*v));
    res
}

/// A trait.
#[derive(Debug, PartialEq, Eq)]
pub struct ItemTrait {
    pub attrs: Vec<String>,
    pub public: bool,
    pub name: String,
    pub generics: Generics,
    pub supertraits: Vec<String>,
    pub items: Vec<AssocItem>,
    pub span: Span,
}

/// The view of `ItemTrait`.
pub ghost struct ItemTraitView {
    pub attrs: Seq<Seq<char>>,
    pub public: bool,
    pub name: Seq<char>,
    pub generics: GenericsView,
    pub supertraits: Seq<Seq<char>>,
    pub items: Seq<AssocItemView>,
    pub span: Span,
}

impl View for ItemTrait {
    type V = ItemTraitView;

    open spec fn view(&self) -> ItemTraitView {
        ItemTraitView {
            attrs: views(self.attrs),
            public: self.public,
            name: self.name@,
            generics: self.generics@,
            supertraits: views(self.supertraits),
            items: views(self.items),
            span: self.span,
        }
    }
}

impl Clone for ItemTrait {
    fn clone(&self) -> (res: Self)
        ensures
            res@ == self@,
    {
        ItemTrait {
            attrs: clone_strings(&self.attrs),
            public: self.public,
            name: self.name.clone(),
            generics: self.generics.clone(),
            supertraits: clone_strings(&self.supertraits),
            items: clone_assoc_items(&self.items),
            span: self.span,
        }
    }
}

/// A field of a struct. A field of a tuple struct has no name.
#[derive(Debug, PartialEq, Eq)]
pub struct Field {
    pub name: Option<String>,
    pub ty: Type,
    /// Where the field is declared.
    pub span: Span,
}

/// The view of `Field`.
pub ghost struct FieldView {
    pub name: Option<Seq<char>>,
    pub ty: TypeView,
    pub span: Span,
}

impl View for Field {
    type V = FieldView;

    open spec fn view(&self) -> FieldView {
        FieldView { name: opt_view(self.name), ty: self.ty@, span: self.span }
    }
}

impl Clone for Field {
    fn clone(&self) -> (res: Self)
        ensures
            res@ == self@,
    {
        Field { name: self.name.clone(), ty: self.ty.clone(), span: self.span }
    }
}

pub(crate) fn clone_fields(v: &Vec<Field>) -> (res: Vec<Field>)
    ensures
        views(res) == views(*v),
{
    let res = v.clone();
    assert(views(res) =~= views(*v));
    res
}

/// A struct.
#[derive(Debug, PartialEq, Eq)]
pub struct ItemStruct {
    pub attrs: Vec<String>,
    pub public: bool,
    pub name: String,
    pub generics: Generics,
    pub fields: Vec<Field>,
    pub span: Span,
}

/// The view of `ItemStruct`.
pub ghost struct ItemStructView {
    pub attrs: Seq<Seq<char>>,
    pub public: bool,
    pub name: Seq<char>,
    pub generics: GenericsView,
    pub fields: Seq<FieldView>,
    pub span: Span,
}

impl View for ItemStruct {
    type V = ItemStructView;

    open spec fn view(&self) -> ItemStructView {
        ItemStructView {
            attrs: views(self.attrs),
            public: self.public,
            name: self.name@,
            generics: self.generics@,
            fields: views(self.fields),
            span: self.span,
        }
    }
}

impl Clone for ItemStruct {
    fn clone(&self) -> (res: Self)
        ensures
            res@ == self@,
    {
        ItemStruct {
            attrs: clone_strings(&self.attrs),
            public: self.public,
            name: self.name.clone(),
            generics: self.generics.clone(),
            fields: clone_fields(&self.fields),
            span: self.span,
        }
    }
}

/// An impl block: `impl<generics> trait_ for self_ty`, or without a trait.
#[derive(Debug, PartialEq, Eq)]
pub struct ItemImpl {
    pub attrs: Vec<String>,
    pub generics: Generics,
    pub trait_: Option<Type>,
    pub self_ty: Type,
    pub items: Vec<AssocItem>,
}

/// The view of `ItemImpl`.
pub ghost struct ItemImplView {
    pub attrs: Seq<Seq<char>>,
    pub generics: GenericsView,
    pub trait_: Option<TypeView>,
    pub self_ty: TypeView,
    pub items: Seq<AssocItemView>,
}

impl View for ItemImpl {
    type V = ItemImplView;

    open spec fn view(&self) -> ItemImplView {
        ItemImplView {
            attrs: views(self.attrs),
            generics: self.generics@,
            trait_: opt_view(self.trait_),
            self_ty: self.self_ty@,
            items: views(self.items),
        }
    }
}

impl Clone for ItemImpl {
    fn clone(&self) -> (res: Self)
        ensures
            res@ == self@,
    {
        ItemImpl {
            attrs: clone_strings(&self.attrs),
            generics: self.generics.clone(),
            trait_: crate::syntax::clone_output(&self.trait_),
            self_ty: self.self_ty.clone(),
            items: clone_assoc_items(&self.items),
        }
    }
}

/// One item of a compilation unit.
#[derive(Debug, PartialEq, Eq)]
pub enum Item {
    Trait(ItemTrait),
    Struct(ItemStruct),
    Impl(ItemImpl),
    Fn(Method),
    /// Any other item, as written.
    Other(String),
}

/// The view of `Item`.
pub ghost enum ItemView {
    Trait(ItemTraitView),
    Struct(ItemStructView),
    Impl(ItemImplView),
    Fn(MethodView),
    Other(Seq<char>),
}

impl View for Item {
    type V = ItemView;

    open spec fn view(&self) -> ItemView {
        match self {
            Item::Trait(t) => ItemView::Trait(t@),
            Item::Struct(s) => ItemView::Struct(s@),
            Item::Impl(i) => ItemView::Impl(i@),
            Item::Fn(f) => ItemView::Fn(f@),
            Item::Other(text) => ItemView::Other(text@),
        }
    }
}

impl Clone for Item {
    fn clone(&self) -> (res: Self)
        ensures
            res@ == self@,
    {
        match self {
            Item::Trait(t) => Item::Trait(t.clone()),
            Item::Struct(s) => Item::Struct(s.clone()),
            Item::Impl(i) => Item::Impl(i.clone()),
            Item::Fn(f) => Item::Fn(f.clone()),
            Item::Other(text) => Item::Other(text.clone()),
        }
    }
}

pub(crate) fn clone_items(v: &Vec<Item>) -> (res: Vec<Item>)
    ensures
        views(res) == views(*v),
{
    let res = v.clone();
    assert(views(res) =~= views(*v));
    res
}

/// A compilation unit: a named module with its items.
#[derive(Debug, PartialEq, Eq)]
pub struct ItemMod {
    pub name: String,
    pub items: Vec<Item>,
    pub span: Span,
}

/// The view of `ItemMod`.
pub ghost struct ItemModView {
    pub name: Seq<char>,
    pub items: Seq<ItemView>,
    pub span: Span,
}

impl View for ItemMod {
    type V = ItemModView;

    open spec fn view(&self) -> ItemModView {
        ItemModView { name: self.name@, items: views(self.items), span: self.span }
    }
}

impl Clone for ItemMod {
    fn clone(&self) -> (res: Self)
        ensures
            res@ == self@,
    {
        ItemMod { name: self.name.clone(), items: clone_items(&self.items), span: self.span }
    }
}

} // verus!
