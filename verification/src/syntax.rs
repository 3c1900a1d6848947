//! The declarations of one compilation unit, as the loader hands them over
//! and as the printer takes them back.

use vstd::prelude::*;
use vstd::string::*;

verus! {

/// The views of the elements of `v`, in order.
pub open spec fn views<T: View>(v: Vec<T>) -> Seq<T::V> {
    v@.map_values(|x: T| x@)
}

/// The view of what `o` holds, if anything.
pub open spec fn opt_view<T: View>(o: Option<T>) -> Option<T::V> {
    match o {
        Some(x) => Some(x@),
        None => None,
    }
}

/// A type as written in a declaration.
#[derive(Debug, PartialEq, Eq)]
pub enum Type {
    /// A path: the identifiers of its segments, and the generic arguments of
    /// the last one, each as written.
    Path { segments: Vec<String>, arguments: Vec<String> },
    /// A reference to a type of one name: `&name` or `&mut name`.
    Reference { mutable: bool, name: String },
    /// `impl name<arguments>`: some type that implements a trait.
    ImplTrait { name: String, arguments: Vec<String> },
    /// Any other type, as written.
    Other(String),
}

/// The view of `Type`.
pub ghost enum TypeView {
    Path { segments: Seq<Seq<char>>, arguments: Seq<Seq<char>> },
    Reference { mutable: bool, name: Seq<char> },
    ImplTrait { name: Seq<char>, arguments: Seq<Seq<char>> },
    Other(Seq<char>),
}

impl View for Type {
    type V = TypeView;

    open spec fn view(&self) -> TypeView {
        match self {
            Type::Path { segments, arguments } => TypeView::Path {
                segments: views(*segments),
                arguments: views(*arguments),
            },
            Type::Reference { mutable, name } => TypeView::Reference {
                mutable: *mutable,
                name: name@,
            },
            Type::ImplTrait { name, arguments } => TypeView::ImplTrait {
                name: name@,
                arguments: views(*arguments),
            },
            Type::Other(text) => TypeView::Other(text@),
        }
    }
}

/// Copies a list of texts.
pub(crate) fn clone_strings(v: &Vec<String>) -> (res: Vec<String>)
    ensures
        views(res) == views(*v),
{
    let res = v.clone();
    assert(views(res) =~= views(*v));
    res
}

impl Clone for Type {
    fn clone(&self) -> (res: Self)
        ensures
            res@ == self@,
    {
        match self {
            Type::Path { segments, arguments } => Type::Path {
                segments: clone_strings(segments),
                arguments: clone_strings(arguments),
            },
            Type::Reference { mutable, name } => Type::Reference {
                mutable: *mutable,
                name: name.clone(),
            },
            Type::ImplTrait { name, arguments } => Type::ImplTrait {
                name: name.clone(),
                arguments: clone_strings(arguments),
            },
            Type::Other(text) => Type::Other(text.clone()),
        }
    }
}

/// A place in the source text.
#[derive(Debug, Clone, Copy, PartialEq, Eq, Structural)]
pub struct Span {
    pub line: usize,
    pub column: usize,
}

/// What a generic parameter stands for.
#[derive(Debug, Clone, Copy, PartialEq, Eq, Structural)]
pub enum ParamKind {
    Lifetime,
    Type,
    Const,
}

/// One generic parameter with the bounds written beside it.
#[derive(Debug, PartialEq, Eq)]
pub struct GenericParam {
    pub kind: ParamKind,
    pub name: String,
    pub bounds: Vec<String>,
}

/// The view of `GenericParam`.
pub ghost struct GenericParamView {
    pub kind: ParamKind,
    pub name: Seq<char>,
    pub bounds: Seq<Seq<char>>,
}

impl View for GenericParam {
    type V = GenericParamView;

    open spec fn view(&self) -> GenericParamView {
        GenericParamView { kind: self.kind, name: self.name@, bounds: views(self.bounds) }
    }
}

impl Clone for GenericParam {
    fn clone(&self) -> (res: Self)
        ensures
            res@ == self@,
    {
        GenericParam {
            kind: self.kind,
            name: self.name.clone(),
            bounds: clone_strings(&self.bounds),
        }
    }
}

/// One predicate of a `where` clause: what is bounded, and by what.
#[derive(Debug, PartialEq, Eq)]
pub struct WherePredicate {
    pub subject: String,
    pub bounds: Vec<String>,
}

/// The view of `WherePredicate`.
pub ghost struct WherePredicateView {
    pub subject: Seq<char>,
    pub bounds: Seq<Seq<char>>,
}

impl View for WherePredicate {
    type V = WherePredicateView;

    open spec fn view(&self) -> WherePredicateView {
        WherePredicateView { subject: self.subject@, bounds: views(self.bounds) }
    }
}

impl Clone for WherePredicate {
    fn clone(&self) -> (res: Self)
        ensures
            res@ == self@,
    {
        WherePredicate { subject: self.subject.clone(), bounds: clone_strings(&self.bounds) }
    }
}

/// The view of an optional list.
pub open spec fn opt_views<T: View>(o: Option<Vec<T>>) -> Option<Seq<T::V>> {
    match o {
        Some(v) => Some(views(v)),
        None => None,
    }
}

/// Generic parameters and the `where` clause that follows them.
#[derive(Debug, PartialEq, Eq)]
pub struct Generics {
    pub params: Vec<GenericParam>,
    pub where_clause: Option<Vec<WherePredicate>>,
}

/// The view of `Generics`.
pub ghost struct GenericsView {
    pub params: Seq<GenericParamView>,
    pub where_clause: Option<Seq<WherePredicateView>>,
}

impl View for Generics {
    type V = GenericsView;

    open spec fn view(&self) -> GenericsView {
        GenericsView { params: views(self.params), where_clause: opt_views(self.where_clause) }
    }
}

pub(crate) fn clone_params(v: &Vec<GenericParam>) -> (res: Vec<GenericParam>)
    ensures
        views(res) == views(*v),
{
    let res = v.clone();
    assert(views(res) =~= views(*v));
    res
}

pub(crate) fn clone_predicates(v: &Vec<WherePredicate>) -> (res: Vec<WherePredicate>)
    ensures
        views(res) == views(*v),
{
    let res = v.clone();
    assert(views(res) =~= views(*v));
    res
}

pub(crate) fn clone_where_clause(o: &Option<Vec<WherePredicate>>) -> (res: Option<
    Vec<WherePredicate>,
>)
    ensures
        opt_views(res) == opt_views(*o),
{
    match o {
        Some(v) => Some(clone_predicates(v)),
        None => None,
    }
}

impl Clone for Generics {
    fn clone(&self) -> (res: Self)
        ensures
            res@ == self@,
    {
        Generics {
            params: clone_params(&self.params),
            where_clause: clone_where_clause(&self.where_clause),
        }
    }
}

/// One input of a function.
#[derive(Debug, PartialEq, Eq)]
pub enum FnArg {
    /// `self`, `&self` or `&mut self`.
    Receiver { reference: bool, mutable: bool },
    /// A pattern with a type. `name` is there where the pattern is one
    /// identifier, with `by_ref` and `mutable` for `ref` and `mut` before it.
    Typed { name: Option<String>, by_ref: bool, mutable: bool, ty: Type },
}

/// The view of `FnArg`.
pub ghost enum FnArgView {
    Receiver { reference: bool, mutable: bool },
    Typed { name: Option<Seq<char>>, by_ref: bool, mutable: bool, ty: TypeView },
}

impl View for FnArg {
    type V = FnArgView;

    open spec fn view(&self) -> FnArgView {
        match self {
            FnArg::Receiver { reference, mutable } => FnArgView::Receiver {
                reference: *reference,
                mutable: *mutable,
            },
            FnArg::Typed { name, by_ref, mutable, ty } => FnArgView::Typed {
                name: opt_view(*name),
                by_ref: *by_ref,
                mutable: *mutable,
                ty: ty@,
            },
        }
    }
}

impl Clone for FnArg {
    fn clone(&self) -> (res: Self)
        ensures
            res@ == self@,
    {
        match self {
            FnArg::Receiver { reference, mutable } => FnArg::Receiver {
                reference: *reference,
                mutable: *mutable,
            },
            FnArg::Typed { name, by_ref, mutable, ty } => FnArg::Typed {
                name: name.clone(),
                by_ref: *by_ref,
                mutable: *mutable,
                ty: ty.clone(),
            },
        }
    }
}

/// The header of a function.
#[derive(Debug, PartialEq, Eq)]
pub struct Signature {
    pub asyncness: bool,
    pub name: String,
    pub generics: Generics,
    pub inputs: Vec<FnArg>,
    pub output: Option<Type>,
}

/// The view of `Signature`.
pub ghost struct SignatureView {
    pub asyncness: bool,
    pub name: Seq<char>,
    pub generics: GenericsView,
    pub inputs: Seq<FnArgView>,
    pub output: Option<TypeView>,
}

impl View for Signature {
    type V = SignatureView;

    open spec fn view(&self) -> SignatureView {
        SignatureView {
            asyncness: self.asyncness,
            name: self.name@,
            generics: self.generics@,
            inputs: views(self.inputs),
            output: opt_view(self.output),
        }
    }
}

pub(crate) fn clone_output(o: &Option<Type>) -> (res: Option<Type>)
    ensures
        opt_view(res) == opt_view(*o),
{
    match o {
        Some(t) => Some(t.clone()),
        None => None,
    }
}

impl Clone for Signature {
    fn clone(&self) -> (res: Self)
        ensures
            res@ == self@,
    {
        let inputs = self.inputs.clone();
        assert(views(inputs) =~= views(self.inputs));
        Signature {
            asyncness: self.asyncness,
            name: self.name.clone(),
            generics: self.generics.clone(),
            inputs,
            output: clone_output(&self.output),
        }
    }
}

/// The texts of `parts` with `separator` between them.
pub open spec fn joined(parts: Seq<Seq<char>>, separator: Seq<char>) -> Seq<char>
    decreases parts.len(),
{
    if parts.len() == 0 {
        Seq::empty()
    } else if parts.len() == 1 {
        parts[0]
    } else {
        joined(parts.drop_last(), separator) + separator + parts.last()
    }
}

/// Joins texts with a separator.
pub fn join(parts: &Vec<String>, separator: &str) -> (res: String)
    ensures
        res@ == joined(views(*parts), separator@),
{
    let mut res = String::new();
    let mut i: usize = 0;
    let ghost all = views(*parts);
    assert(all.take(0) =~= Seq::<Seq<char>>::empty());
    while i < parts.len()
        invariant
            i <= parts.len(),
            all == views(*parts),
            res@ == joined(all.take(i as int), separator@),
        decreases parts.len() - i,
    {
        assert(all[i as int] == parts[i as int]@);
        assert(all.take(i + 1).drop_last() =~= all.take(i as int));
        if i > 0 {
            res.append(separator);
        }
        res.append(parts[i].as_str());
        assert(res@ =~= joined(all.take(i + 1), separator@));
        i += 1;
    }
    assert(all.take(parts.len() as int) =~= all);
    res
}

/// Generic arguments between angle brackets, as tokens; nothing where there
/// are none.
pub open spec fn arguments_text(arguments: Seq<Seq<char>>) -> Seq<char> {
    if arguments.len() == 0 {
        Seq::empty()
    } else {
        " < "@ + joined(arguments, " , "@) + " >"@
    }
}

/// A type as tokens with one space between them.
pub open spec fn type_text(ty: TypeView) -> Seq<char> {
    match ty {
        TypeView::Path { segments, arguments } => joined(segments, " :: "@) + arguments_text(
            arguments,
        ),
        TypeView::Reference { mutable, name } => if mutable {
            "& mut "@ + name
        } else {
            "& "@ + name
        },
        TypeView::ImplTrait { name, arguments } => "impl "@ + name + arguments_text(arguments),
        TypeView::Other(text) => text,
    }
}

/// A predicate as tokens with one space between them.
pub open spec fn predicate_text(predicate: WherePredicateView) -> Seq<char> {
    predicate.subject + " : "@ + joined(predicate.bounds, " + "@)
}

fn render_arguments(arguments: &Vec<String>) -> (res: String)
    ensures
        res@ == arguments_text(views(*arguments)),
{
    if arguments.len() == 0 {
        String::new()
    } else {
        let mut s = " < ".to_owned();
        s.append(join(arguments, " , ").as_str());
        s.append(" >");
        s
    }
}

impl Type {
    /// The type as tokens with one space between them.
    pub fn render(&self) -> (res: String)
        ensures
            res@ == type_text(self@),
    {
        match self {
            Type::Path { segments, arguments } => {
                let mut s = join(segments, " :: ");
                s.append(render_arguments(arguments).as_str());
                s
            },
            Type::Reference { mutable, name } => {
                let mut s = if *mutable {
                    "& mut ".to_owned()
                } else {
                    "& ".to_owned()
                };
                s.append(name.as_str());
                s
            },
            Type::ImplTrait { name, arguments } => {
                let mut s = "impl ".to_owned();
                s.append(name.as_str());
                s.append(render_arguments(arguments).as_str());
                s
            },
            Type::Other(text) => text.clone(),
        }
    }
}

impl WherePredicate {
    /// The predicate as tokens with one space between them.
    pub fn render(&self) -> (res: String)
        ensures
            res@ == predicate_text(self@),
    {
        let mut s = self.subject.clone();
        s.append(" : ");
        s.append(join(&self.bounds, " + ").as_str());
        s
    }
}

} // verus!
