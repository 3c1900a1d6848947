//! Generic parameters, with the bounds written beside the parameters
//! repeated as predicates of the `where` clause.

use vstd::prelude::*;
use crate::items::{Item, ItemImpl, ItemImplView, ItemTrait, ItemTraitView, ItemView, Method};
use crate::seqs::{filter_map, lemma_filter_map_ends, lemma_filter_map_take};
use crate::syntax::{
    clone_params, clone_predicates, clone_strings, clone_where_clause, opt_views, views,
    GenericParam, GenericParamView, Generics, GenericsView, ParamKind, Signature, WherePredicate,
    WherePredicateView,
};

verus! {

/// Generic parameters and the predicates of a `where` clause.
#[derive(Debug, PartialEq, Eq)]
pub struct GenericsInfo {
    params: Vec<GenericParam>,
    where_clause: Option<Vec<WherePredicate>>,
}

impl View for GenericsInfo {
    type V = GenericsView;

    closed spec fn view(&self) -> GenericsView {
        GenericsView { params: views(self.params), where_clause: opt_views(self.where_clause) }
    }
}

impl Clone for GenericsInfo {
    fn clone(&self) -> (res: Self)
        ensures
            res@ == self@,
    {
        GenericsInfo {
            params: clone_params(&self.params),
            where_clause: clone_where_clause(&self.where_clause),
        }
    }
}

impl GenericsInfo {
    /// Generics of the given parameters and clause.
    pub fn new(params: Vec<GenericParam>, where_clause: Option<Vec<WherePredicate>>) -> (res: Self)
        ensures
            res@ == (GenericsView {
                params: views(params),
                where_clause: opt_views(where_clause),
            }),
    {
        GenericsInfo { params, where_clause }
    }

    /// The parameters.
    pub fn get_params(&self) -> (res: Vec<GenericParam>)
        ensures
            views(res) == self@.params,
    {
        clone_params(&self.params)
    }

    /// The predicates of the `where` clause, if there is one.
    pub fn get_where_clause(&self) -> (res: Option<Vec<WherePredicate>>)
        ensures
            opt_views(res) == self@.where_clause,
    {
        clone_where_clause(&self.where_clause)
    }

    /// The generics of a declaration, as written.
    pub fn from_syn_generics(generics: &Generics) -> (res: Self)
        ensures
            res@ == generics@,
    {
        GenericsInfo {
            params: clone_params(&generics.params),
            where_clause: clone_where_clause(&generics.where_clause),
        }
    }

    /// The generics as they stand in a declaration.
    pub fn to_syn_generics(&self) -> (res: Generics)
        ensures
            res@ == self@,
    {
        Generics {
            params: clone_params(&self.params),
            where_clause: clone_where_clause(&self.where_clause),
        }
    }
}

/// No parameters and no `where` clause.
pub open spec fn no_generics() -> GenericsView {
    GenericsView { params: Seq::empty(), where_clause: None }
}

/// The predicate that repeats the bounds of a type parameter. A lifetime or
/// a constant gives none.
pub open spec fn inline_predicate(param: GenericParamView) -> Option<WherePredicateView> {
    if param.kind == ParamKind::Type {
        Some(WherePredicateView { subject: param.name, bounds: param.bounds })
    } else {
        None
    }
}

/// One predicate for each type parameter, in order.
pub open spec fn inline_predicates(params: Seq<GenericParamView>) -> Seq<WherePredicateView> {
    filter_map(params, |param: GenericParamView| inline_predicate(param))
}

/// The predicates of a `where` clause, none where there is no clause.
pub open spec fn predicates_of(where_clause: Option<Seq<WherePredicateView>>) -> Seq<
    WherePredicateView,
> {
    match where_clause {
        Some(predicates) => predicates,
        None => Seq::empty(),
    }
}

/// A `where` clause with `added` after what it held.
pub open spec fn merged_where_clause(
    existing: Option<Seq<WherePredicateView>>,
    added: Seq<WherePredicateView>,
) -> Option<Seq<WherePredicateView>> {
    Some(predicates_of(existing) + added)
}

/// Generics with `added` merged into the `where` clause; unchanged where
/// nothing is added.
pub open spec fn generics_with(generics: GenericsView, added: Seq<WherePredicateView>)
    -> GenericsView {
    GenericsView {
        params: generics.params,
        where_clause: if added.len() == 0 {
            generics.where_clause
        } else {
            merged_where_clause(generics.where_clause, added)
        },
    }
}

/// What an impl block adds to its `where` clause: the bounds of its type
/// parameters, then the predicates that the clause already holds.
pub open spec fn impl_predicates(item: ItemImplView) -> Seq<WherePredicateView> {
    inline_predicates(item.generics.params) + predicates_of(item.generics.where_clause)
}

/// What a trait adds to its `where` clause: the bounds of its type parameters.
pub open spec fn trait_predicates(item: ItemTraitView) -> Seq<WherePredicateView> {
    inline_predicates(item.generics.params)
}

/// The generics of an item: those of an impl block or a trait with the
/// bounds merged in, those of a struct as written, none for any other item.
pub open spec fn item_generics(item: ItemView) -> GenericsView {
    match item {
        ItemView::Impl(i) => generics_with(i.generics, impl_predicates(i)),
        ItemView::Trait(t) => generics_with(t.generics, trait_predicates(t)),
        ItemView::Struct(s) => s.generics,
        _ => no_generics(),
    }
}

/// The generics of a function, with the bounds merged in.
pub open spec fn signature_generics(generics: GenericsView) -> GenericsView {
    generics_with(generics, inline_predicates(generics.params))
}

fn inline_where_predicates(params: &Vec<GenericParam>) -> (res: Vec<WherePredicate>)
    ensures
        views(res) == inline_predicates(views(*params)),
{
    let ghost f = |param: GenericParamView| inline_predicate(param);
    let ghost all = views(*params);
    let mut res: Vec<WherePredicate> = Vec::new();
    let mut i: usize = 0;
    proof {
        lemma_filter_map_ends(all, f);
        assert(views(res) =~= Seq::<WherePredicateView>::empty());
    }
    while i < params.len()
        invariant
            i <= params.len(),
            all == views(*params),
            f == |param: GenericParamView| inline_predicate(param),
            views(res) == filter_map(all.take(i as int), f),
        decreases params.len() - i,
    {
        proof {
            lemma_filter_map_take(all, i as int, f);
        }
        let ghost before = views(res);
        let param = &params[i];
        match param.kind {
            ParamKind::Type => {
                let predicate = WherePredicate {
                    subject: param.name.clone(),
                    bounds: clone_strings(&param.bounds),
                };
                res.push(predicate);
                assert(views(res) =~= before.push(predicate@));
            },
            _ => {},
        }
        i += 1;
    }
    proof {
        lemma_filter_map_ends(all, f);
    }
    res
}

fn merge_where_clause(
    existing_where_clause: Option<Vec<WherePredicate>>,
    new_clauses: Vec<WherePredicate>,
) -> (res: Option<Vec<WherePredicate>>)
    ensures
        opt_views(res) == merged_where_clause(
            opt_views(existing_where_clause),
            views(new_clauses),
        ),
{
    match existing_where_clause {
        Some(mut wc) => {
            let ghost before = views(wc);
            let mut added = new_clauses;
            wc.append(&mut added);
            assert(views(wc) =~= before + views(new_clauses));
            Some(wc)
        },
        None => {
            assert(views(new_clauses) =~= Seq::<WherePredicateView>::empty() + views(
                new_clauses,
            ));
            Some(new_clauses)
        },
    }
}

pub(crate) fn analyze_generics_(
    generics: &Generics,
    additional_where_clauses: Vec<WherePredicate>,
) -> (res: GenericsInfo)
    ensures
        res@ == generics_with(generics@, views(additional_where_clauses)),
{
    let mut where_clause = clone_where_clause(&generics.where_clause);
    if additional_where_clauses.len() != 0 {
        where_clause = merge_where_clause(where_clause, additional_where_clauses);
    }
    GenericsInfo { params: clone_params(&generics.params), where_clause }
}

pub(crate) fn extract_inline_where_clauses_from_impl(item_impl: &ItemImpl) -> (res: Vec<
    WherePredicate,
>)
    ensures
        views(res) == impl_predicates(item_impl@),
{
    let mut where_clauses = inline_where_predicates(&item_impl.generics.params);
    let ghost before = views(where_clauses);
    match &item_impl.generics.where_clause {
        Some(predicates) => {
            let mut existing = clone_predicates(predicates);
            where_clauses.append(&mut existing);
            assert(views(where_clauses) =~= before + views(*predicates));
        },
        None => {
            assert(views(where_clauses) =~= before + Seq::<WherePredicateView>::empty());
        },
    }
    where_clauses
}

pub(crate) fn extract_inline_where_clauses_from_trait(item_trait: &ItemTrait) -> (res: Vec<
    WherePredicate,
>)
    ensures
        views(res) == trait_predicates(item_trait@),
{
    inline_where_predicates(&item_trait.generics.params)
}

/// The predicates that repeat the bounds of the type parameters of a
/// function.
pub fn extract_inline_where_clauses_from_signature(sig: &Signature) -> (res: Vec<WherePredicate>)
    ensures
        views(res) == inline_predicates(sig@.generics.params),
{
    inline_where_predicates(&sig.generics.params)
}

/// The generics of an item.
pub fn analyze_generics(item: &Item) -> (res: GenericsInfo)
    ensures
        res@ == item_generics(item@),
{
    match item {
        Item::Impl(item_impl) => analyze_generics_(
            &item_impl.generics,
            extract_inline_where_clauses_from_impl(item_impl),
        ),
        Item::Trait(item_trait) => analyze_generics_(
            &item_trait.generics,
            extract_inline_where_clauses_from_trait(item_trait),
        ),
        Item::Struct(item_struct) => GenericsInfo::from_syn_generics(&item_struct.generics),
        _ => {
            let params: Vec<GenericParam> = Vec::new();
            assert(views(params) =~= Seq::<GenericParamView>::empty());
            GenericsInfo { params, where_clause: None }
        },
    }
}

/// The generics of a method of a trait, with the bounds merged in.
pub fn analyze_generics_from_method(method: &Method) -> (res: GenericsInfo)
    ensures
        res@ == signature_generics(method@.sig.generics),
{
    analyze_generics_(
        &method.sig.generics,
        extract_inline_where_clauses_from_signature(&method.sig),
    )
}

/// The generics of a method of an impl block, with the bounds merged in.
pub fn analyze_generics_from_impl_method(method: &Method) -> (res: GenericsInfo)
    ensures
        res@ == signature_generics(method@.sig.generics),
{
    analyze_generics_(
        &method.sig.generics,
        extract_inline_where_clauses_from_signature(&method.sig),
    )
}

} // verus!
