//! Contracts as items.

use vstd::prelude::*;
use crate::analysis::errors::{ErrorKind, ErrorKindView, MacroError, MacroErrorView};
use crate::analysis::function_description::{FunctionDescription, FunctionView};
use crate::analysis::trait_info::{TraitInfo, TraitInfoView};
use crate::compile::function_descriptor::{declaration_for, declaration_item};
use crate::items::{AssocItem, AssocItemView, ItemTrait, ItemTraitView};
use crate::seqs::{first_index, lemma_first_index_is, lemma_first_index_none};
use crate::syntax::{clone_strings, views, Span};

verus! {

/// Whether every function is a declaration.
pub open spec fn all_declared(functions: Seq<FunctionView>) -> bool {
    first_index(functions, |f: FunctionView| f.body is Some) is None
}

/// The trait that a contract is printed as: its functions as declarations.
pub open spec fn trait_item_of(contract: TraitInfoView) -> ItemTraitView {
    ItemTraitView {
        attrs: contract.attrs,
        public: false,
        name: contract.name,
        generics: contract.generics,
        supertraits: contract.supertraits,
        items: contract.functions.map_values(
            |f: FunctionView| AssocItemView::Fn(declaration_item(f)),
        ),
        span: Span { line: 0, column: 0 },
    }
}

/// A contract, compiled: the trait that it is emitted as.
#[derive(Debug, PartialEq, Eq)]
pub struct CompiledTraitInfo {
    pub trait_item: ItemTrait,
}

impl View for CompiledTraitInfo {
    type V = ItemTraitView;

    open spec fn view(&self) -> ItemTraitView {
        self.trait_item@
    }
}

impl Clone for CompiledTraitInfo {
    fn clone(&self) -> (res: Self)
        ensures
            res@ == self@,
    {
        CompiledTraitInfo { trait_item: self.trait_item.clone() }
    }
}

impl CompiledTraitInfo {
    /// The contract as a trait.
    pub fn emit(&self) -> (res: ItemTrait)
        ensures
            res@ == self@,
    {
        self.trait_item.clone()
    }
}

/// The outcome of compiling a contract: a contract holds declarations only.
pub open spec fn compiled_trait(contract: TraitInfoView) -> Result<ItemTraitView, MacroErrorView> {
    if all_declared(contract.functions) {
        Ok(trait_item_of(contract))
    } else {
        Err(MacroErrorView { kind: ErrorKindView::UnexpectedShape, span: None })
    }
}

/// The view of the outcome of compiling a contract.
pub open spec fn trait_outcome(res: Result<CompiledTraitInfo, MacroError>) -> Result<
    ItemTraitView,
    MacroErrorView,
> {
    match res {
        Ok(t) => Ok(t@),
        Err(e) => Err(e@),
    }
}

fn has_implementation(functions: &Vec<FunctionDescription>) -> (res: bool)
    ensures
        res == !all_declared(views(*functions)),
{
    let mut i: usize = 0;
    while i < functions.len()
        invariant
            i <= functions.len(),
            forall|j: int| 0 <= j < i ==> (#[trigger] views(*functions)[j]).body is None,
        decreases functions.len() - i,
    {
        assert(views(*functions)[i as int] == functions[i as int]@);
        match &functions[i] {
            FunctionDescription::Implementation { .. } => {
                proof {
                    lemma_first_index_is(
                        views(*functions),
                        |f: FunctionView| f.body is Some,
                        i as int,
                    );
                }
                return true;
            },
            _ => {},
        }
        i += 1;
    }
    proof {
        lemma_first_index_none(views(*functions), |f: FunctionView| f.body is Some);
    }
    false
}

impl TraitInfo {
    /// The contract, compiled.
    pub fn compile(&self) -> (res: Result<CompiledTraitInfo, MacroError>)
        ensures
            trait_outcome(res) == compiled_trait(self@),
    {
        if has_implementation(&self.functions) {
            return Err(MacroError::unplaced(ErrorKind::UnexpectedShape));
        }
        let mut items: Vec<AssocItem> = Vec::new();
        let mut i: usize = 0;
        while i < self.functions.len()
            invariant
                i <= self.functions.len(),
                items.len() == i,
                forall|j: int|
                    0 <= j < i ==> items[j]@ == AssocItemView::Fn(
                        declaration_item(self.functions[j]@),
                    ),
            decreases self.functions.len() - i,
        {
            items.push(AssocItem::Fn(declaration_for(&self.functions[i])));
            i += 1;
        }
        assert(views(items) =~= views(self.functions).map_values(
            |f: FunctionView| AssocItemView::Fn(declaration_item(f)),
        ));
        Ok(
            CompiledTraitInfo {
                trait_item: ItemTrait {
                    attrs: clone_strings(&self.attrs),
                    public: false,
                    name: self.name.clone(),
                    generics: self.generics.to_syn_generics(),
                    supertraits: clone_strings(&self.supertraits),
                    items,
                    span: Span { line: 0, column: 0 },
                },
            },
        )
    }
}

} // verus!
