//! Parameters of a function, with the receiver told apart.

use vstd::prelude::*;
use vstd::string::*;
use crate::seqs::{filter_map, lemma_filter_map_ends, lemma_filter_map_take};
use crate::syntax::{views, FnArg, FnArgView, Signature, Type, TypeView};

verus! {

/// How a method takes its receiver.
#[derive(Debug, Clone, Copy, PartialEq, Eq, Structural)]
pub enum SelfType {
    Value,
    Reference,
    MutableReference,
}

/// A parameter of a function.
#[derive(Debug, PartialEq, Eq)]
pub enum ParameterInfo {
    /// The receiver itself: `self`.
    SelfRef,
    /// `&T`, or `&self`.
    ImmutableReference(Box<ParameterInfo>),
    /// `&mut T`, or `&mut self`.
    MutableReference(Box<ParameterInfo>),
    /// A parameter under a lifetime.
    LifeTime(String, Box<ParameterInfo>),
    /// A named parameter with its type.
    Typed { name: String, ty: Type },
}

/// The view of `Parameter`.
pub ghost enum ParameterView {
    SelfRef,
    ImmutableReference(Box<ParameterView>),
    MutableReference(Box<ParameterView>),
    LifeTime(Seq<char>, Box<ParameterView>),
    Typed { name: Seq<char>, ty: TypeView },
}

/// The view of a parameter.
pub open spec fn parameter_view(p: ParameterInfo) -> ParameterView
    decreases p,
{
    match p {
        ParameterInfo::SelfRef => ParameterView::SelfRef,
        ParameterInfo::ImmutableReference(inner) => ParameterView::ImmutableReference(
            Box::new(parameter_view(*inner)),
        ),
        ParameterInfo::MutableReference(inner) => ParameterView::MutableReference(
            Box::new(parameter_view(*inner)),
        ),
        ParameterInfo::LifeTime(lifetime, inner) => ParameterView::LifeTime(
            lifetime@,
            Box::new(parameter_view(*inner)),
        ),
        ParameterInfo::Typed { name, ty } => ParameterView::Typed { name: name@, ty: ty@ },
    }
}

impl View for ParameterInfo {
    type V = ParameterView;

    open spec fn view(&self) -> ParameterView {
        parameter_view(*self)
    }
}

impl ParameterView {
    /// Whether no lifetime stands between the parameter and what it wraps.
    pub open spec fn is_plain(self) -> bool
        decreases self,
    {
        match self {
            ParameterView::SelfRef => true,
            ParameterView::ImmutableReference(inner) => inner.is_plain(),
            ParameterView::MutableReference(inner) => inner.is_plain(),
            ParameterView::LifeTime(_, _) => false,
            ParameterView::Typed { .. } => true,
        }
    }

    /// The parameter without the references around it.
    pub open spec fn inner(self) -> ParameterView
        decreases self,
    {
        match self {
            ParameterView::ImmutableReference(inner) => inner.inner(),
            ParameterView::MutableReference(inner) => inner.inner(),
            _ => self,
        }
    }

    /// The name by which the body refers to the parameter.
    pub open spec fn name(self) -> Seq<char> {
        match self.inner() {
            ParameterView::Typed { name, .. } => name,
            _ => "self"@,
        }
    }

    /// Whether the parameter is the receiver.
    pub open spec fn is_self(self) -> bool {
        self.inner() is SelfRef
    }

    /// Whether the parameter is `self`, `&self` or `&mut self`.
    pub open spec fn is_receiver(self) -> bool {
        match self {
            ParameterView::SelfRef => true,
            ParameterView::ImmutableReference(inner) => *inner is SelfRef,
            ParameterView::MutableReference(inner) => *inner is SelfRef,
            _ => false,
        }
    }

    /// How a receiver is taken.
    pub open spec fn self_type(self) -> SelfType {
        match self {
            ParameterView::ImmutableReference(_) => SelfType::Reference,
            ParameterView::MutableReference(_) => SelfType::MutableReference,
            _ => SelfType::Value,
        }
    }
}

impl Clone for ParameterInfo {
    fn clone(&self) -> (res: Self)
        ensures
            res@ == self@,
        decreases self,
    {
        match self {
            ParameterInfo::SelfRef => ParameterInfo::SelfRef,
            ParameterInfo::ImmutableReference(inner) => {
                let c = (**inner).clone();
                ParameterInfo::ImmutableReference(Box::new(c))
            },
            ParameterInfo::MutableReference(inner) => {
                let c = (**inner).clone();
                ParameterInfo::MutableReference(Box::new(c))
            },
            ParameterInfo::LifeTime(lifetime, inner) => {
                let c = (**inner).clone();
                ParameterInfo::LifeTime(lifetime.clone(), Box::new(c))
            },
            ParameterInfo::Typed { name, ty } => ParameterInfo::Typed {
                name: name.clone(),
                ty: ty.clone(),
            },
        }
    }
}

pub(crate) fn clone_parameters(v: &Vec<ParameterInfo>) -> (res: Vec<ParameterInfo>)
    ensures
        views(res) == views(*v),
{
    let res = v.clone();
    assert(views(res) =~= views(*v));
    res
}

impl ParameterInfo {
    fn inner(&self) -> (res: &ParameterInfo)
        requires
            self@.is_plain(),
        ensures
            res@ == self@.inner(),
            res is SelfRef || res is Typed,
        decreases self,
    {
        match self {
            ParameterInfo::ImmutableReference(pi) => pi.inner(),
            ParameterInfo::MutableReference(pi) => pi.inner(),
            ParameterInfo::SelfRef => self,
            ParameterInfo::Typed { name: _, ty: _ } => self,
            ParameterInfo::LifeTime(_, _) => {
                proof {
                    assert(false);
                }
                self
            },
        }
    }

    /// The name by which the body refers to the parameter.
    pub fn name(&self) -> (res: String)
        requires
            self@.is_plain(),
        ensures
            res@ == self@.name(),
    {
        match self.inner() {
            ParameterInfo::Typed { name, ty: _ } => name.clone(),
            _ => "self".to_owned(),
        }
    }

    /// Whether the parameter is the receiver, under any references.
    pub fn is_self(&self) -> (res: bool)
        requires
            self@.is_plain(),
        ensures
            res == self@.is_self(),
    {
        match self.inner() {
            ParameterInfo::SelfRef => true,
            _ => false,
        }
    }

    /// How a receiver is taken.
    pub fn get_self_type(&self) -> (res: SelfType)
        requires
            self@.is_receiver(),
        ensures
            res == self@.self_type(),
    {
        match self {
            ParameterInfo::ImmutableReference(_) => SelfType::Reference,
            ParameterInfo::MutableReference(_) => SelfType::MutableReference,
            _ => SelfType::Value,
        }
    }

    /// A named parameter taken by value.
    pub fn new_owned(name: &str, ty: Type) -> (res: Self)
        ensures
            res@ == (ParameterView::Typed { name: name@, ty: ty@ }),
    {
        ParameterInfo::Typed { name: name.to_owned(), ty }
    }

    /// A named parameter under a shared reference.
    pub fn new_ref(name: &str, ty: Type) -> (res: Self)
        ensures
            res@ == ParameterView::ImmutableReference(
                Box::new(ParameterView::Typed { name: name@, ty: ty@ }),
            ),
    {
        proof {
            reveal_with_fuel(parameter_view, 2);
        }
        ParameterInfo::ImmutableReference(
            Box::new(ParameterInfo::Typed { name: name.to_owned(), ty }),
        )
    }

    /// A named parameter under a mutable reference.
    pub fn new_mut_ref(name: &str, ty: Type) -> (res: Self)
        ensures
            res@ == ParameterView::MutableReference(
                Box::new(ParameterView::Typed { name: name@, ty: ty@ }),
            ),
    {
        proof {
            reveal_with_fuel(parameter_view, 2);
        }
        ParameterInfo::MutableReference(
            Box::new(ParameterInfo::Typed { name: name.to_owned(), ty }),
        )
    }
}

/// The parameter that one input of a signature stands for. A receiver is
/// classified by how it is taken; a pattern that is one identifier keeps its
/// name and type, under a reference for `ref`; any other pattern is left out.
pub open spec fn parameter_of(arg: FnArgView) -> Option<ParameterView> {
    match arg {
        FnArgView::Receiver { reference, mutable } => Some(
            if !reference {
                ParameterView::SelfRef
            } else if mutable {
                ParameterView::MutableReference(Box::new(ParameterView::SelfRef))
            } else {
                ParameterView::ImmutableReference(Box::new(ParameterView::SelfRef))
            },
        ),
        FnArgView::Typed { name, by_ref, mutable, ty } => match name {
            Some(name) => {
                let typed = ParameterView::Typed { name, ty };
                Some(
                    if !by_ref {
                        typed
                    } else if mutable {
                        ParameterView::MutableReference(Box::new(typed))
                    } else {
                        ParameterView::ImmutableReference(Box::new(typed))
                    },
                )
            },
            None => None,
        },
    }
}

/// The parameters of a list of inputs.
pub open spec fn parameters_of(inputs: Seq<FnArgView>) -> Seq<ParameterView> {
    filter_map(inputs, |arg: FnArgView| parameter_of(arg))
}

fn analyze_parameter(arg: &FnArg) -> (res: Option<ParameterInfo>)
    ensures
        crate::syntax::opt_view(res) == parameter_of(arg@),
{
    proof {
        reveal_with_fuel(parameter_view, 2);
    }
    match arg {
        FnArg::Receiver { reference, mutable } => {
            let kind = if !*reference {
                ParameterInfo::SelfRef
            } else if *mutable {
                ParameterInfo::MutableReference(Box::new(ParameterInfo::SelfRef))
            } else {
                ParameterInfo::ImmutableReference(Box::new(ParameterInfo::SelfRef))
            };
            Some(kind)
        },
        FnArg::Typed { name, by_ref, mutable, ty } => match name {
            Some(name) => {
                let param_info = ParameterInfo::Typed { name: name.clone(), ty: ty.clone() };
                let kind = if !*by_ref {
                    param_info
                } else if *mutable {
                    ParameterInfo::MutableReference(Box::new(param_info))
                } else {
                    ParameterInfo::ImmutableReference(Box::new(param_info))
                };
                Some(kind)
            },
            None => None,
        },
    }
}

/// The parameters of a signature, with the receiver classified.
pub fn analyze_parameters(sig: &Signature) -> (res: Vec<ParameterInfo>)
    ensures
        views(res) == parameters_of(sig@.inputs),
{
    let ghost f = |arg: FnArgView| parameter_of(arg);
    let ghost inputs = views(sig.inputs);
    let mut res: Vec<ParameterInfo> = Vec::new();
    let mut i: usize = 0;
    proof {
        lemma_filter_map_ends(inputs, f);
        assert(views(res) =~= Seq::<ParameterView>::empty());
    }
    while i < sig.inputs.len()
        invariant
            i <= sig.inputs.len(),
            inputs == views(sig.inputs),
            f == |arg: FnArgView| parameter_of(arg),
            views(res) == filter_map(inputs.take(i as int), f),
        decreases sig.inputs.len() - i,
    {
        proof {
            lemma_filter_map_take(inputs, i as int, f);
        }
        let ghost before = views(res);
        match analyze_parameter(&sig.inputs[i]) {
            Some(p) => {
                res.push(p);
                assert(views(res) =~= before.push(p@));
            },
            None => {},
        }
        i += 1;
    }
    proof {
        lemma_filter_map_ends(inputs, f);
    }
    res
}

} // verus!
