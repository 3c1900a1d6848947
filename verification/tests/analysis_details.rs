use five::analysis::{
    analyze_context, analyze_generics, analyze_generics_from_impl_method,
    analyze_generics_from_method, analyze_impl_block, analyze_module_with_error_reporting,
    analyze_parameters, analyze_trait, extract_inline_where_clauses_from_signature, ContextInfo,
    ErrorKind, FunctionDescription, GenericsInfo, ImplBlockInfo, ParameterInfo, PropertyInfo,
    TraitInfo, TypeDescription,
};
use five::compile::function_descriptor::CompiledFunctionDescription;
use five::expr::{Block, Expr};
use five::items::{AssocItem, Field, Item, ItemImpl, ItemMod, ItemStruct, ItemTrait, Method};
use five::syntax::{
    FnArg, GenericParam, Generics, ParamKind, Signature, Span, Type, WherePredicate,
};

fn text(s: &str) -> String {
    s.to_string()
}

fn named(name: &str) -> Type {
    Type::Path { segments: vec![text(name)], arguments: vec![] }
}

fn at(line: usize) -> Span {
    Span { line, column: 0 }
}

fn no_generics() -> Generics {
    Generics { params: vec![], where_clause: None }
}

fn parameter(kind: ParamKind, name: &str, bounds: Vec<&str>) -> GenericParam {
    GenericParam { kind, name: text(name), bounds: bounds.into_iter().map(text).collect() }
}

fn predicate(subject: &str, bounds: Vec<&str>) -> WherePredicate {
    WherePredicate { subject: text(subject), bounds: bounds.into_iter().map(text).collect() }
}

fn signature(name: &str, generics: Generics, inputs: Vec<FnArg>) -> Signature {
    Signature { asyncness: false, name: text(name), generics, inputs, output: None }
}

fn method(sig: Signature, body: Option<Block>) -> Method {
    Method { attrs: vec![text("# [inline]")], public: true, sig, body }
}

fn mixed_generics() -> Generics {
    Generics {
        params: vec![
            parameter(ParamKind::Const, "N", vec![]),
            parameter(ParamKind::Type, "T", vec!["Clone"]),
            parameter(ParamKind::Lifetime, "'a", vec![]),
            parameter(ParamKind::Lifetime, "'b", vec![]),
            parameter(ParamKind::Type, "U", vec![]),
        ],
        where_clause: Some(vec![predicate("U", vec!["Send", "Sync"])]),
    }
}

#[test]
fn parameters_are_classified() {
    let sig = signature(
        "f",
        no_generics(),
        vec![
            FnArg::Receiver { reference: false, mutable: false },
            FnArg::Typed { name: Some(text("a")), by_ref: false, mutable: true, ty: named("i32") },
            FnArg::Typed { name: None, by_ref: false, mutable: false, ty: named("Pair") },
            FnArg::Typed { name: Some(text("b")), by_ref: true, mutable: false, ty: named("i32") },
            FnArg::Typed { name: Some(text("c")), by_ref: true, mutable: true, ty: named("i32") },
        ],
    );
    assert_eq!(
        analyze_parameters(&sig),
        vec![
            ParameterInfo::SelfRef,
            ParameterInfo::Typed { name: text("a"), ty: named("i32") },
            ParameterInfo::ImmutableReference(Box::new(ParameterInfo::Typed {
                name: text("b"),
                ty: named("i32"),
            })),
            ParameterInfo::MutableReference(Box::new(ParameterInfo::Typed {
                name: text("c"),
                ty: named("i32"),
            })),
        ]
    );
}

#[test]
fn bounds_of_a_function_are_merged_into_the_clause() {
    let m = method(signature("f", mixed_generics(), vec![]), None);
    let generics = analyze_generics_from_method(&m);
    assert_eq!(generics.get_params(), mixed_generics().params);
    assert_eq!(
        generics.get_where_clause(),
        Some(vec![
            predicate("U", vec!["Send", "Sync"]),
            predicate("T", vec!["Clone"]),
            predicate("U", vec![]),
        ])
    );
    assert_eq!(analyze_generics_from_impl_method(&m), generics);
    assert_eq!(
        extract_inline_where_clauses_from_signature(&m.sig),
        vec![predicate("T", vec!["Clone"]), predicate("U", vec![])]
    );
    let plain = method(signature("g", no_generics(), vec![]), None);
    assert_eq!(analyze_generics_from_method(&plain), GenericsInfo::new(vec![], None));
}

#[test]
fn generics_depend_on_the_item() {
    let an_impl = ItemImpl {
        attrs: vec![],
        generics: mixed_generics(),
        trait_: Some(named("Display")),
        self_ty: named("Wrapper"),
        items: vec![],
    };
    assert_eq!(
        analyze_generics(&Item::Impl(an_impl)).get_where_clause(),
        Some(vec![
            predicate("U", vec!["Send", "Sync"]),
            predicate("T", vec!["Clone"]),
            predicate("U", vec![]),
            predicate("U", vec!["Send", "Sync"]),
        ])
    );
    let a_trait = ItemTrait {
        attrs: vec![],
        public: true,
        name: text("Shape"),
        generics: mixed_generics(),
        supertraits: vec![],
        items: vec![],
        span: Span { line: 1, column: 0 },
    };
    assert_eq!(
        analyze_generics(&Item::Trait(a_trait)).get_where_clause(),
        Some(vec![
            predicate("U", vec!["Send", "Sync"]),
            predicate("T", vec!["Clone"]),
            predicate("U", vec![]),
        ])
    );
    let a_struct = ItemStruct {
        attrs: vec![],
        public: false,
        name: text("Context"),
        generics: mixed_generics(),
        fields: vec![],
        span: Span { line: 1, column: 0 },
    };
    assert_eq!(
        analyze_generics(&Item::Struct(a_struct)),
        GenericsInfo::from_syn_generics(&mixed_generics())
    );
    assert_eq!(analyze_generics(&Item::Other(text("use x ;"))), GenericsInfo::new(vec![], None));
}

fn shape() -> ItemTrait {
    ItemTrait {
        attrs: vec![text("# [doc = \"a shape\"]")],
        public: true,
        name: text("ShapeContract"),
        generics: no_generics(),
        supertraits: vec![text("Send")],
        items: vec![
            AssocItem::Other(text("type Unit ;")),
            AssocItem::Fn(method(
                signature("area", no_generics(), vec![FnArg::Receiver { reference: true, mutable: false }]),
                Some(Block { stmts: vec![Expr::Path { segments: vec![text("zero")] }] }),
            )),
            AssocItem::Fn(method(signature("name", no_generics(), vec![]), None)),
        ],
        span: Span { line: 5, column: 4 },
    }
}

#[test]
fn a_contract_holds_declarations_only() {
    let contract = analyze_trait(&shape());
    assert_eq!(contract.name, "ShapeContract");
    assert_eq!(contract.attrs, vec![text("# [doc = \"a shape\"]")]);
    assert_eq!(contract.supertraits, vec![text("Send")]);
    assert_eq!(contract.functions.len(), 2);
    assert!(matches!(contract.functions[0], FunctionDescription::Declaration { .. }));
    assert_eq!(contract.functions[0].get_name(), "area");
    assert_eq!(contract.functions[0].get_params().len(), 1);
    assert!(!contract.functions[0].get_asyncness());
    assert_eq!(*contract.functions[0].get_output(), None);
    assert_eq!(*contract.functions[0].get_generics(), GenericsInfo::new(vec![], None));

    let compiled = contract.compile().unwrap().emit();
    assert_eq!(compiled.name, "ShapeContract");
    assert!(!compiled.public);
    assert_eq!(compiled.items.len(), 2);
    assert!(matches!(&compiled.items[0], AssocItem::Fn(m) if m.body.is_none() && !m.public));
}

#[test]
fn a_contract_with_a_body_cannot_be_compiled() {
    let body = Block { stmts: vec![] };
    let broken = TraitInfo::new(
        text("BrokenContract"),
        GenericsInfo::new(vec![], None),
        vec![FunctionDescription::new_implementation(
            text("f"),
            vec![],
            GenericsInfo::new(vec![], None),
            None,
            body,
            false,
            vec![],
        )],
    );
    let error = broken.compile().unwrap_err();
    assert_eq!(*error.kind(), ErrorKind::UnexpectedShape);
    assert_eq!(error.span(), None);
}

#[test]
fn functions_become_items() {
    let declaration = FunctionDescription::new_declaration(
        text("f"),
        vec![],
        GenericsInfo::new(vec![], None),
        Some(named("i32")),
        true,
        vec![],
    );
    assert_eq!(declaration.compile().emit(), None);
    assert!(declaration.get_asyncness());
    assert_eq!(*declaration.get_output(), Some(named("i32")));
    let implementation = FunctionDescription::new_implementation(
        text("g"),
        vec![ParameterInfo::new_owned("x", named("i32"))],
        GenericsInfo::new(vec![], None),
        None,
        Block { stmts: vec![] },
        false,
        vec![text("# [inline]")],
    );
    let compiled = implementation.compile();
    assert!(matches!(&compiled, CompiledFunctionDescription::Implementation { body: Some(_), .. }));
    assert_eq!(compiled.clone(), compiled);
    let item = compiled.emit().unwrap();
    assert!(item.public);
    assert_eq!(item.attrs, vec![text("# [inline]")]);
    assert_eq!(item.sig.name, "g");
    assert_eq!(item.body, Some(Block { stmts: vec![] }));
    // an implemented function without a body is emitted with an empty one
    let bodiless = CompiledFunctionDescription::Implementation {
        name: text("h"),
        params: vec![],
        generics: GenericsInfo::new(vec![], None),
        output: None,
        body: None,
        asyncness: false,
        attrs: vec![],
    };
    assert_eq!(bodiless.emit().unwrap().body, Some(Block { stmts: vec![] }));
}

#[test]
fn impl_blocks_are_described() {
    let an_impl = ItemImpl {
        attrs: vec![text("# [cfg (test)]")],
        generics: mixed_generics(),
        trait_: Some(named("Shape")),
        self_ty: named("Square"),
        items: vec![
            AssocItem::Other(text("const SIDES : u8 = 4 ;")),
            AssocItem::Fn(method(signature("area", no_generics(), vec![]), Some(Block { stmts: vec![] }))),
            AssocItem::Fn(method(signature("name", no_generics(), vec![]), None)),
        ],
    };
    let info = analyze_impl_block(&an_impl);
    assert_eq!(info.for_lifetimes, Some(text("'a")));
    assert_eq!(info.implemented_traits, vec![named("Shape")]);
    assert_eq!(info.self_ty, named("Square"));
    assert_eq!(info.attrs, vec![text("# [cfg (test)]")]);
    assert_eq!(info.functions.len(), 2);
    assert!(matches!(info.functions[0], FunctionDescription::Implementation { .. }));
    assert!(matches!(info.functions[1], FunctionDescription::Declaration { .. }));

    // a block that implements a trait has no public methods
    let compiled = info.compile();
    assert_eq!(compiled.functions.len(), 2);
    assert_eq!(compiled.implemented_traits, vec![named("Shape")]);
    let compiled = compiled.emit();
    assert_eq!(compiled.trait_, Some(named("Shape")));
    assert_eq!(compiled.items.len(), 1);
    assert!(matches!(&compiled.items[0], AssocItem::Fn(m) if !m.public && m.sig.name == "area"));

    // an inherent block keeps them public
    let inherent = ImplBlockInfo::new(
        GenericsInfo::new(vec![], None),
        None,
        vec![],
        analyze_impl_block(&an_impl).functions,
        named("Square"),
        vec![],
    );
    let compiled = inherent.compile().emit();
    assert_eq!(compiled.trait_, None);
    assert!(matches!(&compiled.items[0], AssocItem::Fn(m) if m.public));
}

#[test]
fn the_aggregate_keeps_its_named_fields() {
    let a_struct = ItemStruct {
        attrs: vec![text("# [derive (Debug)]")],
        public: true,
        name: text("Context"),
        generics: mixed_generics(),
        fields: vec![
            Field { name: Some(text("ledger")), ty: named("LedgerRole"), span: at(4) },
            Field { name: None, ty: named("i32"), span: at(5) },
            Field { name: Some(text("count")), ty: named("u8"), span: at(6) },
        ],
        span: Span { line: 3, column: 1 },
    };
    let context = analyze_context(&a_struct, &vec![]);
    assert_eq!(context.name, "Context");
    assert!(context.public);
    assert_eq!(context.span, Span { line: 3, column: 1 });
    assert_eq!(context.attrs, vec![text("# [derive (Debug)]")]);
    assert_eq!(
        context.properties,
        vec![
            PropertyInfo::new(text("ledger"), named("LedgerRole")).with_span(at(4)),
            PropertyInfo::new(text("count"), named("u8")).with_span(at(6)),
        ]
    );
    assert_eq!(context.properties[0].get_ty(), named("LedgerRole"));
    assert_eq!(context.properties[1].get_span(), at(6));
    assert_eq!(context.generics, GenericsInfo::from_syn_generics(&mixed_generics()));
    assert!(context.impl_blocks.is_empty());
    assert!(context.roles.is_empty());
    let built = ContextInfo::new(
        text("Context"),
        GenericsInfo::new(vec![], None),
        vec![],
        vec![],
        vec![],
        vec![],
    );
    assert!(!built.public);
    assert!(ContextInfo::is_primitive_type(&named("u64")));
    assert!(ContextInfo::is_primitive_type(&Type::Path {
        segments: vec![text("core"), text("primitive"), text("bool")],
        arguments: vec![],
    }));
    assert!(!ContextInfo::is_primitive_type(&named("LedgerRole")));
    assert!(!ContextInfo::is_primitive_type(&Type::Other(text("& i32"))));
}

#[test]
fn what_is_no_part_of_the_composition_passes_through() {
    let helper = ItemTrait {
        attrs: vec![],
        public: true,
        name: text("Helper"),
        generics: no_generics(),
        supertraits: vec![],
        items: vec![],
        span: Span { line: 2, column: 0 },
    };
    let elsewhere = ItemImpl {
        attrs: vec![],
        generics: no_generics(),
        trait_: None,
        self_ty: named("Money"),
        items: vec![],
    };
    let context_impl = ItemImpl {
        attrs: vec![],
        generics: no_generics(),
        trait_: None,
        self_ty: Type::Path { segments: vec![text("self"), text("Context")], arguments: vec![] },
        items: vec![],
    };
    let unit = ItemMod {
        name: text("unit"),
        items: vec![
            Item::Other(text("use std :: fmt ;")),
            Item::Trait(helper),
            Item::Struct(ItemStruct {
                attrs: vec![],
                public: false,
                name: text("Context"),
                generics: no_generics(),
                fields: vec![],
                span: Span { line: 4, column: 0 },
            }),
            Item::Struct(ItemStruct {
                attrs: vec![],
                public: false,
                name: text("Money"),
                generics: no_generics(),
                fields: vec![],
                span: Span { line: 5, column: 0 },
            }),
            Item::Impl(elsewhere),
            Item::Impl(context_impl),
        ],
        span: Span { line: 1, column: 0 },
    };
    let info = analyze_module_with_error_reporting(&unit).unwrap();
    assert_eq!(info.module_name, "unit");
    assert_eq!(info.context.impl_blocks.len(), 1);
    assert_eq!(info.others.len(), 4);
    assert_eq!(info.others[0], TypeDescription::Other(Item::Other(text("use std :: fmt ;"))));
    assert!(matches!(&info.others[1], TypeDescription::Other(Item::Trait(t)) if t.name == "Helper"));
    assert!(matches!(&info.others[2], TypeDescription::Other(Item::Struct(s)) if s.name == "Money"));
    assert!(matches!(&info.others[3], TypeDescription::Other(Item::Impl(_))));
    assert!(info.contracts.is_empty());
    assert_eq!(info.clone(), info);
}
