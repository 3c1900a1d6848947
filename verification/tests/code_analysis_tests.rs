use five::analysis::{
    analyze_impl_block, analyze_module, analyze_trait_methods, FunctionDescription, ParameterInfo,
};
use five::expr::{Block, Expr};
use five::items::{AssocItem, Field, Item, ItemImpl, ItemMod, ItemStruct, ItemTrait, Method};
use five::syntax::{FnArg, GenericParam, Generics, ParamKind, Signature, Span, Type};

fn text(s: &str) -> String {
    s.to_string()
}

fn named(name: &str) -> Type {
    Type::Path { segments: vec![text(name)], arguments: vec![] }
}

fn no_generics() -> Generics {
    Generics { params: vec![], where_clause: None }
}

fn at(line: usize) -> Span {
    Span { line, column: 0 }
}

fn by_ref(mutable: bool) -> FnArg {
    FnArg::Receiver { reference: true, mutable }
}

fn typed(name: &str, ty: Type) -> FnArg {
    FnArg::Typed { name: Some(text(name)), by_ref: false, mutable: false, ty }
}

fn method(
    public: bool,
    name: &str,
    inputs: Vec<FnArg>,
    output: Option<Type>,
    body: Option<Block>,
) -> AssocItem {
    AssocItem::Fn(Method {
        attrs: vec![],
        public,
        sig: Signature {
            asyncness: false,
            name: text(name),
            generics: no_generics(),
            inputs,
            output,
        },
        body,
    })
}

fn path(name: &str) -> Expr {
    Expr::Path { segments: vec![text(name)] }
}

fn call_on(receiver: Expr, name: &str, args: Vec<Expr>) -> Expr {
    Expr::MethodCall { receiver: Box::new(receiver), method: text(name), args }
}

fn field(base: Expr, member: &str) -> Expr {
    Expr::Field { base: Box::new(base), member: text(member) }
}

fn other(syntax: &str, parts: Vec<Expr>) -> Expr {
    Expr::Other { syntax: text(syntax), parts }
}

fn a_trait(
    public: bool,
    name: &str,
    supertraits: Vec<&str>,
    items: Vec<AssocItem>,
    line: usize,
) -> ItemTrait {
    ItemTrait {
        attrs: vec![],
        public,
        name: text(name),
        generics: no_generics(),
        supertraits: supertraits.into_iter().map(text).collect(),
        items,
        span: at(line),
    }
}

// pub trait SourceContract {
//     fn get_balance(&self) -> i32;
//     fn set_balance(&mut self, value: i32);
// }
fn single_contract() -> ItemTrait {
    a_trait(
        true,
        "SourceContract",
        vec![],
        vec![
            method(false, "get_balance", vec![by_ref(false)], Some(named("i32")), None),
            method(
                false,
                "set_balance",
                vec![by_ref(true), typed("value", named("i32"))],
                None,
                None,
            ),
        ],
        2,
    )
}

// mod test_module {
//     pub trait SourceContract { fn get_balance(&self) -> i32; }
//     pub trait SourceRole: SourceContract {}
//     struct Context {}
//     impl Context { pub fn name() -> &str { "hello" } }
// }
fn simple_context() -> ItemMod {
    ItemMod {
        name: text("test_module"),
        items: vec![
            Item::Trait(a_trait(
                true,
                "SourceContract",
                vec![],
                vec![method(false, "get_balance", vec![by_ref(false)], Some(named("i32")), None)],
                2,
            )),
            Item::Trait(a_trait(true, "SourceRole", vec!["SourceContract"], vec![], 6)),
            Item::Struct(ItemStruct {
                attrs: vec![],
                public: false,
                name: text("Context"),
                generics: no_generics(),
                fields: vec![],
                span: at(8),
            }),
            Item::Impl(ItemImpl {
                attrs: vec![],
                generics: no_generics(),
                trait_: None,
                self_ty: named("Context"),
                items: vec![method(
                    true,
                    "name",
                    vec![],
                    Some(Type::Other(text("& str"))),
                    Some(Block { stmts: vec![other("\"hello\"", vec![])] }),
                )],
            }),
        ],
        span: at(1),
    }
}

fn boxed_dyn(contract: &str) -> Type {
    Type::Path { segments: vec![text("Box")], arguments: vec![format!("dyn {}", contract)] }
}

// mod transfer {
//     pub trait SourceContract {
//         fn get_balance(&self) -> i32;
//         fn set_balance(&mut self, value: i32);
//     }
//     pub trait SinkContract { fn deposit(&mut self, amount: i32); }
//     trait SourceRole : SourceContract {
//         fn withdraw(&mut self, value: i32) {
//             let balance = self.get_balance();
//             if value > balance { panic!("Insufficient funds") }
//             println!("Withdrew: {}. New balance is {}", value, self.get_balance());
//         }
//     }
//     trait SinkRole : SinkContract {
//         fn deposit(&mut self, value: i32) {
//             let new_balance = self.get_balance() + value;
//             self.set_balance(new_balance);
//             println!("Deposited: {}. New balance is {}", value, new_balance);
//         }
//     }
//     pub struct Context {
//         source: Box<dyn SourceContract>,
//         sink: Box<dyn SinkContract>,
//         amount: i32,
//     }
//     impl Context {
//         pub fn transfer(&self) { self.sink.deposit(self.amount); }
//     }
// }
fn transfer_context() -> ItemMod {
    let withdraw = Block {
        stmts: vec![
            other("let balance = _ ;", vec![call_on(path("self"), "get_balance", vec![])]),
            other(
                "if _ _",
                vec![
                    other("_ > _", vec![path("value"), path("balance")]),
                    other("{ _ }", vec![other("panic ! (\"Insufficient funds\")", vec![])]),
                ],
            ),
            other(
                "println ! (\"Withdrew: {}. New balance is {}\" , value , self . get_balance ()) ;",
                vec![],
            ),
        ],
    };
    let deposit = Block {
        stmts: vec![
            other(
                "let new_balance = _ ;",
                vec![other(
                    "_ + _",
                    vec![call_on(path("self"), "get_balance", vec![]), path("value")],
                )],
            ),
            other(
                "_ ;",
                vec![call_on(path("self"), "set_balance", vec![path("new_balance")])],
            ),
            other(
                "println ! (\"Deposited: {}. New balance is {}\" , value , new_balance) ;",
                vec![],
            ),
        ],
    };
    let transfer = Block {
        stmts: vec![other(
            "_ ;",
            vec![call_on(
                field(path("self"), "sink"),
                "deposit",
                vec![field(path("self"), "amount")],
            )],
        )],
    };
    ItemMod {
        name: text("transfer"),
        items: vec![
            Item::Trait(single_contract()),
            Item::Trait(a_trait(
                true,
                "SinkContract",
                vec![],
                vec![method(
                    false,
                    "deposit",
                    vec![by_ref(true), typed("amount", named("i32"))],
                    None,
                    None,
                )],
                7,
            )),
            Item::Trait(a_trait(
                false,
                "SourceRole",
                vec!["SourceContract"],
                vec![method(
                    false,
                    "withdraw",
                    vec![by_ref(true), typed("value", named("i32"))],
                    None,
                    Some(withdraw),
                )],
                11,
            )),
            Item::Trait(a_trait(
                false,
                "SinkRole",
                vec!["SinkContract"],
                vec![method(
                    false,
                    "deposit",
                    vec![by_ref(true), typed("value", named("i32"))],
                    None,
                    Some(deposit),
                )],
                21,
            )),
            Item::Struct(ItemStruct {
                attrs: vec![],
                public: true,
                name: text("Context"),
                generics: no_generics(),
                fields: vec![
                    Field {
                        name: Some(text("source")),
                        ty: boxed_dyn("SourceContract"),
                        span: at(30),
                    },
                    Field { name: Some(text("sink")), ty: boxed_dyn("SinkContract"), span: at(31) },
                    Field { name: Some(text("amount")), ty: named("i32"), span: at(32) },
                ],
                span: at(29),
            }),
            Item::Impl(ItemImpl {
                attrs: vec![],
                generics: no_generics(),
                trait_: None,
                self_ty: named("Context"),
                items: vec![method(true, "transfer", vec![by_ref(false)], None, Some(transfer))],
            }),
        ],
        span: at(1),
    }
}

// impl<'a, T: SomeTrait + AnotherTrait> Context<'a, T> {
//     pub fn new(value: T, data: &'a str) -> Self { Context { value, data } }
//     pub fn get_data(&self) -> &'a str { self.data }
// }
fn impl_with_generics() -> ItemImpl {
    ItemImpl {
        attrs: vec![],
        generics: Generics {
            params: vec![
                GenericParam { kind: ParamKind::Lifetime, name: text("'a"), bounds: vec![] },
                GenericParam {
                    kind: ParamKind::Type,
                    name: text("T"),
                    bounds: vec![text("SomeTrait"), text("AnotherTrait")],
                },
            ],
            where_clause: None,
        },
        trait_: None,
        self_ty: Type::Path {
            segments: vec![text("Context")],
            arguments: vec![text("'a"), text("T")],
        },
        items: vec![
            method(
                true,
                "new",
                vec![typed("value", named("T")), typed("data", Type::Other(text("& 'a str")))],
                Some(named("Self")),
                Some(Block {
                    stmts: vec![Expr::Struct {
                        path: named("Context"),
                        members: vec![text("value"), text("data")],
                        values: vec![path("value"), path("data")],
                    }],
                }),
            ),
            method(
                true,
                "get_data",
                vec![by_ref(false)],
                Some(Type::Other(text("& 'a str"))),
                Some(Block { stmts: vec![field(path("self"), "data")] }),
            ),
        ],
    }
}

#[test]
fn test_analyze_trait_methods() {
    let item_trait: ItemTrait = single_contract();

    let methods = analyze_trait_methods(&item_trait);

    assert_eq!(methods.len(), 2);

    // Validate `get_balance`
    let get_balance = &methods[0];
    match get_balance {
        FunctionDescription::Declaration { name, params, .. } => {
            assert_eq!(name.to_string(), "get_balance");
            assert_eq!(params.len(), 1);

            // Validate `&self`
            match &params[0] {
                ParameterInfo::ImmutableReference(inner) => match **inner {
                    ParameterInfo::SelfRef => {}
                    _ => panic!("Expected ImmutableReference(SelfRef) for `&self`"),
                },
                _ => panic!("Expected ImmutableReference(Self) for `&self`"),
            }
        }
        _ => panic!("Expected Declaration for `get_balance`"),
    }

    // Validate `set_balance`
    let set_balance = &methods[1];
    match set_balance {
        FunctionDescription::Declaration { name, params, .. } => {
            assert_eq!(name.to_string(), "set_balance");
            assert_eq!(params.len(), 2);

            // Validate `&mut self`
            match &params[0] {
                ParameterInfo::MutableReference(inner) => match **inner {
                    ParameterInfo::SelfRef => {}
                    _ => panic!("Expected ImmutableReference(SelfRef) for `&self`"),
                },
                _ => panic!("Expected MutableReference(Self) for `&mut self`"),
            }

            // Validate `value: i32`
            match &params[1] {
                ParameterInfo::Typed { name, ty } => {
                    assert_eq!(name.to_string(), "value");
                    assert_eq!(ty.render(), "i32");
                }
                _ => panic!("Expected ByValue(Typed) for `value`"),
            }
        }
        _ => panic!("Expected Declaration for `set_balance`"),
    }
}

#[test]
fn test_role_with_contract() {
    let module: ItemMod = simple_context();

    let analysis = analyze_module(&module);

    assert_eq!(analysis.context.roles.len(), 1);
    let role = &analysis.context.roles[0];
    assert_eq!(role.name.to_string(), "SourceRole");
    assert_eq!(role.contract.name.to_string(), "SourceContract");
}

#[test]
fn test_analyze_module() {
    let transfer_module: ItemMod = transfer_context();

    // Perform the analysis
    let analysis = analyze_module(&transfer_module);
    // Validate roles
    assert_eq!(analysis.context.roles.len(), 2);

    // Validate role contracts
    assert!(analysis.context.roles.iter().any(|role| role.contract.name.to_string() == "SourceContract"));
    assert!(analysis.context.roles.iter().any(|role| role.contract.name.to_string() == "SinkContract"));
    // Validate `SourceContract`
    let source_role =
        analysis.context.roles.iter().find(|role| role.contract.name == "SourceContract").unwrap();
    assert_eq!(source_role.contract.functions.len(), 2);

    // Validate `get_balance` in `SourceContract`
    let get_balance = &source_role.contract.functions[0];
    match get_balance {
        FunctionDescription::Declaration { name, params, .. } => {
            assert_eq!(name.to_string(), "get_balance");
            assert_eq!(params.len(), 1);

            // Validate `&self`
            match &params[0] {
                ParameterInfo::ImmutableReference(inner) => match **inner {
                    ParameterInfo::SelfRef => {}
                    _ => panic!("Expected ImmutableReference(SelfRef) for `&self`"),
                },
                _ => panic!("Expected ImmutableReference(SelfRef) for `&self`"),
            }
        }
        _ => panic!("Expected Declaration for `get_balance`"),
    }

    // Validate `set_balance` in `SourceContract`
    let set_balance = &source_role.contract.functions[1];
    match set_balance {
        FunctionDescription::Declaration { name, params, .. } => {
            assert_eq!(name.to_string(), "set_balance");
            assert_eq!(params.len(), 2);

            // Validate `&mut self`
            match &params[0] {
                ParameterInfo::MutableReference(inner) => match **inner {
                    ParameterInfo::SelfRef => {}
                    _ => panic!("Expected ImmutableReference(SelfRef) for `&self`"),
                },
                _ => panic!("Expected MutableReference(SelfRef) for `&mut self`"),
            }

            // Validate `value: i32`
            match &params[1] {
                ParameterInfo::Typed { name, ty } => {
                    assert_eq!(name.to_string(), "value");
                    assert_eq!(ty.render(), "i32");
                }
                _ => panic!("Expected ByValue(Typed) for `value`"),
            }
        }
        _ => panic!("Expected Declaration for `set_balance`"),
    }

    // Validate `SinkContract`
    let sink_role =
        analysis.context.roles.iter().find(|role| role.contract.name == "SinkContract").unwrap();
    assert_eq!(sink_role.contract.functions.len(), 1);

    // Validate `deposit` in `SinkContract`
    let deposit = &sink_role.contract.functions[0];
    match deposit {
        FunctionDescription::Declaration { name, params, .. } => {
            assert_eq!(name.to_string(), "deposit");
            assert_eq!(params.len(), 2);

            // Validate `&mut self`
            match &params[0] {
                ParameterInfo::MutableReference(inner) => match **inner {
                    ParameterInfo::SelfRef => {}
                    _ => panic!("Expected ImmutableReference(SelfRef) for `&self`"),
                },
                _ => panic!("Expected MutableReference(SelfRef) for `&mut self`"),
            }

            // Validate `amount: i32`
            match &params[1] {
                ParameterInfo::Typed { name, ty } => {
                    assert_eq!(name.to_string(), "amount");
                    assert_eq!(ty.render(), "i32");
                }
                _ => panic!("Expected ByValue(Typed) for `amount`"),
            }
        }
        _ => panic!("Expected Declaration for `deposit`"),
    }

    // Validate context
    let context = analysis.context;
    assert_eq!(context.name.to_string(), "Context");
    assert_eq!(context.properties.len(), 3);
    assert!(context.properties.iter().any(|prop| prop.get_name() == "source"));
    assert!(context.properties.iter().any(|prop| prop.get_name() == "sink"));
    assert!(context.properties.iter().any(|prop| prop.get_name() == "amount"));

    // Validate other items: the impl block belongs to the aggregate, so
    // nothing passes through
    assert_eq!(analysis.others.len(), 0);
    assert_eq!(context.impl_blocks.len(), 1);
    let block = match context.impl_blocks.first() {
        Some(impl_block) => impl_block,
        _ => panic!("Expected the impl block of the aggregate"),
    };
    assert_eq!(block.self_ty.render(), "Context");
}

#[test]
fn test_analyze_impl_block_with_generics_and_lifetime() {
    let item_impl: ItemImpl = impl_with_generics();

    // Perform the analysis
    let impl_info = analyze_impl_block(&item_impl);

    // Validate the type being implemented
    assert_eq!(impl_info.self_ty.render(), "Context < 'a , T >");

    // Validate generics
    assert_eq!(impl_info.generics.get_params().len(), 2); // 'a and T
    assert!(matches!(impl_info.generics.get_params()[0].kind, ParamKind::Lifetime));
    assert!(matches!(impl_info.generics.get_params()[1].kind, ParamKind::Type));

    // Validate where clause
    let binding = impl_info.generics.get_where_clause();
    let where_clause = binding.as_ref().unwrap();
    assert_eq!(where_clause.len(), 1);
    assert_eq!(where_clause[0].render(), "T : SomeTrait + AnotherTrait");

    // Validate methods
    assert_eq!(impl_info.functions.len(), 2);

    // Validate `new`
    let new_method = &impl_info.functions[0];
    match new_method {
        FunctionDescription::Implementation { name, params, generics, .. } => {
            assert_eq!(name.to_string(), "new");
            assert_eq!(params.len(), 2); // value: T, data: &'a str

            // Validate `value: T`
            match &params[0] {
                ParameterInfo::Typed { name, ty } => {
                    assert_eq!(name.to_string(), "value");
                    assert_eq!(ty.render(), "T");
                }
                _ => panic!("Expected ByValue for `value`"),
            }

            // Validate `data: &'a str`
            match &params[1] {
                ParameterInfo::Typed { name, ty } => {
                    assert_eq!(name.to_string(), "data");
                    assert_eq!(ty.render(), "& 'a str");
                }
                _ => panic!("Expected ByValue for `data`"),
            }

            // Validate generics for the method
            assert_eq!(generics.get_params().len(), 0); // `new` has no extra generics
        }
        _ => panic!("Expected Implementation for `new`"),
    }

    // Validate `get_data`
    let get_data_method = &impl_info.functions[1];
    match get_data_method {
        FunctionDescription::Implementation { name, params, generics, .. } => {
            assert_eq!(name.to_string(), "get_data");
            assert_eq!(params.len(), 1); // Only &self

            // Validate `&self`
            match &params[0] {
                ParameterInfo::ImmutableReference(inner) => match **inner {
                    ParameterInfo::SelfRef => {}
                    _ => panic!("Expected ImmutableReference(SelfRef) for `&self`"),
                },
                _ => panic!("Expected ImmutableReference(SelfRef) for `&self`"),
            }

            // Validate generics for the method
            assert_eq!(generics.get_params().len(), 0); // `get_data` has no extra generics
        }
        _ => panic!("Expected Implementation for `get_data`"),
    }
}
