use five::analysis::{
    analyze_module, analyze_module_with_error_reporting, ErrorKind, FunctionDescription,
    GenericsInfo, ModuleInfo, ParameterInfo, SelfType,
};
use five::compile::context::{applied_type_for, parameter_name_for};
use five::compile::dispatch::{
    is_first_argument_mutable, lifted_function_name, resolve_in_context, resolve_in_role,
    Resolution,
};
use five::compile::function_descriptor::{inputs_for, to_fn_arg};
use five::compile::module::{generate_bind_function, process_module, Config};
use five::compile::rewrite::{rewrite_block, rewrite_expr, Scope};
use five::compile::role::{rewrite_body_of_free_function, rewrite_sig_of_free_function};
use five::expr::{Block, Expr};
use five::items::{AssocItem, Field, Item, ItemImpl, ItemMod, ItemStruct, ItemTrait, Method};
use five::syntax::{FnArg, GenericParam, Generics, ParamKind, Signature, Span, Type};

fn text(s: &str) -> String {
    s.to_string()
}

fn named(name: &str) -> Type {
    Type::Path { segments: vec![text(name)], arguments: vec![] }
}

fn no_generics() -> Generics {
    Generics { params: vec![], where_clause: None }
}

fn type_parameter(name: &str, bounds: Vec<&str>) -> GenericParam {
    GenericParam {
        kind: ParamKind::Type,
        name: text(name),
        bounds: bounds.into_iter().map(text).collect(),
    }
}

fn at(line: usize) -> Span {
    Span { line, column: 0 }
}

fn by_ref(mutable: bool) -> FnArg {
    FnArg::Receiver { reference: true, mutable }
}

fn typed(name: &str, ty: Type) -> FnArg {
    FnArg::Typed { name: Some(text(name)), by_ref: false, mutable: false, ty }
}

fn function(name: &str, generics: Generics, inputs: Vec<FnArg>, body: Option<Vec<Expr>>) -> Method {
    Method {
        attrs: vec![],
        public: false,
        sig: Signature { asyncness: false, name: text(name), generics, inputs, output: None },
        body: body.map(|stmts| Block { stmts }),
    }
}

fn path(name: &str) -> Expr {
    Expr::Path { segments: vec![text(name)] }
}

fn call_on(receiver: Expr, name: &str, args: Vec<Expr>) -> Expr {
    Expr::MethodCall { receiver: Box::new(receiver), method: text(name), args }
}

fn call(name: &str, args: Vec<Expr>) -> Expr {
    Expr::Call { func: Box::new(path(name)), args }
}

fn field(base: Expr, member: &str) -> Expr {
    Expr::Field { base: Box::new(base), member: text(member) }
}

fn borrow(mutable: bool, e: Expr) -> Expr {
    Expr::Reference { mutable, expr: Box::new(e) }
}

fn other(syntax: &str, parts: Vec<Expr>) -> Expr {
    Expr::Other { syntax: text(syntax), parts }
}

fn a_trait(name: &str, items: Vec<Method>, line: usize) -> Item {
    Item::Trait(ItemTrait {
        attrs: vec![],
        public: false,
        name: text(name),
        generics: no_generics(),
        supertraits: vec![],
        items: items.into_iter().map(AssocItem::Fn).collect(),
        span: at(line),
    })
}

fn a_struct(generics: Generics, fields: Vec<(&str, Type)>) -> Item {
    Item::Struct(ItemStruct {
        attrs: vec![text("# [allow (dead_code)]")],
        public: false,
        name: text("Context"),
        generics,
        fields: fields
            .into_iter()
            .map(|(n, ty)| Field { name: Some(text(n)), ty, span: at(41) })
            .collect(),
        span: at(40),
    })
}

fn an_impl(items: Vec<Method>) -> Item {
    Item::Impl(ItemImpl {
        attrs: vec![],
        generics: no_generics(),
        trait_: None,
        self_ty: named("Context"),
        items: items.into_iter().map(AssocItem::Fn).collect(),
    })
}

// Two slots of one role, a primitive, and a slot whose role is not declared.
fn transfer(bodies: Vec<Expr>) -> ItemMod {
    ItemMod {
        name: text("money_transfer"),
        items: vec![
            a_trait(
                "AccountContract",
                vec![
                    function("balance", no_generics(), vec![by_ref(false)], None),
                    function("set_balance", no_generics(), vec![by_ref(true), typed("to", named("i64"))], None),
                ],
                2,
            ),
            a_trait(
                "AccountRole",
                vec![
                    function(
                        "withdraw",
                        no_generics(),
                        vec![by_ref(true), typed("amount", named("i64"))],
                        Some(vec![call_on(
                            path("self"),
                            "set_balance",
                            vec![other("_ - _", vec![call_on(path("self"), "balance", vec![]), path("amount")])],
                        )]),
                    ),
                    function(
                        "can_pay",
                        no_generics(),
                        vec![by_ref(false), typed("amount", named("i64"))],
                        Some(vec![other("_ >= _", vec![call_on(path("self"), "balance", vec![]), path("amount")])]),
                    ),
                    function(
                        "pay",
                        no_generics(),
                        vec![by_ref(true), typed("amount", named("i64"))],
                        Some(vec![other(
                            "if _ _",
                            vec![
                                call_on(path("self"), "can_pay", vec![path("amount")]),
                                other("{ _ }", vec![call_on(path("self"), "withdraw", vec![path("amount")])]),
                            ],
                        )]),
                    ),
                ],
                8,
            ),
            a_struct(
                no_generics(),
                vec![
                    ("source", named("AccountRole")),
                    ("sink_account", named("AccountRole")),
                    ("amount", named("i64")),
                    ("audit", named("AuditRole")),
                ],
            ),
            an_impl(vec![function("run", no_generics(), vec![by_ref(true)], Some(bodies))]),
        ],
        span: at(1),
    }
}

fn analysed(unit: &ItemMod) -> ModuleInfo {
    analyze_module_with_error_reporting(unit).unwrap()
}

fn run(unit: &ItemMod) -> Result<Vec<Item>, five::analysis::MacroError> {
    process_module(unit, &Config { debug: false, fallback: false })
}

#[test]
fn slots_of_one_role_share_one_parameter() {
    let items = run(&transfer(vec![])).unwrap();
    let composite = match &items[0] {
        Item::Struct(s) => s,
        _ => panic!("expected the struct"),
    };
    assert_eq!(
        composite.generics.params,
        vec![type_parameter("TSource", vec!["AccountContract"]), type_parameter("TAudit", vec!["AuditContract"])]
    );
    assert_eq!(composite.fields[0].ty, named("TSource"));
    assert_eq!(composite.fields[1].ty, named("TSource"));
    assert_eq!(composite.fields[2].ty, named("i64"));
    assert_eq!(composite.fields[3].ty, named("TAudit"));
    assert_eq!(composite.fields.len(), 4);
    assert!(composite.attrs.is_empty());
}

#[test]
fn parameter_names_come_from_the_property() {
    assert_eq!(parameter_name_for("sink_account"), "TSinkAccount");
    assert_eq!(parameter_name_for("ledger"), "TLedger");
    assert_eq!(lifted_function_name("AccountRole", "withdraw"), "account_withdraw");
    assert_eq!(
        applied_type_for("Context", &vec![type_parameter("A", vec![]), type_parameter("B", vec![])]).render(),
        "Context < A , B >"
    );
}

#[test]
fn calls_are_classified_by_the_contract() {
    let info = analysed(&transfer(vec![]));
    let context = &info.context;
    assert_eq!(resolve_in_context(context, "source", "balance"), Resolution::Untouched);
    assert_eq!(
        resolve_in_context(context, "source", "withdraw"),
        Resolution::Lifted { function: text("account_withdraw"), mutable: true }
    );
    assert_eq!(
        resolve_in_context(context, "sink_account", "can_pay"),
        Resolution::Lifted { function: text("account_can_pay"), mutable: false }
    );
    assert_eq!(resolve_in_context(context, "amount", "abs"), Resolution::Untouched);
    assert_eq!(resolve_in_context(context, "nothing", "abs"), Resolution::Untouched);
    assert_eq!(
        resolve_in_context(context, "audit", "note"),
        Resolution::Fails(ErrorKind::RoleNotFound { field: text("audit") })
    );
    assert_eq!(
        resolve_in_context(context, "source", "close"),
        Resolution::Fails(ErrorKind::MethodNotFound { role: text("AccountRole"), method: text("close") })
    );
    let role = &context.roles[0];
    assert_eq!(resolve_in_role(role, "set_balance"), Resolution::Untouched);
    assert_eq!(
        resolve_in_role(role, "pay"),
        Resolution::Lifted { function: text("account_pay"), mutable: true }
    );
    assert!(is_first_argument_mutable(&role.methods[0]));
    assert!(!is_first_argument_mutable(&role.methods[1]));
}

#[test]
fn rewriting_reaches_nested_calls() {
    let body = vec![other(
        "if _ _",
        vec![
            call_on(field(path("self"), "source"), "can_pay", vec![field(path("self"), "amount")]),
            other(
                "{ _ }",
                vec![call_on(
                    field(path("self"), "sink_account"),
                    "withdraw",
                    vec![call_on(field(path("self"), "source"), "balance", vec![])],
                )],
            ),
        ],
    )];
    let info = analysed(&transfer(vec![]));
    let rewritten = info.context.rewrite_role_access(&Block { stmts: body }).unwrap();
    assert_eq!(
        rewritten.stmts,
        vec![other(
            "if _ _",
            vec![
                call(
                    "account_can_pay",
                    vec![borrow(false, field(path("self"), "source")), field(path("self"), "amount")],
                ),
                other(
                    "{ _ }",
                    vec![call(
                        "account_withdraw",
                        vec![
                            borrow(true, field(path("self"), "sink_account")),
                            call_on(field(path("self"), "source"), "balance", vec![]),
                        ],
                    )],
                ),
            ],
        )]
    );
}

#[test]
fn rewriting_twice_changes_nothing_more() {
    let info = analysed(&transfer(vec![]));
    let scope = Scope::Aggregate(&info.context);
    let e = call_on(
        field(path("self"), "source"),
        "pay",
        vec![call_on(field(path("self"), "sink_account"), "balance", vec![])],
    );
    let once = rewrite_expr(&scope, &e).unwrap();
    let twice = rewrite_expr(&scope, &once).unwrap();
    assert_eq!(once, twice);
    // a call of the contract is left as it is
    let settled = call_on(field(path("self"), "source"), "balance", vec![]);
    assert_eq!(rewrite_expr(&scope, &settled).unwrap(), settled);
    // a call on another receiver is left as it is
    let elsewhere = call_on(field(path("other"), "source"), "pay", vec![]);
    assert_eq!(rewrite_expr(&scope, &elsewhere).unwrap(), elsewhere);
}

#[test]
fn rewriting_reports_the_first_failure() {
    let info = analysed(&transfer(vec![]));
    let block = Block {
        stmts: vec![
            call_on(field(path("self"), "source"), "close", vec![]),
            call_on(field(path("self"), "audit"), "note", vec![]),
        ],
    };
    assert_eq!(
        rewrite_block(&Scope::Aggregate(&info.context), &block),
        Err(ErrorKind::MethodNotFound { role: text("AccountRole"), method: text("close") })
    );
    let error = run(&transfer(vec![call_on(field(path("self"), "audit"), "note", vec![])])).unwrap_err();
    assert_eq!(*error.kind(), ErrorKind::RoleNotFound { field: text("audit") });
    assert_eq!(error.message(), "No role found for field `audit`");
    assert_eq!(error.span(), Some(&at(40)));
}

#[test]
fn lifted_bodies_speak_of_this() {
    let info = analyze_module(&transfer(vec![]));
    let role = &info.context.roles[0];
    let pay = match &role.methods[2] {
        FunctionDescription::Implementation { body, .. } => body,
        _ => panic!("expected a default method"),
    };
    let lifted = rewrite_body_of_free_function(role, pay).unwrap();
    assert_eq!(
        lifted.stmts,
        vec![other(
            "if _ _",
            vec![
                call("account_can_pay", vec![path("this"), path("amount")]),
                other("{ _ }", vec![call("account_withdraw", vec![path("this"), path("amount")])]),
            ],
        )]
    );
    let withdraw = match &role.methods[0] {
        FunctionDescription::Implementation { body, .. } => body,
        _ => panic!("expected a default method"),
    };
    let lifted = rewrite_body_of_free_function(role, withdraw).unwrap();
    assert_eq!(
        lifted.stmts,
        vec![call_on(
            path("this"),
            "set_balance",
            vec![other("_ - _", vec![call_on(path("this"), "balance", vec![]), path("amount")])],
        )]
    );
    let unknown = Block { stmts: vec![call_on(path("self"), "close", vec![])] };
    assert_eq!(
        rewrite_body_of_free_function(role, &unknown),
        Err(ErrorKind::MethodNotFound { role: text("AccountRole"), method: text("close") })
    );
}

#[test]
fn lifted_signature_takes_the_player() {
    let info = analyze_module(&transfer(vec![]));
    let role = &info.context.roles[0];
    let lifted = rewrite_sig_of_free_function(&role.methods[1], role).unwrap();
    match &lifted {
        FunctionDescription::Declaration { name, params, generics, .. } => {
            assert_eq!(name, "account_can_pay");
            assert_eq!(
                params[0],
                ParameterInfo::Typed {
                    name: text("this"),
                    ty: Type::Reference { mutable: false, name: text("T") },
                }
            );
            assert_eq!(params[1], ParameterInfo::Typed { name: text("amount"), ty: named("i64") });
            assert_eq!(generics.get_params(), vec![type_parameter("T", vec!["AccountContract"])]);
        }
        _ => panic!("expected a declaration"),
    }
}

#[test]
fn a_method_with_its_own_t_cannot_be_lifted() {
    let mut unit = transfer(vec![]);
    unit.items[1] = a_trait(
        "AccountRole",
        vec![function(
            "convert",
            Generics { params: vec![type_parameter("T", vec![])], where_clause: None },
            vec![by_ref(false), typed("into", named("T"))],
            Some(vec![]),
        )],
        8,
    );
    let error = run(&unit).unwrap_err();
    assert_eq!(*error.kind(), ErrorKind::ConflictingGenericParameter { name: text("T") });
    assert_eq!(error.message(), "Conflicting generic parameter `T`");
    assert_eq!(error.span(), Some(&at(8)));
}

#[test]
fn a_parameter_of_the_aggregate_may_not_clash_with_a_slot() {
    let mut unit = transfer(vec![]);
    unit.items[2] = a_struct(
        Generics { params: vec![type_parameter("TSource", vec![])], where_clause: None },
        vec![("source", named("AccountRole"))],
    );
    let error = run(&unit).unwrap_err();
    assert_eq!(*error.kind(), ErrorKind::ConflictingGenericParameter { name: text("TSource") });
    assert_eq!(error.span(), Some(&at(40)));
}

#[test]
fn unused_parameters_get_placeholders() {
    let mut unit = transfer(vec![]);
    unit.items[2] = a_struct(
        Generics {
            params: vec![
                GenericParam { kind: ParamKind::Lifetime, name: text("'a"), bounds: vec![] },
                type_parameter("U", vec!["Clone"]),
                type_parameter("V", vec![]),
            ],
            where_clause: None,
        },
        vec![("count", named("i32")), ("held", named("V"))],
    );
    let info = analysed(&unit);
    let composite = info.context.compile_struct().unwrap();
    assert_eq!(composite.fields.len(), 3);
    assert_eq!(
        composite.fields[2],
        Field {
            name: Some(text("_phantom_U")),
            ty: Type::Path {
                segments: vec![text("std"), text("marker"), text("PhantomData")],
                arguments: vec![text("U")],
            },
            span: at(0),
        }
    );
    let bind = generate_bind_function(&composite, "Unit");
    assert_eq!(bind.sig.inputs, vec![typed("count", named("i32")), typed("held", named("V"))]);
    assert_eq!(
        bind.sig.output,
        Some(Type::ImplTrait { name: text("Unit"), arguments: vec![text("'a"), text("U"), text("V")] })
    );
    assert_eq!(
        bind.body,
        Some(Block {
            stmts: vec![Expr::Struct {
                path: Type::Path {
                    segments: vec![text("Context")],
                    arguments: vec![text("'a"), text("U"), text("V")],
                },
                members: vec![text("count"), text("held"), text("_phantom_U")],
                values: vec![
                    path("count"),
                    path("held"),
                    Expr::Path { segments: vec![text("std"), text("marker"), text("PhantomData")] },
                ],
            }],
        })
    );
}

#[test]
fn the_interface_is_named_after_the_unit() {
    let items = run(&transfer(vec![])).unwrap();
    match &items[1] {
        Item::Trait(t) => {
            assert_eq!(t.name, "MoneyTransfer");
            assert!(t.public);
        }
        _ => panic!("expected the interface"),
    }
    match &items[2] {
        Item::Impl(i) => {
            assert_eq!(i.attrs, vec![text("# [allow (dead_code)]")]);
            assert_eq!(i.trait_.as_ref().map(|t| t.render()), Some(text("MoneyTransfer < TSource , TAudit >")));
        }
        _ => panic!("expected the impl block"),
    }
}

#[test]
fn the_receiver_comes_first() {
    let params = vec![
        ParameterInfo::new_owned("amount", named("i64")),
        ParameterInfo::MutableReference(Box::new(ParameterInfo::SelfRef)),
        ParameterInfo::new_ref("label", named("String")),
        ParameterInfo::SelfRef,
    ];
    assert_eq!(
        inputs_for(&params),
        vec![
            by_ref(true),
            typed("amount", named("i64")),
            FnArg::Typed { name: Some(text("label")), by_ref: true, mutable: false, ty: named("String") },
        ]
    );
    assert_eq!(to_fn_arg(&ParameterInfo::SelfRef), FnArg::Receiver { reference: false, mutable: false });
    assert_eq!(
        to_fn_arg(&ParameterInfo::new_mut_ref("x", named("u8"))),
        FnArg::Typed { name: Some(text("x")), by_ref: true, mutable: true, ty: named("u8") }
    );
    assert_eq!(
        to_fn_arg(&ParameterInfo::LifeTime(text("'a"), Box::new(ParameterInfo::new_owned("y", named("u8"))))),
        typed("y", named("u8"))
    );
}

#[test]
fn parameters_know_their_names_and_receivers() {
    let this = ParameterInfo::ImmutableReference(Box::new(ParameterInfo::SelfRef));
    assert!(this.is_self());
    assert_eq!(this.name(), "self");
    assert_eq!(this.get_self_type(), SelfType::Reference);
    assert_eq!(ParameterInfo::SelfRef.get_self_type(), SelfType::Value);
    assert_eq!(
        ParameterInfo::MutableReference(Box::new(ParameterInfo::SelfRef)).get_self_type(),
        SelfType::MutableReference
    );
    let other = ParameterInfo::new_mut_ref("count", named("i32"));
    assert!(!other.is_self());
    assert_eq!(other.name(), "count");
}

#[test]
fn generics_keep_params_and_clause() {
    let generics = GenericsInfo::new(vec![type_parameter("T", vec!["Clone"])], None);
    assert_eq!(generics.get_params(), vec![type_parameter("T", vec!["Clone"])]);
    assert_eq!(generics.get_where_clause(), None);
    let raw = generics.to_syn_generics();
    assert_eq!(GenericsInfo::from_syn_generics(&raw), generics);
}

#[test]
fn a_role_declared_twice_is_ambiguous() {
    let mut unit = transfer(vec![call_on(field(path("self"), "source"), "withdraw", vec![path("one")])]);
    unit.items.push(a_trait("AccountRole", vec![], 60));
    let info = analysed(&unit);
    assert_eq!(info.context.roles.len(), 2);
    assert_eq!(
        resolve_in_context(&info.context, "source", "withdraw"),
        Resolution::Fails(ErrorKind::AmbiguousRole { field: text("source") })
    );
    let error = run(&unit).unwrap_err();
    assert_eq!(*error.kind(), ErrorKind::AmbiguousRole { field: text("source") });
    assert_eq!(error.message(), "More than one role found for field `source`");
}
