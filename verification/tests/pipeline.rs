use five::analysis::{analyze_module_with_error_reporting, ErrorKind};
use five::compile::module::{
    compile_module_with_error_reporting, expand_module, process_module, Config,
};
use five::expr::{Block, Expr};
use five::items::{AssocItem, Field, Item, ItemImpl, ItemMod, ItemStruct, ItemTrait, Method};
use five::syntax::{FnArg, GenericParam, Generics, ParamKind, Signature, Span, Type};

fn text(s: &str) -> String {
    s.to_string()
}

fn named(name: &str) -> Type {
    Type::Path { segments: vec![text(name)], arguments: vec![] }
}

fn applied(name: &str, arguments: Vec<&str>) -> Type {
    Type::Path {
        segments: vec![text(name)],
        arguments: arguments.into_iter().map(text).collect(),
    }
}

fn no_generics() -> Generics {
    Generics { params: vec![], where_clause: None }
}

fn at(line: usize) -> Span {
    Span { line, column: 0 }
}

fn by_ref(mutable: bool) -> FnArg {
    FnArg::Receiver { reference: true, mutable }
}

fn typed(name: &str, ty: Type) -> FnArg {
    FnArg::Typed { name: Some(text(name)), by_ref: false, mutable: false, ty }
}

fn signature(name: &str, generics: Generics, inputs: Vec<FnArg>, output: Option<Type>) -> Signature {
    Signature { asyncness: false, name: text(name), generics, inputs, output }
}

fn function(
    public: bool,
    name: &str,
    inputs: Vec<FnArg>,
    output: Option<Type>,
    body: Option<Block>,
) -> Method {
    Method { attrs: vec![], public, sig: signature(name, no_generics(), inputs, output), body }
}

fn path(name: &str) -> Expr {
    Expr::Path { segments: vec![text(name)] }
}

fn call_on(receiver: Expr, name: &str, args: Vec<Expr>) -> Expr {
    Expr::MethodCall { receiver: Box::new(receiver), method: text(name), args }
}

fn call(name: &str, args: Vec<Expr>) -> Expr {
    Expr::Call { func: Box::new(path(name)), args }
}

fn field(base: Expr, member: &str) -> Expr {
    Expr::Field { base: Box::new(base), member: text(member) }
}

fn other(syntax: &str, parts: Vec<Expr>) -> Expr {
    Expr::Other { syntax: text(syntax), parts }
}

fn statement(e: Expr) -> Expr {
    other("_ ;", vec![e])
}

fn block(stmts: Vec<Expr>) -> Option<Block> {
    Some(Block { stmts })
}

fn a_trait(public: bool, name: &str, supertraits: Vec<&str>, items: Vec<Method>, line: usize) -> ItemTrait {
    ItemTrait {
        attrs: vec![],
        public,
        name: text(name),
        generics: no_generics(),
        supertraits: supertraits.into_iter().map(text).collect(),
        items: items.into_iter().map(AssocItem::Fn).collect(),
        span: at(line),
    }
}

fn a_struct(public: bool, fields: Vec<(&str, Type)>, line: usize) -> ItemStruct {
    ItemStruct {
        attrs: vec![],
        public,
        name: text("Context"),
        generics: no_generics(),
        fields: fields
            .into_iter()
            .enumerate()
            .map(|(i, (n, ty))| Field { name: Some(text(n)), ty, span: at(line + 1 + i) })
            .collect(),
        span: at(line),
    }
}

fn an_impl(target: &str, items: Vec<Method>) -> ItemImpl {
    ItemImpl {
        attrs: vec![],
        generics: no_generics(),
        trait_: None,
        self_ty: named(target),
        items: items.into_iter().map(AssocItem::Fn).collect(),
    }
}

fn ledger_contract() -> ItemTrait {
    a_trait(
        true,
        "LedgerContract",
        vec![],
        vec![
            function(false, "push", vec![by_ref(true), typed("entry", named("LedgerEntry"))], None, None),
            function(false, "as_vec", vec![by_ref(false)], Some(applied("Vec", vec!["LedgerEntry"])), None),
        ],
        12,
    )
}

fn ledger_role() -> ItemTrait {
    a_trait(
        false,
        "LedgerRole",
        vec!["LedgerContract"],
        vec![
            function(
                false,
                "add",
                vec![by_ref(true), typed("entry", named("LedgerEntry"))],
                None,
                block(vec![
                    statement(call_on(path("self"), "push", vec![call_on(path("entry"), "clone", vec![])])),
                    statement(call_on(path("self"), "log", vec![call_on(path("entry"), "message", vec![])])),
                ]),
            ),
            function(
                false,
                "log",
                vec![by_ref(false), typed("msg", named("String"))],
                None,
                block(vec![other("println ! (\"{}\" , msg) ;", vec![])]),
            ),
        ],
        17,
    )
}

fn entry_literal(kind: &str) -> Expr {
    other(kind, vec![path("message"), path("amount")])
}

fn context_impl() -> ItemImpl {
    an_impl(
        "Context",
        vec![
            function(
                false,
                "deposit",
                vec![by_ref(true), typed("message", named("String")), typed("amount", named("i32"))],
                None,
                block(vec![call_on(
                    field(path("self"), "ledger"),
                    "add",
                    vec![entry_literal("LedgerEntry :: Deposit (_ , _)")],
                )]),
            ),
            function(
                false,
                "balance",
                vec![by_ref(false)],
                Some(named("i32")),
                block(vec![call_on(
                    call_on(
                        call_on(call_on(field(path("self"), "ledger"), "as_vec", vec![]), "iter", vec![]),
                        "map",
                        vec![other("| entry | match entry { .. }", vec![])],
                    ),
                    "sum",
                    vec![],
                )]),
            ),
            function(
                false,
                "record",
                vec![by_ref(true), typed("entry", named("LedgerEntry"))],
                None,
                block(vec![statement(call_on(field(path("self"), "ledger"), "push", vec![path("entry")]))]),
            ),
        ],
    )
}

fn account() -> ItemMod {
    ItemMod {
        name: text("account"),
        items: vec![
            Item::Other(text("pub enum LedgerEntry { Deposit (String , i32) , Withdrawal (String , i32) , }")),
            Item::Impl(an_impl(
                "LedgerEntry",
                vec![function(
                    false,
                    "message",
                    vec![by_ref(false)],
                    Some(named("String")),
                    block(vec![other("match self { .. }", vec![])]),
                )],
            )),
            Item::Trait(ledger_contract()),
            Item::Trait(ledger_role()),
            Item::Struct(a_struct(false, vec![("ledger", named("LedgerRole")), ("account_no", named("i64"))], 27)),
            Item::Impl(context_impl()),
        ],
        span: at(1),
    }
}

fn run(module: &ItemMod) -> Result<Vec<Item>, five::analysis::MacroError> {
    process_module(module, &Config { debug: false, fallback: false })
}

fn ledger_parameter() -> Generics {
    Generics {
        params: vec![GenericParam {
            kind: ParamKind::Type,
            name: text("TLedger"),
            bounds: vec![text("LedgerContract")],
        }],
        where_clause: None,
    }
}

fn player_parameter() -> Generics {
    Generics {
        params: vec![GenericParam {
            kind: ParamKind::Type,
            name: text("T"),
            bounds: vec![text("LedgerContract")],
        }],
        where_clause: None,
    }
}

#[test]
fn account_emits_the_composite_in_order() {
    let items = run(&account()).unwrap();
    assert_eq!(items.len(), 9);
    assert!(matches!(&items[0], Item::Struct(s) if s.name == "Context"));
    assert!(matches!(&items[1], Item::Trait(t) if t.name == "Account"));
    assert!(matches!(&items[2], Item::Impl(_)));
    assert!(matches!(&items[3], Item::Fn(f) if f.sig.name == "ledger_add"));
    assert!(matches!(&items[4], Item::Fn(f) if f.sig.name == "ledger_log"));
    assert!(matches!(&items[5], Item::Fn(f) if f.sig.name == "bind"));
    assert!(matches!(&items[6], Item::Trait(t) if t.name == "LedgerContract" && t.public));
    assert_eq!(items[7], account().items[0]);
    assert_eq!(items[8], account().items[1]);
}

#[test]
fn account_struct_binds_the_slot_to_a_parameter() {
    let items = run(&account()).unwrap();
    let expected = ItemStruct {
        attrs: vec![],
        public: false,
        name: text("Context"),
        generics: ledger_parameter(),
        fields: vec![
            Field { name: Some(text("ledger")), ty: named("TLedger"), span: at(28) },
            Field { name: Some(text("account_no")), ty: named("i64"), span: at(29) },
        ],
        span: at(27),
    };
    assert_eq!(items[0], Item::Struct(expected));
}

#[test]
fn account_interface_declares_the_methods_of_the_aggregate() {
    let items = run(&account()).unwrap();
    let interface = match &items[1] {
        Item::Trait(t) => t,
        _ => panic!("expected the interface"),
    };
    assert!(interface.public);
    assert_eq!(interface.generics, ledger_parameter());
    let names: Vec<String> = interface
        .items
        .iter()
        .map(|i| match i {
            AssocItem::Fn(m) => {
                assert!(m.body.is_none());
                m.sig.name.clone()
            }
            _ => panic!("expected a method"),
        })
        .collect();
    assert_eq!(names, vec!["deposit", "balance", "record"]);
}

#[test]
fn account_rewrites_the_call_of_role_behaviour() {
    let items = run(&account()).unwrap();
    let block = match &items[2] {
        Item::Impl(i) => i,
        _ => panic!("expected the impl block"),
    };
    assert_eq!(block.trait_, Some(applied("Account", vec!["TLedger"])));
    assert_eq!(block.self_ty, applied("Context", vec!["TLedger"]));
    assert_eq!(block.generics, ledger_parameter());
    let bodies: Vec<Block> = block
        .items
        .iter()
        .map(|i| match i {
            AssocItem::Fn(m) => {
                assert!(!m.public);
                m.body.as_ref().map(|b| Block { stmts: b.stmts.iter().map(|s| s.clone()).collect() }).unwrap()
            }
            _ => panic!("expected a method"),
        })
        .collect();
    // `self.ledger.add(..)` becomes `ledger_add(&mut self.ledger, ..)`
    assert_eq!(
        bodies[0].stmts,
        vec![call(
            "ledger_add",
            vec![
                Expr::Reference { mutable: true, expr: Box::new(field(path("self"), "ledger")) },
                entry_literal("LedgerEntry :: Deposit (_ , _)"),
            ],
        )]
    );
    // calls of the contract stay as they are
    assert_eq!(Some(bodies[1].stmts.clone()), context_impl_body(1));
    assert_eq!(Some(bodies[2].stmts.clone()), context_impl_body(2));
}

fn context_impl_body(k: usize) -> Option<Vec<Expr>> {
    match &context_impl().items[k] {
        AssocItem::Fn(m) => m.body.as_ref().map(|b| b.stmts.clone()),
        _ => None,
    }
}

#[test]
fn account_lifts_the_default_methods_of_the_role() {
    let items = run(&account()).unwrap();
    let add = Method {
        attrs: vec![],
        public: true,
        sig: signature(
            "ledger_add",
            player_parameter(),
            vec![
                typed("this", Type::Reference { mutable: true, name: text("T") }),
                typed("entry", named("LedgerEntry")),
            ],
            None,
        ),
        body: block(vec![
            statement(call_on(path("this"), "push", vec![call_on(path("entry"), "clone", vec![])])),
            statement(call("ledger_log", vec![path("this"), call_on(path("entry"), "message", vec![])])),
        ]),
    };
    assert_eq!(items[3], Item::Fn(add));
    let log = Method {
        attrs: vec![],
        public: true,
        sig: signature(
            "ledger_log",
            player_parameter(),
            vec![
                typed("this", Type::Reference { mutable: false, name: text("T") }),
                typed("msg", named("String")),
            ],
            None,
        ),
        body: block(vec![other("println ! (\"{}\" , msg) ;", vec![])]),
    };
    assert_eq!(items[4], Item::Fn(log));
}

#[test]
fn account_factory_takes_the_fields_and_hides_the_composite() {
    let items = run(&account()).unwrap();
    let bind = Method {
        attrs: vec![],
        public: true,
        sig: signature(
            "bind",
            ledger_parameter(),
            vec![typed("ledger", named("TLedger")), typed("account_no", named("i64"))],
            Some(Type::ImplTrait { name: text("Account"), arguments: vec![text("TLedger")] }),
        ),
        body: block(vec![Expr::Struct {
            path: applied("Context", vec!["TLedger"]),
            members: vec![text("ledger"), text("account_no")],
            values: vec![path("ledger"), path("account_no")],
        }]),
    };
    assert_eq!(items[5], Item::Fn(bind));
}

#[test]
fn expansion_is_the_same_each_time() {
    assert_eq!(run(&account()).unwrap(), run(&account()).unwrap());
    assert_eq!(expand_module(&account()).unwrap(), run(&account()).unwrap());
}

fn foo_unit() -> ItemMod {
    ItemMod {
        name: text("foo"),
        items: vec![
            Item::Trait(a_trait(false, "FooRole", vec![], vec![], 3)),
            Item::Struct(a_struct(false, vec![("foo", named("FooRole"))], 5)),
            Item::Impl(an_impl("Context", vec![])),
        ],
        span: at(1),
    }
}

#[test]
fn role_without_contract_is_a_link_error() {
    let error = run(&foo_unit()).unwrap_err();
    assert_eq!(*error.kind(), ErrorKind::MissingContract { role: text("FooRole") });
    assert_eq!(error.message(), "No matching contract found for role: FooRole");
    assert_eq!(error.span(), Some(&at(3)));
    assert!(analyze_module_with_error_reporting(&foo_unit()).is_err());
}

#[test]
fn role_with_contract_links_to_it() {
    let mut unit = foo_unit();
    unit.items.insert(0, Item::Trait(a_trait(true, "FooContract", vec![], vec![], 2)));
    let info = analyze_module_with_error_reporting(&unit).unwrap();
    assert_eq!(info.context.roles.len(), 1);
    assert_eq!(info.context.roles[0].name, "FooRole");
    assert_eq!(info.context.roles[0].contract.name, "FooContract");
    assert_eq!(info.contracts.len(), 1);
}

fn with_context(fields: Vec<(&str, Type)>, public: bool, blocks: usize) -> ItemMod {
    let mut items = vec![Item::Struct(a_struct(public, fields, 4))];
    for _ in 0..blocks {
        items.push(Item::Impl(an_impl(
            "Context",
            vec![function(false, "touch", vec![by_ref(false)], None, block(vec![]))],
        )));
    }
    ItemMod { name: text("unit"), items, span: at(1) }
}

#[test]
fn invalid_property_is_a_validation_error() {
    let unit = with_context(vec![("count", named("i32")), ("label", named("String"))], false, 1);
    let error = run(&unit).unwrap_err();
    assert_eq!(*error.kind(), ErrorKind::InvalidPropertyType { property: text("label") });
    assert_eq!(
        error.message(),
        "Field `label` in `Context` must be a primitive type or a struct ending in `Role`."
    );
    // the error stands at the property
    assert_eq!(error.span(), Some(&at(6)));
}

#[test]
fn no_aggregate_is_a_structural_error() {
    let unit = ItemMod { name: text("empty"), items: vec![], span: at(9) };
    let error = run(&unit).unwrap_err();
    assert_eq!(*error.kind(), ErrorKind::MissingAggregate);
    assert_eq!(
        error.message(),
        "Missing Context struct - each module must define exactly one Context struct"
    );
    assert_eq!(error.span(), Some(&at(9)));
}

#[test]
fn several_aggregates_are_a_structural_error_with_their_number() {
    let mut unit = with_context(vec![("count", named("i32"))], false, 1);
    unit.items.push(Item::Struct(a_struct(false, vec![], 20)));
    unit.items.push(Item::Struct(a_struct(false, vec![], 30)));
    let error = run(&unit).unwrap_err();
    assert_eq!(*error.kind(), ErrorKind::AmbiguousAggregate { count: 3 });
    assert_eq!(
        error.message(),
        "Found 3 Context structs - each module must define exactly one Context struct"
    );
}

#[test]
fn aggregate_without_properties_is_incomplete() {
    let error = run(&with_context(vec![], false, 1)).unwrap_err();
    assert_eq!(*error.kind(), ErrorKind::MissingProperties);
    assert_eq!(error.message(), "Context struct must have at least one property");
}

#[test]
fn aggregate_without_impl_block_is_incomplete() {
    let error = run(&with_context(vec![("count", named("i32"))], false, 0)).unwrap_err();
    assert_eq!(*error.kind(), ErrorKind::MissingImplBlocks);
    assert_eq!(error.message(), "Context struct must have at least one impl block");
}

#[test]
fn public_aggregate_is_refused() {
    let error = run(&with_context(vec![("count", named("i32"))], true, 1)).unwrap_err();
    assert_eq!(*error.kind(), ErrorKind::AggregateNotPrivate);
    assert_eq!(error.message(), "`Context` must be private.");
}

#[test]
fn fallback_hands_the_unit_back_unchanged() {
    let unit = foo_unit();
    let items = process_module(&unit, &Config { debug: false, fallback: true }).unwrap();
    assert_eq!(items, foo_unit().items);
    // without an error the fallback changes nothing
    let regular = run(&account()).unwrap();
    let guarded = process_module(&account(), &Config { debug: true, fallback: true }).unwrap();
    assert_eq!(regular, guarded);
}

#[test]
fn validation_comes_before_compilation() {
    let unit = with_context(vec![("label", named("String"))], false, 1);
    let info = analyze_module_with_error_reporting(&unit).unwrap();
    let error = compile_module_with_error_reporting(info).unwrap_err();
    assert_eq!(*error.kind(), ErrorKind::InvalidPropertyType { property: text("label") });
}
