use five::analysis::{create_multiple_errors, ErrorKind, MacroError};
use five::sample::{Address, Data, LedgerEntry, SerialiserType};
use five::syntax::{join, Span, Type, WherePredicate};
use five::text::{ends_with, starts_with, str_eq};

fn text(s: &str) -> String {
    s.to_string()
}

#[test]
fn a_new_address_has_no_parts() {
    let address = Address::new();
    assert_eq!(address.formatted(), None);
    assert_eq!(address.street_address(), None);
    assert_eq!(address.locality(), None);
    assert_eq!(address.region(), None);
    assert_eq!(address.postal_code(), None);
    assert_eq!(address.country(), None);
}

#[test]
fn each_builder_sets_its_own_part() {
    let address = Address::new()
        .with_formatted(text("1 Main St, Springfield"))
        .with_street_address(text("1 Main St"))
        .with_locality(text("Springfield"))
        .with_region(text("IL"))
        .with_postal_code(text("62701"))
        .with_country(text("US"));
    assert_eq!(address.formatted(), Some("1 Main St, Springfield"));
    assert_eq!(address.street_address(), Some("1 Main St"));
    assert_eq!(address.locality(), Some("Springfield"));
    assert_eq!(address.region(), Some("IL"));
    assert_eq!(address.postal_code(), Some("62701"));
    assert_eq!(address.country(), Some("US"));
    let moved = address.clone().with_locality(text("Shelbyville"));
    assert_eq!(moved.locality(), Some("Shelbyville"));
    assert_eq!(moved.region(), Some("IL"));
    assert_eq!(address.locality(), Some("Springfield"));
}

#[test]
fn ledger_entries_carry_their_text() {
    let deposit = LedgerEntry::Deposit(text("Deposit 1"), 100);
    let withdrawal = LedgerEntry::Withdrawal(text("Withdrawal 1"), 50);
    assert_eq!(deposit.message(), "Deposit 1");
    assert_eq!(withdrawal.message(), "Withdrawal 1");
    assert_eq!(deposit.clone(), deposit);
    assert_ne!(deposit, withdrawal);
    assert_ne!(SerialiserType::Json, SerialiserType::Cbor);
    assert_eq!(Data { value: text("x") }.value, "x");
}

#[test]
fn errors_keep_text_and_place() {
    let place = Span { line: 7, column: 3 };
    let error = MacroError::new("bad input", place);
    assert_eq!(error.message(), "bad input");
    assert_eq!(error.span(), Some(&place));
    assert_eq!(error.location(), place);
    assert_eq!(*error.kind(), ErrorKind::Message(text("bad input")));

    let nowhere = MacroError::without_span("lost");
    assert_eq!(nowhere.span(), None);
    assert_eq!(nowhere.location(), Span { line: 1, column: 0 });
    let found = nowhere.with_span(place);
    assert_eq!(found.span(), Some(&place));
    assert_eq!(found.message(), "lost");

    let typed = MacroError::unplaced(ErrorKind::UnexpectedShape);
    assert_eq!(typed.message(), "Context struct is not in the expected shape");
    assert_eq!(typed.span(), None);
    assert_eq!(typed.clone(), typed);
}

#[test]
fn every_kind_has_its_text() {
    assert_eq!(
        ErrorKind::MethodNotFound { role: text("LedgerRole"), method: text("close") }.message(),
        "Method `close` not found in role `LedgerRole`"
    );
    assert_eq!(
        ErrorKind::AmbiguousAggregate { count: 12 }.message(),
        "Found 12 Context structs - each module must define exactly one Context struct"
    );
    assert_eq!(
        ErrorKind::ConflictingGenericParameter { name: text("TLedger") }.message(),
        "Conflicting generic parameter `TLedger`"
    );
    assert_eq!(ErrorKind::Message(text("as given")).message(), "as given");
}

#[test]
fn several_errors_are_listed_by_number() {
    let place = Span { line: 2, column: 0 };
    let errors = vec![
        MacroError::without_span("first"),
        MacroError::of_kind(ErrorKind::MissingProperties, place),
    ];
    let combined = create_multiple_errors("Two problems", errors, place);
    assert_eq!(
        combined.message(),
        "Two problems:\n    1. first\n    2. Context struct must have at least one property\n"
    );
    assert_eq!(combined.span(), Some(&place));
    let none = create_multiple_errors("Nothing", vec![], place);
    assert_eq!(none.message(), "Nothing:\n");
}

#[test]
fn types_and_predicates_render_as_tokens() {
    let path = Type::Path {
        segments: vec![text("std"), text("collections"), text("HashMap")],
        arguments: vec![text("String"), text("i32")],
    };
    assert_eq!(path.render(), "std :: collections :: HashMap < String , i32 >");
    assert_eq!(Type::Reference { mutable: true, name: text("T") }.render(), "& mut T");
    assert_eq!(Type::Reference { mutable: false, name: text("T") }.render(), "& T");
    assert_eq!(
        Type::ImplTrait { name: text("Account"), arguments: vec![] }.render(),
        "impl Account"
    );
    assert_eq!(Type::Other(text("[u8 ; 4]")).render(), "[u8 ; 4]");
    assert_eq!(
        WherePredicate { subject: text("T"), bounds: vec![] }.render(),
        "T : "
    );
    assert_eq!(join(&vec![], ", "), "");
    assert_eq!(join(&vec![text("a")], ", "), "a");
    assert_eq!(join(&vec![text("a"), text("b"), text("c")], ", "), "a, b, c");
}

#[test]
fn suffixes_and_prefixes() {
    assert!(ends_with("LedgerRole", "Role"));
    assert!(!ends_with("Role", "LedgerRole"));
    assert!(ends_with("Role", ""));
    assert!(starts_with("_phantom_T", "_phantom_"));
    assert!(!starts_with("phantom", "_phantom_"));
    assert!(str_eq("é", "é"));
    assert!(!str_eq("e", "é"));
}
