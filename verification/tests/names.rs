use five::text::{
    is_primitive_type, push_camel_case, push_snake_case, to_pascal_case, to_role_name,
    to_snake_case, to_upper_camel_case,
};

#[test]
fn snake_case_of_a_role_name() {
    assert_eq!(to_snake_case("LedgerRole"), "ledger_role");
    assert_eq!(to_snake_case("HTTPServer"), "http_server");
    assert_eq!(to_snake_case(""), "");
}

#[test]
fn role_name_drops_the_suffix() {
    assert_eq!(to_role_name("LedgerRole"), "ledger");
    assert_eq!(to_role_name("Plain"), "plain");
}

#[test]
fn pascal_and_camel_case() {
    assert_eq!(to_pascal_case("user_profile_ctx"), "UserProfileCtx");
    assert_eq!(to_upper_camel_case("account_no"), "AccountNo");
    assert_eq!(to_upper_camel_case("a__b"), "AB");
}

#[test]
fn primitive_names() {
    assert!(is_primitive_type("i64"));
    assert!(is_primitive_type("usize"));
    assert!(!is_primitive_type("String"));
}

#[test]
fn snake_case_step_by_step() {
    let mut text = String::new();
    push_snake_case(&mut text, 'x', false, false, 'x');
    push_snake_case(&mut text, 'M', true, false, 'm');
    push_snake_case(&mut text, 'L', true, true, 'l');
    push_snake_case(&mut text, '_', false, false, '_');
    push_snake_case(&mut text, 'Q', true, false, 'q');
    assert_eq!(text, "x_ml_q");
}

#[test]
fn camel_case_step_by_step() {
    let mut text = String::new();
    push_camel_case(&mut text, 's', true, "SS");
    push_camel_case(&mut text, '_', false, "_");
    push_camel_case(&mut text, 'a', false, "A");
    assert_eq!(text, "SSa");
}

#[test]
fn case_conversion_goes_by_unicode() {
    assert_eq!(to_snake_case("ÉtatRole"), "état_role");
    assert_eq!(to_upper_camel_case("ßig_état"), "SSigÉtat");
    assert_eq!(to_pascal_case("ßig_état"), "ßigétat");
    assert_eq!(to_role_name("Role"), "role");
    assert_eq!(to_role_name("HTTPRole"), "http");
    assert_eq!(to_snake_case("already_snake"), "already_snake");
    assert_eq!(to_snake_case("A_B"), "a_b");
}
