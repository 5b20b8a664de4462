use clap_binary_enum::attrs::{parse_yesno_enum_attrs, parse_yesno_variant_attrs, AttrErrorKind};
use clap_binary_enum::derive::{derive_yes_no_arg_inner, AttrOwner, DeriveError, YesNoArgPlan};
use clap_binary_enum::flags::{flag_choice, Polarity};
use clap_binary_enum::model::{Attribute, Data, DeriveInput, NestedMeta, Variant};
use clap_binary_enum::text::{concat_str, dashes_to_underscores, kebab_from_cases, to_kebab_case};

fn meta(path: &str, value: &str) -> NestedMeta {
    NestedMeta { path: path.to_string(), value: Ok(value.to_string()) }
}

fn yesno(items: Vec<NestedMeta>) -> Attribute {
    Attribute { path: "yesno".to_string(), items, trailing_error: None }
}

fn unit(name: &str, attrs: Vec<Attribute>) -> Variant {
    Variant { ident: name.to_string(), attrs, is_unit: true }
}

fn enum_input(name: &str, attrs: Vec<Attribute>, variants: Vec<Variant>) -> DeriveInput {
    DeriveInput { ident: name.to_string(), attrs, data: Data::Enum(variants) }
}

fn two_variants(name: &str, pos: &str, neg: &str) -> DeriveInput {
    enum_input(name, vec![], vec![unit(pos, vec![]), unit(neg, vec![])])
}

fn plan(input: DeriveInput) -> YesNoArgPlan {
    match derive_yes_no_arg_inner(input) {
        Ok(p) => p,
        Err(e) => panic!("refused: {}", e.message()),
    }
}

fn refusal(input: DeriveInput) -> DeriveError {
    match derive_yes_no_arg_inner(input) {
        Ok(p) => panic!("accepted: {}", p.struct_name),
        Err(e) => e,
    }
}

#[test]
fn kebab_case_of_single_word() {
    assert_eq!(to_kebab_case("Network"), "network");
}

#[test]
fn kebab_case_of_two_words() {
    assert_eq!(to_kebab_case("DryRun"), "dry-run");
    assert_eq!(to_kebab_case("PrintDebug"), "print-debug");
}

#[test]
fn kebab_case_edge_cases() {
    assert_eq!(to_kebab_case(""), "");
    assert_eq!(to_kebab_case("A"), "a");
    assert_eq!(to_kebab_case("ABC"), "a-b-c");
    assert_eq!(to_kebab_case("already_lower"), "already_lower");
    assert_eq!(to_kebab_case("HTTPProxy"), "h-t-t-p-proxy");
}

#[test]
fn kebab_case_of_non_ascii() {
    assert_eq!(to_kebab_case("ÉtéFort"), "été-fort");
    assert_eq!(to_kebab_case("ΣΑ"), "σ-α");
}

#[test]
fn underscores_for_dashes() {
    assert_eq!(dashes_to_underscores("dry-run"), "dry_run");
    assert_eq!(dashes_to_underscores("a--b-"), "a__b_");
    assert_eq!(dashes_to_underscores("plain"), "plain");
}

#[test]
fn concat_joins() {
    assert_eq!(concat_str("no-", "net"), "no-net");
    assert_eq!(concat_str("", ""), "");
}

#[test]
fn network_generates_network_flags() {
    let p = plan(two_variants("Network", "Online", "Offline"));
    assert_eq!(p.struct_name, "NetworkArg");
    assert_eq!(p.enum_name, "Network");
    assert_eq!(p.pos_variant, "Online");
    assert_eq!(p.neg_variant, "Offline");
    assert_eq!(p.pos_flag, "network");
    assert_eq!(p.neg_flag, "no-network");
    assert_eq!(p.pos_field, "network");
    assert_eq!(p.neg_field, "no_network");
    assert_eq!(p.pos_help, None);
    assert_eq!(p.neg_help, None);
}

#[test]
fn dry_run_generates_kebab_flags() {
    let p = plan(two_variants("DryRun", "Yes", "No"));
    assert_eq!(p.struct_name, "DryRunArg");
    assert_eq!(p.pos_flag, "dry-run");
    assert_eq!(p.neg_flag, "no-dry-run");
    assert_eq!(p.pos_field, "dry_run");
    assert_eq!(p.neg_field, "no_dry_run");
}

#[test]
fn print_debug_generates_kebab_flags() {
    let p = plan(two_variants("PrintDebug", "Enabled", "Disabled"));
    assert_eq!(p.struct_name, "PrintDebugArg");
    assert_eq!(p.pos_flag, "print-debug");
    assert_eq!(p.neg_flag, "no-print-debug");
}

#[test]
fn name_attribute_overrides_stem() {
    let input = enum_input(
        "Network",
        vec![yesno(vec![meta("name", "net")])],
        vec![unit("Online", vec![]), unit("Offline", vec![])],
    );
    let p = plan(input);
    assert_eq!(p.struct_name, "NetworkArg");
    assert_eq!(p.pos_flag, "net");
    assert_eq!(p.neg_flag, "no-net");
    assert_eq!(p.pos_field, "net");
    assert_eq!(p.neg_field, "no_net");
}

#[test]
fn name_with_dashes_gives_underscored_fields() {
    let input = enum_input(
        "Mode",
        vec![yesno(vec![meta("name", "use-cache")])],
        vec![unit("On", vec![]), unit("Off", vec![])],
    );
    let p = plan(input);
    assert_eq!(p.pos_flag, "use-cache");
    assert_eq!(p.neg_flag, "no-use-cache");
    assert_eq!(p.pos_field, "use_cache");
    assert_eq!(p.neg_field, "no_use_cache");
}

#[test]
fn last_name_wins() {
    let input = enum_input(
        "Network",
        vec![yesno(vec![meta("name", "a"), meta("name", "b")]), yesno(vec![meta("name", "c")])],
        vec![unit("Online", vec![]), unit("Offline", vec![])],
    );
    assert_eq!(plan(input).pos_flag, "c");
}

#[test]
fn other_attributes_are_ignored() {
    let doc = Attribute {
        path: "doc".to_string(),
        items: vec![meta("anything", "x")],
        trailing_error: Some("expected attribute arguments in parentheses".to_string()),
    };
    let input = enum_input(
        "Network",
        vec![doc],
        vec![unit("Online", vec![]), unit("Offline", vec![])],
    );
    assert_eq!(plan(input).pos_flag, "network");
}

#[test]
fn help_texts_are_passed_on() {
    let input = enum_input(
        "Network",
        vec![],
        vec![
            unit("Online", vec![yesno(vec![meta("help", "Connect to the network")])]),
            unit("Offline", vec![yesno(vec![meta("help", "Work without a network")])]),
        ],
    );
    let p = plan(input);
    assert_eq!(p.pos_help, Some("Connect to the network".to_string()));
    assert_eq!(p.neg_help, Some("Work without a network".to_string()));
}

#[test]
fn help_on_one_variant_only() {
    let input = enum_input(
        "Network",
        vec![],
        vec![unit("Online", vec![]), unit("Offline", vec![yesno(vec![meta("help", "offline")])])],
    );
    let p = plan(input);
    assert_eq!(p.pos_help, None);
    assert_eq!(p.neg_help, Some("offline".to_string()));
}

#[test]
fn not_an_enum() {
    let input = DeriveInput { ident: "Foo".to_string(), attrs: vec![], data: Data::Other };
    let e = refusal(input);
    assert!(matches!(e, DeriveError::NotAnEnum));
    assert_eq!(e.message(), "YesNoArg can only be used on enums");
}

#[test]
fn wrong_variant_count() {
    let input = enum_input(
        "Three",
        vec![],
        vec![unit("A", vec![]), unit("B", vec![]), unit("C", vec![])],
    );
    let e = refusal(input);
    assert!(matches!(e, DeriveError::WrongVariantCount));
    assert_eq!(e.message(), "YesNoArg requires exactly two variants");
    let one = enum_input("One", vec![], vec![unit("A", vec![])]);
    assert!(matches!(refusal(one), DeriveError::WrongVariantCount));
    let none = enum_input("Empty", vec![], vec![]);
    assert!(matches!(refusal(none), DeriveError::WrongVariantCount));
}

#[test]
fn variants_with_fields() {
    let with_data = Variant { ident: "A".to_string(), attrs: vec![], is_unit: false };
    let input = enum_input("WithData", vec![], vec![with_data, unit("B", vec![])]);
    let e = refusal(input);
    assert!(matches!(e, DeriveError::VariantWithFields(0)));
    assert_eq!(e.message(), "YesNoArg variants must have no fields");
    let second = Variant { ident: "B".to_string(), attrs: vec![], is_unit: false };
    let input = enum_input("WithData", vec![], vec![unit("A", vec![]), second]);
    assert!(matches!(refusal(input), DeriveError::VariantWithFields(1)));
}

#[test]
fn unknown_enum_attr() {
    let input = enum_input(
        "Foo",
        vec![yesno(vec![meta("unknown", "x")])],
        vec![unit("A", vec![]), unit("B", vec![])],
    );
    let e = refusal(input);
    match &e {
        DeriveError::Attr { owner: AttrOwner::Enum, error } => {
            assert_eq!(error.attr, 0);
            assert_eq!(error.item, 0);
        }
        _ => panic!("wrong refusal"),
    }
    assert_eq!(e.message(), "unexpected yesno attribute; expected `name`");
}

#[test]
fn unknown_variant_attr() {
    let input = enum_input(
        "Bar",
        vec![],
        vec![unit("A", vec![yesno(vec![meta("unknown", "x")])]), unit("B", vec![])],
    );
    let e = refusal(input);
    assert!(matches!(e, DeriveError::Attr { owner: AttrOwner::Variant(0), .. }));
    assert_eq!(e.message(), "unexpected yesno attribute; expected `help`");
}

#[test]
fn help_is_not_accepted_on_the_enum() {
    let input = enum_input(
        "Foo",
        vec![yesno(vec![meta("help", "x")])],
        vec![unit("A", vec![]), unit("B", vec![])],
    );
    assert_eq!(refusal(input).message(), "unexpected yesno attribute; expected `name`");
}

#[test]
fn enum_attr_refusal_precedes_shape_checks() {
    let input = DeriveInput {
        ident: "S".to_string(),
        attrs: vec![yesno(vec![meta("bogus", "x")])],
        data: Data::Other,
    };
    let e = refusal(input);
    assert!(matches!(e, DeriveError::Attr { owner: AttrOwner::Enum, .. }));
}

#[test]
fn field_check_precedes_variant_attrs() {
    let bad = Variant {
        ident: "B".to_string(),
        attrs: vec![],
        is_unit: false,
    };
    let input = enum_input(
        "E",
        vec![],
        vec![unit("A", vec![yesno(vec![meta("bogus", "x")])]), bad],
    );
    assert!(matches!(refusal(input), DeriveError::VariantWithFields(1)));
}

#[test]
fn first_variant_attrs_are_read_before_second() {
    let input = enum_input(
        "E",
        vec![],
        vec![
            unit("A", vec![yesno(vec![meta("x", "1")])]),
            unit("B", vec![yesno(vec![meta("y", "2")])]),
        ],
    );
    assert!(matches!(refusal(input), DeriveError::Attr { owner: AttrOwner::Variant(0), .. }));
}

#[test]
fn invalid_value_message_is_passed_on() {
    let bad = NestedMeta { path: "name".to_string(), value: Err("expected `=`".to_string()) };
    let attrs = vec![Attribute { path: "other".to_string(), items: vec![], trailing_error: None }, yesno(vec![meta("name", "a"), bad])];
    match parse_yesno_enum_attrs(&attrs) {
        Err(e) => {
            assert_eq!(e.attr, 1);
            assert_eq!(e.item, 1);
            assert!(matches!(&e.kind, AttrErrorKind::InvalidValue(m) if m == "expected `=`"));
        }
        Ok(_) => panic!("accepted"),
    }
}

#[test]
fn malformed_list_is_reported_after_its_items() {
    let attrs = vec![Attribute {
        path: "yesno".to_string(),
        items: vec![meta("help", "h")],
        trailing_error: Some("expected `,`".to_string()),
    }];
    match parse_yesno_variant_attrs(&attrs) {
        Err(e) => {
            assert_eq!(e.attr, 0);
            assert_eq!(e.item, 1);
            assert!(matches!(&e.kind, AttrErrorKind::Malformed(m) if m == "expected `,`"));
        }
        Ok(_) => panic!("accepted"),
    }
}

#[test]
fn unexpected_key_is_reported_before_a_bad_value() {
    let bad_value = NestedMeta { path: "name".to_string(), value: Err("expected string literal".to_string()) };
    let attrs = vec![yesno(vec![meta("other", "x"), bad_value])];
    match parse_yesno_enum_attrs(&attrs) {
        Err(e) => {
            assert_eq!(e.item, 0);
            assert!(matches!(&e.kind, AttrErrorKind::UnexpectedKey(k) if k == "name"));
        }
        Ok(_) => panic!("accepted"),
    }
}

#[test]
fn empty_yesno_attribute_is_accepted() {
    let attrs = vec![yesno(vec![])];
    assert_eq!(parse_yesno_variant_attrs(&attrs).ok().map(|a| a.help), Some(None));
}

#[test]
fn path_must_be_a_single_ident() {
    let attrs = vec![yesno(vec![meta("a::name", "x")])];
    assert!(parse_yesno_enum_attrs(&attrs).is_err());
    let attrs = vec![Attribute { path: "x::yesno".to_string(), items: vec![meta("bogus", "x")], trailing_error: None }];
    assert_eq!(parse_yesno_enum_attrs(&attrs).ok().map(|a| a.name), Some(None));
}

#[test]
fn flag_choice_positive() {
    assert_eq!(flag_choice(true, false), Some(Polarity::Positive));
}

#[test]
fn flag_choice_negative() {
    assert_eq!(flag_choice(false, true), Some(Polarity::Negative));
}

#[test]
fn flag_choice_omitted() {
    assert_eq!(flag_choice(false, false), None);
}

#[test]
fn flag_choice_both_prefers_positive() {
    assert_eq!(flag_choice(true, true), Some(Polarity::Positive));
}

#[test]
fn kebab_from_classified_cases() {
    let cases = vec![(true, 'd'), (false, 'r'), (false, 'y'), (true, 'r'), (false, 'u'), (false, 'n')];
    assert_eq!(kebab_from_cases(&cases), "dry-run");
    assert_eq!(kebab_from_cases(&vec![]), "");
    assert_eq!(kebab_from_cases(&vec![(true, 'x')]), "x");
    assert_eq!(kebab_from_cases(&vec![(false, 'a'), (true, 'b'), (true, 'c')]), "a-b-c");
}

#[test]
fn kebab_case_is_idempotent_on_ascii() {
    for s in ["DryRun", "HTTPServer", "Ipv4Addr", "a-b_C", "", "X", "already-kebab"] {
        let once = to_kebab_case(s);
        assert_eq!(to_kebab_case(&once), once);
    }
    assert_eq!(to_kebab_case("HTTPServer"), "h-t-t-p-server");
    assert_eq!(to_kebab_case("Ipv4Addr"), "ipv4-addr");
}

#[test]
fn raw_variant_names_are_kept() {
    let p = plan(two_variants("Kind", "r#type", "r#struct"));
    assert_eq!(p.pos_variant, "r#type");
    assert_eq!(p.neg_variant, "r#struct");
}
