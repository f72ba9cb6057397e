use dart_typegen::context::Context;
use dart_typegen::diagnostic::{Diagnostic, Label, Severity};
use dart_typegen::model::meta::Meta;
use dart_typegen::model::options::{Defaults, FieldOptions, RenameCase};
use dart_typegen::model::value::{Literal, Radix, Value};
use dart_typegen::model::{Class, Enum, EnumVariant, Field, Library, Union};
use dart_typegen::span::{Span, SpannedScalar};
use dart_typegen::validate::rules::{
    duplicate_keys_among, judge_name_casing, duplicate_field_names, duplicate_json_keys, duplicate_type_names, empty_enum, empty_union,
    field_with_both_defaults, incorrect_type_name_case, invalid_field_types, invalid_int_literal,
    json_discrimminant_non_union_class, judge_version, version_too_low,
};
use dart_typegen::validate::{all_warnings, decide, MultiError};
use dart_typegen::version::ToolVersion;

fn tool(version: &str) -> ToolVersion {
    ToolVersion::parse(version).unwrap()
}

fn span(start: usize, end: usize) -> Span {
    Span { start, end }
}

fn text_at(value: &str, start: usize) -> SpannedScalar<String> {
    SpannedScalar { value: value.to_string(), span: span(start, start + value.len() + 2) }
}

fn text(value: &str) -> SpannedScalar<String> {
    text_at(value, 0)
}

fn library() -> Library {
    Library {
        preamble: None,
        postamble: None,
        meta: None,
        defaults: None,
        enums: vec![],
        classes: vec![],
        unions: vec![],
    }
}

fn class(name: &str, fields: Vec<Field>) -> Class {
    Class {
        span: span(0, 0),
        name: text(name),
        allow_non_pascal_case: None,
        fields,
        docs: None,
        json_key_case: None,
        json_discriminant_value: None,
        annotations: None,
        builder_annotations: None,
        extra_dart: None,
        builder_extra_dart: None,
    }
}

fn field(name: &str, ty: &str) -> Field {
    Field {
        name: text(name),
        ty: text(ty),
        defaults_to: None,
        defaults_to_dart: None,
        docs: None,
        to_json: None,
        from_json: None,
        json_key: None,
    }
}

fn union(name: &str, classes: Vec<Class>) -> Union {
    Union {
        span: span(0, 0),
        name: text(name),
        sealed: None,
        json_discriminant: None,
        json_discriminant_value_case: None,
        docs: None,
        classes,
        extra_dart: vec![],
    }
}

fn enumeration(name: &str, variants: &[&str]) -> Enum {
    Enum {
        span: span(0, 0),
        name: text(name),
        docs: None,
        annotations: None,
        extra_dart: None,
        variants: variants
            .iter()
            .map(|v| EnumVariant { name: text(v), docs: None, json_value: None })
            .collect(),
    }
}

fn integer(radix: Radix, digits: &str, at: Span) -> Value {
    Value { span: at, literal: Literal::Int(radix, digits.to_string()) }
}

fn errors_of(library: Library) -> Vec<Diagnostic> {
    Context::in_memory(String::new(), library).collect_errors(&tool("1.0.0"))
}

fn assert_error_count(count: usize, library: Library) {
    let errors = errors_of(library);
    assert_eq!(errors.len(), count, "{errors:#?}");
}

fn with_version(requirement: &str) -> Library {
    let mut lib = library();
    lib.meta = Some(Meta { version: Some(text_at(requirement, 20)) });
    lib
}

#[test]
fn validate_tests() {
    // empty union
    let mut lib = library();
    lib.unions.push(union("Foo", vec![]));
    assert_error_count(1, lib);

    // discriminant on non union class
    let mut lib = library();
    let mut foo = class("Foo", vec![]);
    foo.json_discriminant_value = Some(integer(Radix::Dec, "123", span(40, 43)));
    lib.classes.push(foo);
    assert_error_count(1, lib);
}

#[test]
fn an_empty_library_is_valid() {
    assert_error_count(0, library());
    let ctx = Context::in_memory(String::new(), library());
    assert_eq!(ctx.validate(true, &tool("1.0.0")), Ok(vec![]));
    assert_eq!(ctx.validate(false, &tool("1.0.0")), Ok(vec![]));
}

#[test]
fn a_name_that_is_not_pascal_case_is_reported_with_a_better_one() {
    let mut lib = library();
    let mut foo = class("fooBar", vec![]);
    foo.name = text_at("fooBar", 6);
    lib.classes.push(foo);
    let found = errors_of(lib);
    assert_eq!(
        found,
        vec![Diagnostic {
            severity: Severity::Error,
            message: "Type had name that was not PascalCase".to_string(),
            labels: vec![Label { span: span(6, 14), text: None }],
            help: Some("Try renaming it to `FooBar`".to_string()),
        }]
    );
    assert!(Context::in_memory(
        String::new(),
        Library { classes: vec![class("fooBar", vec![])], ..library() }
    )
    .validate(false, &tool("1.0.0"))
    .is_err());
}

#[test]
fn casing_is_checked_on_members_unions_and_enums_in_that_order() {
    let mut lib = library();
    lib.enums.push(enumeration("my_enum", &["a"]));
    lib.unions.push(union("some_union", vec![class("member_class", vec![])]));
    lib.classes.push(class("top_class", vec![]));
    let found = incorrect_type_name_case(&lib);
    let help: Vec<_> = found.iter().map(|d| d.help.clone().unwrap()).collect();
    assert_eq!(
        help,
        vec![
            "Try renaming it to `TopClass`",
            "Try renaming it to `MemberClass`",
            "Try renaming it to `SomeUnion`",
            "Try renaming it to `MyEnum`",
        ]
    );
}

#[test]
fn a_class_can_opt_out_of_the_casing_rule() {
    let mut lib = library();
    let mut odd = class("fooBar", vec![]);
    odd.allow_non_pascal_case = Some(SpannedScalar { value: true, span: span(0, 0) });
    lib.classes.push(odd);
    assert_eq!(incorrect_type_name_case(&lib), vec![]);

    let mut lib = library();
    let mut odd = class("fooBar", vec![]);
    odd.allow_non_pascal_case = Some(SpannedScalar { value: false, span: span(0, 0) });
    lib.classes.push(odd);
    assert_eq!(incorrect_type_name_case(&lib).len(), 1);
}

#[test]
fn every_declaration_that_shares_a_name_is_reported() {
    let mut lib = library();
    let mut first = class("Foo", vec![]);
    first.name = text_at("Foo", 10);
    let mut member = class("Foo", vec![]);
    member.name = text_at("Foo", 30);
    let mut e = enumeration("Foo", &["a"]);
    e.name = text_at("Foo", 50);
    lib.classes.push(first);
    lib.classes.push(class("Bar", vec![]));
    lib.unions.push(union("Baz", vec![member]));
    lib.enums.push(e);
    let found = duplicate_type_names(&lib);
    let spans: Vec<_> = found.iter().map(|d| d.labels[0].span).collect();
    assert_eq!(spans, vec![span(10, 15), span(30, 35), span(50, 55)]);
    assert!(found.iter().all(|d| d.severity == Severity::Error
        && d.message == "Duplicate type name"
        && d.help.as_deref() == Some("Try giving it a different name")));
}

#[test]
fn type_names_are_compared_case_sensitively() {
    let mut lib = library();
    lib.classes.push(class("Foo", vec![]));
    lib.classes.push(class("FOO", vec![]));
    assert_eq!(duplicate_type_names(&lib), vec![]);
}

#[test]
fn every_field_that_shares_a_name_within_its_class_is_reported() {
    let mut lib = library();
    let mut a = field("a", "int");
    a.name = text_at("a", 5);
    let mut again = field("a", "String");
    again.name = text_at("a", 25);
    lib.classes.push(class("Foo", vec![a, field("b", "int"), again]));
    lib.classes.push(class("Bar", vec![field("a", "int")]));
    lib.unions.push(union("U", vec![class("M", vec![field("x", "int"), field("x", "int")])]));
    let found = duplicate_field_names(&lib);
    assert_eq!(found.len(), 4);
    assert_eq!(found[0].labels, vec![Label { span: span(5, 8), text: None }]);
    assert_eq!(found[1].labels, vec![Label { span: span(25, 28), text: None }]);
    assert_eq!(found[0].message, "Duplicate field name");
}

#[test]
fn an_empty_union_is_reported_at_the_union() {
    let mut lib = library();
    let mut u = union("Foo", vec![]);
    u.span = span(3, 17);
    lib.unions.push(u);
    lib.unions.push(union("Bar", vec![class("A", vec![])]));
    assert_eq!(
        empty_union(&lib),
        vec![Diagnostic {
            severity: Severity::Error,
            message: "Union was empty".to_string(),
            labels: vec![Label { span: span(3, 17), text: None }],
            help: Some("Unions must contain at least one `class`".to_string()),
        }]
    );
}

#[test]
fn an_empty_enum_is_reported_at_the_enum() {
    let mut lib = library();
    let mut e = enumeration("Color", &[]);
    e.span = span(8, 20);
    lib.enums.push(e);
    lib.enums.push(enumeration("Other", &["red"]));
    assert_eq!(
        empty_enum(&lib),
        vec![Diagnostic {
            severity: Severity::Error,
            message: "Enum has no variants".to_string(),
            labels: vec![Label { span: span(8, 20), text: None }],
            help: Some("Add at least one variant, e.g. `variant \"myVariant\"`".to_string()),
        }]
    );
}

#[test]
fn a_field_with_both_defaults_gets_one_finding_that_points_at_both() {
    let mut lib = library();
    let mut f = field("x", "int");
    f.defaults_to = Some(integer(Radix::Dec, "1", span(30, 31)));
    f.defaults_to_dart = Some(text_at("2", 50));
    let mut only_literal = field("y", "int");
    only_literal.defaults_to = Some(integer(Radix::Dec, "1", span(60, 61)));
    let mut only_dart = field("z", "int");
    only_dart.defaults_to_dart = Some(text_at("2", 70));
    lib.classes.push(class("Foo", vec![f, only_literal, only_dart]));
    let found = field_with_both_defaults(&lib);
    assert_eq!(found.len(), 1);
    assert_eq!(found[0].severity, Severity::Error);
    assert_eq!(
        found[0].message,
        "Field has a definition for both `defaults-to` and `defaults-to-dart`"
    );
    assert_eq!(
        found[0].labels,
        vec![
            Label { span: span(30, 31), text: Some("`defaults-to` defined here".to_string()) },
            Label { span: span(50, 53), text: Some("`defaults-to-dart` defined here".to_string()) },
        ]
    );
    assert_eq!(errors_of(lib).len(), 1);
}

#[test]
fn integer_defaults_are_decimal_or_hexadecimal() {
    let mut lib = library();
    let mut fields = vec![];
    for (name, radix) in
        [("a", Radix::Bin), ("b", Radix::Dec), ("c", Radix::Oct), ("d", Radix::Hex)]
    {
        let mut f = field(name, "int");
        f.defaults_to = Some(integer(radix, "10", span(7, 11)));
        fields.push(f);
    }
    let mut s = field("s", "String");
    s.defaults_to = Some(Value { span: span(0, 0), literal: Literal::Str("0b1".to_string()) });
    fields.push(s);
    lib.unions.push(union("U", vec![class("Foo", fields)]));
    let found = invalid_int_literal(&lib);
    assert_eq!(found.len(), 2);
    assert_eq!(
        found[0],
        Diagnostic {
            severity: Severity::Error,
            message: "Invalid integer literal".to_string(),
            labels: vec![Label { span: span(7, 11), text: Some("invalid".to_string()) }],
            help: Some(
                "Integer literals must be either decimal (i.e. `1234`) or hexadecimal (i.e. `0x1234`)"
                    .to_string()
            ),
        }
    );
}

#[test]
fn a_discriminant_is_only_for_members_of_a_union() {
    let mut lib = library();
    let mut free = class("Foo", vec![]);
    free.json_discriminant_value = Some(integer(Radix::Dec, "123", span(40, 43)));
    let mut member = class("Bar", vec![]);
    member.json_discriminant_value = Some(integer(Radix::Dec, "5", span(80, 81)));
    lib.classes.push(free);
    lib.unions.push(union("U", vec![member]));
    assert_eq!(
        json_discrimminant_non_union_class(&lib),
        vec![Diagnostic {
            severity: Severity::Error,
            message: "Non-union class has `json-discriminant-value`".to_string(),
            labels: vec![Label { span: span(40, 43), text: Some("Remove this".to_string()) }],
            help: Some(
                "Only classes that are part of a union have a json discriminant, so this value is meaningless"
                    .to_string()
            ),
        }]
    );
}

#[test]
fn fields_that_resolve_to_one_key_are_reported_pair_by_pair() {
    let mut lib = library();
    let mut a = field("fooBar", "int");
    a.name = text_at("fooBar", 10);
    let mut b = field("other", "int");
    b.json_key = Some(text_at("foo_bar", 40));
    let mut c = field("foo_bar", "int");
    c.name = text_at("foo_bar", 70);
    let mut cls = class("Foo", vec![a, b, c]);
    cls.json_key_case = Some(SpannedScalar { value: RenameCase::Snake, span: span(0, 0) });
    lib.classes.push(cls);
    let found = duplicate_json_keys(&lib);
    assert_eq!(found.len(), 3);
    let pairs: Vec<_> =
        found.iter().map(|d| (d.labels[0].span.start, d.labels[1].span.start)).collect();
    assert_eq!(pairs, vec![(10, 40), (10, 70), (40, 70)]);
    assert_eq!(found[0].message, "Multiple fields have the same json key");
    assert_eq!(found[0].labels[0].text.as_deref(), Some("first field"));
    assert_eq!(found[0].labels[1].text.as_deref(), Some("second field"));
    assert_eq!(
        found[0].help.as_deref(),
        Some("Fields `fooBar` and `other` are both encoded under the key `foo_bar`")
    );
}

#[test]
fn keys_follow_the_default_casing_unless_the_class_has_its_own() {
    let mut lib = library();
    lib.defaults = Some(Defaults {
        generate_to_string: None,
        generate_equals: None,
        dart_format_language_version: None,
        class: None,
        union: None,
        enumeration: None,
        field: Some(FieldOptions {
            json_key_case: Some(SpannedScalar { value: RenameCase::Snake, span: span(0, 0) }),
        }),
    });
    lib.classes.push(class("Foo", vec![field("fooBar", "int"), field("foo_bar", "int")]));
    let mut kebab = class("Bar", vec![field("fooBar", "int"), field("foo_bar", "int")]);
    kebab.json_key_case = Some(SpannedScalar { value: RenameCase::Camel, span: span(0, 0) });
    lib.classes.push(kebab);
    let found = duplicate_json_keys(&lib);
    assert_eq!(found.len(), 2);
    assert_eq!(
        found[0].help.as_deref(),
        Some("Fields `fooBar` and `foo_bar` are both encoded under the key `foo_bar`")
    );
    assert_eq!(
        found[1].help.as_deref(),
        Some("Fields `fooBar` and `foo_bar` are both encoded under the key `fooBar`")
    );
}

#[test]
fn a_type_that_cannot_be_read_is_reported_where_reading_stopped_and_at_the_field() {
    let mut lib = library();
    let mut bad = field("x", "List<int");
    bad.ty = text_at("List<int", 100);
    let mut good = field("y", "List<int>");
    good.ty = text_at("List<int>", 200);
    let mut worse = field("z", "");
    worse.ty = text_at("", 300);
    lib.classes.push(class("Foo", vec![bad, good, worse]));
    let found = invalid_field_types(&lib);
    assert_eq!(
        found,
        vec![
            Diagnostic {
                severity: Severity::Error,
                message: "Failed to parse Dart type".to_string(),
                labels: vec![Label { span: span(108, 108), text: None }],
                help: Some("expected `,` or `>`".to_string()),
            },
            Diagnostic {
                severity: Severity::Error,
                message: "Invalid Field Type".to_string(),
                labels: vec![Label { span: span(100, 110), text: None }],
                help: Some("Failed to parse type".to_string()),
            },
            Diagnostic {
                severity: Severity::Error,
                message: "Failed to parse Dart type".to_string(),
                labels: vec![Label { span: span(300, 300), text: None }],
                help: Some("expected a type name".to_string()),
            },
            Diagnostic {
                severity: Severity::Error,
                message: "Invalid Field Type".to_string(),
                labels: vec![Label { span: span(300, 302), text: None }],
                help: Some("Failed to parse type".to_string()),
            },
        ]
    );
}

#[test]
fn every_reason_for_a_failed_parse_has_its_own_text() {
    let help = |ty: &str| {
        let mut lib = library();
        lib.classes.push(class("Foo", vec![field("x", ty)]));
        invalid_field_types(&lib)[0].help.clone().unwrap()
    };
    assert_eq!(help("<"), "expected a type name");
    assert_eq!(help("Map<A>"), "expected `,`");
    assert_eq!(help("Set<A,,"), "expected `>`");
    assert_eq!(help("Set<A"), "expected `,` or `>`");
    assert_eq!(help("A B"), "expected the end of the type");
}

#[test]
fn a_type_that_does_not_fit_the_document_is_reported_and_not_read() {
    let mut lib = library();
    let mut f = field("x", "int");
    f.ty = SpannedScalar { value: "int".to_string(), span: span(usize::MAX - 1, usize::MAX) };
    lib.classes.push(class("Foo", vec![f]));
    let found = invalid_field_types(&lib);
    assert_eq!(found.len(), 1);
    assert_eq!(found[0].help.as_deref(), Some("Failed to parse type"));
    assert_eq!(found[0].labels[0].span, span(usize::MAX - 1, usize::MAX));
}

#[test]
fn a_map_is_keyed_by_string() {
    let mut lib = library();
    let mut bad = field("a", "Map<int, String>");
    bad.ty = text_at("Map<int, String>", 10);
    lib.classes.push(class(
        "Foo",
        vec![
            bad,
            field("b", "Map<String, int>"),
            field("c", "Map<String?, int>"),
            field("d", "Map<List<String>, int>"),
            field("e", "List<int>"),
        ],
    ));
    let found = invalid_field_types(&lib);
    assert_eq!(found.len(), 3);
    assert_eq!(
        found[0],
        Diagnostic {
            severity: Severity::Error,
            message: "Invalid Field Type".to_string(),
            labels: vec![Label { span: span(14, 17), text: None }],
            help: Some("Only `String` is supported as a Map key type".to_string()),
        }
    );
}

#[test]
fn a_requirement_that_the_tool_does_not_meet_is_a_warning_with_both_versions() {
    let lib = with_version("99.0.0");
    let found = version_too_low(&lib, &tool("1.0.0"));
    assert_eq!(
        found,
        vec![Diagnostic {
            severity: Severity::Warning,
            message: "This config requires `dart-typegen` version 99.0.0 (or any semver-compatible version), but the current version is 1.0.0"
                .to_string(),
            labels: vec![Label {
                span: span(20, 28),
                text: Some("Version defined here".to_string())
            }],
            help: None,
        }]
    );
    let ctx = Context::in_memory(String::new(), lib);
    assert_eq!(ctx.validate(false, &tool("1.0.0")), Ok(found.clone()));
    assert_eq!(ctx.validate(true, &tool("1.0.0")), Err(MultiError { errors: found }));
}

#[test]
fn a_requirement_that_the_tool_meets_is_fine() {
    for requirement in ["1.0.0", "^1", ">=0.9, <2", "*", "1.0"] {
        assert_eq!(version_too_low(&with_version(requirement), &tool("1.0.0")), vec![], "{requirement}");
    }
    let newer = tool("1.12.3");
    assert_eq!(version_too_low(&with_version("~1.12.1"), &newer), vec![]);
    assert_eq!(version_too_low(&with_version("~1.12.4"), &newer).len(), 1);
    assert_eq!(version_too_low(&library(), &tool("1.0.0")), vec![]);
    let mut lib = library();
    lib.meta = Some(Meta { version: None });
    assert_eq!(version_too_low(&lib, &tool("1.0.0")), vec![]);
}

#[test]
fn a_requirement_that_is_none_is_an_error() {
    let found = version_too_low(&with_version("not a version"), &tool("1.0.0"));
    assert_eq!(
        found,
        vec![Diagnostic {
            severity: Severity::Error,
            message: "This version is not a valid semantic version".to_string(),
            labels: vec![Label {
                span: span(20, 35),
                text: Some("Not valid semantic version".to_string())
            }],
            help: None,
        }]
    );
    let ctx = Context::in_memory(String::new(), with_version("not a version"));
    assert!(ctx.validate(false, &tool("1.0.0")).is_err());
}

#[test]
fn the_verdict_on_a_version_goes_by_the_check_alone() {
    let required = text_at("2", 4);
    assert_eq!(judge_version(&required, "9.10.0", Some(true)), vec![]);
    assert_eq!(judge_version(&required, "9.10.0", None)[0].severity, Severity::Error);
    let warning = &judge_version(&required, "9.10.0-rc.1+build", Some(false))[0];
    assert_eq!(warning.severity, Severity::Warning);
    assert_eq!(
        warning.message,
        "This config requires `dart-typegen` version 2 (or any semver-compatible version), but the current version is 9.10.0-rc.1+build"
    );
}

#[test]
fn the_version_of_the_tool_is_a_version_as_it_is_spelled() {
    assert_eq!(ToolVersion::parse("1.2.3").unwrap().as_str(), "1.2.3");
    assert_eq!(ToolVersion::parse("1.0.0-alpha.1+exp.sha").unwrap().as_str(), "1.0.0-alpha.1+exp.sha");
    assert_eq!(tool("0.1.0").clone(), tool("0.1.0"));
    for none in ["", "1", "1.2", "1.2.x", "v1.2.3", "1.2.3 ", "01.2.3", "^1.2.3", "1.2.3-"] {
        assert_eq!(ToolVersion::parse(none), None, "{none}");
    }
}

#[test]
fn a_tool_before_its_release_is_matched_with_its_tag() {
    let lib = with_version("1.2.0");
    assert_eq!(version_too_low(&lib, &tool("1.2.0")), vec![]);
    assert_eq!(version_too_low(&lib, &tool("1.3.5")), vec![]);
    let found = version_too_low(&lib, &tool("1.3.0-beta.1"));
    assert_eq!(found.len(), 1);
    assert_eq!(
        found[0].message,
        "This config requires `dart-typegen` version 1.2.0 (or any semver-compatible version), but the current version is 1.3.0-beta.1"
    );
    assert_eq!(version_too_low(&with_version(">=1.3.0-alpha"), &tool("1.3.0-beta.1")), vec![]);
}

#[test]
fn every_rule_runs_and_the_findings_come_rule_by_rule() {
    let mut lib = with_version("99");
    let mut both = field("x", "Map<int, int>");
    both.defaults_to = Some(integer(Radix::Oct, "7", span(0, 0)));
    both.defaults_to_dart = Some(text("7"));
    let mut stray = class("fooBar", vec![both, field("x", "int")]);
    stray.json_discriminant_value = Some(integer(Radix::Dec, "1", span(0, 0)));
    lib.classes.push(stray);
    lib.classes.push(class("fooBar", vec![]));
    lib.unions.push(union("Empty", vec![]));
    lib.enums.push(enumeration("Nothing", &[]));
    let found = errors_of(lib.clone());
    let messages: Vec<_> = found.iter().map(|d| d.message.as_str()).collect();
    assert_eq!(
        messages,
        vec![
            "Type had name that was not PascalCase",
            "Type had name that was not PascalCase",
            "Duplicate type name",
            "Duplicate type name",
            "Duplicate field name",
            "Duplicate field name",
            "Union was empty",
            "Field has a definition for both `defaults-to` and `defaults-to-dart`",
            "Invalid integer literal",
            "Enum has no variants",
            "Non-union class has `json-discriminant-value`",
            "Multiple fields have the same json key",
            "Invalid Field Type",
            "This config requires `dart-typegen` version 99 (or any semver-compatible version), but the current version is 1.0.0",
        ]
    );
    let ctx = Context::in_memory(String::new(), lib);
    assert_eq!(ctx.validate(false, &tool("1.0.0")), Err(MultiError { errors: found.clone() }));
    assert_eq!(ctx.validate(true, &tool("1.0.0")), Err(MultiError { errors: found }));
}

#[test]
fn a_run_passes_on_nothing_or_on_warnings_that_are_not_denied() {
    let warning = Diagnostic {
        severity: Severity::Warning,
        message: "w".to_string(),
        labels: vec![Label { span: span(0, 0), text: None }],
        help: None,
    };
    let error = Diagnostic { severity: Severity::Error, ..warning.clone() };
    assert!(all_warnings(&vec![]));
    assert!(all_warnings(&vec![warning.clone(), warning.clone()]));
    assert!(!all_warnings(&vec![warning.clone(), error.clone()]));
    assert_eq!(decide(vec![], true), Ok(vec![]));
    assert_eq!(decide(vec![warning.clone()], false), Ok(vec![warning.clone()]));
    assert_eq!(
        decide(vec![warning.clone()], true),
        Err(MultiError { errors: vec![warning.clone()] })
    );
    assert_eq!(
        decide(vec![warning.clone(), error.clone()], false),
        Err(MultiError { errors: vec![warning.clone(), error.clone()] })
    );
}

#[test]
fn a_valid_library_has_unique_names_and_keys_and_pascal_case() {
    let mut lib = library();
    lib.classes.push(class("Point", vec![field("x", "int"), field("y", "int")]));
    lib.unions.push(union(
        "Shape",
        vec![class("Circle", vec![field("r", "int")]), class("Square", vec![])],
    ));
    lib.enums.push(enumeration("Color", &["red"]));
    assert_error_count(0, lib.clone());
    let names: Vec<_> = lib.type_names().iter().map(|n| n.value.clone()).collect();
    assert_eq!(names, vec!["Point", "Circle", "Square", "Shape", "Color"]);
    let mut sorted = names.clone();
    sorted.sort();
    sorted.dedup();
    assert_eq!(sorted.len(), names.len());
    for class in lib.all_classes() {
        let mut keys: Vec<_> = class.fields.iter().map(|f| lib.json_key_for(class, f)).collect();
        let count = keys.len();
        keys.sort();
        keys.dedup();
        assert_eq!(keys.len(), count);
    }
}

#[test]
fn the_verdict_on_a_name_goes_by_what_is_known_of_it() {
    let name = text_at("odd", 3);
    assert_eq!(judge_name_casing(&name, true, false, "Odd"), vec![]);
    assert_eq!(judge_name_casing(&name, false, true, "Odd"), vec![]);
    assert_eq!(judge_name_casing(&name, true, true, "Odd"), vec![]);
    assert_eq!(
        judge_name_casing(&name, false, false, "Better"),
        vec![Diagnostic {
            severity: Severity::Error,
            message: "Type had name that was not PascalCase".to_string(),
            labels: vec![Label { span: span(3, 8), text: None }],
            help: Some("Try renaming it to `Better`".to_string()),
        }]
    );
}

#[test]
fn keys_that_are_the_same_clash_whatever_the_fields_are_called() {
    let mut a = field("a", "int");
    a.name = text_at("a", 1);
    let mut b = field("b", "int");
    b.name = text_at("b", 2);
    let mut c = field("c", "int");
    c.json_key = Some(text_at("see", 3));
    let cls = class("Foo", vec![a, b, c]);
    let keys = |k: [&str; 3]| k.iter().map(|s| s.to_string()).collect::<Vec<_>>();
    assert_eq!(duplicate_keys_among(&cls, &keys(["x", "y", "z"])), vec![]);
    let found = duplicate_keys_among(&cls, &keys(["x", "y", "x"]));
    assert_eq!(found.len(), 1);
    assert_eq!(found[0].labels[0].span, span(1, 4));
    assert_eq!(found[0].labels[1].span, span(3, 8));
    assert_eq!(
        found[0].help.as_deref(),
        Some("Fields `a` and `c` are both encoded under the key `x`")
    );
    let found = duplicate_keys_among(&cls, &keys(["", "", ""]));
    let pairs: Vec<_> =
        found.iter().map(|d| (d.labels[0].span.start, d.labels[1].span.start)).collect();
    assert_eq!(pairs, vec![(1, 2), (1, 3), (2, 3)]);
}

#[test]
fn maps_are_keyed_by_string_at_every_depth() {
    let mut lib = library();
    let mut nested = field("a", "List<Map<int, Map<String, Map<bool, int>?>>>");
    nested.ty = text_at("List<Map<int, Map<String, Map<bool, int>?>>>", 0);
    let mut in_key = field("b", "Map<Map<int, int>, int>");
    in_key.ty = text_at("Map<Map<int, int>, int>", 100);
    lib.classes.push(class("Foo", vec![nested, in_key, field("c", "Set<Map<String, int>>")]));
    let found = invalid_field_types(&lib);
    let spans: Vec<_> = found.iter().map(|d| d.labels[0].span).collect();
    assert_eq!(spans, vec![span(9, 12), span(30, 34), span(104, 117), span(108, 111)]);
    assert!(found
        .iter()
        .all(|d| d.help.as_deref() == Some("Only `String` is supported as a Map key type")));
}
