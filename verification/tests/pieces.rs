use dart_typegen::codegen::enumeration::variant_value;
use dart_typegen::codegen::immutable::{extends_clause, extra_lines};
use dart_typegen::codegen::ready::{
    field_type, is_class_ready, is_enum_ready, is_field_ready, is_literal_ready,
};
use dart_typegen::codegen::util::{
    annotations, default_of, default_suffix, generates_equals, generates_to_string, optional_doc,
    optional_line, required_keyword,
};
use dart_typegen::context::{describe_expected, parse_error_diagnostic, Context};
use dart_typegen::diagnostic::{Diagnostic, Label, Severity};
use dart_typegen::model::options::Defaults;
use dart_typegen::model::value::{Literal, Radix, Value};
use dart_typegen::model::{Class, Enum, EnumVariant, Field, Library, Union};
use dart_typegen::span::{Span, SpannedScalar};
use dart_typegen::ty::grammar::{Expected, ParseError};
use dart_typegen::ty::parse::parse;
use dart_typegen::validate::collect::{extend, nothing, only};
use dart_typegen::validate::rules::check_map_keys;

fn span(start: usize, end: usize) -> Span {
    Span { start, end }
}

fn text(value: &str) -> SpannedScalar<String> {
    SpannedScalar::new(value.to_string(), span(0, 0))
}

fn field(name: &str, ty: &str) -> Field {
    Field {
        name: text(name),
        ty: text(ty),
        defaults_to: None,
        defaults_to_dart: None,
        docs: None,
        to_json: None,
        from_json: None,
        json_key: None,
    }
}

fn class(name: &str, fields: Vec<Field>) -> Class {
    Class {
        span: span(0, 0),
        name: text(name),
        allow_non_pascal_case: None,
        fields,
        docs: None,
        json_key_case: None,
        json_discriminant_value: None,
        annotations: None,
        builder_annotations: None,
        extra_dart: None,
        builder_extra_dart: None,
    }
}

fn union(name: &str, classes: Vec<Class>) -> Union {
    Union {
        span: span(0, 0),
        name: text(name),
        sealed: None,
        json_discriminant: None,
        json_discriminant_value_case: None,
        docs: None,
        classes,
        extra_dart: vec![],
    }
}

fn library() -> Library {
    Library {
        preamble: None,
        postamble: None,
        meta: None,
        defaults: None,
        enums: vec![],
        classes: vec![],
        unions: vec![],
    }
}

fn number(radix: Radix, digits: &str) -> Value {
    Value { span: span(1, 2), literal: Literal::Int(radix, digits.to_string()) }
}

#[test]
fn spans_and_scalars_hold_what_they_are_given() {
    assert_eq!(Span::new(3, 9), Span { start: 3, end: 9 });
    let scalar = SpannedScalar::new(true, span(1, 5));
    assert_eq!(scalar.value, true);
    assert_eq!(scalar.span, span(1, 5));
}

#[test]
fn findings_are_built_with_their_labels() {
    assert_eq!(Label::plain(span(1, 2)), Label { span: span(1, 2), text: None });
    assert_eq!(
        Label::captioned(span(1, 2), "here"),
        Label { span: span(1, 2), text: Some("here".to_string()) }
    );
    let at = Diagnostic::at(Severity::Warning, "m", span(1, 2), None);
    assert_eq!(
        at,
        Diagnostic {
            severity: Severity::Warning,
            message: "m".to_string(),
            labels: vec![Label::plain(span(1, 2))],
            help: None,
        }
    );
    assert!(at.is_warning());
    let captioned =
        Diagnostic::captioned(Severity::Error, "m", span(1, 2), "c", Some("h".to_string()));
    assert_eq!(captioned.labels, vec![Label::captioned(span(1, 2), "c")]);
    assert_eq!(captioned.help.as_deref(), Some("h"));
    assert!(!captioned.is_warning());
    let between = Diagnostic::between(
        Severity::Error,
        "m",
        Label::captioned(span(1, 2), "a"),
        Label::plain(span(3, 4)),
        None,
    );
    assert_eq!(between.labels, vec![Label::captioned(span(1, 2), "a"), Label::plain(span(3, 4))]);
}

#[test]
fn findings_are_put_together_in_order() {
    let a = Diagnostic::at(Severity::Error, "a", span(0, 0), None);
    let b = Diagnostic::at(Severity::Error, "b", span(0, 0), None);
    let c = Diagnostic::at(Severity::Error, "c", span(0, 0), None);
    assert_eq!(nothing(), vec![]);
    assert_eq!(only(a.clone()), vec![a.clone()]);
    let mut out = only(a.clone());
    extend(&mut out, vec![b.clone(), c.clone()]);
    extend(&mut out, nothing());
    assert_eq!(out, vec![a, b, c]);
}

#[test]
fn a_failed_parse_is_reported_where_it_stopped() {
    assert_eq!(describe_expected(Expected::Name), "expected a type name");
    assert_eq!(describe_expected(Expected::Comma), "expected `,`");
    assert_eq!(describe_expected(Expected::Close), "expected `>`");
    assert_eq!(describe_expected(Expected::CommaOrClose), "expected `,` or `>`");
    assert_eq!(describe_expected(Expected::End), "expected the end of the type");
    assert_eq!(
        parse_error_diagnostic(ParseError { span: span(4, 5), expected: Expected::Close }),
        Diagnostic {
            severity: Severity::Error,
            message: "Failed to parse Dart type".to_string(),
            labels: vec![Label::plain(span(4, 5))],
            help: Some("expected `>`".to_string()),
        }
    );
}

#[test]
fn the_library_is_walked_classes_first_then_members() {
    let mut a = field("a", "int");
    a.defaults_to = Some(number(Radix::Dec, "1"));
    let mut c = field("c", "int");
    c.defaults_to = Some(number(Radix::Hex, "c"));
    let mut lib = library();
    lib.classes.push(class("One", vec![a, field("b", "int")]));
    lib.unions.push(union("U", vec![class("Two", vec![c]), class("Three", vec![])]));
    lib.unions.push(union("V", vec![class("Four", vec![field("d", "int")])]));
    lib.classes.push(class("Five", vec![]));
    let names = |v: Vec<&SpannedScalar<String>>| {
        v.iter().map(|n| n.value.clone()).collect::<Vec<_>>()
    };
    let classes: Vec<_> = lib.all_classes().iter().map(|c| c.name.value.clone()).collect();
    assert_eq!(classes, vec!["One", "Five", "Two", "Three", "Four"]);
    assert_eq!(
        names(lib.class_and_union_names()),
        vec!["One", "Five", "Two", "Three", "Four", "U", "V"]
    );
    assert_eq!(names(lib.type_names()), vec!["One", "Five", "Two", "Three", "Four", "U", "V"]);
    let fields: Vec<_> = lib.all_fields().iter().map(|f| f.name.value.clone()).collect();
    assert_eq!(fields, vec!["a", "b", "c", "d"]);
    assert_eq!(
        lib.all_raw_values(),
        vec![&number(Radix::Dec, "1"), &number(Radix::Hex, "c")]
    );
    assert_eq!(library().all_classes(), Vec::<&Class>::new());
}

#[test]
fn readiness_is_judged_part_by_part() {
    assert!(is_literal_ready(&None));
    assert!(is_literal_ready(&Some(number(Radix::Hex, "1"))));
    assert!(!is_literal_ready(&Some(number(Radix::Bin, "1"))));
    assert!(is_field_ready(&field("a", "Map<String, int>")));
    assert!(!is_field_ready(&field("a", "Map<String")));
    let mut both = field("a", "int");
    both.defaults_to = Some(number(Radix::Dec, "1"));
    both.defaults_to_dart = Some(text("1"));
    assert!(!is_field_ready(&both));
    assert!(is_class_ready(&class("A", vec![field("a", "int")])));
    assert!(!is_class_ready(&class("A", vec![field("a", "int"), both])));
    let mut stray = class("A", vec![]);
    stray.json_discriminant_value = Some(number(Radix::Oct, "7"));
    assert!(!is_class_ready(&stray));
    let variant = |v: Option<Value>| EnumVariant { name: text("v"), docs: None, json_value: v };
    let enumeration = |variants| Enum {
        span: span(0, 0),
        name: text("E"),
        docs: None,
        annotations: None,
        extra_dart: None,
        variants,
    };
    assert!(is_enum_ready(&enumeration(vec![variant(None), variant(Some(number(Radix::Dec, "1")))])));
    assert!(!is_enum_ready(&enumeration(vec![variant(Some(number(Radix::Bin, "1")))])));
    assert_eq!(variant_value(&variant(None)), "\"v\"");
    assert_eq!(variant_value(&variant(Some(number(Radix::Hex, "a")))), "0xa");
    assert_eq!(field_type(&field("a", " List<int> ")).to_text(), "List<int>");
}

#[test]
fn the_small_pieces_of_a_declaration() {
    assert_eq!(optional_line(&None), "");
    assert_eq!(optional_line(&Some(text("@a"))), "@a\n");
    assert_eq!(annotations(&None, &None), "");
    assert_eq!(annotations(&Some(text("@own")), &None), "@own\n");
    assert_eq!(annotations(&None, &Some(text("@all"))), "@all\n");
    assert_eq!(annotations(&Some(text("@own")), &Some(text("@all"))), "@own\n");
    assert_eq!(optional_doc(&None), "");
    assert_eq!(optional_doc(&Some(text("\nx\n"))), "/// x\n");
    assert_eq!(extra_lines(&None), "");
    assert_eq!(extra_lines(&Some(text("int a;"))), "int a;\n\n");
    let u = union("Shape", vec![]);
    assert_eq!(extends_clause(None, " "), "");
    assert_eq!(extends_clause(Some(&u), " "), "extends Shape ");
    assert_eq!(extends_clause(Some(&u), "Builder "), "extends ShapeBuilder ");

    let plain = field("a", "int");
    let mut literal = field("a", "int");
    literal.defaults_to = Some(number(Radix::Hex, "ff"));
    let mut dart = field("a", "int");
    dart.defaults_to_dart = Some(text("1 + 1"));
    let mut null = field("a", "int?");
    null.defaults_to = Some(Value { span: span(0, 0), literal: Literal::Null });
    assert_eq!(default_of(&plain), None);
    assert_eq!(default_of(&literal).as_deref(), Some("0xff"));
    assert_eq!(default_of(&dart).as_deref(), Some("1 + 1"));
    assert_eq!(default_of(&null).as_deref(), Some("null"));
    assert_eq!(required_keyword(&plain), "required");
    assert_eq!(required_keyword(&literal), "");
    assert_eq!(required_keyword(&dart), "");
    assert_eq!(default_suffix(&plain, "= "), "");
    assert_eq!(default_suffix(&literal, "= "), "= 0xff\n");
    assert_eq!(default_suffix(&dart, " = "), " = 1 + 1\n");
    assert_eq!(default_suffix(&null, "= "), "");

    let mut lib = library();
    assert!(generates_to_string(&lib));
    assert!(generates_equals(&lib));
    lib.defaults = Some(Defaults {
        generate_to_string: Some(SpannedScalar::new(false, span(0, 0))),
        generate_equals: None,
        dart_format_language_version: None,
        class: None,
        union: None,
        enumeration: None,
        field: None,
    });
    assert!(!generates_to_string(&lib));
    assert!(generates_equals(&lib));
}

#[test]
fn map_keys_are_checked_in_a_type_that_was_read() {
    assert_eq!(check_map_keys(&parse("Map<String, int>", 0).unwrap()), vec![]);
    let found = check_map_keys(&parse("Map<int, int>", 7).unwrap());
    assert_eq!(found.len(), 1);
    assert_eq!(found[0].labels, vec![Label::plain(span(11, 14))]);
}

#[test]
fn a_builder_factory_hands_its_parameters_to_the_builder() {
    let ctx = Context::in_memory(String::new(), library());
    let mut count = field("count", "int");
    count.defaults_to = Some(number(Radix::Dec, "3"));
    let cls = class("Foo", vec![field("id", "String"), count]);
    assert_eq!(
        ctx.generate_builder_factory(&cls),
        "static FooBuilder builder({\nrequired String id,\n int count = 3\n,\n}) => FooBuilder(\nid: id,\ncount: count,\n);\n"
    );
    assert_eq!(
        ctx.generate_builder_factory(&class("Unit", vec![])),
        "static UnitBuilder builder() => UnitBuilder();\n"
    );
    let e = Enum {
        span: span(0, 0),
        name: text("E"),
        docs: None,
        annotations: None,
        extra_dart: None,
        variants: vec![EnumVariant { name: text("a"), docs: None, json_value: None }],
    };
    assert_eq!(
        ctx.generate_to_string_enum(&e),
        "@override\nString toString() => switch (this)\n{\nE.a => \"a\",\n}\n;\n"
    );
}
