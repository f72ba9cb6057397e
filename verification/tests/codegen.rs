use dart_typegen::context::Context;
use dart_typegen::args::{run, Args, Cmd, Outcome, RunError};
use dart_typegen::codegen::equals::length_check;
use dart_typegen::codegen::doc::{is_blank, split_lines, write_doc_comment, write_doc_lines};
use dart_typegen::codegen::json::discriminant_entry;
use dart_typegen::codegen::union::decode_arm;
use dart_typegen::model::meta::Meta;
use dart_typegen::model::options::{
    ClassOptions, Defaults, EnumOptions, FieldOptions, RenameCase, UnionOptions,
};
use dart_typegen::model::util::{effective, first_given, format_dart_literal_const, quote};
use dart_typegen::ty::parse::parse;
use dart_typegen::version::ToolVersion;
use dart_typegen::model::value::{Literal, Radix, Value};
use dart_typegen::model::{Class, Enum, EnumVariant, Field, Library, Union};
use dart_typegen::span::{Span, SpannedScalar};
use dart_typegen::text::{braced, char_width, chars_of, same_text};

fn at<T>(value: T) -> SpannedScalar<T> {
    SpannedScalar { value, span: Span { start: 0, end: 0 } }
}

fn text(value: &str) -> SpannedScalar<String> {
    at(value.to_string())
}

fn library() -> Library {
    Library {
        preamble: None,
        postamble: None,
        meta: None,
        defaults: None,
        enums: vec![],
        classes: vec![],
        unions: vec![],
    }
}

fn defaults() -> Defaults {
    Defaults {
        generate_to_string: None,
        generate_equals: None,
        dart_format_language_version: None,
        class: None,
        union: None,
        enumeration: None,
        field: None,
    }
}

fn class(name: &str, fields: Vec<Field>) -> Class {
    Class {
        span: Span { start: 0, end: 0 },
        name: text(name),
        allow_non_pascal_case: None,
        fields,
        docs: None,
        json_key_case: None,
        json_discriminant_value: None,
        annotations: None,
        builder_annotations: None,
        extra_dart: None,
        builder_extra_dart: None,
    }
}

fn field(name: &str, ty: &str) -> Field {
    Field {
        name: text(name),
        ty: text(ty),
        defaults_to: None,
        defaults_to_dart: None,
        docs: None,
        to_json: None,
        from_json: None,
        json_key: None,
    }
}

fn union(name: &str, classes: Vec<Class>) -> Union {
    Union {
        span: Span { start: 0, end: 0 },
        name: text(name),
        sealed: None,
        json_discriminant: None,
        json_discriminant_value_case: None,
        docs: None,
        classes,
        extra_dart: vec![],
    }
}

fn context(library: Library) -> Context {
    Context::in_memory(String::new(), library)
}

fn generate(library: Library) -> String {
    context(library).generate().unwrap()
}

fn enumeration(name: &str, variants: Vec<EnumVariant>) -> Enum {
    Enum {
        span: Span { start: 0, end: 0 },
        name: text(name),
        docs: None,
        annotations: None,
        extra_dart: None,
        variants,
    }
}

fn variant(name: &str) -> EnumVariant {
    EnumVariant { name: text(name), docs: None, json_value: None }
}

fn literal(literal: Literal) -> Value {
    Value { span: Span { start: 0, end: 0 }, literal }
}

fn ty(src: &str) -> dart_typegen::ty::Ty {
    parse(src, 0).unwrap()
}

const POINT: &str = r#"final class Point {
final int x;
final int y;

const Point({
required this.x,
required this.y,
})
;

static PointBuilder builder({
required int x,
required int y,
}) => PointBuilder(
x: x,
y: y,
);
PointBuilder toBuilder() => PointBuilder(
x: x,
y: y,
);

Map<String, dynamic> toJson() => {
"x": x,
"y": y,
};
factory Point.fromJson(Map<String, dynamic> json) => Point(
x: json["x"] as int,
y: json["y"] as int,
);

@override
String toString() => "Point("
"x: $x, "
"y: $y"
")";
@override
 bool operator ==(Object other)
{
if (identical(this, other)) { return true;  }
if (other is! Point) { return false; }
if (x != other.x) { return false; }
if (y != other.y) { return false; }
return true;
}
@override
 int get hashCode => Object.hashAll([
x.hashCode,
y.hashCode,
]);
}
"#;

const POINT_BUILDER: &str = r#"/// Builder class for [Point]
final class PointBuilder {
int x;
int y;

PointBuilder({
required this.x,
required this.y,
});

Point build() => Point(
x: x,
y: y,
);
}
"#;

fn point() -> Class {
    class("Point", vec![field("x", "int"), field("y", "int")])
}

#[test]
fn a_class_of_two_integers() {
    let mut lib = library();
    lib.classes.push(point());
    let out = generate(lib);
    assert_eq!(out, format!("{POINT}{POINT_BUILDER}"));
}

#[test]
fn the_parts_of_a_class_can_be_generated_one_by_one() {
    let ctx = context(Library { classes: vec![point()], ..library() });
    let class = &ctx.library.classes[0];
    assert_eq!(ctx.codegen_immutable_class(class, None), POINT);
    assert_eq!(ctx.codegen_mutable_class(class, None), POINT_BUILDER);
    assert_eq!(
        ctx.generate_to_json(class, None),
        "Map<String, dynamic> toJson() => {\n\"x\": x,\n\"y\": y,\n};\n"
    );
    assert_eq!(
        ctx.generate_hash_code(class),
        "@override\n int get hashCode => Object.hashAll([\nx.hashCode,\ny.hashCode,\n]);\n"
    );
    assert_eq!(
        ctx.generate_to_string_class(class),
        "@override\nString toString() => \"Point(\"\n\"x: $x, \"\n\"y: $y\"\n\")\";\n"
    );
    assert_eq!(
        ctx.generate_equals_and_hash(class),
        format!("{}{}", ctx.generate_equals(class), ctx.generate_hash_code(class))
    );
}

#[test]
fn generating_twice_gives_the_same_text() {
    let mut lib = library();
    lib.classes.push(point());
    lib.unions.push(union("Shape", vec![class("Circle", vec![field("r", "List<int?>")])]));
    lib.enums.push(enumeration("Color", vec![variant("red")]));
    let ctx = context(lib.clone());
    assert_eq!(ctx.generate(), ctx.generate());
    assert_eq!(ctx.codegen(), generate(lib));
}

#[test]
fn a_class_without_fields() {
    let ctx = context(Library { classes: vec![class("Unit", vec![])], ..library() });
    let class = &ctx.library.classes[0];
    assert_eq!(
        ctx.codegen_immutable_class(class, None),
        r#"final class Unit {

const Unit()
;

static UnitBuilder builder() => UnitBuilder();
UnitBuilder toBuilder() => UnitBuilder(
);

Map<String, dynamic> toJson() => {
};
factory Unit.fromJson(Map<String, dynamic> json) => Unit(
);

@override
String toString() => "Unit("
")";
@override
 bool operator ==(Object other)
{
if (identical(this, other)) { return true;  }
if (other is! Unit) { return false; }
return true;
}
@override
 int get hashCode => Object.hashAll([
]);
}
"#
    );
    assert_eq!(
        ctx.codegen_mutable_class(class, None),
        "/// Builder class for [Unit]\nfinal class UnitBuilder {\n\nUnitBuilder()\n;\n\nUnit build() => Unit(\n);\n}\n"
    );
}

#[test]
fn a_list_of_sets_compares_hashes_and_encodes_by_shape() {
    let ctx = context(Library {
        classes: vec![class("Tagged", vec![field("tags", "List<Set<String>>")])],
        ..library()
    });
    let class = &ctx.library.classes[0];
    let field = &class.fields[0];
    assert_eq!(
        ctx.generate_field_equals(field),
        "if (tags.length != other.tags.length) { return false; }\nfor (var i = 0; i < tags.length; i++)\n{\nif (!(tags[i].length == other.tags[i].length && tags[i].every((e_) => other.tags[i].any((o_) => e_ == o_)))) { return false; }\n}\n"
    );
    assert_eq!(
        ctx.write_hash_for_field("tags", &ty("List<Set<String>>")),
        "Object.hashAll(tags.map((elem) => Object.hashAllUnordered(elem.map((elem) => elem.hashCode))))"
    );
    assert_eq!(
        ctx.generate_to_json(class, None),
        "Map<String, dynamic> toJson() => {\n\"tags\": tags.map((elem) => elem.map((elem) => elem).toList()).toList(),\n};\n"
    );
    assert_eq!(
        ctx.generate_from_json(class),
        "factory Tagged.fromJson(Map<String, dynamic> json) => Tagged(\ntags: (json[\"tags\"] as List<dynamic>).map((elem) => (elem as List<dynamic>).map((elem) => elem as String).toSet()).toList(),\n);\n"
    );
}

#[test]
fn equality_goes_by_the_shape_of_the_type() {
    let ctx = context(library());
    let eq = |src: &str| ctx.write_equals_expr("a", "b", &ty(src), "");
    assert_eq!(eq("int"), "a == b");
    assert_eq!(eq("List<int>?"), "a == b");
    assert_eq!(
        eq("List<int>"),
        "a.length == b.length && Iterable<int>.generate(a.length).every((i) => a[i] == b[i])"
    );
    assert_eq!(
        eq("Set<int?>"),
        "a.length == b.length && a.every((e) => b.any((o) => e == o))"
    );
    assert_eq!(
        eq("Map<String, int>"),
        "a.length == b.length && a.keys.every((k) => b.containsKey(k) && a[k] == b[k])"
    );
    assert_eq!(
        eq("Map<String, List<int>>"),
        "a.length == b.length && a.keys.every((k) => b.containsKey(k) && a[k]!.length == b[k]!.length && Iterable<int>.generate(a[k]!.length).every((i_) => a[k]![i_] == b[k]![i_]))"
    );
    assert_eq!(
        eq("List<List<int>>"),
        "a.length == b.length && Iterable<int>.generate(a.length).every((i) => a[i].length == b[i].length && Iterable<int>.generate(a[i].length).every((i_) => a[i][i_] == b[i][i_]))"
    );
}

#[test]
fn hash_codes_go_by_the_shape_of_the_type() {
    let ctx = context(library());
    let hash = |src: &str| ctx.write_hash_for_field("x", &ty(src));
    assert_eq!(hash("int"), "x.hashCode");
    assert_eq!(hash("int?"), "x?.hashCode");
    assert_eq!(hash("List<int>?"), "x?.hashCode");
    assert_eq!(hash("List<int>"), "Object.hashAll(x.map((elem) => elem.hashCode))");
    assert_eq!(hash("Set<int>"), "Object.hashAllUnordered(x.map((elem) => elem.hashCode))");
    assert_eq!(
        hash("Map<String, Set<int?>>"),
        "Object.hashAllUnordered(x.entries.map((entry) => Object.hash(entry.key, Object.hashAllUnordered(entry.value.map((elem) => elem?.hashCode)))))"
    );
}

fn shapes() -> Library {
    let mut lib = library();
    lib.unions.push(union(
        "Shape",
        vec![class("Circle", vec![field("r", "int")]), class("Square", vec![])],
    ));
    lib
}

#[test]
fn a_union_decodes_by_its_discriminant() {
    let ctx = context(shapes());
    let union = &ctx.library.unions[0];
    assert_eq!(
        ctx.codegen_body(union),
        r#"{
const Shape();

ShapeBuilder toBuilder();

Map<String, dynamic> toJson(); 
factory Shape.fromJson(Map<String, dynamic> json) => switch (json["type"]) {
"Circle" => Circle.fromJson(json),
"Square" => Square.fromJson(json),
final other => throw ArgumentError("unknown discriminant: $other"),
};
}
abstract final class ShapeBuilder 
{
Shape build();
}
"#
    );
    let circle = &union.classes[0];
    assert_eq!(
        ctx.generate_to_json(circle, Some(union)),
        "@override\nMap<String, dynamic> toJson() => {\n\"r\": r,\n\"type\": \"Circle\"\n};\n"
    );
    let out = ctx.codegen_union_class(union);
    assert_eq!(
        out,
        format!(
            "abstract final class Shape {}{}{}{}{}",
            ctx.codegen_body(union),
            ctx.codegen_immutable_class(&union.classes[0], Some(union)),
            ctx.codegen_mutable_class(&union.classes[0], Some(union)),
            ctx.codegen_immutable_class(&union.classes[1], Some(union)),
            ctx.codegen_mutable_class(&union.classes[1], Some(union)),
        )
    );
    assert!(out.contains("final class Circle extends Shape {\n"));
    assert!(out.contains("const Circle({\nrequired this.r,\n})\n : super();\n"));
    assert!(out.contains("final class CircleBuilder extends ShapeBuilder {\n"));
    assert!(out.contains("CircleBuilder({\nrequired this.r,\n}) : super();\n"));
    assert!(out.contains("final class SquareBuilder extends ShapeBuilder {\n\nSquareBuilder()\n : super();\n"));
    assert!(out.contains("\"type\": \"Square\"\n"));
    assert_eq!(generate(shapes()), out);
}

#[test]
fn the_discriminant_is_layered() {
    let mut lib = shapes();
    assert_eq!(lib.discriminant_key_for(&lib.unions[0]), "type");
    assert!(!lib.is_sealed(&lib.unions[0]));
    lib.defaults = Some(Defaults {
        union: Some(UnionOptions {
            sealed: Some(at(true)),
            json_discriminant: Some(text("kind")),
            annotations: None,
            builder_annotations: None,
        }),
        ..defaults()
    });
    assert_eq!(lib.discriminant_key_for(&lib.unions[0]), "kind");
    assert!(lib.is_sealed(&lib.unions[0]));
    lib.unions[0].json_discriminant = Some(text("__type"));
    lib.unions[0].sealed = Some(at(false));
    assert_eq!(lib.discriminant_key_for(&lib.unions[0]), "__type");
    assert!(!lib.is_sealed(&lib.unions[0]));
    let out = generate(lib);
    assert!(out.contains("switch (json[\"__type\"]) {\n"));
    assert!(out.contains("\"__type\": \"Circle\"\n"));
    assert!(out.contains("abstract final class Shape {"));
}

#[test]
fn the_discriminant_value_is_the_literal_or_the_name_in_the_case_of_the_union() {
    let mut lib = shapes();
    let value = |lib: &Library, i: usize| {
        lib.discriminant_value_for(&lib.unions[0], &lib.unions[0].classes[i])
    };
    assert_eq!(value(&lib, 0), "\"Circle\"");
    lib.unions[0].json_discriminant_value_case = Some(at(RenameCase::ScreamingSnake));
    lib.unions[0].classes.push(class("RoundedSquare", vec![]));
    assert_eq!(value(&lib, 0), "\"CIRCLE\"");
    assert_eq!(value(&lib, 2), "\"ROUNDED_SQUARE\"");
    lib.unions[0].json_discriminant_value_case = Some(at(RenameCase::Kebab));
    assert_eq!(value(&lib, 2), "\"rounded-square\"");
    lib.unions[0].json_discriminant_value_case = Some(at(RenameCase::Camel));
    assert_eq!(value(&lib, 2), "\"roundedSquare\"");
    lib.unions[0].json_discriminant_value_case = Some(at(RenameCase::Snake));
    assert_eq!(value(&lib, 2), "\"rounded_square\"");
    lib.unions[0].json_discriminant_value_case = Some(at(RenameCase::Pascal));
    assert_eq!(value(&lib, 2), "\"RoundedSquare\"");
    lib.unions[0].classes[0].json_discriminant_value =
        Some(literal(Literal::Int(Radix::Hex, "1f".to_string())));
    lib.unions[0].classes[1].json_discriminant_value =
        Some(literal(Literal::Str("sq".to_string())));
    assert_eq!(value(&lib, 0), "0x1f");
    assert_eq!(value(&lib, 1), "\"sq\"");
    let out = generate(lib);
    assert!(out.contains("0x1f => Circle.fromJson(json),\n\"sq\" => Square.fromJson(json),\n\"RoundedSquare\" => RoundedSquare.fromJson(json),\nfinal other => throw"));
    assert!(out.contains("\"type\": 0x1f\n"));
}

fn sealed_in(own: Option<bool>, shared: Option<bool>) -> Library {
    let mut lib = library();
    let mut foo = union("Foo", vec![class("X", vec![]), class("Y", vec![])]);
    foo.sealed = own.map(at);
    lib.unions.push(foo);
    if let Some(sealed) = shared {
        lib.defaults = Some(Defaults {
            union: Some(UnionOptions {
                sealed: Some(at(sealed)),
                json_discriminant: None,
                annotations: None,
                builder_annotations: None,
            }),
            ..defaults()
        });
    }
    lib
}

fn assert_equivalent(left: Library, right: Library) {
    assert_eq!(context(left).codegen(), context(right).codegen());
}

#[test]
fn default_sealed() {
    assert_equivalent(sealed_in(Some(true), None), sealed_in(None, Some(true)));
    assert!(generate(sealed_in(None, Some(true))).contains("sealed class Foo {"));
    assert!(generate(sealed_in(None, Some(true))).contains("sealed class FooBuilder \n"));
}

#[test]
fn default_sealed_overridden_by_specific() {
    assert_equivalent(sealed_in(Some(false), None), sealed_in(Some(false), Some(true)));
    assert!(generate(sealed_in(Some(false), Some(true))).contains("abstract final class Foo {"));
}

#[test]
fn default_json_discriminant() {
    let mut left = sealed_in(None, None);
    left.unions[0].json_discriminant = Some(text("__type"));
    let mut right = sealed_in(None, None);
    right.defaults = Some(Defaults {
        union: Some(UnionOptions {
            sealed: None,
            json_discriminant: Some(text("__type")),
            annotations: None,
            builder_annotations: None,
        }),
        ..defaults()
    });
    assert_equivalent(left, right);
}

#[test]
fn defaults_make_parameters_optional_and_stand_in_for_missing_keys() {
    let mut count = field("count", "int");
    count.defaults_to = Some(literal(Literal::Int(Radix::Dec, "3".to_string())));
    let mut label = field("label", "String?");
    label.defaults_to = Some(literal(Literal::Null));
    let mut tags = field("tags", "List<String>");
    tags.defaults_to_dart = Some(text("const []"));
    let mut none = field("none", "int?");
    none.defaults_to_dart = Some(text("null"));
    let ctx = context(Library {
        classes: vec![class("Foo", vec![count, label, tags, none, field("id", "int")])],
        ..library()
    });
    let out = ctx.codegen_immutable_class(&ctx.library.classes[0], None);
    assert!(out.contains(
        "const Foo({\n this.count= 3\n,\n this.label,\n this.tags= const []\n,\n this.none,\nrequired this.id,\n})\n;\n"
    ));
    assert!(out.contains(
        "static FooBuilder builder({\n int count = 3\n,\n String? label,\n List<String> tags = const []\n,\n int? none,\nrequired int id,\n}) => FooBuilder(\n"
    ));
    assert_eq!(
        ctx.generate_from_json(&ctx.library.classes[0]),
        r#"factory Foo.fromJson(Map<String, dynamic> json) => Foo(
count: json["count"] == null ? 3 : json["count"] as int,
label: json["label"] == null ? null : json["label"] == null ? null : json["label"] as String,
tags: json["tags"] == null ? const [] : (json["tags"] as List<dynamic>).map((elem) => elem as String).toList(),
none: json["none"] == null ? null : json["none"] == null ? null : json["none"] as int,
id: json["id"] as int,
);
"#
    );
}

#[test]
fn a_conversion_of_the_field_itself_wins() {
    let mut when = field("when", "DateTime");
    when.to_json = Some(text("(d) => d.toIso8601String()"));
    when.from_json = Some(text("(j) => DateTime.parse(j as String)"));
    when.json_key = Some(text("at"));
    when.defaults_to_dart = Some(text("DateTime(0)"));
    let ctx = context(Library { classes: vec![class("Event", vec![when])], ..library() });
    let class = &ctx.library.classes[0];
    assert_eq!(
        ctx.generate_to_json(class, None),
        "Map<String, dynamic> toJson() => {\n\"at\": \n// ignore: unnecessary_parenthesis\n((d) => d.toIso8601String())(when),\n};\n"
    );
    assert_eq!(
        ctx.generate_from_json(class),
        "factory Event.fromJson(Map<String, dynamic> json) => Event(\nwhen: json[\"at\"] == null ? DateTime(0) : \n// ignore: unnecessary_parenthesis\n((j) => DateTime.parse(j as String))(json[\"at\"])\n,\n);\n"
    );
}

fn zoo() -> Library {
    let mut lib = library();
    lib.classes.push(class("Owner", vec![field("pet", "Animal"), field("color", "Color")]));
    lib.unions.push(union("Animal", vec![class("Dog", vec![]), class("Cat", vec![])]));
    lib.enums.push(enumeration("Color", vec![variant("red")]));
    lib
}

#[test]
fn generated_types_convert_through_their_own_conversions_at_any_depth() {
    let ctx = context(zoo());
    let enc = |src: &str| ctx.write_encode_expr("x", &ty(src));
    let dec = |src: &str| ctx.write_decode_expr("j", &ty(src));
    assert_eq!(enc("int"), "x");
    assert_eq!(enc("Dog"), "x.toJson()");
    assert_eq!(enc("Animal"), "x.toJson()");
    assert_eq!(enc("Color"), "x.toJson()");
    assert_eq!(enc("Dog?"), "x == null ? null : (x as Dog).toJson()");
    assert_eq!(enc("Set<Dog>"), "x.map((elem) => elem.toJson()).toList()");
    assert_eq!(
        enc("Map<String, List<Color?>>"),
        "x.map((key, value) => MapEntry(key, value.map((elem) => elem == null ? null : (elem as Color).toJson()).toList()))"
    );
    assert_eq!(dec("int"), "j as int");
    assert_eq!(dec("Dog"), "Dog.fromJson(j as Map<String, dynamic>)");
    assert_eq!(dec("Animal"), "Animal.fromJson(j as Map<String, dynamic>)");
    assert_eq!(dec("Color"), "Color.fromJson(j)");
    assert_eq!(dec("Dog?"), "j == null ? null : Dog.fromJson(j as Map<String, dynamic>)");
    assert_eq!(
        dec("Set<Dog>"),
        "(j as List<dynamic>).map((elem) => Dog.fromJson(elem as Map<String, dynamic>)).toSet()"
    );
    assert_eq!(
        dec("Map<String, List<Color?>>"),
        "(j as Map<String, dynamic>).map((key, value) => MapEntry(key, (value as List<dynamic>).map((elem) => elem == null ? null : Color.fromJson(elem)).toList()))"
    );
}

#[test]
fn builders_reach_into_nested_types() {
    let ctx = context(zoo());
    assert!(ctx.library.type_has_builder("Owner"));
    assert!(ctx.library.type_has_builder("Dog"));
    assert!(ctx.library.type_has_builder("Animal"));
    assert!(!ctx.library.type_has_builder("Color"));
    assert!(!ctx.library.type_has_builder("int"));
    assert!(ctx.library.declares_enum("Color"));
    assert!(!ctx.library.declares_enum("Dog"));
    let builder_ty = |src: &str| ctx.write_builder_ty(&ty(src));
    assert_eq!(builder_ty("int"), "int");
    assert_eq!(builder_ty("Color"), "Color");
    assert_eq!(builder_ty("Dog"), "DogBuilder");
    assert_eq!(builder_ty("Animal?"), "AnimalBuilder?");
    assert_eq!(
        builder_ty("Map<String, List<Set<Dog?>>>"),
        "Map<String, List<Set<DogBuilder?>>>"
    );
    let to_builder = |src: &str| ctx.write_to_builder_expr("x", &ty(src));
    assert_eq!(to_builder("int"), "x");
    assert_eq!(to_builder("Dog"), "x.toBuilder()");
    assert_eq!(to_builder("List<Dog>"), "x.map((elem) => elem.toBuilder()).toList()");
    assert_eq!(to_builder("Set<int>"), "x.map((elem) => elem).toSet()");
    assert_eq!(
        to_builder("Map<String, Dog?>"),
        "x.map((key, value) => MapEntry(key, value == null ? null : (value as Dog).toBuilder()))"
    );
    let build = |src: &str| ctx.write_build_expr("x", &ty(src));
    assert_eq!(build("int"), "x");
    assert_eq!(build("Dog"), "x.build()");
    assert_eq!(build("List<Dog>"), "x.map((elem) => elem.build()).toList()");
    assert_eq!(build("Set<Animal>"), "x.map((elem) => elem.build()).toSet()");
    assert_eq!(
        build("Map<String, List<Dog>?>"),
        "x.map((key, value) => MapEntry(key, value == null ? null : (value as List<DogBuilder>).map((elem) => elem.build()).toList()))"
    );
    let owner = &ctx.library.classes[0];
    let builder = ctx.codegen_mutable_class(owner, None);
    assert!(builder.contains("AnimalBuilder pet;\nColor color;\n"));
    assert!(builder.contains("Owner build() => Owner(\npet: pet.build(),\ncolor: color,\n);\n"));
    let value = ctx.codegen_immutable_class(owner, None);
    assert!(value.contains(
        "OwnerBuilder toBuilder() => OwnerBuilder(\npet: pet.toBuilder(),\ncolor: color,\n);\n"
    ));
    assert!(value.contains("}) => OwnerBuilder(\npet: pet.toBuilder(),\ncolor: color,\n);\n"));
}

#[test]
fn an_enum_with_values_and_docs() {
    let mut color = enumeration("Color", vec![variant("red"), variant("darkBlue")]);
    color.docs = Some(text("\n  A color.\n\n"));
    color.annotations = Some(text("@own"));
    color.extra_dart = Some(text("bool get warm => this == red;"));
    color.variants[0].docs = Some(text("Like fire."));
    color.variants[0].json_value = Some(literal(Literal::Int(Radix::Dec, "1".to_string())));
    let mut lib = library();
    lib.defaults = Some(Defaults {
        enumeration: Some(EnumOptions { annotations: Some(text("@shared")) }),
        ..defaults()
    });
    lib.enums.push(color);
    let ctx = context(lib);
    assert_eq!(
        ctx.codegen_enum(&ctx.library.enums[0]),
        r#"///   A color.
@own
enum Color
{
/// Like fire.
red,
darkBlue,
;
factory Color.fromJson(dynamic json) => switch (json){
1 => Color.red,
"darkBlue" => Color.darkBlue,
final other => throw ArgumentError("Unknown variant: $other"),
}
;

dynamic toJson() => switch (this){
Color.red => 1,Color.darkBlue => "darkBlue",}
;
@override
String toString() => switch (this)
{
Color.red => "red",
Color.darkBlue => "darkBlue",
}
;
bool get warm => this == red;
}
"#
    );
}

#[test]
fn options_of_the_library_and_of_the_class_shape_the_class() {
    let mut foo = class("Foo", vec![field("x", "int")]);
    foo.docs = Some(text("A foo.\nSecond line."));
    foo.fields[0].docs = Some(text("The x."));
    foo.annotations = Some(text("@immutable"));
    foo.builder_annotations = Some(text("@mutable"));
    foo.extra_dart = Some(text("int get twice => x * 2;"));
    foo.builder_extra_dart = Some(text("void reset() { x = 0; }"));
    let mut lib = library();
    lib.preamble = Some("import 'dart:convert';".to_string());
    lib.postamble = Some("// end".to_string());
    lib.defaults = Some(Defaults {
        generate_to_string: Some(at(false)),
        generate_equals: Some(at(false)),
        class: Some(ClassOptions {
            annotations: Some(text("@all")),
            builder_annotations: Some(text("@allBuilders")),
        }),
        ..defaults()
    });
    lib.classes.push(foo);
    assert_eq!(
        generate(lib),
        r#"import 'dart:convert';
/// A foo.
/// Second line.
@immutable
final class Foo {
/// The x.
final int x;

const Foo({
required this.x,
})
;

static FooBuilder builder({
required int x,
}) => FooBuilder(
x: x,
);
FooBuilder toBuilder() => FooBuilder(
x: x,
);

Map<String, dynamic> toJson() => {
"x": x,
};
factory Foo.fromJson(Map<String, dynamic> json) => Foo(
x: json["x"] as int,
);

int get twice => x * 2;

}
/// Builder class for [Foo]
@mutable
final class FooBuilder {
int x;

FooBuilder({
required this.x,
});

Foo build() => Foo(
x: x,
);
void reset() { x = 0; }

}
// end"#
    );
}

#[test]
fn a_union_with_docs_annotations_and_extra_text() {
    let mut lib = shapes();
    lib.unions[0].docs = Some(text("Shapes."));
    lib.unions[0].extra_dart = vec![text("int get sides;"), text("bool get round;")];
    lib.defaults = Some(Defaults {
        generate_to_string: Some(at(true)),
        generate_equals: Some(at(true)),
        union: Some(UnionOptions {
            sealed: None,
            json_discriminant: None,
            annotations: Some(text("@base")),
            builder_annotations: Some(text("@baseBuilder")),
        }),
        ..defaults()
    });
    let ctx = context(lib);
    let out = ctx.codegen_union_class(&ctx.library.unions[0]);
    assert!(out.starts_with("/// Shapes.\n@base\nabstract final class Shape {\nconst Shape();\n"));
    assert!(out.contains("};\nint get sides;\nbool get round;\n}\n@baseBuilder\nabstract final class ShapeBuilder \n{\nShape build();\n}\n"));
    assert!(out.contains("String toString() => \"Circle(\"\n"));
}

#[test]
fn keys_are_the_own_key_or_the_name_in_the_layered_case() {
    let mut lib = library();
    let mut plain = field("fooBar", "int");
    let mut keyed = field("fooBar", "int");
    keyed.json_key = Some(text("FOO"));
    lib.classes.push(class("A", vec![plain.clone(), keyed.clone()]));
    let key = |lib: &Library, f: &Field| lib.json_key_for(&lib.classes[0], f);
    assert_eq!(key(&lib, &plain), "fooBar");
    assert_eq!(key(&lib, &keyed), "FOO");
    lib.defaults = Some(Defaults {
        field: Some(FieldOptions { json_key_case: Some(at(RenameCase::Snake)) }),
        ..defaults()
    });
    assert_eq!(key(&lib, &plain), "foo_bar");
    assert_eq!(key(&lib, &keyed), "FOO");
    lib.classes[0].json_key_case = Some(at(RenameCase::Kebab));
    assert_eq!(key(&lib, &plain), "foo-bar");
    plain.name = text("foo_bar_baz");
    lib.classes[0].json_key_case = Some(at(RenameCase::Camel));
    assert_eq!(key(&lib, &plain), "fooBarBaz");
    lib.classes[0].json_key_case = Some(at(RenameCase::Pascal));
    assert_eq!(key(&lib, &plain), "FooBarBaz");
    lib.classes[0].json_key_case = Some(at(RenameCase::ScreamingSnake));
    assert_eq!(key(&lib, &plain), "FOO_BAR_BAZ");
    keyed.json_key = None;
    let out = context(lib).generate().unwrap();
    assert!(out.contains("\"FOO_BAR\": fooBar,\n"));
    assert!(out.contains("fooBar: json[\"FOO_BAR\"] as int,\n"));
}

#[test]
fn the_effective_value_is_the_first_that_is_given() {
    assert_eq!(effective(Some(1), Some(2), 3), 1);
    assert_eq!(effective(None, Some(2), 3), 2);
    assert_eq!(effective(None::<u8>, None, 3), 3);
    assert_eq!(effective(Some(false), None, true), false);
    assert_eq!(first_given(Some(1), Some(2)), Some(1));
    assert_eq!(first_given(None, Some(2)), Some(2));
    assert_eq!(first_given(None::<u8>, None), None);
}

#[test]
fn literals_are_written_as_dart_constants() {
    let dart = |l: Literal| format_dart_literal_const(&literal(l));
    assert_eq!(dart(Literal::Null), "null");
    assert_eq!(dart(Literal::Bool(true)), "true");
    assert_eq!(dart(Literal::Bool(false)), "false");
    assert_eq!(dart(Literal::Int(Radix::Dec, "1234".to_string())), "1234");
    assert_eq!(dart(Literal::Int(Radix::Hex, "ff".to_string())), "0xff");
    assert_eq!(dart(Literal::Decimal("1.5e3".to_string())), "1.5e3");
    assert_eq!(dart(Literal::Str("hi".to_string())), "\"hi\"");
    assert_eq!(quote(""), "\"\"");
    assert!(Literal::Int(Radix::Bin, "1".to_string()).has_unsupported_radix());
    assert!(Literal::Int(Radix::Oct, "1".to_string()).has_unsupported_radix());
    assert!(!Literal::Int(Radix::Dec, "1".to_string()).has_unsupported_radix());
    assert!(!Literal::Str("0b1".to_string()).has_unsupported_radix());
}

#[test]
fn documentation_comments_drop_blank_lines_at_both_ends() {
    assert_eq!(write_doc_comment(""), "");
    assert_eq!(write_doc_comment(" \n\t\n"), "");
    assert_eq!(write_doc_comment("one"), "/// one\n");
    assert_eq!(
        write_doc_comment("\n\n  hello\r\n\n world \n \u{2003}\n\n"),
        "///   hello\n/// \n///  world \n"
    );
    assert_eq!(split_lines("a\nb\r\n\nc\r"), vec!["a", "b", "", "c\r"]);
    assert_eq!(split_lines("a\n"), vec!["a"]);
    assert_eq!(split_lines("\n"), vec![""]);
    assert_eq!(split_lines(""), Vec::<String>::new());
    assert_eq!(split_lines("\r\n\r\n"), vec!["", ""]);
    assert!(is_blank(""));
    assert!(is_blank(" \t\u{00a0}"));
    assert!(!is_blank(" x "));
}

#[test]
fn nothing_is_generated_for_a_library_that_is_not_ready() {
    let ready = |lib: Library| context(lib).can_generate();
    assert!(ready(library()));
    assert!(ready(zoo()));

    let mut lib = library();
    lib.classes.push(class("Foo", vec![field("x", "List<")]));
    assert!(!ready(lib.clone()));
    assert_eq!(context(lib).generate(), None);

    let mut both = field("x", "int");
    both.defaults_to = Some(literal(Literal::Null));
    both.defaults_to_dart = Some(text("null"));
    let mut lib = library();
    lib.unions.push(union("U", vec![class("Foo", vec![both])]));
    assert!(!ready(lib));

    let mut binary = field("x", "int");
    binary.defaults_to = Some(literal(Literal::Int(Radix::Bin, "101".to_string())));
    let mut lib = library();
    lib.classes.push(class("Foo", vec![binary]));
    assert!(!ready(lib));

    let mut lib = shapes();
    lib.unions[0].classes[1].json_discriminant_value =
        Some(literal(Literal::Int(Radix::Oct, "7".to_string())));
    assert!(!ready(lib));

    let mut lib = zoo();
    lib.enums[0].variants[0].json_value =
        Some(literal(Literal::Int(Radix::Oct, "7".to_string())));
    assert!(!ready(lib));
}

#[test]
fn a_run_validates_and_generates_on_demand() {
    let tool = &ToolVersion::parse("1.0.0").unwrap();
    let validate = |deny| Args { cmd: Cmd::Validate { path: "a.kdl".to_string() }, deny_warnings: deny };
    let gen = |deny| Args {
        cmd: Cmd::Generate { path: "a.kdl".to_string(), output: None },
        deny_warnings: deny,
    };
    assert_eq!(validate(false).cmd.path(), "a.kdl");
    assert_eq!(gen(false).cmd.path(), "a.kdl");

    let ctx = context(Library { classes: vec![point()], ..library() });
    assert_eq!(run(&validate(true), &ctx, tool), Ok(Outcome { warnings: vec![], dart: None }));
    assert_eq!(
        run(&gen(true), &ctx, tool),
        Ok(Outcome { warnings: vec![], dart: Some(ctx.codegen()) })
    );

    let mut lib = library();
    lib.classes.push(point());
    lib.meta = Some(Meta { version: Some(text("99.0.0")) });
    let ctx = context(lib);
    let warnings = ctx.collect_errors(tool);
    assert_eq!(warnings.len(), 1);
    assert_eq!(
        run(&gen(false), &ctx, tool),
        Ok(Outcome { warnings: warnings.clone(), dart: Some(ctx.codegen()) })
    );
    assert!(matches!(run(&gen(true), &ctx, tool), Err(RunError::Invalid(e)) if e.errors == warnings));
    assert!(matches!(run(&validate(true), &ctx, tool), Err(RunError::Invalid(_))));

    let mut lib = shapes();
    lib.unions[0].classes[1].json_discriminant_value =
        Some(literal(Literal::Int(Radix::Oct, "7".to_string())));
    let ctx = context(lib);
    assert_eq!(run(&gen(false), &ctx, tool), Err(RunError::Unwritable));
    assert_eq!(run(&validate(false), &ctx, tool), Ok(Outcome { warnings: vec![], dart: None }));

    let ctx = context(Library { unions: vec![union("Empty", vec![])], ..library() });
    assert!(matches!(run(&gen(false), &ctx, tool), Err(RunError::Invalid(e)) if e.errors.len() == 1));
}

#[test]
fn the_document_is_shown_under_its_path_or_as_memory() {
    let mut ctx = context(library());
    assert_eq!(ctx.source_name(), "<memory>");
    ctx.path = Some("schemas/a.kdl".to_string());
    assert_eq!(ctx.source_name(), "schemas/a.kdl");
}

#[test]
fn parsing_a_field_type_gives_the_tree_or_one_finding() {
    let ctx = context(library());
    let (ty, findings) = ctx.parse_ty(&SpannedScalar {
        value: "Map<String, int>".to_string(),
        span: Span { start: 7, end: 25 },
    });
    assert_eq!(findings, vec![]);
    assert_eq!(ty.unwrap().span, Span { start: 7, end: 23 });
    let (ty, findings) =
        ctx.parse_ty(&SpannedScalar { value: "Map<".to_string(), span: Span { start: 7, end: 13 } });
    assert_eq!(ty, None);
    assert_eq!(findings.len(), 1);
    assert_eq!(findings[0].labels[0].span, Span { start: 11, end: 11 });
    assert_eq!(findings[0].help.as_deref(), Some("expected a type name"));
}

#[test]
fn entries_and_arms_are_built_from_the_key_and_the_value_they_are_given() {
    let ctx = context(zoo());
    let pet = &ctx.library.classes[0].fields[0];
    let animal = ty("Animal");
    assert_eq!(ctx.to_json_entry("the pet", pet, &animal), "\"the pet\": pet.toJson(),\n");
    assert_eq!(
        ctx.to_json_entry("the pet", pet, &ty("Set<Animal>")),
        "\"the pet\": pet.map((elem) => elem.toJson()).toList(),\n"
    );
    assert_eq!(
        ctx.from_json_entry("the pet", pet, &animal),
        "pet: Animal.fromJson(json[\"the pet\"] as Map<String, dynamic>),\n"
    );
    assert_eq!(discriminant_entry("kind", "0x2a"), "\"kind\": 0x2a\n");
    assert_eq!(
        decode_arm("0x2a", &ctx.library.unions[0].classes[1]),
        "0x2a => Cat.fromJson(json),\n"
    );
}

#[test]
fn documentation_lines_are_dropped_by_the_flags_they_come_with() {
    let lines: Vec<String> = ["a", "", "b", " "].iter().map(|s| s.to_string()).collect();
    assert_eq!(write_doc_lines(&lines, &vec![false, true, false, true]), "/// a\n/// \n/// b\n");
    assert_eq!(write_doc_lines(&lines, &vec![true, false, false, false]), "/// \n/// b\n///  \n");
    assert_eq!(write_doc_lines(&lines, &vec![true, true, true, true]), "");
    assert_eq!(write_doc_lines(&lines, &vec![false, false, false, false]), "/// a\n/// \n/// b\n///  \n");
    assert_eq!(write_doc_lines(&vec![], &vec![]), "");
}

#[test]
fn declared_types_are_written_from_the_tree() {
    let ctx = context(Library {
        classes: vec![class("Foo", vec![field("m", "  Map < String , List<int ,>? , > ")])],
        ..library()
    });
    let out = ctx.codegen_immutable_class(&ctx.library.classes[0], None);
    assert!(out.contains("final Map<String, List<int>?> m;\n"));
    assert!(out.contains("static FooBuilder builder({\nrequired Map<String, List<int>?> m,\n}) => FooBuilder(\n"));
    let builder = ctx.codegen_mutable_class(&ctx.library.classes[0], None);
    assert!(builder.contains("Map<String, List<int>?> m;\n"));
}

#[test]
fn text_is_braced_measured_and_compared() {
    let mut out = String::from("class A ");
    braced(&mut out, "int x;\n");
    assert_eq!(out, "class A {\nint x;\n}\n");
    let mut out = String::new();
    braced(&mut out, "");
    assert_eq!(out, "{\n}\n");
    assert_eq!(char_width('a'), 1);
    assert_eq!(char_width('\u{7f}'), 1);
    assert_eq!(char_width('\u{80}'), 2);
    assert_eq!(char_width('\u{7ff}'), 2);
    assert_eq!(char_width('\u{800}'), 3);
    assert_eq!(char_width('\u{ffff}'), 3);
    assert_eq!(char_width('\u{10000}'), 4);
    assert_eq!(char_width('\u{10ffff}'), 4);
    for c in ['a', 'ß', '€', '𝄞'] {
        assert_eq!(char_width(c), c.len_utf8());
    }
    assert_eq!(chars_of("a€b"), vec!['a', '€', 'b']);
    assert_eq!(chars_of(""), vec![]);
    assert!(same_text("abc", "abc"));
    assert!(!same_text("abc", "abd"));
    assert!(!same_text("abc", "ab"));
    assert!(same_text("", ""));
}

#[test]
fn annotations_are_the_own_or_else_those_of_the_defaults() {
    let mut lib = library();
    lib.defaults = Some(Defaults {
        class: Some(ClassOptions {
            annotations: Some(text("@all")),
            builder_annotations: Some(text("@allBuilders")),
        }),
        enumeration: Some(EnumOptions { annotations: Some(text("@allEnums")) }),
        ..defaults()
    });
    let mut own = class("Own", vec![]);
    own.annotations = Some(text("@own"));
    own.builder_annotations = Some(text("@ownBuilder"));
    lib.classes.push(own);
    lib.classes.push(class("Plain", vec![]));
    let mut e = enumeration("Marked", vec![variant("a")]);
    e.annotations = Some(text("@marked"));
    lib.enums.push(e);
    lib.enums.push(enumeration("Unmarked", vec![variant("a")]));
    let out = generate(lib);
    assert!(out.starts_with("@own\nfinal class Own {"));
    assert!(out.contains("/// Builder class for [Own]\n@ownBuilder\nfinal class OwnBuilder {"));
    assert!(out.contains("\n@all\nfinal class Plain {"));
    assert!(out.contains("/// Builder class for [Plain]\n@allBuilders\nfinal class PlainBuilder {"));
    assert!(out.contains("\n@marked\nenum Marked\n"));
    assert!(out.contains("\n@allEnums\nenum Unmarked\n"));
    assert!(!out.contains("@all\n@own") && !out.contains("@own\n@all"));
}

#[test]
fn the_source_is_framed_by_the_preamble_and_the_postamble() {
    assert_eq!(generate(library()), "");
    let mut lib = library();
    lib.preamble = Some("import 'a.dart';".to_string());
    assert_eq!(generate(lib.clone()), "import 'a.dart';\n");
    lib.postamble = Some("// the end".to_string());
    assert_eq!(generate(lib.clone()), "import 'a.dart';\n// the end");
    lib.classes.push(point());
    lib.enums.push(enumeration("Color", vec![variant("red")]));
    lib.unions.push(union("Shape", vec![class("Circle", vec![])]));
    let ctx = context(lib.clone());
    let out = ctx.codegen();
    assert_eq!(
        out,
        format!(
            "import 'a.dart';\n{}{}{}{}// the end",
            ctx.codegen_immutable_class(&ctx.library.classes[0], None),
            ctx.codegen_mutable_class(&ctx.library.classes[0], None),
            ctx.codegen_union_class(&ctx.library.unions[0]),
            ctx.codegen_enum(&ctx.library.enums[0]),
        )
    );
    assert!(out.starts_with("import 'a.dart';"));
    assert!(out.ends_with("// the end"));
    lib.preamble = None;
    lib.postamble = Some(String::new());
    assert!(generate(lib).starts_with("final class Point {"));
}

#[test]
fn a_field_is_compared_by_length_and_then_in_a_loop() {
    let ctx = context(library());
    let eq = |src: &str| ctx.field_equals_for("xs", &ty(src));
    assert_eq!(eq("int"), "if (xs != other.xs) { return false; }\n");
    assert_eq!(eq("List<int>?"), "if (xs != other.xs) { return false; }\n");
    assert_eq!(
        eq("List<int>"),
        "if (xs.length != other.xs.length) { return false; }\nfor (var i = 0; i < xs.length; i++)\n{\nif (xs[i] != other.xs[i]) { return false; }\n}\n"
    );
    assert_eq!(
        eq("Set<int?>"),
        "if (xs.length != other.xs.length) { return false; }\nfor (final elem in xs)\n{\nif (!other.xs.contains(elem)) { return false; }\n}\n"
    );
    assert_eq!(
        eq("Map<String, int>"),
        "if (xs.length != other.xs.length) { return false; }\nfor (final entry in xs.entries)\n{\nif (entry.value != other.xs[entry.key]) { return false; }\n}\n"
    );
    assert_eq!(
        eq("List<List<int>>"),
        "if (xs.length != other.xs.length) { return false; }\nfor (var i = 0; i < xs.length; i++)\n{\nif (!(xs[i].length == other.xs[i].length && Iterable<int>.generate(xs[i].length).every((i_) => xs[i][i_] == other.xs[i][i_]))) { return false; }\n}\n"
    );
    assert_eq!(
        eq("Set<List<int>>"),
        "if (xs.length != other.xs.length) { return false; }\nfor (final elem in xs)\n{\nif (!other.xs.any((o) => elem.length == o.length && Iterable<int>.generate(elem.length).every((i_) => elem[i_] == o[i_]))) { return false; }\n}\n"
    );
    assert_eq!(
        eq("Map<String, Set<int>>"),
        "if (xs.length != other.xs.length) { return false; }\nfor (final entry in xs.entries)\n{\nif (!(other.xs.containsKey(entry.key) && entry.value.length == other.xs[entry.key]!.length && entry.value.every((e_) => other.xs[entry.key]!.any((o_) => e_ == o_)))) { return false; }\n}\n"
    );
    assert_eq!(length_check("xs"), "if (xs.length != other.xs.length) { return false; }\n");
    assert_eq!(
        ctx.item_check("a", "b", &ty("int")),
        "if (a != b) { return false; }\n"
    );
    assert_eq!(
        ctx.member_check("xs", &ty("String")),
        "if (!other.xs.contains(elem)) { return false; }\n"
    );
    assert_eq!(
        ctx.entry_check("xs", &ty("int?")),
        "if (entry.value != other.xs[entry.key]) { return false; }\n"
    );
}
