use dart_typegen::ident::{classify, classify_char, Letter};
use dart_typegen::span::Span;
use dart_typegen::ty::grammar::{Expected, ParseError};
use dart_typegen::ty::parse::{check_fits, parse as parse_text, parse_letters};
use dart_typegen::ty::{Ty, TyKind};

fn parse(src: &str) -> Ty {
    assert!(check_fits(src, 0));
    parse_text(src, 0).unwrap()
}

fn simple(name: &str) -> TyKind {
    TyKind::Simple(name.to_string())
}

#[test]
fn can_parse_types() {
    let _ = parse("Asdf");
    let _ = parse("asdf");
    let _ = parse("$asdf");
    let _ = parse("     $_123asdf     ");
    let _ = parse("List<A,>");
    let _ = parse("List    <    A    ,      >");
    let _ = parse("Map<A, B>");

    let ty = parse("Hello");
    assert_eq!(ty.kind, TyKind::Simple("Hello".to_string()));

    let ty = parse("$_Hello123$");
    assert_eq!(ty.kind, TyKind::Simple("$_Hello123$".to_string()));

    let ty = parse("Hello?");
    assert!(matches!(ty.kind, TyKind::Nullable(_)));

    let ty = parse("List");
    assert_eq!(ty.kind, TyKind::Simple("List".to_string()));

    let ty = parse("Set");
    assert_eq!(ty.kind, TyKind::Simple("Set".to_string()));

    let ty = parse("Map");
    assert_eq!(ty.kind, TyKind::Simple("Map".to_string()));

    let ty = parse("List<Hello>");
    assert!(
        matches!(ty.kind, TyKind::List(inner) if inner.kind == TyKind::Simple("Hello".to_string()))
    );
    let ty = parse("   List<   Hello    >       ");
    assert!(
        matches!(ty.kind, TyKind::List(inner) if inner.kind == TyKind::Simple("Hello".to_string()))
    );

    let ty = parse("Set<Hello,>");
    assert!(
        matches!(ty.kind, TyKind::SetOf(inner) if inner.kind == TyKind::Simple("Hello".to_string()))
    );

    let ty = parse("Map<$,_$123,>");
    assert!(matches!(
        ty.kind,
        TyKind::MapOf { key, value }
            if key.kind == TyKind::Simple("$".to_string())
                && value.kind == TyKind::Simple("_$123".to_string())
    ));
}

#[test]
fn spans_count_bytes_from_the_base() {
    let ty = parse_text("  List< Höhe? >", 100).unwrap();
    assert_eq!(ty.span, Span { start: 102, end: 116 });
    match ty.kind {
        TyKind::List(inner) => {
            assert_eq!(inner.span, Span { start: 108, end: 114 });
            match inner.kind {
                TyKind::Nullable(name) => {
                    assert_eq!(name.span, Span { start: 108, end: 113 });
                    assert_eq!(name.kind, simple("Höhe"));
                }
                other => panic!("{other:?}"),
            }
        }
        other => panic!("{other:?}"),
    }
}

#[test]
fn nullability_marks_one_production() {
    let ty = parse("List<A?>?");
    match ty.kind {
        TyKind::Nullable(list) => match list.kind {
            TyKind::List(inner) => match inner.kind {
                TyKind::Nullable(name) => assert_eq!(name.kind, simple("A")),
                other => panic!("{other:?}"),
            },
            other => panic!("{other:?}"),
        },
        other => panic!("{other:?}"),
    }
    let ty = parse("List<A>");
    match ty.kind {
        TyKind::List(inner) => assert_eq!(inner.kind, simple("A")),
        other => panic!("{other:?}"),
    }
}

#[test]
fn container_words_with_longer_names_are_names() {
    assert_eq!(parse("Listing").kind, simple("Listing"));
    assert_eq!(parse("Mapper$").kind, simple("Mapper$"));
    assert_eq!(parse("Set_").kind, simple("Set_"));
}

#[test]
fn deep_nesting_parses() {
    let ty = parse("Map<String, List<Set<Map<String, int?>>>>");
    assert_eq!(ty.to_text(), "Map<String, List<Set<Map<String, int?>>>>");
    let ty = parse(" Map < String , List < Set < int , > , > , > ");
    assert_eq!(ty.to_text(), "Map<String, List<Set<int>>>");
}

#[test]
fn malformed_annotations_say_where_and_what() {
    let err = |src: &str| parse_text(src, 10).unwrap_err();
    assert_eq!(err(""), ParseError { span: Span { start: 10, end: 10 }, expected: Expected::Name });
    assert_eq!(err("1abc"), ParseError { span: Span { start: 10, end: 11 }, expected: Expected::Name });
    assert_eq!(err("A B"), ParseError { span: Span { start: 12, end: 13 }, expected: Expected::End });
    assert_eq!(err("A ?"), ParseError { span: Span { start: 12, end: 13 }, expected: Expected::End });
    assert_eq!(err("A??"), ParseError { span: Span { start: 12, end: 13 }, expected: Expected::End });
    assert_eq!(err("List<A"), ParseError { span: Span { start: 16, end: 16 }, expected: Expected::CommaOrClose });
    assert_eq!(err("List<A,,>"), ParseError { span: Span { start: 17, end: 18 }, expected: Expected::Close });
    assert_eq!(err("List<>"), ParseError { span: Span { start: 15, end: 16 }, expected: Expected::Name });
    assert_eq!(err("Map<A>"), ParseError { span: Span { start: 15, end: 16 }, expected: Expected::Comma });
    assert_eq!(err("Map<A,>"), ParseError { span: Span { start: 16, end: 17 }, expected: Expected::Name });
    assert_eq!(err("Map<A, B, C>"), ParseError { span: Span { start: 20, end: 21 }, expected: Expected::Close });
    assert_eq!(err("Listing<A>"), ParseError { span: Span { start: 17, end: 18 }, expected: Expected::End });
}

#[test]
fn an_annotation_that_would_end_past_the_last_byte_does_not_fit() {
    assert!(check_fits("abc", usize::MAX - 3));
    assert!(!check_fits("abc", usize::MAX - 2));
    assert!(check_fits("ö", usize::MAX - 2));
    assert!(!check_fits("ö", usize::MAX - 1));
}

#[test]
fn characters_are_classified_as_parts_of_identifiers() {
    assert_eq!(classify_char('a'), Letter { c: 'a', ident_start: true, ident_continue: true });
    assert_eq!(classify_char('_'), Letter { c: '_', ident_start: true, ident_continue: true });
    assert_eq!(classify_char('7'), Letter { c: '7', ident_start: false, ident_continue: true });
    assert_eq!(classify_char('$'), Letter { c: '$', ident_start: false, ident_continue: false });
    assert_eq!(classify_char('<'), Letter { c: '<', ident_start: false, ident_continue: false });
    assert_eq!(classify_char(' '), Letter { c: ' ', ident_start: false, ident_continue: false });
    assert_eq!(classify_char('é'), Letter { c: 'é', ident_start: true, ident_continue: true });
    assert_eq!(
        classify("a1?"),
        vec![
            Letter { c: 'a', ident_start: true, ident_continue: true },
            Letter { c: '1', ident_start: false, ident_continue: true },
            Letter { c: '?', ident_start: false, ident_continue: false },
        ]
    );
    assert_eq!(classify(""), vec![]);
}

#[test]
fn the_grammar_goes_by_the_classification_it_is_given() {
    let letter = |c: char, start: bool, cont: bool| Letter { c, ident_start: start, ident_continue: cont };
    // `#` counts as a letter here, `b` does not.
    let letters = vec![
        letter('#', true, true),
        letter('a', false, true),
        letter('b', false, false),
    ];
    assert_eq!(
        parse_letters(&letters, 0),
        Err(ParseError { span: Span { start: 2, end: 3 }, expected: Expected::End })
    );
    let ty = parse_letters(&letters[..2].to_vec(), 5).unwrap();
    assert_eq!(ty.kind, simple("#a"));
    assert_eq!(ty.span, Span { start: 5, end: 7 });
    // `$` is part of a name whatever the classification says.
    let ty = parse_letters(&vec![letter('$', false, false), letter('$', false, false)], 0).unwrap();
    assert_eq!(ty.kind, simple("$$"));
    assert_eq!(
        parse_letters(&vec![letter('a', false, true)], 0),
        Err(ParseError { span: Span { start: 0, end: 1 }, expected: Expected::Name })
    );
}

#[test]
fn what_a_tree_is_written_as_reads_back_as_the_tree() {
    fn shape(ty: &Ty) -> String {
        match &ty.kind {
            TyKind::Simple(name) => format!("Simple({name})"),
            TyKind::Nullable(inner) => format!("Nullable({})", shape(inner)),
            TyKind::List(inner) => format!("List({})", shape(inner)),
            TyKind::SetOf(inner) => format!("Set({})", shape(inner)),
            TyKind::MapOf { key, value } => format!("Map({}, {})", shape(key), shape(value)),
        }
    }
    for src in [
        "A",
        "List",
        "Set?",
        "Map<Map, List>",
        " List < Set<Map<String,int?,>,>? , > ",
        "Map<List<Listing>, Set<$a?>?>?",
    ] {
        let ty = parse(src);
        let again = parse(&ty.to_text());
        assert_eq!(shape(&ty), shape(&again), "{src}");
        assert_eq!(again.to_text(), ty.to_text());
    }
    assert_eq!(
        shape(&parse("Map<List<Listing>, Set<$a?>?>?")),
        "Nullable(Map(List(Simple(Listing)), Nullable(Set(Nullable(Simple($a))))))"
    );
}

#[test]
fn a_copy_of_a_tree_is_the_same_tree() {
    let ty = parse_text(" Map<String, List<Set<int?>>?> ", 40).unwrap();
    assert_eq!(ty.clone(), ty);
    assert_eq!(ty.kind.clone(), ty.kind);
    assert_eq!(ty.clone().span, Span { start: 41, end: 70 });
}
