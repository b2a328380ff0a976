//! Shape queries on a field list, and the construction-form pattern.

use proc_macro_roids::{Field, Fields, FieldsNamed, FieldsUnnamed, Path};

fn path(segments: &[&str]) -> Path {
    Path::new(segments.iter().map(|s| s.to_string()).collect())
}

fn named_field(name: &str, ty: &[&str]) -> Field {
    Field { attrs: vec![], ident: Some(name.to_string()), ty: path(ty) }
}

fn unnamed_field(ty: &[&str]) -> Field {
    Field { attrs: vec![], ident: None, ty: path(ty) }
}

fn named_fields(names: &[&str]) -> Fields {
    Fields::Named(FieldsNamed {
        named: names.iter().map(|name| named_field(name, &["u32"])).collect(),
    })
}

fn unnamed_fields(count: usize) -> Fields {
    Fields::Unnamed(FieldsUnnamed {
        unnamed: (0..count).map(|_| unnamed_field(&["u32"])).collect(),
    })
}

#[test]
fn fields_ext_is_unit_returns_true_when_fields_unit() {
    assert!(Fields::Unit.is_unit());
}

#[test]
fn fields_ext_is_unit_returns_false_when_fields_not_unit() {
    let fields = named_fields(&[]);

    assert!(!fields.is_unit());
}

#[test]
fn fields_ext_is_named_returns_true_when_fields_named() {
    let fields = named_fields(&[]);

    assert!(fields.is_named());
}

#[test]
fn fields_ext_is_named_returns_false_when_fields_not_named() {
    assert!(!Fields::Unit.is_named());
}

#[test]
fn fields_ext_is_tuple_returns_true_when_fields_unnamed() {
    let fields = unnamed_fields(1);

    assert!(fields.is_tuple());
}

#[test]
fn fields_ext_is_tuple_returns_false_when_fields_not_unnamed() {
    assert!(!Fields::Unit.is_tuple());
}

#[test]
fn construction_form_fields_unit_is_empty_token_stream() {
    assert!(Fields::Unit.construction_form().is_empty());
}

#[test]
fn construction_form_fields_named_is_brace_surrounding_comma_separated_variable_names() {
    let fields = named_fields(&["field_0", "field_1"]);

    assert_eq!("{ field_0, field_1, }", fields.construction_form());
}

#[test]
fn construction_form_fields_unnamed_is_parentheses_surrounding_comma_separated_variable_ns() {
    let fields = unnamed_fields(2);

    assert_eq!("(_0, _1,)", fields.construction_form());
}

#[test]
fn construction_form_fields_unnamed_one_field_includes_trailing_comma() {
    let fields = unnamed_fields(1);

    assert_eq!("(_0,)", fields.construction_form());
}

#[test]
fn construction_form_fields_named_empty_is_empty_braces() {
    let fields = named_fields(&[]);

    assert_eq!("{ }", fields.construction_form());
}

#[test]
fn construction_form_fields_named_skips_a_field_without_a_name() {
    let fields = Fields::Named(FieldsNamed {
        named: vec![named_field("field_0", &["u32"]), unnamed_field(&["u32"])],
    });

    assert_eq!("{ field_0, }", fields.construction_form());
}

#[test]
fn construction_form_fields_unnamed_renders_two_digit_positions() {
    let fields = unnamed_fields(11);

    assert_eq!(
        "(_0, _1, _2, _3, _4, _5, _6, _7, _8, _9, _10,)",
        fields.construction_form()
    );
}
