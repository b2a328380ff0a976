//! Shape queries, shape assertions, and field accessors on a declaration.

use proc_macro_roids::{
    Data, DataStruct, DeriveInput, Field, Fields, FieldsNamed, FieldsUnnamed, Path,
};

fn path(segments: &[&str]) -> Path {
    Path::new(segments.iter().map(|s| s.to_string()).collect())
}

fn named_field(name: &str, ty: &[&str]) -> Field {
    Field { attrs: vec![], ident: Some(name.to_string()), ty: path(ty) }
}

fn unnamed_field(ty: &[&str]) -> Field {
    Field { attrs: vec![], ident: None, ty: path(ty) }
}

fn decl(name: &str, fields: Fields, semi: bool) -> DeriveInput {
    DeriveInput {
        ident: name.to_string(),
        attrs: vec![],
        data: Data::Struct(DataStruct { fields, semi }),
    }
}

fn unit_struct() -> DeriveInput {
    decl("Unit", Fields::Unit, true)
}

fn named_struct_ab() -> DeriveInput {
    decl(
        "Named",
        Fields::Named(FieldsNamed {
            named: vec![named_field("a", &["u32"]), named_field("b", &["i32"])],
        }),
        false,
    )
}

fn empty_named_struct() -> DeriveInput {
    decl("Named", Fields::Named(FieldsNamed { named: vec![] }), false)
}

fn unnamed_struct() -> DeriveInput {
    decl("Unnamed", Fields::Unnamed(FieldsUnnamed { unnamed: vec![unnamed_field(&["u32"])] }), true)
}

fn not_struct() -> DeriveInput {
    DeriveInput { ident: "NotStruct".to_string(), attrs: vec![], data: Data::NotStruct }
}

#[test]
fn data_struct_returns_data_struct() {
    let ast = unit_struct();

    ast.data_struct().unwrap();
}

#[test]
fn data_struct_fails_when_ast_is_not_struct() {
    let ast = not_struct();

    let err = ast.data_struct().unwrap_err();
    assert_eq!("This macro must be used on a struct.", err.message());
}

#[test]
fn data_struct_mut_returns_data_struct_mut() {
    let mut ast = unit_struct();

    ast.data_struct_mut();
}

#[test]
fn fields_returns_unit_fields() {
    let ast = unit_struct();

    assert_eq!(Ok(&Fields::Unit), ast.fields());
}

#[test]
fn fields_returns_named_fields() {
    let ast = empty_named_struct();

    if let Ok(&Fields::Named(..)) = ast.fields() {
        // pass
    } else {
        panic!("Expected `fields` to return `&Fields::Named(..)");
    }
}

#[test]
fn fields_returns_unnamed_fields() {
    let ast = unnamed_struct();

    if let Ok(&Fields::Unnamed(..)) = ast.fields() {
        // pass
    } else {
        panic!("Expected `fields` to return `&Fields::Unnamed(..)");
    }
}

#[test]
fn fields_fails_when_ast_is_not_struct() {
    let ast = not_struct();

    let err = ast.fields().unwrap_err();
    assert_eq!("This macro must be used on a struct.", err.message());
}

#[test]
fn fields_mut_returns_unit_fields() {
    let mut ast = unit_struct();

    assert_eq!(&mut Fields::Unit, ast.fields_mut());
}

#[test]
fn fields_mut_returns_named_fields() {
    let mut ast = empty_named_struct();

    if let &mut Fields::Named(..) = ast.fields_mut() {
        // pass
    } else {
        panic!("Expected `fields_mut` to return `&mut Fields::Named(..)");
    }
}

#[test]
fn fields_mut_returns_unnamed_fields() {
    let mut ast = unnamed_struct();

    if let &mut Fields::Unnamed(..) = ast.fields_mut() {
        // pass
    } else {
        panic!("Expected `fields_mut` to return `&mut Fields::Unnamed(..)");
    }
}

#[test]
fn fields_named_returns_named_fields() {
    let ast = named_struct_ab();

    let fields_named = FieldsNamed {
        named: vec![named_field("a", &["u32"]), named_field("b", &["i32"])],
    };
    assert_eq!(Ok(&fields_named), ast.fields_named());
}

#[test]
fn fields_named_fails_when_fields_unit() {
    let ast = unit_struct();

    let err = ast.fields_named().unwrap_err();
    assert_eq!("This macro must be used on a struct with named fields.", err.message());
}

#[test]
fn fields_named_fails_when_ast_is_not_struct() {
    let ast = not_struct();

    let err = ast.fields_named().unwrap_err();
    assert_eq!("This macro must be used on a struct with named fields.", err.message());
}

#[test]
fn fields_named_mut_returns_named_fields() {
    let mut ast = named_struct_ab();

    let mut fields_named = FieldsNamed {
        named: vec![named_field("a", &["u32"]), named_field("b", &["i32"])],
    };
    assert_eq!(&mut fields_named, ast.fields_named_mut());
}

#[test]
fn derive_input_struct_ext_is_unit_returns_true_when_fields_unit() {
    let ast = unit_struct();

    assert!(ast.is_unit());
}

#[test]
fn derive_input_struct_ext_is_unit_returns_false_when_fields_not_unit() {
    let ast = empty_named_struct();

    assert!(!ast.is_unit());
}

#[test]
fn derive_input_struct_ext_is_named_returns_true_when_fields_named() {
    let ast = empty_named_struct();

    assert!(ast.is_named());
}

#[test]
fn derive_input_struct_ext_is_named_returns_false_when_fields_not_named() {
    let ast = unit_struct();

    assert!(!ast.is_named());
}

#[test]
fn derive_input_struct_ext_is_tuple_returns_true_when_fields_unnamed() {
    let ast = unnamed_struct();

    assert!(ast.is_tuple());
}

#[test]
fn derive_input_struct_ext_is_tuple_returns_false_when_fields_not_unnamed() {
    let ast = unit_struct();

    assert!(!ast.is_tuple());
}

#[test]
fn assert_fields_unit_does_not_panic_when_fields_unit() {
    let ast = unit_struct();

    ast.assert_fields_unit().unwrap();
}

#[test]
fn assert_fields_unit_fails_when_fields_not_unit() {
    let ast = empty_named_struct();

    let err = ast.assert_fields_unit().unwrap_err();
    assert_eq!("This macro must be used on a unit struct.", err.message());
}

#[test]
fn assert_fields_named_does_not_panic_when_fields_named() {
    let ast = empty_named_struct();

    ast.assert_fields_named().unwrap();
}

#[test]
fn assert_fields_named_fails_when_fields_not_named() {
    let ast = unit_struct();

    let err = ast.assert_fields_named().unwrap_err();
    assert_eq!("This macro must be used on a struct with named fields.", err.message());
}

#[test]
fn assert_fields_unnamed_does_not_panic_when_fields_unnamed() {
    let ast = unnamed_struct();

    ast.assert_fields_unnamed().unwrap();
}

#[test]
fn assert_fields_unnamed_fails_when_fields_not_unnamed() {
    let ast = unit_struct();

    let err = ast.assert_fields_unnamed().unwrap_err();
    assert_eq!("This macro must be used on a struct with unnamed fields.", err.message());
}
