//! Inspecting a single field: its type name and its attributes.

use proc_macro_roids::{
    Attribute, Field, Lit, Meta, MetaList, MetaNameValue, Path, Payload,
};

fn path(segments: &[&str]) -> Path {
    Path::new(segments.iter().map(|s| s.to_string()).collect())
}

fn meta_path(segments: &[&str]) -> Meta {
    Meta::Path(path(segments))
}

fn attr(path_segments: &[&str], payload: Payload) -> Attribute {
    Attribute { path: path(path_segments), payload }
}

fn field_with_attrs(attrs: Vec<Attribute>) -> Field {
    Field { attrs, ident: Some("name".to_string()), ty: path(&["u32"]) }
}

#[test]
fn type_ident_returns_simple_type_name() {
    let field = Field {
        attrs: vec![],
        ident: Some("name".to_string()),
        ty: path(&["std", "marker", "PhantomData"]),
    };

    assert_eq!("PhantomData", field.type_ident().as_str());
}

#[test]
fn is_phantom_data_returns_true_for_phantom_data() {
    let field = Field {
        attrs: vec![],
        ident: Some("name".to_string()),
        ty: path(&["PhantomData"]),
    };

    assert!(field.is_phantom_data());
}

#[test]
fn is_phantom_data_returns_false_for_non_phantom_data() {
    let field = Field {
        attrs: vec![],
        ident: Some("name".to_string()),
        ty: path(&["GhostData"]),
    };

    assert!(!field.is_phantom_data());
}

#[test]
fn field_ext_namespace_parameter_returns_none_when_not_present() {
    let field = field_with_attrs(vec![attr(&["other", "derive"], Payload::Marker)]);

    assert_eq!(Ok(None), field.namespace_parameter(&path(&["my", "derive"])));
}

#[test]
fn namespace_parameter_returns_meta_when_present() {
    let field = field_with_attrs(vec![attr(
        &["my", "derive"],
        Payload::List(vec![meta_path(&["Magic"])]),
    )]);

    assert_eq!(
        Ok(Some(meta_path(&["Magic"]))),
        field.namespace_parameter(&path(&["my", "derive"]))
    );
}

#[test]
fn field_ext_namespace_parameter_fails_when_multiple_parameters_present() {
    let field = field_with_attrs(vec![attr(
        &["my", "derive"],
        Payload::List(vec![meta_path(&["Magic", "One"]), meta_path(&["Magic", "Two"])]),
    )]);

    let err = field.namespace_parameter(&path(&["my", "derive"])).unwrap_err();
    assert_eq!(
        "Expected exactly one parameter for `#[my::derive(..)]`.",
        err.message()
    );
}

#[test]
fn field_ext_namespace_parameters_returns_empty_vec_when_not_present() {
    let field = field_with_attrs(vec![attr(&["my", "derive"], Payload::Marker)]);

    assert_eq!(Vec::<Meta>::new(), field.namespace_parameters(&path(&["my", "derive"])));
}

#[test]
fn namespace_parameters_returns_metas_when_present() {
    let field = field_with_attrs(vec![attr(
        &["my", "derive"],
        Payload::List(vec![
            meta_path(&["Magic", "One"]),
            Meta::NameValue(MetaNameValue {
                path: path(&["second"]),
                value: Lit::Str("{ Magic::Two }".to_string()),
            }),
        ]),
    )]);

    assert_eq!(
        field.namespace_parameters(&path(&["my", "derive"])),
        vec![
            meta_path(&["Magic", "One"]),
            Meta::NameValue(MetaNameValue {
                path: path(&["second"]),
                value: Lit::Str("{ Magic::Two }".to_string()),
            }),
        ]
    );
}

#[test]
fn field_ext_tag_parameter_returns_none_when_not_present() {
    let field = field_with_attrs(vec![attr(&["my", "derive"], Payload::Marker)]);

    assert_eq!(
        Ok(None),
        field.tag_parameter(&path(&["my", "derive"]), &path(&["tag", "name"]))
    );
}

#[test]
fn tag_parameter_returns_meta_when_present() {
    let field = field_with_attrs(vec![attr(
        &["my", "derive"],
        Payload::List(vec![Meta::List(MetaList {
            path: path(&["tag", "name"]),
            metas: vec![meta_path(&["Magic"])],
        })]),
    )]);

    assert_eq!(
        Ok(Some(meta_path(&["Magic"]))),
        field.tag_parameter(&path(&["my", "derive"]), &path(&["tag", "name"]))
    );
}

#[test]
fn field_ext_tag_parameter_fails_when_multiple_parameters_present() {
    let field = field_with_attrs(vec![attr(
        &["my", "derive"],
        Payload::List(vec![Meta::List(MetaList {
            path: path(&["tag", "name"]),
            metas: vec![meta_path(&["Magic", "One"]), meta_path(&["Magic", "Two"])],
        })]),
    )]);

    let err = field
        .tag_parameter(&path(&["my", "derive"]), &path(&["tag", "name"]))
        .unwrap_err();
    assert_eq!(
        "Expected exactly one parameter for `#[my::derive(tag::name(..))]`.",
        err.message()
    );
}

#[test]
fn field_ext_tag_parameters_returns_empty_vec_when_not_present() {
    let field = field_with_attrs(vec![attr(&["my", "derive"], Payload::Marker)]);

    assert_eq!(
        Vec::<Meta>::new(),
        field.tag_parameters(&path(&["my", "derive"]), &path(&["tag", "name"]))
    );
}

#[test]
fn tag_parameters_returns_metas_when_present() {
    let field = field_with_attrs(vec![attr(
        &["my", "derive"],
        Payload::List(vec![Meta::List(MetaList {
            path: path(&["tag", "name"]),
            metas: vec![
                meta_path(&["Magic", "One"]),
                Meta::NameValue(MetaNameValue {
                    path: path(&["second"]),
                    value: Lit::Str("{ Magic::Two }".to_string()),
                }),
            ],
        })]),
    )]);

    assert_eq!(
        field.tag_parameters(&path(&["my", "derive"]), &path(&["tag", "name"])),
        vec![
            meta_path(&["Magic", "One"]),
            Meta::NameValue(MetaNameValue {
                path: path(&["second"]),
                value: Lit::Str("{ Magic::Two }".to_string()),
            }),
        ]
    );
}

#[test]
fn field_ext_contains_tag_returns_true_when_tag_exists() {
    let field = Field {
        attrs: vec![attr(&["my", "derive"], Payload::List(vec![meta_path(&["tag", "name"])]))],
        ident: Some("name".to_string()),
        ty: path(&["PhantomData"]),
    };

    assert!(field.contains_tag(&path(&["my", "derive"]), &path(&["tag", "name"])));
}

#[test]
fn field_ext_contains_tag_returns_false_when_tag_does_not_exist() {
    let attr_lists = vec![
        vec![attr(&["my", "derive"], Payload::Marker)],
        vec![attr(&["my", "derive"], Payload::List(vec![meta_path(&["other"])]))],
        vec![attr(&["other"], Payload::List(vec![meta_path(&["tag", "name"])]))],
    ];

    for attrs in attr_lists {
        let field = Field {
            attrs,
            ident: Some("name".to_string()),
            ty: path(&["PhantomData"]),
        };
        assert!(
            !field.contains_tag(&path(&["my", "derive"]), &path(&["tag", "name"])),
            "Expected `contains_tag` to return false for: `{:?}`",
            field
        );
    }
}

#[test]
fn unnamed_field_contains_tag_returns_true_when_tag_exists() {
    let field = Field {
        attrs: vec![attr(&["my", "derive"], Payload::List(vec![meta_path(&["tag", "name"])]))],
        ident: None,
        ty: path(&["PhantomData"]),
    };

    assert!(field.contains_tag(&path(&["my", "derive"]), &path(&["tag", "name"])));
}

#[test]
fn unnamed_field_contains_tag_returns_false_when_tag_does_not_exist() {
    let field = Field {
        attrs: vec![attr(&["my", "derive"], Payload::List(vec![meta_path(&["other"])]))],
        ident: None,
        ty: path(&["PhantomData"]),
    };

    assert!(!field.contains_tag(&path(&["my", "derive"]), &path(&["tag", "name"])));
}
