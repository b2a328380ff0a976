//! The free lookup functions, path formatting, and identifier
//! concatenation.

use proc_macro_roids::{
    contains_namespace, contains_tag, format_path, ident_concat, namespace_nested_metas,
    namespace_nested_metas_iter, namespace_parameter, namespace_parameters, path_eq,
    tag_nested_metas_iter, tag_parameter, tag_parameters, Attribute, Ident, Lit, Meta, MetaList,
    MetaNameValue, Path, Payload,
};

fn path(segments: &[&str]) -> Path {
    Path::new(segments.iter().map(|s| s.to_string()).collect())
}

fn meta_path(segments: &[&str]) -> Meta {
    Meta::Path(path(segments))
}

fn attr(path_segments: &[&str], payload: Payload) -> Attribute {
    Attribute { path: path(path_segments), payload }
}

#[test]
fn ident_concat_returns_combined_ident() {
    assert_eq!(Ident::new("OneTwo"), ident_concat("One", "Two"));
}

#[test]
fn format_path_joins_segments_without_whitespace() {
    assert_eq!("my::derive", format_path(&path(&["my", "derive"])));
    assert_eq!("Clone", format_path(&path(&["Clone"])));
}

#[test]
fn path_eq_compares_segment_sequences() {
    assert!(path_eq(&path(&["my", "derive"]), &path(&["my", "derive"])));
    assert!(!path_eq(&path(&["my", "derive"]), &path(&["my"])));
    assert!(!path_eq(&path(&["my", "derive"]), &path(&["my", "other"])));
}

#[test]
fn contains_namespace_matches_whatever_the_payload_is() {
    let attrs = vec![attr(&["my", "derive"], Payload::KeyValue(Lit::Str("v".to_string())))];

    assert!(contains_namespace(&attrs, &path(&["my", "derive"])));
    assert!(!contains_namespace(&attrs, &path(&["my"])));
}

#[test]
fn contains_tag_finds_bare_and_parameterized_tags() {
    let bare = vec![attr(&["ns"], Payload::List(vec![meta_path(&["tag"])]))];
    let with_params = vec![attr(
        &["ns"],
        Payload::List(vec![Meta::List(MetaList {
            path: path(&["tag"]),
            metas: vec![meta_path(&["param"])],
        })]),
    )];

    assert!(contains_tag(&bare, &path(&["ns"]), &path(&["tag"])));
    assert!(contains_tag(&with_params, &path(&["ns"]), &path(&["tag"])));
}

#[test]
fn contains_tag_ignores_key_value_and_literal_entries() {
    let key_value = vec![attr(
        &["ns"],
        Payload::List(vec![Meta::NameValue(MetaNameValue {
            path: path(&["tag"]),
            value: Lit::Str("v".to_string()),
        })]),
    )];
    let literal = vec![attr(
        &["ns"],
        Payload::List(vec![Meta::Lit(Lit::Str("tag".to_string()))]),
    )];

    assert!(!contains_tag(&key_value, &path(&["ns"]), &path(&["tag"])));
    assert!(!contains_tag(&literal, &path(&["ns"]), &path(&["tag"])));
}

#[test]
fn namespace_nested_metas_iter_flattens_across_attributes_in_order() {
    let attrs = vec![
        attr(&["ns"], Payload::List(vec![meta_path(&["One"])])),
        attr(&["other"], Payload::List(vec![meta_path(&["Skipped"])])),
        attr(&["ns"], Payload::List(vec![meta_path(&["Two"]), meta_path(&["Three"])])),
    ];

    assert_eq!(
        vec![meta_path(&["One"]), meta_path(&["Two"]), meta_path(&["Three"])],
        namespace_nested_metas_iter(&attrs, &path(&["ns"]))
    );
}

#[test]
fn namespace_nested_metas_returns_the_same_sequence() {
    let attrs = vec![
        attr(&["ns"], Payload::List(vec![meta_path(&["One"])])),
        attr(&["ns"], Payload::List(vec![meta_path(&["Two"])])),
    ];

    assert_eq!(
        namespace_nested_metas_iter(&attrs, &path(&["ns"])),
        namespace_nested_metas(&attrs, &path(&["ns"]))
    );
}

#[test]
fn namespace_parameters_skips_marker_key_value_and_malformed_payloads() {
    let attrs = vec![
        attr(&["ns"], Payload::Marker),
        attr(&["ns"], Payload::KeyValue(Lit::Str("v".to_string()))),
        attr(&["ns"], Payload::Malformed),
        attr(&["ns"], Payload::List(vec![meta_path(&["Only"])])),
    ];

    assert_eq!(vec![meta_path(&["Only"])], namespace_parameters(&attrs, &path(&["ns"])));
}

#[test]
fn namespace_parameter_counts_parameters_across_attributes() {
    let attrs = vec![
        attr(&["ns"], Payload::List(vec![meta_path(&["One"])])),
        attr(&["ns"], Payload::List(vec![meta_path(&["Two"])])),
    ];

    let err = namespace_parameter(&attrs, &path(&["ns"])).unwrap_err();
    assert_eq!("Expected exactly one parameter for `#[ns(..)]`.", err.message());
}

#[test]
fn tag_nested_metas_iter_flattens_matching_list_entries() {
    let metas = vec![
        Meta::List(MetaList { path: path(&["tag"]), metas: vec![meta_path(&["One"])] }),
        meta_path(&["tag"]),
        Meta::List(MetaList { path: path(&["other"]), metas: vec![meta_path(&["Skipped"])] }),
        Meta::List(MetaList { path: path(&["tag"]), metas: vec![meta_path(&["Two"])] }),
    ];

    assert_eq!(
        vec![meta_path(&["One"]), meta_path(&["Two"])],
        tag_nested_metas_iter(&metas, &path(&["tag"]))
    );
}

#[test]
fn tag_parameters_flattens_across_attributes_and_entries() {
    let attrs = vec![
        attr(
            &["ns"],
            Payload::List(vec![Meta::List(MetaList {
                path: path(&["tag"]),
                metas: vec![meta_path(&["One"])],
            })]),
        ),
        attr(
            &["ns"],
            Payload::List(vec![Meta::List(MetaList {
                path: path(&["tag"]),
                metas: vec![Meta::NameValue(MetaNameValue {
                    path: path(&["two"]),
                    value: Lit::Str("".to_string()),
                })],
            })]),
        ),
    ];

    assert_eq!(
        vec![
            meta_path(&["One"]),
            Meta::NameValue(MetaNameValue {
                path: path(&["two"]),
                value: Lit::Str("".to_string()),
            }),
        ],
        tag_parameters(&attrs, &path(&["ns"]), &path(&["tag"]))
    );
}

#[test]
fn tag_parameter_counts_parameters_across_attributes() {
    let attrs = vec![
        attr(
            &["ns"],
            Payload::List(vec![Meta::List(MetaList {
                path: path(&["tag"]),
                metas: vec![meta_path(&["One"])],
            })]),
        ),
        attr(
            &["ns"],
            Payload::List(vec![Meta::List(MetaList {
                path: path(&["tag"]),
                metas: vec![meta_path(&["Two"])],
            })]),
        ),
    ];

    let err = tag_parameter(&attrs, &path(&["ns"]), &path(&["tag"])).unwrap_err();
    assert_eq!("Expected exactly one parameter for `#[ns(tag(..))]`.", err.message());
}

#[test]
fn tag_parameter_ignores_a_bare_tag_entry() {
    let attrs = vec![attr(&["ns"], Payload::List(vec![meta_path(&["tag"])]))];

    assert_eq!(Ok(None), tag_parameter(&attrs, &path(&["ns"]), &path(&["tag"])));
}
