//! Query and mutation helpers over an in-memory model of a type declaration
//! (a struct or enum together with its attributes and its field list).
//!
//! The model mirrors what a declaration parser produces: a [`DeriveInput`]
//! owns an ordered list of [`Attribute`]s and one [`Fields`] value.  The
//! helpers locate attributes whose head path matches a namespace, optionally
//! a tag nested one level deeper, extract their parameters, merge new
//! entries into the reserved `derive` attribute, grow or inspect the field
//! list, and build identifiers and construction patterns.
//!
//! Every rejected operation is reported as an [`Error`] value carrying the
//! exact diagnostic text a host tool surfaces to its user; see
//! [`Error::message`].

mod ast;
mod derive_input_ext;
mod derive_input_newtype_ext;
mod derive_input_struct_ext;
mod error;
mod field_ext;
mod fields_ext;
mod fields_named_append;
mod fields_unnamed_append;
mod ident_ext;
mod util;

pub use crate::ast::{
    lemma_deep_seq, lemma_deep_seq_is_deep_view, Attribute, AttributeView, Data, DataStruct,
    DataStructView, DataView, DeriveInput, DeriveInputView, Field, FieldView, Fields, FieldsNamed,
    FieldsUnnamed, FieldsView, Lit, LitView, Meta, MetaList, MetaListView, MetaNameValue,
    MetaNameValueView, MetaView, Path, Payload, PayloadView,
};
pub use crate::derive_input_ext::{
    all_path_entries, derive_path, derives_contain, distinct_entries, distinct_paths,
    find_derive, is_derive_list_attr, lemma_find_derive_char,
    lemma_merge_keeps_entries_distinct, lemma_overlap_names_disjoint, merged_attrs,
    overlap_names, path_entries,
};
pub use crate::derive_input_newtype_ext::newtype_field;
pub use crate::derive_input_struct_ext::{
    decl_fields, decl_is_named, decl_is_tuple, decl_is_unit, named_fields_of, with_data_struct,
    with_fields,
};
pub use crate::error::{debug_list, debug_list_body, message_text, quoted, Error, ErrorView};
pub use crate::fields_ext::{
    construction_form_text, dec_digits, digit_text, named_pattern_body, tuple_pattern_body,
};
pub use crate::fields_named_append::{
    append_named_result, lemma_append_never_unit, lemma_field_widening,
};
pub use crate::fields_unnamed_append::append_unnamed_result;
pub use crate::ident_ext::Ident;
pub use crate::util::{
    attr_params, contains_namespace, contains_tag, format_path, has_namespace, has_tag,
    ident_concat, meta_heads_tag, meta_tag_params, namespace_nested_metas,
    namespace_nested_metas_iter, namespace_parameter, namespace_parameters, namespace_params,
    path_display, path_eq, some_entry_heads_tag, tag_nested_metas_iter, tag_parameter,
    tag_parameters, tag_params, tag_params_in,
};
