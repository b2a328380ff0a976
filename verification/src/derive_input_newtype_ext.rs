//! Newtype accessors: a newtype is a tuple struct with exactly one field.

use vstd::prelude::*;
use vstd::pervasive::unreached;

use crate::ast::{
    Data, DeriveInput, DeriveInputView, Field, FieldView, Fields, FieldsView,
};
use crate::derive_input_struct_ext::{decl_fields, with_fields};
use crate::error::{Error, ErrorView};

verus! {

/// The single field of a newtype declaration, or `None` when the
/// declaration is not a tuple struct with exactly one field.
pub open spec fn newtype_field(d: DeriveInputView) -> Option<FieldView> {
    match decl_fields(d) {
        Some(FieldsView::Unnamed(fs)) => if fs.len() == 1 {
            Some(fs[0])
        } else {
            None
        },
        _ => None,
    }
}

/// The deep view of a one-element field vector is the singleton sequence of
/// its element's view.
broadcast proof fn lemma_singleton_deep_view(vs: Vec<Field>)
    requires
        vs@.len() == 1,
    ensures
        #[trigger] vs.deep_view() == seq![vs@[0].deep_view()],
{
    assert(vs.deep_view() =~= seq![vs@[0].deep_view()]);
}

impl DeriveInput {
    /// Returns the single field of this newtype declaration.  Fails with the
    /// fixed newtype error when the declaration is not a tuple struct, and
    /// with the fixed arity error when the tuple has zero or several fields.
    pub fn inner_type(&self) -> (r: Result<&Field, Error>)
        ensures
            match decl_fields(self@) {
                Some(FieldsView::Unnamed(fs)) => if fs.len() == 1 {
                    r matches Ok(f) && f@ == fs[0]
                } else {
                    r matches Err(e) && e@ == ErrorView::NewtypeArity
                },
                _ => r matches Err(e) && e@ == ErrorView::MustBeNewtype,
            },
    {
        match &self.data {
            Data::Struct(ds) => match &ds.fields {
                Fields::Unnamed(fu) => if fu.unnamed.len() == 1 {
                    Ok(&fu.unnamed[0])
                } else {
                    Err(Error::NewtypeArity)
                },
                _ => Err(Error::MustBeNewtype),
            },
            Data::NotStruct => Err(Error::MustBeNewtype),
        }
    }

    /// Returns a mutable handle on the single field of this declaration,
    /// which must be a newtype.
    pub fn inner_type_mut(&mut self) -> (r: &mut Field)
        requires
            newtype_field(old(self)@) is Some,
        ensures
            Some((*r)@) == newtype_field(old(self)@),
            final(self)@ == with_fields(old(self)@, FieldsView::Unnamed(seq![(*final(r))@])),
    {
        proof {
            broadcast use lemma_singleton_deep_view;
        }
        match &mut self.data {
            Data::Struct(ds) => match &mut ds.fields {
                Fields::Unnamed(fu) => if fu.unnamed.len() == 1 {
                    proof {
                        assert(fu.unnamed.deep_view() =~= seq![fu.unnamed.deep_view()[0]]);
                    }
                    &mut fu.unnamed[0]
                } else {
                    unreached()
                },
                _ => unreached(),
            },
            Data::NotStruct => unreached(),
        }
    }

    /// Returns true exactly when this declaration is a tuple struct with
    /// exactly one field: false for a tuple struct with zero or several
    /// fields, and for every other shape.
    pub fn is_newtype(&self) -> (r: bool)
        ensures
            r == (decl_fields(self@) matches Some(FieldsView::Unnamed(fs)) && fs.len() == 1),
    {
        match &self.data {
            Data::Struct(ds) => match &ds.fields {
                Fields::Unnamed(fu) => fu.unnamed.len() == 1,
                _ => false,
            },
            Data::NotStruct => false,
        }
    }
}

} // verus!
