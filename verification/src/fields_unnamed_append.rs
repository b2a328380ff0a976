//! Appending positional (tuple) fields to a field list or a declaration.
//!
//! A unit field list widens to a tuple one; a tuple list grows in order,
//! positions being renumbered implicitly by final position; a named list or
//! a non-struct declaration is rejected unchanged.

use vstd::prelude::*;

use crate::ast::{
    Data, DataStructView, DataView, DeriveInput, DeriveInputView, FieldView, Fields,
    FieldsUnnamed,
    FieldsView,
};
use crate::error::{Error, ErrorView};

verus! {

/// The result of appending positional fields `extra` to the field list `f`:
/// the new field list, or the fixed shape error when `f` is a named list.
pub open spec fn append_unnamed_result(f: FieldsView, extra: Seq<FieldView>) -> Result<
    FieldsView,
    ErrorView,
> {
    match f {
        FieldsView::Unit => Ok(FieldsView::Unnamed(extra)),
        FieldsView::Unnamed(fs) => Ok(FieldsView::Unnamed(fs + extra)),
        FieldsView::Named(_) => Err(ErrorView::UnnamedAppendShape),
    }
}

impl FieldsUnnamed {
    /// Appends `fields_unnamed` to this positional field list, in order,
    /// after the existing fields.
    pub fn append(&mut self, fields_unnamed: FieldsUnnamed)
        ensures
            final(self)@ == old(self)@ + fields_unnamed@,
    {
        let ghost extra = fields_unnamed@;
        let mut other = fields_unnamed;
        self.unnamed.append(&mut other.unnamed);
        proof {
            assert(self@ =~= old(self)@ + extra);
        }
    }
}

impl Fields {
    /// Appends positional fields, following [`append_unnamed_result`]: a
    /// unit list becomes the new tuple list, a tuple list grows in order,
    /// and a named list is rejected with the fixed shape error, unchanged.
    pub fn append(&mut self, fields_unnamed: FieldsUnnamed) -> (r: Result<(), Error>)
        ensures
            match append_unnamed_result(old(self)@, fields_unnamed@) {
                Ok(f) => r is Ok && final(self)@ == f,
                Err(e) => (r matches Err(err) && err@ == e) && final(self)@ == old(self)@,
            },
    {
        match self {
            Fields::Unnamed(fs) => {
                fs.append(fields_unnamed);
                Ok(())
            },
            Fields::Unit => {
                *self = Fields::Unnamed(fields_unnamed);
                Ok(())
            },
            Fields::Named(_) => Err(Error::UnnamedAppendShape),
        }
    }
}

impl DeriveInput {
    /// Appends positional fields to this declaration's field list, following
    /// [`append_unnamed_result`].  The trailing semicolon is kept: a unit or
    /// tuple struct stays semicolon-terminated.  A declaration that is not a
    /// struct is rejected unchanged.
    pub fn append(&mut self, fields_unnamed: FieldsUnnamed) -> (r: Result<(), Error>)
        ensures
            match old(self)@.data {
                DataView::Struct(ds) => match append_unnamed_result(
                    ds.fields,
                    fields_unnamed@,
                ) {
                    Ok(f) => r is Ok && final(self)@ == (DeriveInputView {
                        data: DataView::Struct(DataStructView { fields: f, ..ds }),
                        ..old(self)@
                    }),
                    Err(e) => (r matches Err(err) && err@ == e) && final(self)@ == old(self)@,
                },
                DataView::NotStruct => (r matches Err(err) && err@ == ErrorView::MustBeStruct)
                    && final(self)@ == old(self)@,
            },
    {
        match &mut self.data {
            Data::Struct(ds) => ds.fields.append(fields_unnamed),
            Data::NotStruct => Err(Error::MustBeStruct),
        }
    }
}

} // verus!
