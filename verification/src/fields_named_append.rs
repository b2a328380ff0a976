//! Appending named fields to a field list or a declaration.
//!
//! A unit field list widens to a named one; a named list grows in order; a
//! tuple list or a non-struct declaration is rejected unchanged.  Duplicate
//! field names are deliberately not checked here: surfacing them is left to
//! a later compilation stage.

use vstd::prelude::*;

use crate::ast::{
    Data, DataStructView, DataView, DeriveInput, DeriveInputView, FieldView, Fields,
    FieldsNamed, FieldsView,
};
use crate::error::{Error, ErrorView};

verus! {

/// The result of appending named fields `extra` to the field list `f`: the
/// new field list, or the fixed shape error when `f` is a tuple list.
pub open spec fn append_named_result(f: FieldsView, extra: Seq<FieldView>) -> Result<
    FieldsView,
    ErrorView,
> {
    match f {
        FieldsView::Unit => Ok(FieldsView::Named(extra)),
        FieldsView::Named(fs) => Ok(FieldsView::Named(fs + extra)),
        FieldsView::Unnamed(_) => Err(ErrorView::NamedAppendShape),
    }
}

impl FieldsNamed {
    /// Appends `fields_named` to this named field list, in order, after the
    /// existing fields.
    pub fn append_named(&mut self, fields_named: FieldsNamed)
        ensures
            final(self)@ == old(self)@ + fields_named@,
    {
        let ghost extra = fields_named@;
        let mut other = fields_named;
        self.named.append(&mut other.named);
        proof {
            assert(self@ =~= old(self)@ + extra);
        }
    }
}

impl Fields {
    /// Appends named fields, following [`append_named_result`]: a unit list
    /// becomes the new named list, a named list grows in order, and a tuple
    /// list is rejected with the fixed shape error, unchanged.
    pub fn append_named(&mut self, fields_named: FieldsNamed) -> (r: Result<(), Error>)
        ensures
            match append_named_result(old(self)@, fields_named@) {
                Ok(f) => r is Ok && final(self)@ == f,
                Err(e) => (r matches Err(err) && err@ == e) && final(self)@ == old(self)@,
            },
    {
        match self {
            Fields::Named(fs) => {
                fs.append_named(fields_named);
                Ok(())
            },
            Fields::Unit => {
                *self = Fields::Named(fields_named);
                Ok(())
            },
            Fields::Unnamed(_) => Err(Error::NamedAppendShape),
        }
    }
}

impl DeriveInput {
    /// Appends named fields to this declaration's field list, following
    /// [`append_named_result`]; on success the trailing semicolon is
    /// cleared, so a widened unit struct becomes brace-delimited.  A
    /// declaration that is not a struct is rejected unchanged.
    pub fn append_named(&mut self, fields_named: FieldsNamed) -> (r: Result<(), Error>)
        ensures
            match old(self)@.data {
                DataView::Struct(ds) => match append_named_result(ds.fields, fields_named@) {
                    Ok(f) => r is Ok && final(self)@ == (DeriveInputView {
                        data: DataView::Struct(DataStructView { fields: f, semi: false }),
                        ..old(self)@
                    }),
                    Err(e) => (r matches Err(err) && err@ == e) && final(self)@ == old(self)@,
                },
                DataView::NotStruct => (r matches Err(err) && err@ == ErrorView::MustBeStruct)
                    && final(self)@ == old(self)@,
            },
    {
        match &mut self.data {
            Data::Struct(ds) => {
                let res = ds.fields.append_named(fields_named);
                match res {
                    Ok(()) => {
                        ds.semi = false;
                        Ok(())
                    },
                    Err(e) => Err(e),
                }
            },
            Data::NotStruct => Err(Error::MustBeStruct),
        }
    }
}

/// A field list never reverts to the unit state: whenever an append
/// operation accepts a field list, the field list it produces is named or
/// positional.
pub proof fn lemma_append_never_unit(f: FieldsView, extra: Seq<FieldView>)
    ensures
        append_named_result(f, extra) matches Ok(g) ==> !(g is Unit),
        crate::fields_unnamed_append::append_unnamed_result(f, extra) matches Ok(g)
            ==> !(g is Unit),
{
}

/// Field-list widening is monotonic: from a unit list, appending named
/// fields succeeds and yields a named list; appending more named fields to
/// the result succeeds and stays named, with the new fields in order after
/// the old; and appending positional fields to any named list fails with
/// the fixed shape error and produces no new field list.
pub proof fn lemma_field_widening(e1: Seq<FieldView>, e2: Seq<FieldView>, e3: Seq<FieldView>)
    ensures
        append_named_result(FieldsView::Unit, e1) == Ok::<FieldsView, ErrorView>(
            FieldsView::Named(e1),
        ),
        append_named_result(FieldsView::Named(e1), e2) == Ok::<FieldsView, ErrorView>(
            FieldsView::Named(e1 + e2),
        ),
        crate::fields_unnamed_append::append_unnamed_result(FieldsView::Named(e1 + e2), e3)
            == Err::<FieldsView, ErrorView>(ErrorView::UnnamedAppendShape),
{
}

} // verus!
