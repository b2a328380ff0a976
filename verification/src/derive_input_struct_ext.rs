//! Shape queries, shape assertions, and field accessors on a declaration.

use vstd::prelude::*;
use vstd::pervasive::unreached;

use crate::ast::{
    Data, DataStruct, DataStructView, DataView, DeriveInput, DeriveInputView, FieldView, Fields,
    FieldsNamed, FieldsView,
};
use crate::error::{Error, ErrorView};

verus! {

/// The field list of a struct declaration, or `None` when the declaration
/// is not a struct.
pub open spec fn decl_fields(d: DeriveInputView) -> Option<FieldsView> {
    match d.data {
        DataView::Struct(ds) => Some(ds.fields),
        DataView::NotStruct => None,
    }
}

/// Whether the declaration is a unit struct.
pub open spec fn decl_is_unit(d: DeriveInputView) -> bool {
    decl_fields(d) matches Some(f) && f is Unit
}

/// Whether the declaration is a struct with named fields.
pub open spec fn decl_is_named(d: DeriveInputView) -> bool {
    decl_fields(d) matches Some(f) && f is Named
}

/// Whether the declaration is a struct with positional fields.
pub open spec fn decl_is_tuple(d: DeriveInputView) -> bool {
    decl_fields(d) matches Some(f) && f is Unnamed
}

/// The named fields of the declaration, or `None` when it is not a struct
/// with named fields.
pub open spec fn named_fields_of(d: DeriveInputView) -> Option<Seq<FieldView>> {
    match d.data {
        DataView::Struct(ds) => match ds.fields {
            FieldsView::Named(fs) => Some(fs),
            _ => None,
        },
        DataView::NotStruct => None,
    }
}

/// The declaration with its field list replaced, keeping everything else;
/// a non-struct declaration is returned unchanged.
pub open spec fn with_fields(d: DeriveInputView, f: FieldsView) -> DeriveInputView {
    match d.data {
        DataView::Struct(ds) => DeriveInputView {
            data: DataView::Struct(DataStructView { fields: f, semi: ds.semi }),
            ..d
        },
        DataView::NotStruct => d,
    }
}

/// The declaration with its struct body replaced, keeping everything else;
/// a non-struct declaration is returned unchanged.
pub open spec fn with_data_struct(d: DeriveInputView, ds: DataStructView) -> DeriveInputView {
    match d.data {
        DataView::Struct(_) => DeriveInputView { data: DataView::Struct(ds), ..d },
        DataView::NotStruct => d,
    }
}

impl DeriveInput {
    /// Returns the struct body of this declaration, or the fixed error when
    /// the declaration is not a struct.
    pub fn data_struct(&self) -> (r: Result<&DataStruct, Error>)
        ensures
            match self@.data {
                DataView::Struct(ds) => r matches Ok(d) && d@ == ds,
                DataView::NotStruct => r matches Err(e) && e@ == ErrorView::MustBeStruct,
            },
    {
        match &self.data {
            Data::Struct(ds) => Ok(ds),
            Data::NotStruct => Err(Error::MustBeStruct),
        }
    }

    /// Returns a mutable handle on the struct body of this declaration,
    /// which must be a struct.
    pub fn data_struct_mut(&mut self) -> (r: &mut DataStruct)
        requires
            old(self)@.data is Struct,
        ensures
            old(self)@.data == DataView::Struct((*r)@),
            final(self)@ == with_data_struct(old(self)@, (*final(r))@),
    {
        match &mut self.data {
            Data::Struct(ds) => ds,
            Data::NotStruct => unreached(),
        }
    }

    /// Returns the field list of this declaration, or the fixed error when
    /// the declaration is not a struct.
    pub fn fields(&self) -> (r: Result<&Fields, Error>)
        ensures
            match decl_fields(self@) {
                Some(f) => r matches Ok(fs) && fs@ == f,
                None => r matches Err(e) && e@ == ErrorView::MustBeStruct,
            },
    {
        match &self.data {
            Data::Struct(ds) => Ok(&ds.fields),
            Data::NotStruct => Err(Error::MustBeStruct),
        }
    }

    /// Returns a mutable handle on the field list of this declaration, which
    /// must be a struct.
    pub fn fields_mut(&mut self) -> (r: &mut Fields)
        requires
            old(self)@.data is Struct,
        ensures
            Some((*r)@) == decl_fields(old(self)@),
            final(self)@ == with_fields(old(self)@, (*final(r))@),
    {
        match &mut self.data {
            Data::Struct(ds) => &mut ds.fields,
            Data::NotStruct => unreached(),
        }
    }

    /// Returns the named fields of this declaration, or the fixed error when
    /// the declaration is not a struct with named fields.
    pub fn fields_named(&self) -> (r: Result<&FieldsNamed, Error>)
        ensures
            match named_fields_of(self@) {
                Some(fs) => r matches Ok(f) && f@ == fs,
                None => r matches Err(e) && e@ == ErrorView::MustBeNamedStruct,
            },
    {
        match &self.data {
            Data::Struct(ds) => match &ds.fields {
                Fields::Named(fs) => Ok(fs),
                _ => Err(Error::MustBeNamedStruct),
            },
            Data::NotStruct => Err(Error::MustBeNamedStruct),
        }
    }

    /// Returns a mutable handle on the named fields of this declaration,
    /// which must be a struct with named fields.
    pub fn fields_named_mut(&mut self) -> (r: &mut FieldsNamed)
        requires
            named_fields_of(old(self)@) is Some,
        ensures
            Some((*r)@) == named_fields_of(old(self)@),
            final(self)@ == with_fields(old(self)@, FieldsView::Named((*final(r))@)),
    {
        match &mut self.data {
            Data::Struct(ds) => match &mut ds.fields {
                Fields::Named(fs) => fs,
                _ => unreached(),
            },
            Data::NotStruct => unreached(),
        }
    }

    /// Returns true when this declaration is a unit struct.
    pub fn is_unit(&self) -> (r: bool)
        ensures
            r == decl_is_unit(self@),
    {
        match &self.data {
            Data::Struct(ds) => ds.fields.is_unit(),
            Data::NotStruct => false,
        }
    }

    /// Returns true when this declaration is a struct with named fields.
    pub fn is_named(&self) -> (r: bool)
        ensures
            r == decl_is_named(self@),
    {
        match &self.data {
            Data::Struct(ds) => ds.fields.is_named(),
            Data::NotStruct => false,
        }
    }

    /// Returns true when this declaration is a struct with positional
    /// fields.
    pub fn is_tuple(&self) -> (r: bool)
        ensures
            r == decl_is_tuple(self@),
    {
        match &self.data {
            Data::Struct(ds) => ds.fields.is_tuple(),
            Data::NotStruct => false,
        }
    }

    /// Succeeds exactly when this declaration is a unit struct, and returns
    /// the fixed error otherwise.
    pub fn assert_fields_unit(&self) -> (r: Result<(), Error>)
        ensures
            decl_is_unit(self@) ==> r is Ok,
            !decl_is_unit(self@) ==> (r matches Err(e) && e@ == ErrorView::MustBeUnitStruct),
    {
        if self.is_unit() {
            Ok(())
        } else {
            Err(Error::MustBeUnitStruct)
        }
    }

    /// Succeeds exactly when this declaration is a struct with named fields,
    /// and returns the fixed error otherwise.
    pub fn assert_fields_named(&self) -> (r: Result<(), Error>)
        ensures
            decl_is_named(self@) ==> r is Ok,
            !decl_is_named(self@) ==> (r matches Err(e) && e@ == ErrorView::MustBeNamedStruct),
    {
        if self.is_named() {
            Ok(())
        } else {
            Err(Error::MustBeNamedStruct)
        }
    }

    /// Succeeds exactly when this declaration is a struct with positional
    /// fields, and returns the fixed error otherwise.
    pub fn assert_fields_unnamed(&self) -> (r: Result<(), Error>)
        ensures
            decl_is_tuple(self@) ==> r is Ok,
            !decl_is_tuple(self@) ==> (r matches Err(e) && e@ == ErrorView::MustBeUnnamedStruct),
    {
        if self.is_tuple() {
            Ok(())
        } else {
            Err(Error::MustBeUnnamedStruct)
        }
    }
}

} // verus!
