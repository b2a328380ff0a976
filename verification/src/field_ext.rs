//! Inspecting a single field: its type name and its attributes.

use vstd::prelude::*;

use crate::ast::{Field, Meta, Path};
use crate::error::{Error, ErrorView};
use crate::util;
use crate::util::{has_tag, namespace_params, tag_params};

verus! {

impl Field {
    /// Returns the simple type name of this field: the last segment of its
    /// type path.  For example, `PhantomData` in `std::marker::PhantomData`.
    pub fn type_ident(&self) -> (s: &String)
        requires
            self.wf(),
        ensures
            s@ == self@.ty.last(),
    {
        let n = self.ty.segments.len();
        &self.ty.segments[n - 1]
    }

    /// Returns whether this field's type name is `PhantomData`.  The check
    /// compares the name text, not the resolved type, so a renamed import
    /// can mislead it either way.
    pub fn is_phantom_data(&self) -> (r: bool)
        requires
            self.wf(),
        ensures
            r == (self@.ty.last() == "PhantomData"@),
    {
        let tn = self.type_ident();
        *tn == "PhantomData".to_owned()
    }

    /// Returns whether this field's attributes contain `#[namespace(tag)]`
    /// or `#[namespace(tag(..))]`.
    pub fn contains_tag(&self, namespace: &Path, tag: &Path) -> (r: bool)
        ensures
            r == has_tag(self@.attrs, namespace@, tag@),
    {
        util::contains_tag(&self.attrs, namespace, tag)
    }

    /// Returns the single parameter from `#[namespace(parameter)]` on this
    /// field, as [`util::namespace_parameter`] does.
    pub fn namespace_parameter(&self, namespace: &Path) -> (r: Result<Option<Meta>, Error>)
        ensures
            ({
                let ps = namespace_params(self@.attrs, namespace@);
                match r {
                    Ok(o) => (ps.len() == 0 && o is None) || (ps.len() == 1
                        && (o matches Some(m) && m@ == ps[0])),
                    Err(e) => ps.len() >= 2 && e@ == ErrorView::NamespaceArity(namespace@),
                }
            }),
    {
        util::namespace_parameter(&self.attrs, namespace)
    }

    /// Returns the parameters from `#[namespace(param1, param2, ..)]` on
    /// this field, flattened in order.
    pub fn namespace_parameters(&self, namespace: &Path) -> (out: Vec<Meta>)
        ensures
            out.deep_view() == namespace_params(self@.attrs, namespace@),
    {
        util::namespace_parameters(&self.attrs, namespace)
    }

    /// Returns the single parameter from `#[namespace(tag(parameter))]` on
    /// this field, as [`util::tag_parameter`] does.
    pub fn tag_parameter(&self, namespace: &Path, tag: &Path) -> (r: Result<Option<Meta>, Error>)
        ensures
            ({
                let ps = tag_params(self@.attrs, namespace@, tag@);
                match r {
                    Ok(o) => (ps.len() == 0 && o is None) || (ps.len() == 1
                        && (o matches Some(m) && m@ == ps[0])),
                    Err(e) => ps.len() >= 2 && e@ == ErrorView::TagArity(namespace@, tag@),
                }
            }),
    {
        util::tag_parameter(&self.attrs, namespace, tag)
    }

    /// Returns the parameters from `#[namespace(tag(param1, param2, ..))]`
    /// on this field, flattened in order.
    pub fn tag_parameters(&self, namespace: &Path, tag: &Path) -> (out: Vec<Meta>)
        ensures
            out.deep_view() == tag_params(self@.attrs, namespace@, tag@),
    {
        util::tag_parameters(&self.attrs, namespace, tag)
    }
}

} // verus!
