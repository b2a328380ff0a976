//! Identifiers and convenience methods to derive new ones by concatenation.

use vstd::prelude::*;
use vstd::string::StringExecFns;

verus! {

/// An identifier, stored as its text.  No validation is performed: the
/// caller is responsible for supplying fragments that combine into a legal
/// identifier.
#[derive(Debug, PartialEq, Eq)]
pub struct Ident {
    /// The identifier text.
    pub name: String,
}

impl View for Ident {
    type V = Seq<char>;

    open spec fn view(&self) -> Seq<char> {
        self.name@
    }
}

impl DeepView for Ident {
    type V = Seq<char>;

    open spec fn deep_view(&self) -> Seq<char> {
        self.view()
    }
}

impl Clone for Ident {
    fn clone(&self) -> (res: Self)
        ensures
            res@ == self@,
    {
        Ident { name: self.name.clone() }
    }
}

impl Ident {
    /// Builds an identifier from its text.
    pub fn new(name: &str) -> (id: Ident)
        ensures
            id@ == name@,
    {
        Ident { name: name.to_owned() }
    }

    /// The identifier text.
    pub fn as_str(&self) -> (s: &str)
        ensures
            s@ == self@,
    {
        self.name.as_str()
    }

    /// Returns a new identifier: this identifier followed by `suffix`.
    /// Plain concatenation, with no separator and no case conversion.
    pub fn append(&self, suffix: &Ident) -> (id: Ident)
        ensures
            id@ == self@ + suffix@,
    {
        self.append_str(suffix.as_str())
    }

    /// Returns a new identifier: this identifier followed by `suffix`.
    pub fn append_str(&self, suffix: &str) -> (id: Ident)
        ensures
            id@ == self@ + suffix@,
    {
        let mut name = self.name.clone();
        name.append(suffix);
        Ident { name }
    }

    /// Returns a new identifier: `prefix` followed by this identifier.
    pub fn prepend(&self, prefix: &Ident) -> (id: Ident)
        ensures
            id@ == prefix@ + self@,
    {
        self.prepend_str(prefix.as_str())
    }

    /// Returns a new identifier: `prefix` followed by this identifier.
    pub fn prepend_str(&self, prefix: &str) -> (id: Ident)
        ensures
            id@ == prefix@ + self@,
    {
        let mut name = prefix.to_owned();
        name.append(self.name.as_str());
        Ident { name }
    }
}

} // verus!
