//! The error values raised by the query and mutation operations.
//!
//! Every rejected operation is reported as an [`Error`] value rather than an
//! abort, and [`Error::message`] renders the exact diagnostic text that a
//! host tool surfaces to its user.  The wording is part of this crate's
//! contract: each variant's text is pinned by [`message_text`].

use vstd::prelude::*;
use vstd::string::StringExecFns;

use crate::ast::Path;
use crate::util::{format_path, lemma_take_step, path_display};

verus! {

/// An operation was invoked on a declaration it does not accept, or an
/// arity rule was violated.
#[derive(Debug, PartialEq, Eq)]
pub enum Error {
    /// A struct-only operation was invoked on a declaration that is not a
    /// struct.
    MustBeStruct,
    /// A unit-struct assertion failed.
    MustBeUnitStruct,
    /// A named-fields assertion failed.
    MustBeNamedStruct,
    /// An unnamed-fields assertion failed.
    MustBeUnnamedStruct,
    /// A newtype accessor was invoked on a declaration that is not a tuple
    /// struct.
    MustBeNewtype,
    /// A newtype accessor was invoked on a tuple struct whose field count is
    /// not exactly one.
    NewtypeArity,
    /// Named fields were appended to a tuple struct or a non-struct.
    NamedAppendShape,
    /// Unnamed fields were appended to a named-field struct or a non-struct.
    UnnamedAppendShape,
    /// Appended derive entries overlap the existing derive list; carries the
    /// overlapping entries, rendered as path text, in append order.
    DeriveConflict(Vec<String>),
    /// A single-parameter namespace lookup found more than one parameter;
    /// carries the namespace path.
    NamespaceArity(Path),
    /// A single-parameter tag lookup found more than one parameter; carries
    /// the namespace and tag paths.
    TagArity(Path, Path),
}

/// The view of an [`Error`].
pub enum ErrorView {
    /// A struct-only operation on a non-struct.
    MustBeStruct,
    /// A unit-struct assertion failed.
    MustBeUnitStruct,
    /// A named-fields assertion failed.
    MustBeNamedStruct,
    /// An unnamed-fields assertion failed.
    MustBeUnnamedStruct,
    /// A newtype accessor on a non-tuple declaration.
    MustBeNewtype,
    /// A newtype accessor on a tuple struct without exactly one field.
    NewtypeArity,
    /// Named fields appended to an incompatible shape.
    NamedAppendShape,
    /// Unnamed fields appended to an incompatible shape.
    UnnamedAppendShape,
    /// Overlapping derive entries, as rendered path text.
    DeriveConflict(Seq<Seq<char>>),
    /// Namespace arity violation; carries the namespace path.
    NamespaceArity(Seq<Seq<char>>),
    /// Tag arity violation; carries the namespace and tag paths.
    TagArity(Seq<Seq<char>>, Seq<Seq<char>>),
}

impl View for Error {
    type V = ErrorView;

    open spec fn view(&self) -> ErrorView {
        match self {
            Error::MustBeStruct => ErrorView::MustBeStruct,
            Error::MustBeUnitStruct => ErrorView::MustBeUnitStruct,
            Error::MustBeNamedStruct => ErrorView::MustBeNamedStruct,
            Error::MustBeUnnamedStruct => ErrorView::MustBeUnnamedStruct,
            Error::MustBeNewtype => ErrorView::MustBeNewtype,
            Error::NewtypeArity => ErrorView::NewtypeArity,
            Error::NamedAppendShape => ErrorView::NamedAppendShape,
            Error::UnnamedAppendShape => ErrorView::UnnamedAppendShape,
            Error::DeriveConflict(names) => ErrorView::DeriveConflict(names.deep_view()),
            Error::NamespaceArity(ns) => ErrorView::NamespaceArity(ns.deep_view()),
            Error::TagArity(ns, tag) => ErrorView::TagArity(ns.deep_view(), tag.deep_view()),
        }
    }
}

impl DeepView for Error {
    type V = ErrorView;

    open spec fn deep_view(&self) -> ErrorView {
        self.view()
    }
}

/// A name wrapped in double quotes, as the debug rendering of a string does.
pub open spec fn quoted(name: Seq<char>) -> Seq<char> {
    "\""@ + name + "\""@
}

/// The comma-separated body of a debug-rendered list of strings.
pub open spec fn debug_list_body(names: Seq<Seq<char>>) -> Seq<char>
    decreases names.len(),
{
    if names.len() == 0 {
        Seq::empty()
    } else if names.len() == 1 {
        quoted(names[0])
    } else {
        debug_list_body(names.drop_last()) + ", "@ + quoted(names.last())
    }
}

/// The debug rendering of a list of strings, e.g. `["Clone", "Copy"]`.
pub open spec fn debug_list(names: Seq<Seq<char>>) -> Seq<char> {
    "["@ + debug_list_body(names) + "]"@
}

/// The exact diagnostic text of each error.
pub open spec fn message_text(e: ErrorView) -> Seq<char> {
    match e {
        ErrorView::MustBeStruct => "This macro must be used on a struct."@,
        ErrorView::MustBeUnitStruct => "This macro must be used on a unit struct."@,
        ErrorView::MustBeNamedStruct => "This macro must be used on a struct with named fields."@,
        ErrorView::MustBeUnnamedStruct => "This macro must be used on a struct with unnamed fields."@,
        ErrorView::MustBeNewtype => "This macro must be used on a newtype struct.\nSee https://doc.rust-lang.org/book/ch19-04-advanced-types.html#advanced-types for more information."@,
        ErrorView::NewtypeArity => "Newtype struct must only have one field.\nSee https://doc.rust-lang.org/book/ch19-04-advanced-types.html#advanced-types for more information."@,
        ErrorView::NamedAppendShape => "Macro must be used on either a unit struct or a struct with named fields.\nThis derive does not work on tuple structs."@,
        ErrorView::UnnamedAppendShape => "Macro must be used on either a unit struct or tuple struct.\nThis derive does not work on structs with named fields."@,
        ErrorView::DeriveConflict(names) => "The following are automatically derived when this attribute is used:\n"@
            + debug_list(names),
        ErrorView::NamespaceArity(ns) => "Expected exactly one parameter for `#["@
            + path_display(ns) + "(..)]`."@,
        ErrorView::TagArity(ns, tag) => "Expected exactly one parameter for `#["@
            + path_display(ns) + "("@ + path_display(tag) + "(..))]`."@,
    }
}

impl Error {
    /// Renders the diagnostic text of this error, exactly as specified by
    /// [`message_text`].
    pub fn message(&self) -> (s: String)
        ensures
            s@ == message_text(self@),
    {
        match self {
            Error::MustBeStruct => "This macro must be used on a struct.".to_owned(),
            Error::MustBeUnitStruct => "This macro must be used on a unit struct.".to_owned(),
            Error::MustBeNamedStruct => "This macro must be used on a struct with named fields."
                .to_owned(),
            Error::MustBeUnnamedStruct => "This macro must be used on a struct with unnamed fields."
                .to_owned(),
            Error::MustBeNewtype => "This macro must be used on a newtype struct.\nSee https://doc.rust-lang.org/book/ch19-04-advanced-types.html#advanced-types for more information."
                .to_owned(),
            Error::NewtypeArity => "Newtype struct must only have one field.\nSee https://doc.rust-lang.org/book/ch19-04-advanced-types.html#advanced-types for more information."
                .to_owned(),
            Error::NamedAppendShape => "Macro must be used on either a unit struct or a struct with named fields.\nThis derive does not work on tuple structs."
                .to_owned(),
            Error::UnnamedAppendShape => "Macro must be used on either a unit struct or tuple struct.\nThis derive does not work on structs with named fields."
                .to_owned(),
            Error::DeriveConflict(names) => {
                let mut s =
                    "The following are automatically derived when this attribute is used:\n"
                    .to_owned();
                s.append("[");
                let n = names.len();
                let mut i: usize = 0;
                while i < n
                    invariant
                        i <= n,
                        n == names@.len(),
                        s@ == "The following are automatically derived when this attribute is used:\n"@
                            + "["@ + debug_list_body(names.deep_view().take(i as int)),
                    decreases n - i,
                {
                    proof {
                        lemma_take_step(names.deep_view(), i as int);
                    }
                    if i > 0 {
                        s.append(", ");
                    }
                    s.append("\"");
                    s.append(names[i].as_str());
                    s.append("\"");
                    proof {
                        assert(s@ =~= "The following are automatically derived when this attribute is used:\n"@
                            + "["@ + debug_list_body(names.deep_view().take(i + 1)));
                    }
                    i += 1;
                }
                s.append("]");
                proof {
                    assert(names.deep_view().take(n as int) =~= names.deep_view());
                    assert(s@ =~= message_text(self@));
                }
                s
            },
            Error::NamespaceArity(ns) => {
                let mut s = "Expected exactly one parameter for `#[".to_owned();
                let fp = format_path(ns);
                s.append(fp.as_str());
                s.append("(..)]`.");
                s
            },
            Error::TagArity(ns, tag) => {
                let mut s = "Expected exactly one parameter for `#[".to_owned();
                let fp_ns = format_path(ns);
                s.append(fp_ns.as_str());
                s.append("(");
                let fp_tag = format_path(tag);
                s.append(fp_tag.as_str());
                s.append("(..))]`.");
                s
            },
        }
    }
}

} // verus!
