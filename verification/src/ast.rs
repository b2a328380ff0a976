//! The declaration model: dotted name paths, literals, nested meta items,
//! attributes, fields, and the declaration itself.
//!
//! Each executable type has a mathematical view: a path is a sequence of
//! segment character sequences, a meta item is a [`MetaView`] tree, and so
//! on.  All contracts in this crate are stated over these views.

use vstd::prelude::*;

verus! {

// ---------------------------------------------------------------------------
// Path
// ---------------------------------------------------------------------------
/// A dotted identifier path such as `my::derive`, stored as its segments.
///
/// Two paths are equal exactly when they have the same segments in the same
/// order; no prefix or wildcard matching exists.
#[derive(Debug, PartialEq, Eq)]
pub struct Path {
    /// The path segments, in source order.  A well-formed path has at least
    /// one segment.
    pub segments: Vec<String>,
}

impl View for Path {
    type V = Seq<Seq<char>>;

    open spec fn view(&self) -> Seq<Seq<char>> {
        self.segments.deep_view()
    }
}

impl DeepView for Path {
    type V = Seq<Seq<char>>;

    open spec fn deep_view(&self) -> Seq<Seq<char>> {
        self.view()
    }
}

impl Path {
    /// A path is well formed when it has at least one segment.
    pub open spec fn wf(&self) -> bool {
        self@.len() > 0
    }

    /// Builds a path from its segments.
    pub fn new(segments: Vec<String>) -> (p: Path)
        requires
            segments@.len() > 0,
        ensures
            p@ == segments.deep_view(),
            p.wf(),
    {
        Path { segments }
    }
}

impl Clone for Path {
    fn clone(&self) -> (res: Self)
        ensures
            res@ == self@,
    {
        let segments = self.segments.clone();
        proof {
            assert(segments.deep_view() =~= self.segments.deep_view());
        }
        Path { segments }
    }
}

// ---------------------------------------------------------------------------
// Lit
// ---------------------------------------------------------------------------
/// A literal parameter value.  Numeric literals keep their source text so
/// that no coercion between literal kinds ever happens.
#[derive(Debug, PartialEq, Eq)]
pub enum Lit {
    /// A string literal, stored without its quotes.
    Str(String),
    /// An integer literal, stored as its source text.
    Int(String),
    /// A floating-point literal, stored as its source text.
    Float(String),
    /// A boolean literal.
    Bool(bool),
}

/// The view of a [`Lit`].
pub enum LitView {
    /// A string literal.
    Str(Seq<char>),
    /// An integer literal, as source text.
    Int(Seq<char>),
    /// A floating-point literal, as source text.
    Float(Seq<char>),
    /// A boolean literal.
    Bool(bool),
}

impl View for Lit {
    type V = LitView;

    open spec fn view(&self) -> LitView {
        match self {
            Lit::Str(s) => LitView::Str(s@),
            Lit::Int(s) => LitView::Int(s@),
            Lit::Float(s) => LitView::Float(s@),
            Lit::Bool(b) => LitView::Bool(*b),
        }
    }
}

impl DeepView for Lit {
    type V = LitView;

    open spec fn deep_view(&self) -> LitView {
        self.view()
    }
}

impl Clone for Lit {
    fn clone(&self) -> (res: Self)
        ensures
            res@ == self@,
    {
        match self {
            Lit::Str(s) => Lit::Str(s.clone()),
            Lit::Int(s) => Lit::Int(s.clone()),
            Lit::Float(s) => Lit::Float(s.clone()),
            Lit::Bool(b) => Lit::Bool(*b),
        }
    }
}

// ---------------------------------------------------------------------------
// Meta
// ---------------------------------------------------------------------------
/// One parameter inside an attribute's or a tag's parameter list: a bare
/// path, a path with its own nested parameter list, a literal, or a
/// `key = value` pair.
#[derive(Debug, PartialEq, Eq)]
pub enum Meta {
    /// A bare path entry such as `Clone`.
    Path(Path),
    /// A path with a nested parameter list, such as `tag(param1, param2)`.
    List(MetaList),
    /// A `key = value` pair.
    NameValue(MetaNameValue),
    /// A bare literal; it never matches a path or tag lookup.
    Lit(Lit),
}

/// A path together with a nested, ordered parameter list.
#[derive(Debug, PartialEq, Eq)]
pub struct MetaList {
    /// The head path of the entry.
    pub path: Path,
    /// The nested parameters, in source order.
    pub metas: Vec<Meta>,
}

/// A path bound directly to a literal value.
#[derive(Debug, PartialEq, Eq)]
pub struct MetaNameValue {
    /// The key path.
    pub path: Path,
    /// The bound literal value.
    pub value: Lit,
}

/// The view of a [`Meta`].
pub enum MetaView {
    /// A bare path entry.
    Path(Seq<Seq<char>>),
    /// A path with a nested parameter list.
    List(MetaListView),
    /// A `key = value` pair.
    NameValue(MetaNameValueView),
    /// A bare literal.
    Lit(LitView),
}

/// The view of a [`MetaList`].
pub struct MetaListView {
    /// The head path of the entry.
    pub path: Seq<Seq<char>>,
    /// The nested parameters.
    pub metas: Seq<MetaView>,
}

/// The view of a [`MetaNameValue`].
pub struct MetaNameValueView {
    /// The key path.
    pub path: Seq<Seq<char>>,
    /// The bound literal value.
    pub value: LitView,
}

impl Meta {
    /// The view of one meta item, as a tree of views.
    pub open spec fn deep(self) -> MetaView
        decreases self,
    {
        match self {
            Meta::Path(p) => MetaView::Path(p.deep_view()),
            Meta::List(ml) => MetaView::List(
                MetaListView { path: ml.path.deep_view(), metas: Meta::deep_seq(ml.metas@) },
            ),
            Meta::NameValue(mnv) => MetaView::NameValue(
                MetaNameValueView { path: mnv.path.deep_view(), value: mnv.value.deep_view() },
            ),
            Meta::Lit(l) => MetaView::Lit(l.deep_view()),
        }
    }

    /// The views of a sequence of meta items, in order.
    pub open spec fn deep_seq(ms: Seq<Meta>) -> Seq<MetaView>
        decreases ms,
    {
        if ms.len() == 0 {
            Seq::empty()
        } else {
            Meta::deep_seq(ms.drop_last()).push(ms.last().deep())
        }
    }
}

/// [`Meta::deep_seq`] maps each element of the sequence to its view.
pub broadcast proof fn lemma_deep_seq(ms: Seq<Meta>)
    ensures
        (#[trigger] Meta::deep_seq(ms)).len() == ms.len(),
        forall|i: int| #![auto] 0 <= i < ms.len() ==> Meta::deep_seq(ms)[i] == ms[i].deep_view(),
    decreases ms.len(),
{
    if ms.len() > 0 {
        lemma_deep_seq(ms.drop_last());
    }
}

/// On a vector's elements, [`Meta::deep_seq`] agrees with the vector's own
/// deep view.
pub broadcast proof fn lemma_deep_seq_is_deep_view(ms: Vec<Meta>)
    ensures
        #[trigger] Meta::deep_seq(ms@) == ms.deep_view(),
{
    lemma_deep_seq(ms@);
    assert(Meta::deep_seq(ms@) =~= ms.deep_view());
}

impl View for Meta {
    type V = MetaView;

    open spec fn view(&self) -> MetaView {
        self.deep()
    }
}

impl DeepView for Meta {
    type V = MetaView;

    open spec fn deep_view(&self) -> MetaView {
        self.deep()
    }
}

impl View for MetaList {
    type V = MetaListView;

    open spec fn view(&self) -> MetaListView {
        MetaListView { path: self.path.deep_view(), metas: Meta::deep_seq(self.metas@) }
    }
}

impl DeepView for MetaList {
    type V = MetaListView;

    open spec fn deep_view(&self) -> MetaListView {
        self.view()
    }
}

impl View for MetaNameValue {
    type V = MetaNameValueView;

    open spec fn view(&self) -> MetaNameValueView {
        MetaNameValueView { path: self.path.deep_view(), value: self.value.deep_view() }
    }
}

impl DeepView for MetaNameValue {
    type V = MetaNameValueView;

    open spec fn deep_view(&self) -> MetaNameValueView {
        self.view()
    }
}

impl Clone for MetaList {
    fn clone(&self) -> (res: Self)
        ensures
            res@ == self@,
        decreases *self,
    {
        let path = self.path.clone();
        let mut metas: Vec<Meta> = Vec::new();
        let n = self.metas.len();
        let mut i: usize = 0;
        while i < n
            invariant
                i <= n,
                n == self.metas@.len(),
                metas@.len() == i,
                forall|k: int| #![auto] 0 <= k < i ==> metas@[k].deep_view()
                    == self.metas@[k].deep_view(),
            decreases n - i,
        {
            proof {
                assert(decreases_to!(*self => self.metas@[i as int]));
            }
            metas.push(self.metas[i].clone());
            i += 1;
        }
        proof {
            lemma_deep_seq(metas@);
            lemma_deep_seq(self.metas@);
            assert(Meta::deep_seq(metas@) =~= Meta::deep_seq(self.metas@));
        }
        MetaList { path, metas }
    }
}

impl Clone for MetaNameValue {
    fn clone(&self) -> (res: Self)
        ensures
            res@ == self@,
    {
        MetaNameValue { path: self.path.clone(), value: self.value.clone() }
    }
}

impl Clone for Meta {
    fn clone(&self) -> (res: Self)
        ensures
            res@ == self@,
        decreases *self,
    {
        match self {
            Meta::Path(p) => Meta::Path(p.clone()),
            Meta::List(ml) => Meta::List(ml.clone()),
            Meta::NameValue(mnv) => Meta::NameValue(mnv.clone()),
            Meta::Lit(l) => Meta::Lit(l.clone()),
        }
    }
}

// ---------------------------------------------------------------------------
// Attribute
// ---------------------------------------------------------------------------
/// The payload attached to an attribute's head path.
#[derive(Debug, PartialEq, Eq)]
pub enum Payload {
    /// No payload at all: a bare `#[name]` marker.
    Marker,
    /// An ordered parameter list: `#[name(param1, param2)]`.
    List(Vec<Meta>),
    /// A single literal bound to the head path: `#[name = "value"]`.
    KeyValue(Lit),
    /// Argument tokens that did not parse as structured metadata.  Such an
    /// attribute is silently skipped by every lookup.
    Malformed,
}

/// The view of a [`Payload`].
pub enum PayloadView {
    /// No payload.
    Marker,
    /// An ordered parameter list.
    List(Seq<MetaView>),
    /// A single literal bound to the head path.
    KeyValue(LitView),
    /// Argument tokens that did not parse as structured metadata.
    Malformed,
}

impl View for Payload {
    type V = PayloadView;

    open spec fn view(&self) -> PayloadView {
        match self {
            Payload::Marker => PayloadView::Marker,
            Payload::List(ms) => PayloadView::List(Meta::deep_seq(ms@)),
            Payload::KeyValue(l) => PayloadView::KeyValue(l.deep_view()),
            Payload::Malformed => PayloadView::Malformed,
        }
    }
}

impl DeepView for Payload {
    type V = PayloadView;

    open spec fn deep_view(&self) -> PayloadView {
        self.view()
    }
}

/// One attribute attached to a declaration or a field: a head path and a
/// payload.
#[derive(Debug, PartialEq, Eq)]
pub struct Attribute {
    /// The head path, e.g. `my::derive` in `#[my::derive(tag)]`.
    pub path: Path,
    /// The payload following the head path.
    pub payload: Payload,
}

/// The view of an [`Attribute`].
pub struct AttributeView {
    /// The head path.
    pub path: Seq<Seq<char>>,
    /// The payload.
    pub payload: PayloadView,
}

impl View for Attribute {
    type V = AttributeView;

    open spec fn view(&self) -> AttributeView {
        AttributeView { path: self.path.deep_view(), payload: self.payload.deep_view() }
    }
}

impl DeepView for Attribute {
    type V = AttributeView;

    open spec fn deep_view(&self) -> AttributeView {
        self.view()
    }
}

// ---------------------------------------------------------------------------
// Fields
// ---------------------------------------------------------------------------
/// One field of a struct: its attributes, its name (absent for tuple
/// fields), and its type, modelled as the type's path.
#[derive(Debug, PartialEq, Eq)]
pub struct Field {
    /// The attributes on the field.
    pub attrs: Vec<Attribute>,
    /// The field name; `None` for a positional (tuple) field.
    pub ident: Option<String>,
    /// The field's type, as the segments of its type path.  A well-formed
    /// field type has at least one segment.
    pub ty: Path,
}

/// The view of a [`Field`].
pub struct FieldView {
    /// The attributes on the field.
    pub attrs: Seq<AttributeView>,
    /// The field name, if any.
    pub ident: Option<Seq<char>>,
    /// The segments of the field's type path.
    pub ty: Seq<Seq<char>>,
}

impl View for Field {
    type V = FieldView;

    open spec fn view(&self) -> FieldView {
        FieldView {
            attrs: self.attrs.deep_view(),
            ident: self.ident.deep_view(),
            ty: self.ty.deep_view(),
        }
    }
}

impl DeepView for Field {
    type V = FieldView;

    open spec fn deep_view(&self) -> FieldView {
        self.view()
    }
}

impl Field {
    /// A field is well formed when its type path has at least one segment.
    pub open spec fn wf(&self) -> bool {
        self.ty.wf()
    }
}

/// The named fields of a brace-delimited struct.
#[derive(Debug, PartialEq, Eq)]
pub struct FieldsNamed {
    /// The fields, in declaration order.
    pub named: Vec<Field>,
}

impl View for FieldsNamed {
    type V = Seq<FieldView>;

    open spec fn view(&self) -> Seq<FieldView> {
        self.named.deep_view()
    }
}

impl DeepView for FieldsNamed {
    type V = Seq<FieldView>;

    open spec fn deep_view(&self) -> Seq<FieldView> {
        self.view()
    }
}

/// The positional fields of a parenthesized (tuple) struct.
#[derive(Debug, PartialEq, Eq)]
pub struct FieldsUnnamed {
    /// The fields, in declaration order; position is identity.
    pub unnamed: Vec<Field>,
}

impl View for FieldsUnnamed {
    type V = Seq<FieldView>;

    open spec fn view(&self) -> Seq<FieldView> {
        self.unnamed.deep_view()
    }
}

impl DeepView for FieldsUnnamed {
    type V = Seq<FieldView>;

    open spec fn deep_view(&self) -> Seq<FieldView> {
        self.view()
    }
}

/// The field list of a struct: named, positional, or none at all.
#[derive(Debug, PartialEq, Eq)]
pub enum Fields {
    /// Brace-delimited named fields.
    Named(FieldsNamed),
    /// Parenthesized positional fields.
    Unnamed(FieldsUnnamed),
    /// A unit struct without a field list.
    Unit,
}

/// The view of a [`Fields`] value.
pub enum FieldsView {
    /// Brace-delimited named fields.
    Named(Seq<FieldView>),
    /// Parenthesized positional fields.
    Unnamed(Seq<FieldView>),
    /// A unit struct without a field list.
    Unit,
}

impl View for Fields {
    type V = FieldsView;

    open spec fn view(&self) -> FieldsView {
        match self {
            Fields::Named(fs) => FieldsView::Named(fs.deep_view()),
            Fields::Unnamed(fs) => FieldsView::Unnamed(fs.deep_view()),
            Fields::Unit => FieldsView::Unit,
        }
    }
}

impl DeepView for Fields {
    type V = FieldsView;

    open spec fn deep_view(&self) -> FieldsView {
        self.view()
    }
}

// ---------------------------------------------------------------------------
// DeriveInput
// ---------------------------------------------------------------------------
/// The body of a struct declaration: its field list and whether the
/// declaration carries the trailing-semicolon form of a unit or tuple
/// struct.
#[derive(Debug, PartialEq, Eq)]
pub struct DataStruct {
    /// The field list.
    pub fields: Fields,
    /// Whether the declaration ends in a semicolon (unit and tuple struct
    /// syntax).
    pub semi: bool,
}

/// The view of a [`DataStruct`].
pub struct DataStructView {
    /// The field list.
    pub fields: FieldsView,
    /// Whether the declaration ends in a semicolon.
    pub semi: bool,
}

impl View for DataStruct {
    type V = DataStructView;

    open spec fn view(&self) -> DataStructView {
        DataStructView { fields: self.fields.deep_view(), semi: self.semi }
    }
}

impl DeepView for DataStruct {
    type V = DataStructView;

    open spec fn deep_view(&self) -> DataStructView {
        self.view()
    }
}

/// The body of a declaration: either a struct-like shape, or some other
/// declaration kind (an enum or union), which no field-list operation
/// accepts.
#[derive(Debug, PartialEq, Eq)]
pub enum Data {
    /// A struct declaration.
    Struct(DataStruct),
    /// A declaration that is not a struct.
    NotStruct,
}

/// The view of a [`Data`] value.
pub enum DataView {
    /// A struct declaration.
    Struct(DataStructView),
    /// A declaration that is not a struct.
    NotStruct,
}

impl View for Data {
    type V = DataView;

    open spec fn view(&self) -> DataView {
        match self {
            Data::Struct(ds) => DataView::Struct(ds.deep_view()),
            Data::NotStruct => DataView::NotStruct,
        }
    }
}

impl DeepView for Data {
    type V = DataView;

    open spec fn deep_view(&self) -> DataView {
        self.view()
    }
}

/// A parsed type declaration: its name, its attributes, and its body.
#[derive(Debug, PartialEq, Eq)]
pub struct DeriveInput {
    /// The declared type name.
    pub ident: String,
    /// The attributes on the declaration, in source order.
    pub attrs: Vec<Attribute>,
    /// The declaration body.
    pub data: Data,
}

/// The view of a [`DeriveInput`].
pub struct DeriveInputView {
    /// The declared type name.
    pub ident: Seq<char>,
    /// The attributes on the declaration.
    pub attrs: Seq<AttributeView>,
    /// The declaration body.
    pub data: DataView,
}

impl View for DeriveInput {
    type V = DeriveInputView;

    open spec fn view(&self) -> DeriveInputView {
        DeriveInputView {
            ident: self.ident@,
            attrs: self.attrs.deep_view(),
            data: self.data.deep_view(),
        }
    }
}

impl DeepView for DeriveInput {
    type V = DeriveInputView;

    open spec fn deep_view(&self) -> DeriveInputView {
        self.view()
    }
}

} // verus!
