//! Free functions that locate attributes by namespace and tag and extract
//! their parameters, plus path formatting and identifier concatenation.
//!
//! Matching is path-exact: a namespace or tag matches an entry only when the
//! segment sequences are identical.  An attribute whose payload failed to
//! parse as structured metadata ([`Payload::Malformed`]) is skipped by every
//! lookup, as are bare markers and `key = value` payloads, which carry no
//! parameter list.

use vstd::prelude::*;

use vstd::string::StringExecFns;

use crate::ast::{
    lemma_deep_seq_is_deep_view, Attribute, AttributeView, Meta, MetaView, Path, Payload,
    PayloadView,
};
use crate::error::{Error, ErrorView};
use crate::ident_ext::Ident;

verus! {

// ---------------------------------------------------------------------------
// Spec-level matching
// ---------------------------------------------------------------------------
/// The parameter list carried by an attribute: the entries of a `List`
/// payload, and nothing for any other payload kind.
pub open spec fn attr_params(a: AttributeView) -> Seq<MetaView> {
    match a.payload {
        PayloadView::List(ms) => ms,
        _ => Seq::empty(),
    }
}

/// Whether some attribute's head path equals `namespace`.
pub open spec fn has_namespace(attrs: Seq<AttributeView>, namespace: Seq<Seq<char>>) -> bool {
    exists|i: int| 0 <= i < attrs.len() && attrs[i].path == namespace
}

/// All parameters of all attributes whose head path equals `namespace`,
/// flattened in order: attribute order first, then entry order within each
/// attribute.
pub open spec fn namespace_params(
    attrs: Seq<AttributeView>,
    namespace: Seq<Seq<char>>,
) -> Seq<MetaView>
    decreases attrs.len(),
{
    if attrs.len() == 0 {
        Seq::empty()
    } else {
        namespace_params(attrs.drop_last(), namespace) + (if attrs.last().path == namespace {
            attr_params(attrs.last())
        } else {
            Seq::empty()
        })
    }
}

/// Whether an entry is headed by `tag`: a bare path entry equal to `tag`, or
/// a list entry whose own path equals `tag`.  Literals and `key = value`
/// entries never head a tag.
pub open spec fn meta_heads_tag(m: MetaView, tag: Seq<Seq<char>>) -> bool {
    match m {
        MetaView::Path(p) => p == tag,
        MetaView::List(ml) => ml.path == tag,
        _ => false,
    }
}

/// The nested parameters an entry contributes to a tag lookup: the nested
/// list of a list entry whose path equals `tag`, and nothing otherwise.
pub open spec fn meta_tag_params(m: MetaView, tag: Seq<Seq<char>>) -> Seq<MetaView> {
    match m {
        MetaView::List(ml) => if ml.path == tag {
            ml.metas
        } else {
            Seq::empty()
        },
        _ => Seq::empty(),
    }
}

/// All nested parameters contributed by entries of `metas` headed by `tag`,
/// flattened in order.
pub open spec fn tag_params_in(metas: Seq<MetaView>, tag: Seq<Seq<char>>) -> Seq<MetaView>
    decreases metas.len(),
{
    if metas.len() == 0 {
        Seq::empty()
    } else {
        tag_params_in(metas.drop_last(), tag) + meta_tag_params(metas.last(), tag)
    }
}

/// All parameters from `#[namespace(tag(..))]` attributes, flattened in
/// order across attributes and entries.
pub open spec fn tag_params(
    attrs: Seq<AttributeView>,
    namespace: Seq<Seq<char>>,
    tag: Seq<Seq<char>>,
) -> Seq<MetaView> {
    tag_params_in(namespace_params(attrs, namespace), tag)
}

/// Whether some entry of `metas` is headed by `tag`.
pub open spec fn some_entry_heads_tag(metas: Seq<MetaView>, tag: Seq<Seq<char>>) -> bool {
    exists|j: int| 0 <= j < metas.len() && meta_heads_tag(metas[j], tag)
}

/// Whether some attribute with head path `namespace` carries an entry headed
/// by `tag`, with or without nested parameters of its own.
pub open spec fn has_tag(
    attrs: Seq<AttributeView>,
    namespace: Seq<Seq<char>>,
    tag: Seq<Seq<char>>,
) -> bool {
    exists|i: int| 0 <= i < attrs.len() && attrs[i].path == namespace && some_entry_heads_tag(
        attr_params(attrs[i]),
        tag,
    )
}

/// A path rendered as text: its segments joined by `::` with no whitespace.
pub open spec fn path_display(segs: Seq<Seq<char>>) -> Seq<char>
    decreases segs.len(),
{
    if segs.len() == 0 {
        Seq::empty()
    } else if segs.len() == 1 {
        segs[0]
    } else {
        path_display(segs.drop_last()) + "::"@ + segs.last()
    }
}

// ---------------------------------------------------------------------------
// Small sequence lemmas
// ---------------------------------------------------------------------------
/// Taking one more element splits off exactly the element at `i`.
pub(crate) proof fn lemma_take_step<T>(s: Seq<T>, i: int)
    requires
        0 <= i < s.len(),
    ensures
        s.take(i + 1).drop_last() =~= s.take(i),
        s.take(i + 1).last() == s[i],
{
}

// ---------------------------------------------------------------------------
// Executable path comparison and rendering
// ---------------------------------------------------------------------------
/// Returns whether two paths have identical segment sequences.
pub fn path_eq(a: &Path, b: &Path) -> (r: bool)
    ensures
        r == (a@ == b@),
{
    let n = a.segments.len();
    if n != b.segments.len() {
        proof {
            assert(a@.len() == n && b@.len() == b.segments@.len());
        }
        return false;
    }
    let mut i: usize = 0;
    while i < n
        invariant
            i <= n,
            n == a.segments@.len(),
            n == b.segments@.len(),
            forall|k: int| #![auto] 0 <= k < i ==> a@[k] == b@[k],
        decreases n - i,
    {
        if !(a.segments[i] == b.segments[i]) {
            proof {
                assert(a@[i as int] != b@[i as int]);
            }
            return false;
        }
        i += 1;
    }
    proof {
        assert(a@ =~= b@);
    }
    true
}

/// Returns a path as a `String`: its segments joined by `::`, without
/// whitespace between tokens.
pub fn format_path(path: &Path) -> (s: String)
    ensures
        s@ == path_display(path@),
{
    let mut s = String::new();
    let n = path.segments.len();
    let mut i: usize = 0;
    while i < n
        invariant
            i <= n,
            n == path.segments@.len(),
            s@ == path_display(path@.take(i as int)),
        decreases n - i,
    {
        proof {
            lemma_take_step(path@, i as int);
        }
        if i > 0 {
            s.append("::");
        }
        s.append(path.segments[i].as_str());
        i += 1;
    }
    proof {
        assert(path@.take(n as int) =~= path@);
    }
    s
}

// ---------------------------------------------------------------------------
// Executable lookups
// ---------------------------------------------------------------------------
/// Returns whether the attributes contain one whose head path equals
/// `namespace`, whatever its payload.
pub fn contains_namespace(attrs: &Vec<Attribute>, namespace: &Path) -> (r: bool)
    ensures
        r == has_namespace(attrs.deep_view(), namespace@),
{
    let n = attrs.len();
    let mut i: usize = 0;
    while i < n
        invariant
            i <= n,
            n == attrs@.len(),
            forall|k: int| #![auto] 0 <= k < i ==> attrs.deep_view()[k].path != namespace@,
        decreases n - i,
    {
        if path_eq(&attrs[i].path, namespace) {
            proof {
                assert(attrs.deep_view()[i as int].path == namespace@);
            }
            return true;
        }
        i += 1;
    }
    false
}

/// Returns whether an attribute matching `namespace` carries an entry headed
/// by `tag`: a bare `tag` entry or a `tag(..)` list entry both count, while a
/// `tag = value` pair or a literal does not.
#[verifier::loop_isolation(false)]
pub fn contains_tag(attrs: &Vec<Attribute>, namespace: &Path, tag: &Path) -> (r: bool)
    ensures
        r == has_tag(attrs.deep_view(), namespace@, tag@),
{
    let n = attrs.len();
    let mut i: usize = 0;
    while i < n
        invariant
            i <= n,
            n == attrs@.len(),
            forall|k: int| #![auto] 0 <= k < i ==> !(attrs.deep_view()[k].path == namespace@
                && some_entry_heads_tag(attr_params(attrs.deep_view()[k]), tag@)),
        decreases n - i,
    {
        let attr = &attrs[i];
        if path_eq(&attr.path, namespace) {
            if let Payload::List(ms) = &attr.payload {
                proof {
                    lemma_deep_seq_is_deep_view(*ms);
                }
                let m = ms.len();
                let mut j: usize = 0;
                while j < m
                    invariant
                        j <= m,
                        m == ms@.len(),
                        forall|l: int| #![auto] 0 <= l < j ==> !meta_heads_tag(
                            ms.deep_view()[l],
                            tag@,
                        ),
                    decreases m - j,
                {
                    let heads = match &ms[j] {
                        Meta::Path(p) => path_eq(p, tag),
                        Meta::List(ml) => path_eq(&ml.path, tag),
                        _ => false,
                    };
                    if heads {
                        proof {
                            assert(meta_heads_tag(ms.deep_view()[j as int], tag@));
                            assert(attr_params(attrs.deep_view()[i as int]) == ms.deep_view());
                        }
                        return true;
                    }
                    j += 1;
                }
                proof {
                    assert(!some_entry_heads_tag(attr_params(attrs.deep_view()[i as int]), tag@));
                }
            }
        }
        i += 1;
    }
    false
}

/// Returns the parameters inside every `#[namespace(..)]` attribute, in
/// order across attributes and then entries.  The sequence is finite and
/// returned as a vector, ready to be iterated or chained further.
#[verifier::loop_isolation(false)]
pub fn namespace_nested_metas_iter(attrs: &Vec<Attribute>, namespace: &Path) -> (out: Vec<Meta>)
    ensures
        out.deep_view() == namespace_params(attrs.deep_view(), namespace@),
{
    let mut out: Vec<Meta> = Vec::new();
    let n = attrs.len();
    let mut i: usize = 0;
    while i < n
        invariant
            i <= n,
            n == attrs@.len(),
            Meta::deep_seq(out@) == namespace_params(attrs.deep_view().take(i as int), namespace@),
        decreases n - i,
    {
        proof {
            lemma_take_step(attrs.deep_view(), i as int);
        }
        let ghost out_pre = Meta::deep_seq(out@);
        let attr = &attrs[i];
        if path_eq(&attr.path, namespace) {
            if let Payload::List(ms) = &attr.payload {
                let m = ms.len();
                let mut j: usize = 0;
                while j < m
                    invariant
                        j <= m,
                        m == ms@.len(),
                        Meta::deep_seq(out@) == out_pre + Meta::deep_seq(ms@.take(j as int)),
                    decreases m - j,
                {
                    proof {
                        lemma_take_step(ms@, j as int);
                        assert(Meta::deep_seq(ms@.take(j as int + 1)) == Meta::deep_seq(
                            ms@.take(j as int),
                        ).push(ms@[j as int].deep()));
                    }
                    let ghost prev = out@;
                    out.push(ms[j].clone());
                    proof {
                        assert(out@.drop_last() =~= prev);
                        assert(Meta::deep_seq(out@) == Meta::deep_seq(prev).push(
                            ms@[j as int].deep(),
                        ));
                        assert(Meta::deep_seq(out@) =~= out_pre + Meta::deep_seq(
                            ms@.take(j as int + 1),
                        ));
                    }
                    j += 1;
                }
                proof {
                    assert(ms@.take(m as int) =~= ms@);
                }
            }
        }
        proof {
            assert(Meta::deep_seq(out@) =~= namespace_params(
                attrs.deep_view().take(i as int + 1),
                namespace@,
            ));
        }
        i += 1;
    }
    proof {
        assert(attrs.deep_view().take(n as int) =~= attrs.deep_view());
        lemma_deep_seq_is_deep_view(out);
    }
    out
}

/// Returns the parameters inside every `#[namespace(..)]` attribute, in
/// order; empty when no attribute matches.
pub fn namespace_nested_metas(attrs: &Vec<Attribute>, namespace: &Path) -> (out: Vec<Meta>)
    ensures
        out.deep_view() == namespace_params(attrs.deep_view(), namespace@),
{
    namespace_nested_metas_iter(attrs, namespace)
}

/// Returns the parameters from `#[namespace(param1, param2, ..)]`, flattened
/// across every matching attribute; empty when no attribute matches.
pub fn namespace_parameters(attrs: &Vec<Attribute>, namespace: &Path) -> (out: Vec<Meta>)
    ensures
        out.deep_view() == namespace_params(attrs.deep_view(), namespace@),
{
    namespace_nested_metas_iter(attrs, namespace)
}

/// Returns the single parameter from `#[namespace(parameter)]`: `None` when
/// no parameter is present, the parameter when exactly one is, and an
/// [`Error::NamespaceArity`] when more than one is found across the matching
/// attributes.
pub fn namespace_parameter(attrs: &Vec<Attribute>, namespace: &Path) -> (r: Result<
    Option<Meta>,
    Error,
>)
    ensures
        ({
            let ps = namespace_params(attrs.deep_view(), namespace@);
            match r {
                Ok(o) => (ps.len() == 0 && o is None) || (ps.len() == 1
                    && (o matches Some(m) && m@ == ps[0])),
                Err(e) => ps.len() >= 2 && e@ == ErrorView::NamespaceArity(namespace@),
            }
        }),
{
    let mut ps = namespace_nested_metas_iter(attrs, namespace);
    if ps.len() == 0 {
        Ok(None)
    } else if ps.len() == 1 {
        let m = ps.remove(0);
        Ok(Some(m))
    } else {
        Err(Error::NamespaceArity(namespace.clone()))
    }
}

/// Returns the nested parameters of every `tag(..)` list entry of `metas`,
/// flattened in order.  A bare `tag` entry carries no parameters and
/// contributes nothing.
#[verifier::loop_isolation(false)]
pub fn tag_nested_metas_iter(metas: &Vec<Meta>, tag: &Path) -> (out: Vec<Meta>)
    ensures
        out.deep_view() == tag_params_in(metas.deep_view(), tag@),
{
    let mut out: Vec<Meta> = Vec::new();
    let n = metas.len();
    let mut i: usize = 0;
    while i < n
        invariant
            i <= n,
            n == metas@.len(),
            Meta::deep_seq(out@) == tag_params_in(metas.deep_view().take(i as int), tag@),
        decreases n - i,
    {
        proof {
            lemma_take_step(metas.deep_view(), i as int);
        }
        let ghost out_pre = Meta::deep_seq(out@);
        if let Meta::List(ml) = &metas[i] {
            if path_eq(&ml.path, tag) {
                let m = ml.metas.len();
                let mut j: usize = 0;
                while j < m
                    invariant
                        j <= m,
                        m == ml.metas@.len(),
                        Meta::deep_seq(out@) == out_pre + Meta::deep_seq(ml.metas@.take(j as int)),
                    decreases m - j,
                {
                    proof {
                        lemma_take_step(ml.metas@, j as int);
                        assert(Meta::deep_seq(ml.metas@.take(j as int + 1)) == Meta::deep_seq(
                            ml.metas@.take(j as int),
                        ).push(ml.metas@[j as int].deep()));
                    }
                    let ghost prev = out@;
                    out.push(ml.metas[j].clone());
                    proof {
                        assert(out@.drop_last() =~= prev);
                        assert(Meta::deep_seq(out@) == Meta::deep_seq(prev).push(
                            ml.metas@[j as int].deep(),
                        ));
                        assert(Meta::deep_seq(out@) =~= out_pre + Meta::deep_seq(
                            ml.metas@.take(j as int + 1),
                        ));
                    }
                    j += 1;
                }
                proof {
                    assert(ml.metas@.take(m as int) =~= ml.metas@);
                }
            }
        }
        proof {
            assert(Meta::deep_seq(out@) =~= tag_params_in(
                metas.deep_view().take(i as int + 1),
                tag@,
            ));
        }
        i += 1;
    }
    proof {
        assert(metas.deep_view().take(n as int) =~= metas.deep_view());
        lemma_deep_seq_is_deep_view(out);
    }
    out
}

/// Returns the parameters from `#[namespace(tag(param1, param2, ..))]`,
/// flattened across every matching attribute and tag entry; empty when
/// nothing matches.
pub fn tag_parameters(attrs: &Vec<Attribute>, namespace: &Path, tag: &Path) -> (out: Vec<Meta>)
    ensures
        out.deep_view() == tag_params(attrs.deep_view(), namespace@, tag@),
{
    let namespace_metas = namespace_nested_metas_iter(attrs, namespace);
    tag_nested_metas_iter(&namespace_metas, tag)
}

/// Returns the single parameter from `#[namespace(tag(parameter))]`: `None`
/// when no parameter is present, the parameter when exactly one is, and an
/// [`Error::TagArity`] when more than one is found across the matching
/// attributes and tag entries.
pub fn tag_parameter(attrs: &Vec<Attribute>, namespace: &Path, tag: &Path) -> (r: Result<
    Option<Meta>,
    Error,
>)
    ensures
        ({
            let ps = tag_params(attrs.deep_view(), namespace@, tag@);
            match r {
                Ok(o) => (ps.len() == 0 && o is None) || (ps.len() == 1
                    && (o matches Some(m) && m@ == ps[0])),
                Err(e) => ps.len() >= 2 && e@ == ErrorView::TagArity(namespace@, tag@),
            }
        }),
{
    let mut ps = tag_parameters(attrs, namespace, tag);
    if ps.len() == 0 {
        Ok(None)
    } else if ps.len() == 1 {
        let m = ps.remove(0);
        Ok(Some(m))
    } else {
        Err(Error::TagArity(namespace.clone(), tag.clone()))
    }
}

/// Returns an [`Ident`] built by concatenating the two fragments, with no
/// separator and no case conversion.
pub fn ident_concat(left: &str, right: &str) -> (id: Ident)
    ensures
        id@ == left@ + right@,
{
    let mut combined = left.to_owned();
    combined.append(right);
    Ident { name: combined }
}

} // verus!
